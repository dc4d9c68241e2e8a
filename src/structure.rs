//! The structure catalog and the orientation of a placement.

use vstd::prelude::*;
use crate::board::Block;

verus! {

pub type StructureDimension = u8;

#[derive(PartialEq, Eq, Structural, Clone, Copy, Debug)]
pub enum Mineral {
    Gold,
    Silver,
    Diamonds,
}

/// Everything that can stand on the board, each with a fixed footprint.
#[derive(PartialEq, Eq, Structural, Clone, Copy, Debug)]
pub enum Structure {
    // Nature
    Forest,

    // City
    CityRoad,
    ApartmentBuilding,

    // City, built by the player
    CulturalCenter,
    TennisCourt,
    SwimmingPool,
    SportsStadium,
    RaceTrack,
    University,
    AmusementPark,

    // Resources
    LumberMill,
    ChemicalPlant,
    SteelMill,
    Mine { mineral: Mineral },

    // Transportation
    Street,
    Rails,
    Bridge,
    Tunnel,

    // Terminals
    TruckDepot,
    TrainStation,
    TrainPlatform,
    Harbor,
    Airport,

    // Production
    AutomobileFactory,
    Woodshop,
    ElectronicsFactory,
    SportsEquipmentFactory,
    ToyFactory,
    JewelryFactory,
    Warehouse,
    BuildingEquipmentFactory,
    PaperFactory,
    PrintingPress,

    // Retail
    ToyStore,
    SportingGoodsStore,
    FurnitureStore,
    Jeweler,
    ElectronicsStore,
    CarDealership,
    BuildingEquipmentStore,
    StationaryStore,
}

impl Structure {
    /// Nominal `(width, height)` footprint in blocks, before any rotation.
    pub open spec fn nominal_size(self) -> (StructureDimension, StructureDimension) {
        match self {
            Structure::Forest => (1, 1),
            Structure::CityRoad => (1, 1),
            Structure::ApartmentBuilding => (1, 1),
            Structure::CulturalCenter => (1, 1),
            Structure::TennisCourt => (2, 2),
            Structure::SwimmingPool => (2, 2),
            Structure::SportsStadium => (2, 3),
            Structure::RaceTrack => (3, 3),
            Structure::University => (3, 3),
            Structure::AmusementPark => (5, 5),
            Structure::LumberMill => (4, 4),
            Structure::ChemicalPlant => (5, 5),
            Structure::SteelMill => (5, 5),
            Structure::Mine { .. } => (2, 2),
            Structure::Street => (1, 1),
            Structure::Rails => (1, 1),
            Structure::Bridge => (1, 1),
            Structure::Tunnel => (1, 1),
            Structure::TruckDepot => (1, 1),
            Structure::TrainStation => (4, 2),
            Structure::TrainPlatform => (4, 1),
            Structure::Harbor => (3, 3),
            Structure::Airport => (5, 5),
            Structure::AutomobileFactory => (5, 5),
            Structure::Woodshop => (4, 4),
            Structure::ElectronicsFactory => (4, 4),
            Structure::SportsEquipmentFactory => (4, 4),
            Structure::ToyFactory => (4, 4),
            Structure::JewelryFactory => (3, 3),
            Structure::Warehouse => (4, 4),
            Structure::BuildingEquipmentFactory => (4, 4),
            Structure::PaperFactory => (4, 4),
            Structure::PrintingPress => (4, 4),
            Structure::ToyStore => (2, 2),
            Structure::SportingGoodsStore => (2, 2),
            Structure::FurnitureStore => (2, 2),
            Structure::Jeweler => (2, 2),
            Structure::ElectronicsStore => (2, 2),
            Structure::CarDealership => (2, 2),
            Structure::BuildingEquipmentStore => (3, 3),
            Structure::StationaryStore => (2, 2),
        }
    }

    pub fn size(&self) -> (r: (StructureDimension, StructureDimension))
        ensures
            r == self.nominal_size(),
            1 <= r.0 <= 5 && 1 <= r.1 <= 5,
    {
        match self {
            Structure::Forest => (1, 1),
            Structure::CityRoad => (1, 1),
            Structure::ApartmentBuilding => (1, 1),
            Structure::CulturalCenter => (1, 1),
            Structure::TennisCourt => (2, 2),
            Structure::SwimmingPool => (2, 2),
            Structure::SportsStadium => (2, 3),
            Structure::RaceTrack => (3, 3),
            Structure::University => (3, 3),
            Structure::AmusementPark => (5, 5),
            Structure::LumberMill => (4, 4),
            Structure::ChemicalPlant => (5, 5),
            Structure::SteelMill => (5, 5),
            Structure::Mine { .. } => (2, 2),
            Structure::Street => (1, 1),
            Structure::Rails => (1, 1),
            Structure::Bridge => (1, 1),
            Structure::Tunnel => (1, 1),
            Structure::TruckDepot => (1, 1),
            Structure::TrainStation => (4, 2),
            Structure::TrainPlatform => (4, 1),
            Structure::Harbor => (3, 3),
            Structure::Airport => (5, 5),
            Structure::AutomobileFactory => (5, 5),
            Structure::Woodshop => (4, 4),
            Structure::ElectronicsFactory => (4, 4),
            Structure::SportsEquipmentFactory => (4, 4),
            Structure::ToyFactory => (4, 4),
            Structure::JewelryFactory => (3, 3),
            Structure::Warehouse => (4, 4),
            Structure::BuildingEquipmentFactory => (4, 4),
            Structure::PaperFactory => (4, 4),
            Structure::PrintingPress => (4, 4),
            Structure::ToyStore => (2, 2),
            Structure::SportingGoodsStore => (2, 2),
            Structure::FurnitureStore => (2, 2),
            Structure::Jeweler => (2, 2),
            Structure::ElectronicsStore => (2, 2),
            Structure::CarDealership => (2, 2),
            Structure::BuildingEquipmentStore => (3, 3),
            Structure::StationaryStore => (2, 2),
        }
    }
}

/// Which way a structure faces; East and West swap its width and height.
#[derive(PartialEq, Eq, Structural, Clone, Copy, Debug)]
pub enum Direction {
    North,
    East,
    South,
    West,
}

impl Direction {
    /// The next orientation clockwise: North, East, South, West, North.
    pub open spec fn next(self) -> Direction {
        match self {
            Direction::North => Direction::East,
            Direction::East => Direction::South,
            Direction::South => Direction::West,
            Direction::West => Direction::North,
        }
    }

    pub open spec fn is_quarter_turned(self) -> bool {
        self == Direction::East || self == Direction::West
    }

    pub fn rotate(self) -> (r: Direction)
        ensures
            r == self.next(),
    {
        match self {
            Direction::North => Direction::East,
            Direction::East => Direction::South,
            Direction::South => Direction::West,
            Direction::West => Direction::North,
        }
    }
}

/// Footprint `(width, height)` of a structure facing `orientation`.
pub open spec fn oriented_size(structure: Structure, orientation: Direction) -> (int, int) {
    let (w, h) = structure.nominal_size();
    if orientation.is_quarter_turned() {
        (h as int, w as int)
    } else {
        (w as int, h as int)
    }
}

/// A structure standing on the board with its top-left block at `origin`.
#[derive(PartialEq, Eq, Structural, Clone, Copy, Debug)]
pub struct StructurePlacement {
    pub structure: Structure,
    pub orientation: Direction,
    pub origin: Block,
}

impl StructurePlacement {
    pub open spec fn footprint(self) -> (int, int) {
        oriented_size(self.structure, self.orientation)
    }

    /// Whether block `(x, y)` lies under this placement.
    pub open spec fn covers(self, x: int, y: int) -> bool {
        self.origin.x <= x < self.origin.x + self.footprint().0
            && self.origin.y <= y < self.origin.y + self.footprint().1
    }

    /// Extent along the x axis, in blocks.
    pub fn width(&self) -> (r: StructureDimension)
        ensures
            r == self.footprint().0,
    {
        let (w, h) = self.structure.size();
        match self.orientation {
            Direction::North | Direction::South => w,
            Direction::East | Direction::West => h,
        }
    }

    /// Extent along the y axis, in blocks.
    pub fn height(&self) -> (r: StructureDimension)
        ensures
            r == self.footprint().1,
    {
        let (w, h) = self.structure.size();
        match self.orientation {
            Direction::North | Direction::South => h,
            Direction::East | Direction::West => w,
        }
    }
}

/// Four quarter turns bring any orientation back to itself, and with it the
/// footprint of any structure.
pub proof fn lemma_four_rotations(structure: Structure, orientation: Direction)
    ensures
        orientation.next().next().next().next() == orientation,
        oriented_size(structure, orientation.next().next().next().next())
            == oriented_size(structure, orientation),
{
}

} // verus!
