//! Colours the world is drawn in, as red, green and blue components.

use vstd::prelude::*;
use crate::board::LandType;
use crate::structure::Structure;

verus! {

pub type Rgb = (u8, u8, u8);

pub const COLOR_WATER: Rgb = (53, 117, 189);

pub const COLOR_LAND: Rgb = (0, 200, 0);

pub const COLOR_FOREST: Rgb = (47, 99, 67);

pub const COLOR_STRUCTURE_CITY_BUILDINGS: Rgb = (153, 153, 153);

pub const COLOR_STRUCTURE_LUMBER_MILL: Rgb = (232, 210, 160);

pub const COLOR_STRUCTURE_STEEL_MILL: Rgb = (237, 237, 237);

pub const COLOR_STRUCTURE_MINE: Rgb = (160, 83, 0);

pub const COLOR_STRUCTURE_CHEMICAL_PLANT: Rgb = (182, 242, 150);

pub const COLOR_STRUCTURE_TRANSPORTATION: Rgb = (92, 96, 90);

pub const COLOR_STRUCTURE_PLAYER: Rgb = (198, 42, 7);

/// The kinds of structure that share a colour.
pub open spec fn structure_palette(structure: Structure) -> Rgb {
    match structure {
        Structure::Forest => COLOR_FOREST,
        Structure::Street | Structure::Rails | Structure::Bridge | Structure::Tunnel
        | Structure::CityRoad => COLOR_STRUCTURE_TRANSPORTATION,
        Structure::ApartmentBuilding | Structure::CulturalCenter | Structure::TennisCourt
        | Structure::SwimmingPool | Structure::SportsStadium | Structure::RaceTrack
        | Structure::University | Structure::AmusementPark => COLOR_STRUCTURE_CITY_BUILDINGS,
        Structure::LumberMill => COLOR_STRUCTURE_LUMBER_MILL,
        Structure::ChemicalPlant => COLOR_STRUCTURE_CHEMICAL_PLANT,
        Structure::SteelMill => COLOR_STRUCTURE_STEEL_MILL,
        Structure::Mine { .. } => COLOR_STRUCTURE_MINE,
        _ => COLOR_STRUCTURE_PLAYER,
    }
}

/// Fill colour of a block covered by `structure`.
pub fn structure_color(structure: Structure) -> (r: Rgb)
    ensures
        r == structure_palette(structure),
{
    match structure {
        Structure::Forest => COLOR_FOREST,
        // Transportation
        Structure::Street | Structure::Rails | Structure::Bridge | Structure::Tunnel
        | Structure::CityRoad => COLOR_STRUCTURE_TRANSPORTATION,
        // City buildings
        Structure::ApartmentBuilding | Structure::CulturalCenter | Structure::TennisCourt
        | Structure::SwimmingPool | Structure::SportsStadium | Structure::RaceTrack
        | Structure::University | Structure::AmusementPark => COLOR_STRUCTURE_CITY_BUILDINGS,
        // Resources
        Structure::LumberMill => COLOR_STRUCTURE_LUMBER_MILL,
        Structure::ChemicalPlant => COLOR_STRUCTURE_CHEMICAL_PLANT,
        Structure::SteelMill => COLOR_STRUCTURE_STEEL_MILL,
        Structure::Mine { .. } => COLOR_STRUCTURE_MINE,
        // Built by the player
        Structure::TruckDepot | Structure::TrainStation | Structure::TrainPlatform
        | Structure::Harbor | Structure::Airport | Structure::AutomobileFactory
        | Structure::Woodshop | Structure::ElectronicsFactory | Structure::SportsEquipmentFactory
        | Structure::ToyFactory | Structure::JewelryFactory | Structure::Warehouse
        | Structure::BuildingEquipmentFactory | Structure::PaperFactory | Structure::PrintingPress
        | Structure::ToyStore | Structure::SportingGoodsStore | Structure::FurnitureStore
        | Structure::Jeweler | Structure::ElectronicsStore | Structure::CarDealership
        | Structure::BuildingEquipmentStore | Structure::StationaryStore => COLOR_STRUCTURE_PLAYER,
    }
}

/// Fill colour of a bare block.
pub fn land_color(land: LandType) -> (r: Rgb)
    ensures
        r == (match land {
            LandType::Water => COLOR_WATER,
            LandType::Land => COLOR_LAND,
        }),
{
    match land {
        LandType::Water => COLOR_WATER,
        LandType::Land => COLOR_LAND,
    }
}

} // verus!
