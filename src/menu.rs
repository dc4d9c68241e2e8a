//! Sidebar buttons and the building-purchase screen.

use vstd::prelude::*;

verus! {

/// The fifteen sidebar buttons, in row-major order on a five-wide grid.
#[derive(PartialEq, Eq, Structural, Clone, Copy, Debug)]
pub enum SidebarMenu {
    Close,
    Save,
    Music,
    Graphics,
    Help,
    Rotation,
    Metrics,
    Finances,
    News,
    Info,
    Navigation,
    Building,
    Rail,
    Demolish,
    Point,
}

/// Categories on the building-purchase screen.
#[derive(PartialEq, Eq, Structural, Clone, Copy, Debug)]
pub enum Category {
    Terminals,
    Production,
    Retail,
    CityBuildings,
}

impl Category {
    /// The label a category is listed under.
    pub fn display_name(&self) -> (r: &'static str)
        ensures
            r@ == match self {
                Category::Terminals => "Terminals"@,
                Category::Production => "Production"@,
                Category::Retail => "Retail"@,
                Category::CityBuildings => "Buildings (city)"@,
            },
    {
        match self {
            Category::Terminals => "Terminals",
            Category::Production => "Production",
            Category::Retail => "Retail",
            Category::CityBuildings => "Buildings (city)",
        }
    }
}

/// Buildings offered on the building-purchase screen.
#[derive(PartialEq, Eq, Structural, Clone, Copy, Debug)]
pub enum Building {
    // Terminals
    TruckDepot,
    TrainStation,
    Airport,
    Harbor,

    // Production
    AutomobileFactory,
    Woodshop,
    ElectronicsFactory,
    SportsEquipmentFactory,
    ToyFactory,
    JewelryFactory,
    Warehouse,
    BuildingEquipmentFactory,
    PaperFactory,
    PrintingPress,

    // Retail
    ToyStore,
    SportingGoodsStore,
    FurnitureStore,
    Jeweler,
    ElectronicsStore,
    CarDealership,
    BuildingEquipmentStore,
    StationaryStore,

    // City buildings
    CulturalCenter,
    TennisCourt,
    SwimmingPool,
    SportsStadium,
    RaceTrack,
    University,
    AmusementPark,
}

/// Whether the building-purchase screen is shown, and what is selected on it.
#[derive(PartialEq, Eq, Structural, Clone, Copy, Debug)]
pub enum BuyBuildingScreenState {
    Visible { selected_building: Building, selected_category: Category },
    Hidden,
}

pub type BuyBuildingCategory = Category;

pub type BuyBuildingBuilding = Building;

/// A dialog opened from the sidebar.
#[derive(PartialEq, Eq, Structural, Clone, Copy, Debug)]
pub enum Menu {
    BuyBuilding { selected_category: BuyBuildingCategory, selected_building: BuyBuildingBuilding },
}

} // verus!
