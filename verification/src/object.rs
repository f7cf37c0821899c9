//! Object bodies: small props that can stand in the world, each with a
//! canonical asset name.

use vstd::prelude::*;

verus! {

/// The kinds of object body that the asset table knows.
#[derive(Copy, Clone, Debug, PartialEq, Eq, Hash)]
pub enum Body {
    Arrow,
    Bomb,
    Scarecrow,
    Cauldron,
    ChestVines,
    Chest,
    ChestDark,
    ChestDemon,
    ChestGold,
    ChestLight,
    ChestOpen,
    ChestSkull,
    Pumpkin,
    Pumpkin2,
    Pumpkin3,
    Pumpkin4,
    Pumpkin5,
    Campfire,
    LanternGround,
    LanternGroundOpen,
    LanternStanding2,
    LanternStanding,
    PotionBlue,
    PotionGreen,
    PotionRed,
    Crate,
    Tent,
    WindowSpooky,
    DoorSpooky,
    Anvil,
    Gravestone,
    Gravestone2,
    Bench,
    Chair,
    Chair2,
    Chair3,
    Table,
    Table2,
    Table3,
    Drawer,
    BedBlue,
    Carpet,
    Bedroll,
    CarpetHumanRound,
    CarpetHumanSquare,
    CarpetHumanSquare2,
    CarpetHumanSquircle,
    Pouch,
    CraftingBench,
    BoltFire,
    ArrowSnake,
    CampfireLit,
    BoltFireBig,
    TrainingDummy,
    FireworkBlue,
    FireworkGreen,
    FireworkPurple,
    FireworkRed,
    FireworkYellow,
}

/// The asset name that belongs to an object body.
pub open spec fn body_name(body: Body) -> Seq<char> {
    match body {
        Body::Arrow => "arrow"@,
        Body::Bomb => "bomb"@,
        Body::Scarecrow => "scarecrow"@,
        Body::Cauldron => "cauldron"@,
        Body::ChestVines => "chest_vines"@,
        Body::Chest => "chest"@,
        Body::ChestDark => "chest_dark"@,
        Body::ChestDemon => "chest_demon"@,
        Body::ChestGold => "chest_gold"@,
        Body::ChestLight => "chest_light"@,
        Body::ChestOpen => "chest_open"@,
        Body::ChestSkull => "chest_skull"@,
        Body::Pumpkin => "pumpkin"@,
        Body::Pumpkin2 => "pumpkin_2"@,
        Body::Pumpkin3 => "pumpkin_3"@,
        Body::Pumpkin4 => "pumpkin_4"@,
        Body::Pumpkin5 => "pumpkin_5"@,
        Body::Campfire => "campfire"@,
        Body::CampfireLit => "campfire_lit"@,
        Body::LanternGround => "lantern_ground"@,
        Body::LanternGroundOpen => "lantern_ground_open"@,
        Body::LanternStanding => "lantern_standing"@,
        Body::LanternStanding2 => "lantern_standing_2"@,
        Body::PotionRed => "potion_red"@,
        Body::PotionBlue => "potion_blue"@,
        Body::PotionGreen => "potion_green"@,
        Body::Crate => "crate"@,
        Body::Tent => "tent"@,
        Body::WindowSpooky => "window_spooky"@,
        Body::DoorSpooky => "door_spooky"@,
        Body::Anvil => "anvil"@,
        Body::Gravestone => "gravestone"@,
        Body::Gravestone2 => "gravestone_2"@,
        Body::Bench => "bench"@,
        Body::Chair => "chair"@,
        Body::Chair2 => "chair_2"@,
        Body::Chair3 => "chair_3"@,
        Body::Table => "table"@,
        Body::Table2 => "table_2"@,
        Body::Table3 => "table_3"@,
        Body::Drawer => "drawer"@,
        Body::BedBlue => "bed_blue"@,
        Body::Carpet => "carpet"@,
        Body::Bedroll => "bedroll"@,
        Body::CarpetHumanRound => "carpet_human_round"@,
        Body::CarpetHumanSquare => "carpet_human_square"@,
        Body::CarpetHumanSquare2 => "carpet_human_square_2"@,
        Body::CarpetHumanSquircle => "carpet_human_squircle"@,
        Body::Pouch => "pouch"@,
        Body::CraftingBench => "crafting_bench"@,
        Body::BoltFire => "bolt_fire"@,
        Body::BoltFireBig => "bolt_fire_big"@,
        Body::ArrowSnake => "arrow_snake"@,
        Body::TrainingDummy => "training_dummy"@,
        Body::FireworkBlue => "firework_blue"@,
        Body::FireworkGreen => "firework_green"@,
        Body::FireworkPurple => "firework_purple"@,
        Body::FireworkRed => "firework_red"@,
        Body::FireworkYellow => "firework_yellow"@,
    }
}

impl Body {
    /// The asset name of this body.
    pub fn to_string(&self) -> (r: &str)
        ensures
            r@ == body_name(*self),
    {
        match self {
            Body::Arrow => "arrow",
            Body::Bomb => "bomb",
            Body::Scarecrow => "scarecrow",
            Body::Cauldron => "cauldron",
            Body::ChestVines => "chest_vines",
            Body::Chest => "chest",
            Body::ChestDark => "chest_dark",
            Body::ChestDemon => "chest_demon",
            Body::ChestGold => "chest_gold",
            Body::ChestLight => "chest_light",
            Body::ChestOpen => "chest_open",
            Body::ChestSkull => "chest_skull",
            Body::Pumpkin => "pumpkin",
            Body::Pumpkin2 => "pumpkin_2",
            Body::Pumpkin3 => "pumpkin_3",
            Body::Pumpkin4 => "pumpkin_4",
            Body::Pumpkin5 => "pumpkin_5",
            Body::Campfire => "campfire",
            Body::CampfireLit => "campfire_lit",
            Body::LanternGround => "lantern_ground",
            Body::LanternGroundOpen => "lantern_ground_open",
            Body::LanternStanding => "lantern_standing",
            Body::LanternStanding2 => "lantern_standing_2",
            Body::PotionRed => "potion_red",
            Body::PotionBlue => "potion_blue",
            Body::PotionGreen => "potion_green",
            Body::Crate => "crate",
            Body::Tent => "tent",
            Body::WindowSpooky => "window_spooky",
            Body::DoorSpooky => "door_spooky",
            Body::Anvil => "anvil",
            Body::Gravestone => "gravestone",
            Body::Gravestone2 => "gravestone_2",
            Body::Bench => "bench",
            Body::Chair => "chair",
            Body::Chair2 => "chair_2",
            Body::Chair3 => "chair_3",
            Body::Table => "table",
            Body::Table2 => "table_2",
            Body::Table3 => "table_3",
            Body::Drawer => "drawer",
            Body::BedBlue => "bed_blue",
            Body::Carpet => "carpet",
            Body::Bedroll => "bedroll",
            Body::CarpetHumanRound => "carpet_human_round",
            Body::CarpetHumanSquare => "carpet_human_square",
            Body::CarpetHumanSquare2 => "carpet_human_square_2",
            Body::CarpetHumanSquircle => "carpet_human_squircle",
            Body::Pouch => "pouch",
            Body::CraftingBench => "crafting_bench",
            Body::BoltFire => "bolt_fire",
            Body::BoltFireBig => "bolt_fire_big",
            Body::ArrowSnake => "arrow_snake",
            Body::TrainingDummy => "training_dummy",
            Body::FireworkBlue => "firework_blue",
            Body::FireworkGreen => "firework_green",
            Body::FireworkPurple => "firework_purple",
            Body::FireworkRed => "firework_red",
            Body::FireworkYellow => "firework_yellow",
        }
    }
}

} // verus!
