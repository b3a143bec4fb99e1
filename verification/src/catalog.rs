//! The catalog of destinations: every lantern by name, in a fixed order.

use crate::types::Location;
use vstd::prelude::*;

verus! {

/// The name of a destination, one variant for each lantern.
///
/// The variants stand in catalog order: region by region, and the dream first.
#[derive(Debug, Clone, Copy, PartialEq, Eq, Structural)]
pub enum LocationName {
    // Hunter's Dream
    /// Hunter's Dream.
    HuntersDream,
    // Yharnam Headstone
    /// 1st Floor Sickroom.
    FirstFloorSickroom,
    /// Central Yharnam.
    CentralYharnam,
    /// Great Bridge.
    GreatBridge,
    /// Tomb of Oedon.
    TombOfOedon,
    /// Cathedral Ward.
    CathedralWard,
    /// Grand Cathedral Ward.
    GrandCathedralWard,
    /// Upper Cathedral Ward.
    UpperCathedralWard,
    /// Lumenflower Gardens.
    LumenflowerGardens,
    /// Altar of Despair.
    AltarOfDespair,
    /// Old Yharnam.
    OldYharnam,
    /// Church of the Good Chalice.
    ChurchOfTheGoodChalice,
    /// Graveyard of the Darkbeast.
    GraveyardOfTheDarkbeast,
    // Frontier Headstone
    /// Hemwick Charnel Lane.
    HemwickCharnelLane,
    /// Witch's Abode.
    WitchsAbode,
    /// Forbidden Woods.
    ForbiddenWoods,
    /// Forbidden Grave.
    ForbiddenGrave,
    /// Byrgenwerth.
    Byrgenwerth,
    /// Moonside Lake.
    MoonsideLake,
    // Unseen Headstone
    /// Yahar'gul, Unseen Village.
    YahargulUnseenVillage,
    /// Yahar'gul Chapel.
    YahargulChapel,
    /// Advent Plaza.
    AdventPlaza,
    /// Hypogean Gaol.
    HypogeanGaol,
    /// Forsaken Castle Cainhurst.
    ForsakenCastleCainhurst,
    /// Logarius' Seat.
    LogariusSeat,
    /// Vileblood Queen's Chamber.
    VilebloodQueensChamber,
    /// Abandoned Old Workshop.
    AbandonedOldWorkshop,
    // Nightmare Headstone
    /// Lecture Building.
    LectureBuilding,
    /// Lecture Building 2nd Floor.
    LectureBuilding2ndFloor,
    /// Nightmare Frontier.
    NightmareFrontier,
    /// Nightmare of Mensis.
    NightmareOfMensis,
    /// Mergo's Loft: Base.
    MergosLoftBase,
    /// Mergo's Loft: Middle.
    MergosLoftMiddle,
    /// Wet Nurse's Lunarium.
    WetNursesLunarium,
    // Hunter's Nightmare Headstone
    /// Hunter's Nightmare.
    HuntersNightmare,
    /// Nightmare Church.
    NightmareChurch,
    /// Nightmare Grand Cathedral.
    NightmareGrandCathedral,
    /// Underground Corpse Pile.
    UndergroundCorpsePile,
    /// Research Hall.
    ResearchHall,
    /// Lumenwood Garden.
    LumenwoodGarden,
    /// Astral Clocktower.
    AstralClocktower,
    /// Fishing Hamlet.
    FishingHamlet,
    /// Lighthouse Hut.
    LighthouseHut,
    /// Coast.
    Coast,
}

/// How many destinations the catalog holds.
pub const LOCATION_COUNT: usize = 44;

impl LocationName {
    /// What the catalog holds under this name. Coordinates are the bits of
    /// single-precision numbers (see `Location`).
    pub open spec fn location(self) -> Location {
        match self {
            LocationName::HuntersDream => (
                Location {
                    name: "Hunter's Dream",
                    region: "Hunter's Dream",
                    x: 0xC1000000,
                    y: 0xC0C00000,
                    z: 0xC1900000,
                    map_id: [0x00, 0x15],
                }
            ),
            LocationName::FirstFloorSickroom => (
                Location {
                    name: "1st Floor Sickroom",
                    region: "Yharnam Headstone",
                    x: 0xC347BD71,
                    y: 0xC24B0937,
                    z: 0x43336B85,
                    map_id: [0x01, 0x18],
                }
            ),
            LocationName::CentralYharnam => (
                Location {
                    name: "Central Yharnam",
                    region: "Yharnam Headstone",
                    x: 0xC3416666,
                    y: 0xC1E52B02,
                    z: 0x42890000,
                    map_id: [0x18, 0x01],
                }
            ),
            LocationName::GreatBridge => (
                Location {
                    name: "Great Bridge",
                    region: "Yharnam Headstone",
                    x: 0xC2F8F9DB,
                    y: 0xC1D82B02,
                    z: 0x42815893,
                    map_id: [0x01, 0x18],
                }
            ),
            LocationName::TombOfOedon => (
                Location {
                    name: "Tomb of Oedon",
                    region: "Yharnam Headstone",
                    x: 0xC2073E77,
                    y: 0xC222E354,
                    z: 0x42AE9B23,
                    map_id: [0x01, 0x18],
                }
            ),
            LocationName::CathedralWard => (
                Location {
                    name: "Cathedral Ward",
                    region: "Yharnam Headstone",
                    x: 0x41863333,
                    y: 0xC1182D0E,
                    z: 0x42CE8A3D,
                    map_id: [0x00, 0x18],
                }
            ),
            LocationName::GrandCathedralWard => (
                Location {
                    name: "Grand Cathedral Ward",
                    region: "Yharnam Headstone",
                    x: 0x42879DB2,
                    y: 0x420EDA1D,
                    z: 0x43A9D831,
                    map_id: [0x00, 0x18],
                }
            ),
            LocationName::UpperCathedralWard => (
                Location {
                    name: "Upper Cathedral Ward",
                    region: "Yharnam Headstone",
                    x: 0xC1C524DD,
                    y: 0x42227BE7,
                    z: 0x437A91EC,
                    map_id: [0x02, 0x18],
                }
            ),
            LocationName::LumenflowerGardens => (
                Location {
                    name: "Lumenflower Gardens",
                    region: "Yharnam Headstone",
                    x: 0x4235570A,
                    y: 0x424D9CAC,
                    z: 0x43962CCD,
                    map_id: [0x02, 0x18],
                }
            ),
            LocationName::AltarOfDespair => (
                Location {
                    name: "Altar of Despair",
                    region: "Yharnam Headstone",
                    x: 0x42E5B852,
                    y: 0x408E2D0E,
                    z: 0x43D4828F,
                    map_id: [0x02, 0x18],
                }
            ),
            LocationName::OldYharnam => (
                Location {
                    name: "Old Yharnam",
                    region: "Yharnam Headstone",
                    x: 0x42FCCCCD,
                    y: 0xC2826D91,
                    z: 0x42100000,
                    map_id: [0x00, 0x17],
                }
            ),
            LocationName::ChurchOfTheGoodChalice => (
                Location {
                    name: "Church of the Good Chalice",
                    region: "Yharnam Headstone",
                    x: 0xC30BFAA0,
                    y: 0xC2FD53F8,
                    z: 0x42656F9E,
                    map_id: [0x00, 0x17],
                }
            ),
            LocationName::GraveyardOfTheDarkbeast => (
                Location {
                    name: "Graveyard of the Darkbeast",
                    region: "Yharnam Headstone",
                    x: 0x42DFB852,
                    y: 0xC2F190E5,
                    z: 0xC2827F7D,
                    map_id: [0x00, 0x17],
                }
            ),
            LocationName::HemwickCharnelLane => (
                Location {
                    name: "Hemwick Charnel Lane",
                    region: "Frontier Headstone",
                    x: 0xC32C0000,
                    y: 0xC1B00000,
                    z: 0x43F2C000,
                    map_id: [0x00, 0x16],
                }
            ),
            LocationName::WitchsAbode => (
                Location {
                    name: "Witch's Abode",
                    region: "Frontier Headstone",
                    x: 0xC3A82666,
                    y: 0x4019999A,
                    z: 0x44374000,
                    map_id: [0x00, 0x16],
                }
            ),
            LocationName::ForbiddenWoods => (
                Location {
                    name: "Forbidden Woods",
                    region: "Frontier Headstone",
                    x: 0xC33E0000,
                    y: 0xC298999A,
                    z: 0x437C0000,
                    map_id: [0x00, 0x1B],
                }
            ),
            LocationName::ForbiddenGrave => (
                Location {
                    name: "Forbidden Grave",
                    region: "Frontier Headstone",
                    x: 0xC3A78000,
                    y: 0xC33A8000,
                    z: 0x43EF8000,
                    map_id: [0x00, 0x1B],
                }
            ),
            LocationName::Byrgenwerth => (
                Location {
                    name: "Byrgenwerth",
                    region: "Frontier Headstone",
                    x: 0xC3C83333,
                    y: 0xC334CCCD,
                    z: 0x43CF4CCD,
                    map_id: [0x00, 0x20],
                }
            ),
            LocationName::MoonsideLake => (
                Location {
                    name: "Moonside Lake",
                    region: "Frontier Headstone",
                    x: 0xC3FE8000,
                    y: 0xC3878000,
                    z: 0x43B98000,
                    map_id: [0x02, 0x20],
                }
            ),
            LocationName::YahargulUnseenVillage => (
                Location {
                    name: "Yahar'gul, Unseen Village",
                    region: "Unseen Headstone",
                    x: 0x4380B333,
                    y: 0xC24D999A,
                    z: 0x428C0000,
                    map_id: [0x00, 0x1C],
                }
            ),
            LocationName::YahargulChapel => (
                Location {
                    name: "Yahar'gul Chapel",
                    region: "Unseen Headstone",
                    x: 0x43823333,
                    y: 0xC2B00000,
                    z: 0xC25E6666,
                    map_id: [0x00, 0x1C],
                }
            ),
            LocationName::AdventPlaza => (
                Location {
                    name: "Advent Plaza",
                    region: "Unseen Headstone",
                    x: 0x43D16666,
                    y: 0xC2F73333,
                    z: 0xC37D6666,
                    map_id: [0x00, 0x1C],
                }
            ),
            LocationName::HypogeanGaol => (
                Location {
                    name: "Hypogean Gaol",
                    region: "Unseen Headstone",
                    x: 0x435B999A,
                    y: 0xC2C33333,
                    z: 0xC29D999A,
                    map_id: [0x00, 0x1C],
                }
            ),
            LocationName::ForsakenCastleCainhurst => (
                Location {
                    name: "Forsaken Castle Cainhurst",
                    region: "Unseen Headstone",
                    x: 0xC0900000,
                    y: 0x42073333,
                    z: 0xC33BE666,
                    map_id: [0x00, 0x19],
                }
            ),
            LocationName::LogariusSeat => (
                Location {
                    name: "Logarius' Seat",
                    region: "Unseen Headstone",
                    x: 0x423F3333,
                    y: 0x42DF999A,
                    z: 0xC3AF3333,
                    map_id: [0x00, 0x19],
                }
            ),
            LocationName::VilebloodQueensChamber => (
                Location {
                    name: "Vileblood Queen's Chamber",
                    region: "Unseen Headstone",
                    x: 0x42F4CCCD,
                    y: 0x43010000,
                    z: 0xC3E38000,
                    map_id: [0x00, 0x19],
                }
            ),
            LocationName::AbandonedOldWorkshop => (
                Location {
                    name: "Abandoned Old Workshop",
                    region: "Unseen Headstone",
                    x: 0x4301CCCD,
                    y: 0xC19F3333,
                    z: 0x430CCCCD,
                    map_id: [0x01, 0x15],
                }
            ),
            LocationName::LectureBuilding => (
                Location {
                    name: "Lecture Building",
                    region: "Nightmare Headstone",
                    x: 0xC3EC2F5C,
                    y: 0xC3394000,
                    z: 0x4414B99A,
                    map_id: [0x00, 0x20],
                }
            ),
            LocationName::LectureBuilding2ndFloor => (
                Location {
                    name: "Lecture Building 2nd Floor",
                    region: "Nightmare Headstone",
                    x: 0xC3DE1C29,
                    y: 0xC3314000,
                    z: 0x44008C29,
                    map_id: [0x00, 0x20],
                }
            ),
            LocationName::NightmareFrontier => (
                Location {
                    name: "Nightmare Frontier",
                    region: "Nightmare Headstone",
                    x: 0x3EB33333,
                    y: 0x44BB8000,
                    z: 0x00000000,
                    map_id: [0x00, 0x21],
                }
            ),
            LocationName::NightmareOfMensis => (
                Location {
                    name: "Nightmare of Mensis",
                    region: "Nightmare Headstone",
                    x: 0xC2D14CCD,
                    y: 0x44B6C8F6,
                    z: 0xC22A999A,
                    map_id: [0x00, 0x21],
                }
            ),
            LocationName::MergosLoftBase => (
                Location {
                    name: "Mergo's Loft: Base",
                    region: "Nightmare Headstone",
                    x: 0x42A928F6,
                    y: 0x4476ACCD,
                    z: 0xBEBD70A4,
                    map_id: [0x00, 0x1A],
                }
            ),
            LocationName::MergosLoftMiddle => (
                Location {
                    name: "Mergo's Loft: Middle",
                    region: "Nightmare Headstone",
                    x: 0x4308B0A4,
                    y: 0x4484A852,
                    z: 0xC16DC28F,
                    map_id: [0x00, 0x1A],
                }
            ),
            LocationName::WetNursesLunarium => (
                Location {
                    name: "Wet Nurse's Lunarium",
                    region: "Nightmare Headstone",
                    x: 0x430CB852,
                    y: 0x448C899A,
                    z: 0xC217EB85,
                    map_id: [0x00, 0x1A],
                }
            ),
            LocationName::HuntersNightmare => (
                Location {
                    name: "Hunter's Nightmare",
                    region: "Hunter's Nightmare Headstone",
                    x: 0xC3F0D70A,
                    y: 0x44BA4FAE,
                    z: 0xC3F8DD71,
                    map_id: [0x00, 0x22],
                }
            ),
            LocationName::NightmareChurch => (
                Location {
                    name: "Nightmare Church",
                    region: "Hunter's Nightmare Headstone",
                    x: 0xC3D90A3D,
                    y: 0x44BBE5C3,
                    z: 0xC414A148,
                    map_id: [0x00, 0x22],
                }
            ),
            LocationName::NightmareGrandCathedral => (
                Location {
                    name: "Nightmare Grand Cathedral",
                    region: "Hunter's Nightmare Headstone",
                    x: 0xC3D88B85,
                    y: 0x44BFF6B8,
                    z: 0xC382C8F6,
                    map_id: [0x00, 0x22],
                }
            ),
            LocationName::UndergroundCorpsePile => (
                Location {
                    name: "Underground Corpse Pile",
                    region: "Hunter's Nightmare Headstone",
                    x: 0xC3CB67AE,
                    y: 0x44BBF948,
                    z: 0xC439C000,
                    map_id: [0x00, 0x22],
                }
            ),
            LocationName::ResearchHall => (
                Location {
                    name: "Research Hall",
                    region: "Hunter's Nightmare Headstone",
                    x: 0xC39F55C3,
                    y: 0x44C220A4,
                    z: 0xC44E0E14,
                    map_id: [0x00, 0x23],
                }
            ),
            LocationName::LumenwoodGarden => (
                Location {
                    name: "Lumenwood Garden",
                    region: "Hunter's Nightmare Headstone",
                    x: 0xC3D81333,
                    y: 0x44C72000,
                    z: 0xC44E17AE,
                    map_id: [0x00, 0x23],
                }
            ),
            LocationName::AstralClocktower => (
                Location {
                    name: "Astral Clocktower",
                    region: "Hunter's Nightmare Headstone",
                    x: 0xC3E370A4,
                    y: 0x44C7723D,
                    z: 0xC44E1C29,
                    map_id: [0x00, 0x23],
                }
            ),
            LocationName::FishingHamlet => (
                Location {
                    name: "Fishing Hamlet",
                    region: "Hunter's Nightmare Headstone",
                    x: 0xC41ACCCD,
                    y: 0x44C7499A,
                    z: 0xC44C4CCD,
                    map_id: [0x00, 0x24],
                }
            ),
            LocationName::LighthouseHut => (
                Location {
                    name: "Lighthouse Hut",
                    region: "Hunter's Nightmare Headstone",
                    x: 0xC4214CCD,
                    y: 0x44C9D51F,
                    z: 0xC458CCCD,
                    map_id: [0x00, 0x24],
                }
            ),
            LocationName::Coast => (
                Location {
                    name: "Coast",
                    region: "Hunter's Nightmare Headstone",
                    x: 0xC42DCCCD,
                    y: 0x44C528A4,
                    z: 0xC46BCCCD,
                    map_id: [0x00, 0x24],
                }
            ),
        }
    }

    /// The names in catalog order.
    #[verifier::opaque]
    pub open spec fn catalog_order() -> Seq<LocationName> {
        seq![
            LocationName::HuntersDream,
            LocationName::FirstFloorSickroom,
            LocationName::CentralYharnam,
            LocationName::GreatBridge,
            LocationName::TombOfOedon,
            LocationName::CathedralWard,
            LocationName::GrandCathedralWard,
            LocationName::UpperCathedralWard,
            LocationName::LumenflowerGardens,
            LocationName::AltarOfDespair,
            LocationName::OldYharnam,
            LocationName::ChurchOfTheGoodChalice,
            LocationName::GraveyardOfTheDarkbeast,
            LocationName::HemwickCharnelLane,
            LocationName::WitchsAbode,
            LocationName::ForbiddenWoods,
            LocationName::ForbiddenGrave,
            LocationName::Byrgenwerth,
            LocationName::MoonsideLake,
            LocationName::YahargulUnseenVillage,
            LocationName::YahargulChapel,
            LocationName::AdventPlaza,
            LocationName::HypogeanGaol,
            LocationName::ForsakenCastleCainhurst,
            LocationName::LogariusSeat,
            LocationName::VilebloodQueensChamber,
            LocationName::AbandonedOldWorkshop,
            LocationName::LectureBuilding,
            LocationName::LectureBuilding2ndFloor,
            LocationName::NightmareFrontier,
            LocationName::NightmareOfMensis,
            LocationName::MergosLoftBase,
            LocationName::MergosLoftMiddle,
            LocationName::WetNursesLunarium,
            LocationName::HuntersNightmare,
            LocationName::NightmareChurch,
            LocationName::NightmareGrandCathedral,
            LocationName::UndergroundCorpsePile,
            LocationName::ResearchHall,
            LocationName::LumenwoodGarden,
            LocationName::AstralClocktower,
            LocationName::FishingHamlet,
            LocationName::LighthouseHut,
            LocationName::Coast,
        ]
    }

    /// The place of this name in the catalog order.
    pub open spec fn index(self) -> int {
        match self {
            LocationName::HuntersDream => 0,
            LocationName::FirstFloorSickroom => 1,
            LocationName::CentralYharnam => 2,
            LocationName::GreatBridge => 3,
            LocationName::TombOfOedon => 4,
            LocationName::CathedralWard => 5,
            LocationName::GrandCathedralWard => 6,
            LocationName::UpperCathedralWard => 7,
            LocationName::LumenflowerGardens => 8,
            LocationName::AltarOfDespair => 9,
            LocationName::OldYharnam => 10,
            LocationName::ChurchOfTheGoodChalice => 11,
            LocationName::GraveyardOfTheDarkbeast => 12,
            LocationName::HemwickCharnelLane => 13,
            LocationName::WitchsAbode => 14,
            LocationName::ForbiddenWoods => 15,
            LocationName::ForbiddenGrave => 16,
            LocationName::Byrgenwerth => 17,
            LocationName::MoonsideLake => 18,
            LocationName::YahargulUnseenVillage => 19,
            LocationName::YahargulChapel => 20,
            LocationName::AdventPlaza => 21,
            LocationName::HypogeanGaol => 22,
            LocationName::ForsakenCastleCainhurst => 23,
            LocationName::LogariusSeat => 24,
            LocationName::VilebloodQueensChamber => 25,
            LocationName::AbandonedOldWorkshop => 26,
            LocationName::LectureBuilding => 27,
            LocationName::LectureBuilding2ndFloor => 28,
            LocationName::NightmareFrontier => 29,
            LocationName::NightmareOfMensis => 30,
            LocationName::MergosLoftBase => 31,
            LocationName::MergosLoftMiddle => 32,
            LocationName::WetNursesLunarium => 33,
            LocationName::HuntersNightmare => 34,
            LocationName::NightmareChurch => 35,
            LocationName::NightmareGrandCathedral => 36,
            LocationName::UndergroundCorpsePile => 37,
            LocationName::ResearchHall => 38,
            LocationName::LumenwoodGarden => 39,
            LocationName::AstralClocktower => 40,
            LocationName::FishingHamlet => 41,
            LocationName::LighthouseHut => 42,
            LocationName::Coast => 43,
        }
    }

    /// Looks the destination up.
    pub fn get_location(self) -> (found: Location)
        ensures
            found == self.location(),
    {
        match self {
            // X -8.0, Y -6.0, Z -18.0
            LocationName::HuntersDream => Location {
                name: "Hunter's Dream",
                region: "Hunter's Dream",
                x: 0xC1000000,
                y: 0xC0C00000,
                z: 0xC1900000,
                map_id: [0x00, 0x15],
            },
            // X -199.74, Y -50.759, Z 179.42
            LocationName::FirstFloorSickroom => Location {
                name: "1st Floor Sickroom",
                region: "Yharnam Headstone",
                x: 0xC347BD71,
                y: 0xC24B0937,
                z: 0x43336B85,
                map_id: [0x01, 0x18],
            },
            // X -193.4, Y -28.646, Z 68.5
            LocationName::CentralYharnam => Location {
                name: "Central Yharnam",
                region: "Yharnam Headstone",
                x: 0xC3416666,
                y: 0xC1E52B02,
                z: 0x42890000,
                map_id: [0x18, 0x01],
            },
            // X -124.488, Y -27.021, Z 64.673
            LocationName::GreatBridge => Location {
                name: "Great Bridge",
                region: "Yharnam Headstone",
                x: 0xC2F8F9DB,
                y: 0xC1D82B02,
                z: 0x42815893,
                map_id: [0x01, 0x18],
            },
            // X -33.811, Y -40.722, Z 87.303
            LocationName::TombOfOedon => Location {
                name: "Tomb of Oedon",
                region: "Yharnam Headstone",
                x: 0xC2073E77,
                y: 0xC222E354,
                z: 0x42AE9B23,
                map_id: [0x01, 0x18],
            },
            // X 16.775, Y -9.511, Z 103.27
            LocationName::CathedralWard => Location {
                name: "Cathedral Ward",
                region: "Yharnam Headstone",
                x: 0x41863333,
                y: 0xC1182D0E,
                z: 0x42CE8A3D,
                map_id: [0x00, 0x18],
            },
            // X 67.808, Y 35.713, Z 339.689
            LocationName::GrandCathedralWard => Location {
                name: "Grand Cathedral Ward",
                region: "Yharnam Headstone",
                x: 0x42879DB2,
                y: 0x420EDA1D,
                z: 0x43A9D831,
                map_id: [0x00, 0x18],
            },
            // X -24.643, Y 40.621, Z 250.57
            LocationName::UpperCathedralWard => Location {
                name: "Upper Cathedral Ward",
                region: "Yharnam Headstone",
                x: 0xC1C524DD,
                y: 0x42227BE7,
                z: 0x437A91EC,
                map_id: [0x02, 0x18],
            },
            // X 45.335, Y 51.403, Z 300.35
            LocationName::LumenflowerGardens => Location {
                name: "Lumenflower Gardens",
                region: "Yharnam Headstone",
                x: 0x4235570A,
                y: 0x424D9CAC,
                z: 0x43962CCD,
                map_id: [0x02, 0x18],
            },
            // X 114.86, Y 4.443, Z 425.02
            LocationName::AltarOfDespair => Location {
                name: "Altar of Despair",
                region: "Yharnam Headstone",
                x: 0x42E5B852,
                y: 0x408E2D0E,
                z: 0x43D4828F,
                map_id: [0x02, 0x18],
            },
            // X 126.4, Y -65.214, Z 36.0
            LocationName::OldYharnam => Location {
                name: "Old Yharnam",
                region: "Yharnam Headstone",
                x: 0x42FCCCCD,
                y: 0xC2826D91,
                z: 0x42100000,
                map_id: [0x00, 0x17],
            },
            // X -139.979, Y -126.664, Z 57.359
            LocationName::ChurchOfTheGoodChalice => Location {
                name: "Church of the Good Chalice",
                region: "Yharnam Headstone",
                x: 0xC30BFAA0,
                y: 0xC2FD53F8,
                z: 0x42656F9E,
                map_id: [0x00, 0x17],
            },
            // X 111.86, Y -120.783, Z -65.249
            LocationName::GraveyardOfTheDarkbeast => Location {
                name: "Graveyard of the Darkbeast",
                region: "Yharnam Headstone",
                x: 0x42DFB852,
                y: 0xC2F190E5,
                z: 0xC2827F7D,
                map_id: [0x00, 0x17],
            },
            // X -172.0, Y -22.0, Z 485.5
            LocationName::HemwickCharnelLane => Location {
                name: "Hemwick Charnel Lane",
                region: "Frontier Headstone",
                x: 0xC32C0000,
                y: 0xC1B00000,
                z: 0x43F2C000,
                map_id: [0x00, 0x16],
            },
            // X -336.3, Y 2.4, Z 733.0
            LocationName::WitchsAbode => Location {
                name: "Witch's Abode",
                region: "Frontier Headstone",
                x: 0xC3A82666,
                y: 0x4019999A,
                z: 0x44374000,
                map_id: [0x00, 0x16],
            },
            // X -190.0, Y -76.3, Z 252.0
            LocationName::ForbiddenWoods => Location {
                name: "Forbidden Woods",
                region: "Frontier Headstone",
                x: 0xC33E0000,
                y: 0xC298999A,
                z: 0x437C0000,
                map_id: [0x00, 0x1B],
            },
            // X -335.0, Y -186.5, Z 479.0
            LocationName::ForbiddenGrave => Location {
                name: "Forbidden Grave",
                region: "Frontier Headstone",
                x: 0xC3A78000,
                y: 0xC33A8000,
                z: 0x43EF8000,
                map_id: [0x00, 0x1B],
            },
            // X -400.4, Y -180.8, Z 414.6
            LocationName::Byrgenwerth => Location {
                name: "Byrgenwerth",
                region: "Frontier Headstone",
                x: 0xC3C83333,
                y: 0xC334CCCD,
                z: 0x43CF4CCD,
                map_id: [0x00, 0x20],
            },
            // X -509.0, Y -271.0, Z 371.0
            LocationName::MoonsideLake => Location {
                name: "Moonside Lake",
                region: "Frontier Headstone",
                x: 0xC3FE8000,
                y: 0xC3878000,
                z: 0x43B98000,
                map_id: [0x02, 0x20],
            },
            // X 257.4, Y -51.4, Z 70.0
            LocationName::YahargulUnseenVillage => Location {
                name: "Yahar'gul, Unseen Village",
                region: "Unseen Headstone",
                x: 0x4380B333,
                y: 0xC24D999A,
                z: 0x428C0000,
                map_id: [0x00, 0x1C],
            },
            // X 260.4, Y -88.0, Z -55.6
            LocationName::YahargulChapel => Location {
                name: "Yahar'gul Chapel",
                region: "Unseen Headstone",
                x: 0x43823333,
                y: 0xC2B00000,
                z: 0xC25E6666,
                map_id: [0x00, 0x1C],
            },
            // X 418.8, Y -123.6, Z -253.4
            LocationName::AdventPlaza => Location {
                name: "Advent Plaza",
                region: "Unseen Headstone",
                x: 0x43D16666,
                y: 0xC2F73333,
                z: 0xC37D6666,
                map_id: [0x00, 0x1C],
            },
            // X 219.6, Y -97.6, Z -78.8
            LocationName::HypogeanGaol => Location {
                name: "Hypogean Gaol",
                region: "Unseen Headstone",
                x: 0x435B999A,
                y: 0xC2C33333,
                z: 0xC29D999A,
                map_id: [0x00, 0x1C],
            },
            // X -4.5, Y 33.8, Z -187.9
            LocationName::ForsakenCastleCainhurst => Location {
                name: "Forsaken Castle Cainhurst",
                region: "Unseen Headstone",
                x: 0xC0900000,
                y: 0x42073333,
                z: 0xC33BE666,
                map_id: [0x00, 0x19],
            },
            // X 47.8, Y 111.8, Z -350.4
            LocationName::LogariusSeat => Location {
                name: "Logarius' Seat",
                region: "Unseen Headstone",
                x: 0x423F3333,
                y: 0x42DF999A,
                z: 0xC3AF3333,
                map_id: [0x00, 0x19],
            },
            // X 122.4, Y 129.0, Z -455.0
            LocationName::VilebloodQueensChamber => Location {
                name: "Vileblood Queen's Chamber",
                region: "Unseen Headstone",
                x: 0x42F4CCCD,
                y: 0x43010000,
                z: 0xC3E38000,
                map_id: [0x00, 0x19],
            },
            // X 129.8, Y -19.9, Z 140.8
            LocationName::AbandonedOldWorkshop => Location {
                name: "Abandoned Old Workshop",
                region: "Unseen Headstone",
                x: 0x4301CCCD,
                y: 0xC19F3333,
                z: 0x430CCCCD,
                map_id: [0x01, 0x15],
            },
            // X -472.37, Y -185.25, Z 594.9
            LocationName::LectureBuilding => Location {
                name: "Lecture Building",
                region: "Nightmare Headstone",
                x: 0xC3EC2F5C,
                y: 0xC3394000,
                z: 0x4414B99A,
                map_id: [0x00, 0x20],
            },
            // X -444.22, Y -177.25, Z 514.19
            LocationName::LectureBuilding2ndFloor => Location {
                name: "Lecture Building 2nd Floor",
                region: "Nightmare Headstone",
                x: 0xC3DE1C29,
                y: 0xC3314000,
                z: 0x44008C29,
                map_id: [0x00, 0x20],
            },
            // X 0.35, Y 1500.0, Z 0.0
            LocationName::NightmareFrontier => Location {
                name: "Nightmare Frontier",
                region: "Nightmare Headstone",
                x: 0x3EB33333,
                y: 0x44BB8000,
                z: 0x00000000,
                map_id: [0x00, 0x21],
            },
            // X -104.65, Y 1462.28, Z -42.65
            LocationName::NightmareOfMensis => Location {
                name: "Nightmare of Mensis",
                region: "Nightmare Headstone",
                x: 0xC2D14CCD,
                y: 0x44B6C8F6,
                z: 0xC22A999A,
                map_id: [0x00, 0x21],
            },
            // X 84.58, Y 986.7, Z -0.37
            LocationName::MergosLoftBase => Location {
                name: "Mergo's Loft: Base",
                region: "Nightmare Headstone",
                x: 0x42A928F6,
                y: 0x4476ACCD,
                z: 0xBEBD70A4,
                map_id: [0x00, 0x1A],
            },
            // X 136.69, Y 1061.26, Z -14.86
            LocationName::MergosLoftMiddle => Location {
                name: "Mergo's Loft: Middle",
                region: "Nightmare Headstone",
                x: 0x4308B0A4,
                y: 0x4484A852,
                z: 0xC16DC28F,
                map_id: [0x00, 0x1A],
            },
            // X 140.72, Y 1124.3, Z -37.98
            LocationName::WetNursesLunarium => Location {
                name: "Wet Nurse's Lunarium",
                region: "Nightmare Headstone",
                x: 0x430CB852,
                y: 0x448C899A,
                z: 0xC217EB85,
                map_id: [0x00, 0x1A],
            },
            // X -481.68, Y 1490.49, Z -497.73
            LocationName::HuntersNightmare => Location {
                name: "Hunter's Nightmare",
                region: "Hunter's Nightmare Headstone",
                x: 0xC3F0D70A,
                y: 0x44BA4FAE,
                z: 0xC3F8DD71,
                map_id: [0x00, 0x22],
            },
            // X -434.08, Y 1503.18, Z -594.52
            LocationName::NightmareChurch => Location {
                name: "Nightmare Church",
                region: "Hunter's Nightmare Headstone",
                x: 0xC3D90A3D,
                y: 0x44BBE5C3,
                z: 0xC414A148,
                map_id: [0x00, 0x22],
            },
            // X -433.09, Y 1535.71, Z -261.57
            LocationName::NightmareGrandCathedral => Location {
                name: "Nightmare Grand Cathedral",
                region: "Hunter's Nightmare Headstone",
                x: 0xC3D88B85,
                y: 0x44BFF6B8,
                z: 0xC382C8F6,
                map_id: [0x00, 0x22],
            },
            // X -406.81, Y 1503.79, Z -743.0
            LocationName::UndergroundCorpsePile => Location {
                name: "Underground Corpse Pile",
                region: "Hunter's Nightmare Headstone",
                x: 0xC3CB67AE,
                y: 0x44BBF948,
                z: 0xC439C000,
                map_id: [0x00, 0x22],
            },
            // X -318.67, Y 1553.02, Z -824.22
            LocationName::ResearchHall => Location {
                name: "Research Hall",
                region: "Hunter's Nightmare Headstone",
                x: 0xC39F55C3,
                y: 0x44C220A4,
                z: 0xC44E0E14,
                map_id: [0x00, 0x23],
            },
            // X -432.15, Y 1593.0, Z -824.37
            LocationName::LumenwoodGarden => Location {
                name: "Lumenwood Garden",
                region: "Hunter's Nightmare Headstone",
                x: 0xC3D81333,
                y: 0x44C72000,
                z: 0xC44E17AE,
                map_id: [0x00, 0x23],
            },
            // X -454.88, Y 1595.57, Z -824.44
            LocationName::AstralClocktower => Location {
                name: "Astral Clocktower",
                region: "Hunter's Nightmare Headstone",
                x: 0xC3E370A4,
                y: 0x44C7723D,
                z: 0xC44E1C29,
                map_id: [0x00, 0x23],
            },
            // X -619.2, Y 1594.3, Z -817.2
            LocationName::FishingHamlet => Location {
                name: "Fishing Hamlet",
                region: "Hunter's Nightmare Headstone",
                x: 0xC41ACCCD,
                y: 0x44C7499A,
                z: 0xC44C4CCD,
                map_id: [0x00, 0x24],
            },
            // X -645.2, Y 1614.66, Z -867.2
            LocationName::LighthouseHut => Location {
                name: "Lighthouse Hut",
                region: "Hunter's Nightmare Headstone",
                x: 0xC4214CCD,
                y: 0x44C9D51F,
                z: 0xC458CCCD,
                map_id: [0x00, 0x24],
            },
            // X -695.2, Y 1577.27, Z -943.2
            LocationName::Coast => Location {
                name: "Coast",
                region: "Hunter's Nightmare Headstone",
                x: 0xC42DCCCD,
                y: 0x44C528A4,
                z: 0xC46BCCCD,
                map_id: [0x00, 0x24],
            },
        }
    }

    /// Every name, in catalog order.
    pub fn all() -> (names: Vec<LocationName>)
        ensures
            names@ == Self::catalog_order(),
    {
        let names = vec![
            LocationName::HuntersDream,
            LocationName::FirstFloorSickroom,
            LocationName::CentralYharnam,
            LocationName::GreatBridge,
            LocationName::TombOfOedon,
            LocationName::CathedralWard,
            LocationName::GrandCathedralWard,
            LocationName::UpperCathedralWard,
            LocationName::LumenflowerGardens,
            LocationName::AltarOfDespair,
            LocationName::OldYharnam,
            LocationName::ChurchOfTheGoodChalice,
            LocationName::GraveyardOfTheDarkbeast,
            LocationName::HemwickCharnelLane,
            LocationName::WitchsAbode,
            LocationName::ForbiddenWoods,
            LocationName::ForbiddenGrave,
            LocationName::Byrgenwerth,
            LocationName::MoonsideLake,
            LocationName::YahargulUnseenVillage,
            LocationName::YahargulChapel,
            LocationName::AdventPlaza,
            LocationName::HypogeanGaol,
            LocationName::ForsakenCastleCainhurst,
            LocationName::LogariusSeat,
            LocationName::VilebloodQueensChamber,
            LocationName::AbandonedOldWorkshop,
            LocationName::LectureBuilding,
            LocationName::LectureBuilding2ndFloor,
            LocationName::NightmareFrontier,
            LocationName::NightmareOfMensis,
            LocationName::MergosLoftBase,
            LocationName::MergosLoftMiddle,
            LocationName::WetNursesLunarium,
            LocationName::HuntersNightmare,
            LocationName::NightmareChurch,
            LocationName::NightmareGrandCathedral,
            LocationName::UndergroundCorpsePile,
            LocationName::ResearchHall,
            LocationName::LumenwoodGarden,
            LocationName::AstralClocktower,
            LocationName::FishingHamlet,
            LocationName::LighthouseHut,
            LocationName::Coast,
        ];
        proof {
            reveal(LocationName::catalog_order);
        }
        assert(names@ =~= Self::catalog_order());
        names
    }

    /// The names region by region: each region's name with the names listed
    /// under it, regions and names in catalog order.
    pub open spec fn regions() -> Seq<(Seq<char>, Seq<LocationName>)> {
        seq![
            (
                "Hunter's Dream"@,
                seq![
                    LocationName::HuntersDream,
                ],
            ),
            (
                "Yharnam Headstone"@,
                seq![
                    LocationName::FirstFloorSickroom,
                    LocationName::CentralYharnam,
                    LocationName::GreatBridge,
                    LocationName::TombOfOedon,
                    LocationName::CathedralWard,
                    LocationName::GrandCathedralWard,
                    LocationName::UpperCathedralWard,
                    LocationName::LumenflowerGardens,
                    LocationName::AltarOfDespair,
                    LocationName::OldYharnam,
                    LocationName::ChurchOfTheGoodChalice,
                    LocationName::GraveyardOfTheDarkbeast,
                ],
            ),
            (
                "Frontier Headstone"@,
                seq![
                    LocationName::HemwickCharnelLane,
                    LocationName::WitchsAbode,
                    LocationName::ForbiddenWoods,
                    LocationName::ForbiddenGrave,
                    LocationName::Byrgenwerth,
                    LocationName::MoonsideLake,
                ],
            ),
            (
                "Unseen Headstone"@,
                seq![
                    LocationName::YahargulUnseenVillage,
                    LocationName::YahargulChapel,
                    LocationName::AdventPlaza,
                    LocationName::HypogeanGaol,
                    LocationName::ForsakenCastleCainhurst,
                    LocationName::LogariusSeat,
                    LocationName::VilebloodQueensChamber,
                    LocationName::AbandonedOldWorkshop,
                ],
            ),
            (
                "Nightmare Headstone"@,
                seq![
                    LocationName::LectureBuilding,
                    LocationName::LectureBuilding2ndFloor,
                    LocationName::NightmareFrontier,
                    LocationName::NightmareOfMensis,
                    LocationName::MergosLoftBase,
                    LocationName::MergosLoftMiddle,
                    LocationName::WetNursesLunarium,
                ],
            ),
            (
                "Hunter's Nightmare Headstone"@,
                seq![
                    LocationName::HuntersNightmare,
                    LocationName::NightmareChurch,
                    LocationName::NightmareGrandCathedral,
                    LocationName::UndergroundCorpsePile,
                    LocationName::ResearchHall,
                    LocationName::LumenwoodGarden,
                    LocationName::AstralClocktower,
                    LocationName::FishingHamlet,
                    LocationName::LighthouseHut,
                    LocationName::Coast,
                ],
            ),
        ]
    }

    /// The names grouped by region, regions and names in catalog order.
    pub fn by_region() -> (groups: Vec<(&'static str, Vec<LocationName>)>)
        ensures
            groups@.len() == Self::regions().len(),
            forall|g: int|
                0 <= g < groups@.len() ==> (#[trigger] groups@[g]).0@ == Self::regions()[g].0
                    && groups@[g].1@ == Self::regions()[g].1,
    {
        let groups = vec![
            (
                "Hunter's Dream",
                vec![
                    LocationName::HuntersDream,
                ],
            ),
            (
                "Yharnam Headstone",
                vec![
                    LocationName::FirstFloorSickroom,
                    LocationName::CentralYharnam,
                    LocationName::GreatBridge,
                    LocationName::TombOfOedon,
                    LocationName::CathedralWard,
                    LocationName::GrandCathedralWard,
                    LocationName::UpperCathedralWard,
                    LocationName::LumenflowerGardens,
                    LocationName::AltarOfDespair,
                    LocationName::OldYharnam,
                    LocationName::ChurchOfTheGoodChalice,
                    LocationName::GraveyardOfTheDarkbeast,
                ],
            ),
            (
                "Frontier Headstone",
                vec![
                    LocationName::HemwickCharnelLane,
                    LocationName::WitchsAbode,
                    LocationName::ForbiddenWoods,
                    LocationName::ForbiddenGrave,
                    LocationName::Byrgenwerth,
                    LocationName::MoonsideLake,
                ],
            ),
            (
                "Unseen Headstone",
                vec![
                    LocationName::YahargulUnseenVillage,
                    LocationName::YahargulChapel,
                    LocationName::AdventPlaza,
                    LocationName::HypogeanGaol,
                    LocationName::ForsakenCastleCainhurst,
                    LocationName::LogariusSeat,
                    LocationName::VilebloodQueensChamber,
                    LocationName::AbandonedOldWorkshop,
                ],
            ),
            (
                "Nightmare Headstone",
                vec![
                    LocationName::LectureBuilding,
                    LocationName::LectureBuilding2ndFloor,
                    LocationName::NightmareFrontier,
                    LocationName::NightmareOfMensis,
                    LocationName::MergosLoftBase,
                    LocationName::MergosLoftMiddle,
                    LocationName::WetNursesLunarium,
                ],
            ),
            (
                "Hunter's Nightmare Headstone",
                vec![
                    LocationName::HuntersNightmare,
                    LocationName::NightmareChurch,
                    LocationName::NightmareGrandCathedral,
                    LocationName::UndergroundCorpsePile,
                    LocationName::ResearchHall,
                    LocationName::LumenwoodGarden,
                    LocationName::AstralClocktower,
                    LocationName::FishingHamlet,
                    LocationName::LighthouseHut,
                    LocationName::Coast,
                ],
            ),
        ];
        assert forall|g: int| 0 <= g < groups@.len() implies (#[trigger] groups@[g]).0@
            == Self::regions()[g].0 && groups@[g].1@ == Self::regions()[g].1 by {
            assert(groups@[g].1@ =~= Self::regions()[g].1);
        }
        groups
    }
}

/// The catalog: the destination of every name, in catalog order.
#[verifier::opaque]
pub open spec fn catalog() -> Seq<Location> {
    Seq::new(
        LocationName::catalog_order().len(),
        |i: int| LocationName::catalog_order()[i].location(),
    )
}

/// The catalog order names every destination, each at its own place: so no
/// name is missing from `all`, and none stands there twice.
pub proof fn law_catalog_order_complete(name: LocationName)
    ensures
        0 <= name.index() < LOCATION_COUNT,
        LocationName::catalog_order().len() == LOCATION_COUNT,
        LocationName::catalog_order()[name.index()] == name,
        forall|i: int|
            0 <= i < LOCATION_COUNT && #[trigger] LocationName::catalog_order()[i] == name ==> i
                == name.index(),
{
    reveal(LocationName::catalog_order);
    let order = LocationName::catalog_order();
    assert forall|i: int| 0 <= i < LOCATION_COUNT && #[trigger] order[i] == name implies i
        == name.index() by {
        assert(order[i].index() == i);
    }
}

/// The names of the groups of `groups`, one after the other.
pub open spec fn flattened(groups: Seq<(Seq<char>, Seq<LocationName>)>) -> Seq<LocationName>
    decreases groups.len(),
{
    if groups.len() == 0 {
        Seq::empty()
    } else {
        flattened(groups.drop_last()) + groups.last().1
    }
}

/// The grouping by region is the catalog order cut into pieces: read group
/// after group it gives every name in catalog order, each name stands under
/// the region of its destination, and no region has two groups.
pub proof fn law_regions_partition_catalog()
    ensures
        flattened(LocationName::regions()) == LocationName::catalog_order(),
        forall|g: int, k: int|
            0 <= g < LocationName::regions().len() && 0 <= k < LocationName::regions()[g].1.len()
                ==> (#[trigger] LocationName::regions()[g].1[k]).location().region@
                == LocationName::regions()[g].0,
        forall|g: int, h: int|
            0 <= g < h < LocationName::regions().len() ==> (#[trigger] LocationName::regions()[g]).0
                != (#[trigger] LocationName::regions()[h]).0,
        forall|g: int|
            0 <= g < LocationName::regions().len() ==> (#[trigger] LocationName::regions()[g]).1.len()
                > 0,
{
    let r = LocationName::regions();
    assert(flattened(r) =~= LocationName::catalog_order()) by {
        reveal(LocationName::catalog_order);
        let r5 = r.drop_last();
        let r4 = r5.drop_last();
        let r3 = r4.drop_last();
        let r2 = r3.drop_last();
        let r1 = r2.drop_last();
        let r0 = r1.drop_last();
        assert(flattened(r0) =~= Seq::empty());
        assert(flattened(r1) =~= r[0].1);
        assert(flattened(r2) =~= r[0].1 + r[1].1);
        assert(flattened(r3) =~= r[0].1 + r[1].1 + r[2].1);
        assert(flattened(r4) =~= r[0].1 + r[1].1 + r[2].1 + r[3].1);
        assert(flattened(r5) =~= r[0].1 + r[1].1 + r[2].1 + r[3].1 + r[4].1);
    }
    assert forall|g: int, h: int| 0 <= g < h < r.len() implies (#[trigger] r[g]).0 != (
    #[trigger] r[h]).0 by {
        lemma_region_names_differ();
    }
}

/// No two regions share a name.
pub proof fn lemma_region_names_differ()
    ensures
        "Hunter's Dream"@ != "Yharnam Headstone"@,
        "Hunter's Dream"@ != "Frontier Headstone"@,
        "Hunter's Dream"@ != "Unseen Headstone"@,
        "Hunter's Dream"@ != "Nightmare Headstone"@,
        "Hunter's Dream"@ != "Hunter's Nightmare Headstone"@,
        "Yharnam Headstone"@ != "Frontier Headstone"@,
        "Yharnam Headstone"@ != "Unseen Headstone"@,
        "Yharnam Headstone"@ != "Nightmare Headstone"@,
        "Yharnam Headstone"@ != "Hunter's Nightmare Headstone"@,
        "Frontier Headstone"@ != "Unseen Headstone"@,
        "Frontier Headstone"@ != "Nightmare Headstone"@,
        "Frontier Headstone"@ != "Hunter's Nightmare Headstone"@,
        "Unseen Headstone"@ != "Nightmare Headstone"@,
        "Unseen Headstone"@ != "Hunter's Nightmare Headstone"@,
        "Nightmare Headstone"@ != "Hunter's Nightmare Headstone"@,
{
    reveal_strlit("Hunter's Dream");
    reveal_strlit("Yharnam Headstone");
    reveal_strlit("Frontier Headstone");
    reveal_strlit("Unseen Headstone");
    reveal_strlit("Nightmare Headstone");
    reveal_strlit("Hunter's Nightmare Headstone");
    assert("Hunter's Dream"@.len() != "Yharnam Headstone"@.len());
    assert("Hunter's Dream"@.len() != "Frontier Headstone"@.len());
    assert("Hunter's Dream"@.len() != "Unseen Headstone"@.len());
    assert("Hunter's Dream"@.len() != "Nightmare Headstone"@.len());
    assert("Hunter's Dream"@.len() != "Hunter's Nightmare Headstone"@.len());
    assert("Yharnam Headstone"@.len() != "Frontier Headstone"@.len());
    assert("Yharnam Headstone"@.len() != "Unseen Headstone"@.len());
    assert("Yharnam Headstone"@.len() != "Nightmare Headstone"@.len());
    assert("Yharnam Headstone"@.len() != "Hunter's Nightmare Headstone"@.len());
    assert("Frontier Headstone"@.len() != "Unseen Headstone"@.len());
    assert("Frontier Headstone"@.len() != "Nightmare Headstone"@.len());
    assert("Frontier Headstone"@.len() != "Hunter's Nightmare Headstone"@.len());
    assert("Unseen Headstone"@.len() != "Nightmare Headstone"@.len());
    assert("Unseen Headstone"@.len() != "Hunter's Nightmare Headstone"@.len());
    assert("Nightmare Headstone"@.len() != "Hunter's Nightmare Headstone"@.len());
}

/// The place of a name's region among the regions, in catalog order.
pub open spec fn region_rank(name: LocationName) -> int {
    let i = name.index();
    if i < 1 {
        0
    } else if i < 13 {
        1
    } else if i < 19 {
        2
    } else if i < 27 {
        3
    } else if i < 34 {
        4
    } else {
        5
    }
}

/// The name at each place of the catalog order has that place for its index.
pub proof fn lemma_catalog_order_index(i: int)
    requires
        0 <= i < LOCATION_COUNT,
    ensures
        LocationName::catalog_order()[i].index() == i,
{
    reveal(LocationName::catalog_order);
}

/// Every destination lies in the region that its place in the catalog gives.
pub proof fn lemma_region_by_rank(name: LocationName)
    ensures
        0 <= region_rank(name) < LocationName::regions().len(),
        name.location().region@ == LocationName::regions()[region_rank(name)].0,
{
}

/// The catalog holds the destination of each name at the name's place.
pub proof fn law_catalog_entries(name: LocationName)
    ensures
        catalog().len() == LOCATION_COUNT,
        0 <= name.index() < LOCATION_COUNT,
        catalog()[name.index()] == name.location(),
{
    reveal(catalog);
    law_catalog_order_complete(name);
}

} // verus!
