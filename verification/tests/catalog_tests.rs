use lantern_teleport::catalog::{LocationName, LOCATION_COUNT};
use lantern_teleport::registry::{
    copy_locations, filter_locations, get_all_locations, group_locations_by_region,
    search_locations,
};
use lantern_teleport::types::Location;

fn expect(name: LocationName, text: &str, region: &str, x: f32, y: f32, z: f32, map_id: [u8; 2]) {
    let location = name.get_location();
    assert_eq!(location.name, text);
    assert_eq!(location.region, region);
    assert_eq!(f32::from_bits(location.x), x);
    assert_eq!(f32::from_bits(location.y), y);
    assert_eq!(f32::from_bits(location.z), z);
    assert_eq!(location.map_id, map_id);
}

#[test]
fn every_destination_holds_its_coordinates() {
    expect(LocationName::HuntersDream, "Hunter's Dream", "Hunter's Dream", -8.0, -6.0, -18.0, [0x00, 0x15]);
    expect(LocationName::FirstFloorSickroom, "1st Floor Sickroom", "Yharnam Headstone", -199.74, -50.759, 179.42, [0x01, 0x18]);
    expect(LocationName::CentralYharnam, "Central Yharnam", "Yharnam Headstone", -193.4, -28.646, 68.5, [0x18, 0x01]);
    expect(LocationName::GreatBridge, "Great Bridge", "Yharnam Headstone", -124.488, -27.021, 64.673, [0x01, 0x18]);
    expect(LocationName::TombOfOedon, "Tomb of Oedon", "Yharnam Headstone", -33.811, -40.722, 87.303, [0x01, 0x18]);
    expect(LocationName::CathedralWard, "Cathedral Ward", "Yharnam Headstone", 16.775, -9.511, 103.27, [0x00, 0x18]);
    expect(LocationName::GrandCathedralWard, "Grand Cathedral Ward", "Yharnam Headstone", 67.808, 35.713, 339.689, [0x00, 0x18]);
    expect(LocationName::UpperCathedralWard, "Upper Cathedral Ward", "Yharnam Headstone", -24.643, 40.621, 250.57, [0x02, 0x18]);
    expect(LocationName::LumenflowerGardens, "Lumenflower Gardens", "Yharnam Headstone", 45.335, 51.403, 300.35, [0x02, 0x18]);
    expect(LocationName::AltarOfDespair, "Altar of Despair", "Yharnam Headstone", 114.86, 4.443, 425.02, [0x02, 0x18]);
    expect(LocationName::OldYharnam, "Old Yharnam", "Yharnam Headstone", 126.4, -65.214, 36.0, [0x00, 0x17]);
    expect(LocationName::ChurchOfTheGoodChalice, "Church of the Good Chalice", "Yharnam Headstone", -139.979, -126.664, 57.359, [0x00, 0x17]);
    expect(LocationName::GraveyardOfTheDarkbeast, "Graveyard of the Darkbeast", "Yharnam Headstone", 111.86, -120.783, -65.249, [0x00, 0x17]);
    expect(LocationName::HemwickCharnelLane, "Hemwick Charnel Lane", "Frontier Headstone", -172.0, -22.0, 485.5, [0x00, 0x16]);
    expect(LocationName::WitchsAbode, "Witch's Abode", "Frontier Headstone", -336.3, 2.4, 733.0, [0x00, 0x16]);
    expect(LocationName::ForbiddenWoods, "Forbidden Woods", "Frontier Headstone", -190.0, -76.3, 252.0, [0x00, 0x1B]);
    expect(LocationName::ForbiddenGrave, "Forbidden Grave", "Frontier Headstone", -335.0, -186.5, 479.0, [0x00, 0x1B]);
    expect(LocationName::Byrgenwerth, "Byrgenwerth", "Frontier Headstone", -400.4, -180.8, 414.6, [0x00, 0x20]);
    expect(LocationName::MoonsideLake, "Moonside Lake", "Frontier Headstone", -509.0, -271.0, 371.0, [0x02, 0x20]);
    expect(LocationName::YahargulUnseenVillage, "Yahar'gul, Unseen Village", "Unseen Headstone", 257.4, -51.4, 70.0, [0x00, 0x1C]);
    expect(LocationName::YahargulChapel, "Yahar'gul Chapel", "Unseen Headstone", 260.4, -88.0, -55.6, [0x00, 0x1C]);
    expect(LocationName::AdventPlaza, "Advent Plaza", "Unseen Headstone", 418.8, -123.6, -253.4, [0x00, 0x1C]);
    expect(LocationName::HypogeanGaol, "Hypogean Gaol", "Unseen Headstone", 219.6, -97.6, -78.8, [0x00, 0x1C]);
    expect(LocationName::ForsakenCastleCainhurst, "Forsaken Castle Cainhurst", "Unseen Headstone", -4.5, 33.8, -187.9, [0x00, 0x19]);
    expect(LocationName::LogariusSeat, "Logarius' Seat", "Unseen Headstone", 47.8, 111.8, -350.4, [0x00, 0x19]);
    expect(LocationName::VilebloodQueensChamber, "Vileblood Queen's Chamber", "Unseen Headstone", 122.4, 129.0, -455.0, [0x00, 0x19]);
    expect(LocationName::AbandonedOldWorkshop, "Abandoned Old Workshop", "Unseen Headstone", 129.8, -19.9, 140.8, [0x01, 0x15]);
    expect(LocationName::LectureBuilding, "Lecture Building", "Nightmare Headstone", -472.37, -185.25, 594.9, [0x00, 0x20]);
    expect(LocationName::LectureBuilding2ndFloor, "Lecture Building 2nd Floor", "Nightmare Headstone", -444.22, -177.25, 514.19, [0x00, 0x20]);
    expect(LocationName::NightmareFrontier, "Nightmare Frontier", "Nightmare Headstone", 0.35, 1500.0, 0.0, [0x00, 0x21]);
    expect(LocationName::NightmareOfMensis, "Nightmare of Mensis", "Nightmare Headstone", -104.65, 1462.28, -42.65, [0x00, 0x21]);
    expect(LocationName::MergosLoftBase, "Mergo's Loft: Base", "Nightmare Headstone", 84.58, 986.7, -0.37, [0x00, 0x1A]);
    expect(LocationName::MergosLoftMiddle, "Mergo's Loft: Middle", "Nightmare Headstone", 136.69, 1061.26, -14.86, [0x00, 0x1A]);
    expect(LocationName::WetNursesLunarium, "Wet Nurse's Lunarium", "Nightmare Headstone", 140.72, 1124.3, -37.98, [0x00, 0x1A]);
    expect(LocationName::HuntersNightmare, "Hunter's Nightmare", "Hunter's Nightmare Headstone", -481.68, 1490.49, -497.73, [0x00, 0x22]);
    expect(LocationName::NightmareChurch, "Nightmare Church", "Hunter's Nightmare Headstone", -434.08, 1503.18, -594.52, [0x00, 0x22]);
    expect(LocationName::NightmareGrandCathedral, "Nightmare Grand Cathedral", "Hunter's Nightmare Headstone", -433.09, 1535.71, -261.57, [0x00, 0x22]);
    expect(LocationName::UndergroundCorpsePile, "Underground Corpse Pile", "Hunter's Nightmare Headstone", -406.81, 1503.79, -743.0, [0x00, 0x22]);
    expect(LocationName::ResearchHall, "Research Hall", "Hunter's Nightmare Headstone", -318.67, 1553.02, -824.22, [0x00, 0x23]);
    expect(LocationName::LumenwoodGarden, "Lumenwood Garden", "Hunter's Nightmare Headstone", -432.15, 1593.0, -824.37, [0x00, 0x23]);
    expect(LocationName::AstralClocktower, "Astral Clocktower", "Hunter's Nightmare Headstone", -454.88, 1595.57, -824.44, [0x00, 0x23]);
    expect(LocationName::FishingHamlet, "Fishing Hamlet", "Hunter's Nightmare Headstone", -619.2, 1594.3, -817.2, [0x00, 0x24]);
    expect(LocationName::LighthouseHut, "Lighthouse Hut", "Hunter's Nightmare Headstone", -645.2, 1614.66, -867.2, [0x00, 0x24]);
    expect(LocationName::Coast, "Coast", "Hunter's Nightmare Headstone", -695.2, 1577.27, -943.2, [0x00, 0x24]);
}

#[test]
fn all_lists_every_name_once_in_catalog_order() {
    let names = LocationName::all();
    assert_eq!(names.len(), LOCATION_COUNT);
    assert_eq!(names.len(), 44);
    assert_eq!(names[0], LocationName::HuntersDream);
    assert_eq!(names[1], LocationName::FirstFloorSickroom);
    assert_eq!(names[43], LocationName::Coast);
    for i in 0..names.len() {
        for j in 0..i {
            assert_ne!(names[i], names[j]);
            assert_ne!(names[i].get_location().name, names[j].get_location().name);
        }
    }
}

#[test]
fn catalog_follows_the_names() {
    let locations = get_all_locations();
    let names = LocationName::all();
    assert_eq!(locations.len(), 44);
    for i in 0..44 {
        assert_eq!(locations[i], names[i].get_location());
    }
    assert_eq!(locations[0].name, "Hunter's Dream");
    assert_eq!(f32::from_bits(locations[0].x), -8.0);
}

#[test]
fn by_region_cuts_the_catalog_order_into_regions() {
    let groups = LocationName::by_region();
    let regions: Vec<&str> = groups.iter().map(|g| g.0).collect();
    assert_eq!(
        regions,
        vec![
            "Hunter's Dream",
            "Yharnam Headstone",
            "Frontier Headstone",
            "Unseen Headstone",
            "Nightmare Headstone",
            "Hunter's Nightmare Headstone"
        ]
    );
    let sizes: Vec<usize> = groups.iter().map(|g| g.1.len()).collect();
    assert_eq!(sizes, vec![1, 12, 6, 8, 7, 10]);
    let mut flat: Vec<LocationName> = Vec::new();
    for (region, names) in &groups {
        for name in names {
            assert_eq!(name.get_location().region, *region);
            flat.push(*name);
        }
    }
    assert_eq!(flat, LocationName::all());
}

#[test]
fn grouping_the_catalog_gives_the_regions() {
    let groups = group_locations_by_region(&get_all_locations());
    let by_region = LocationName::by_region();
    assert_eq!(groups.len(), by_region.len());
    for (group, (region, names)) in groups.iter().zip(by_region.iter()) {
        assert_eq!(group.region, *region);
        let expected: Vec<Location> = names.iter().map(|n| n.get_location()).collect();
        assert_eq!(group.locations, expected);
    }
}

#[test]
fn grouping_keeps_first_seen_order() {
    let a = LocationName::Coast.get_location();
    let b = LocationName::HuntersDream.get_location();
    let c = LocationName::FishingHamlet.get_location();
    let d = LocationName::OldYharnam.get_location();
    let groups = group_locations_by_region(&vec![a, b, c, d, b]);
    assert_eq!(groups.len(), 3);
    assert_eq!(groups[0].region, "Hunter's Nightmare Headstone");
    assert_eq!(groups[0].locations, vec![a, c]);
    assert_eq!(groups[1].region, "Hunter's Dream");
    assert_eq!(groups[1].locations, vec![b, b]);
    assert_eq!(groups[2].region, "Yharnam Headstone");
    assert_eq!(groups[2].locations, vec![d]);
    assert!(group_locations_by_region(&Vec::new()).is_empty());
}

#[test]
fn empty_query_finds_the_whole_catalog() {
    assert_eq!(search_locations(""), get_all_locations());
}

#[test]
fn unknown_text_finds_nothing() {
    assert!(search_locations("nonexistent-xyz").is_empty());
}

#[test]
fn search_ignores_case() {
    let found = search_locations("HUNTER'S DREAM");
    assert_eq!(found.len(), 1);
    assert_eq!(found[0].name, "Hunter's Dream");
    let lower = search_locations("hunter's dream");
    assert_eq!(lower, found);
}

#[test]
fn search_matches_parts_of_names_in_catalog_order() {
    let found: Vec<&str> = search_locations("yharnam").iter().map(|l| l.name).collect();
    assert_eq!(found, vec!["Central Yharnam", "Old Yharnam"]);
    let found: Vec<&str> = search_locations("CATHEDRAL").iter().map(|l| l.name).collect();
    assert_eq!(
        found,
        vec![
            "Cathedral Ward",
            "Grand Cathedral Ward",
            "Upper Cathedral Ward",
            "Nightmare Grand Cathedral"
        ]
    );
    let found: Vec<&str> = search_locations("t").iter().map(|l| l.region).collect();
    assert!(found.len() > 10);
    assert_eq!(search_locations("Coast").len(), 1);
    assert_eq!(search_locations("coast ").len(), 0);
}

#[test]
fn filtering_a_list_keeps_its_order() {
    let all = get_all_locations();
    let picked = vec![all[43], all[0], all[34], all[1]];
    let found = filter_locations(&picked, "hunter");
    assert_eq!(found, vec![all[0], all[34]]);
    assert_eq!(filter_locations(&picked, ""), picked);
    assert_eq!(copy_locations(&picked), picked);
}
