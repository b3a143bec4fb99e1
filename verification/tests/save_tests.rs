use lantern_teleport::catalog::LocationName;
use lantern_teleport::registry::search_locations;
use lantern_teleport::save::{
    find_coordinates_offset, find_lced_marker, locate_coordinates, read_coordinates, read_map_id,
    teleport, teleport_to_location, validate_save_file, write_coordinates, write_map_id,
};
use lantern_teleport::types::{Location, TeleportError};
use lantern_teleport::zone::to_save_format;

const MARKER: [u8; 4] = [0x4C, 0x43, 0x45, 0x44];
const PATTERN: [u8; 12] = [0xFF, 0xFF, 0xFF, 0xFF, 0, 0, 0, 0, 0, 0, 0, 0];

fn buffer(len: usize, marker_at: Option<usize>, pattern_at: Option<usize>) -> Vec<u8> {
    let mut bytes = vec![0xAAu8; len];
    if let Some(at) = marker_at {
        bytes[at..at + 4].copy_from_slice(&MARKER);
    }
    if let Some(at) = pattern_at {
        bytes[at..at + 12].copy_from_slice(&PATTERN);
    }
    bytes
}

fn dream() -> Location {
    LocationName::HuntersDream.get_location()
}

#[test]
fn zone_code_is_swapped_and_padded() {
    assert_eq!(to_save_format(&[0x18, 0x01]), [0x00, 0x00, 0x01, 0x18]);
    assert_eq!(to_save_format(&[0x00, 0x15]), [0x00, 0x00, 0x15, 0x00]);
}

#[test]
fn central_yharnam_zone_field() {
    let found = search_locations("central yharnam");
    assert_eq!(found.len(), 1);
    assert_eq!(found[0].map_id, [0x18, 0x01]);
    let mut bytes = buffer(64, Some(0), Some(10));
    assert_eq!(teleport(&mut bytes, &found[0]), Ok(()));
    assert_eq!(&bytes[4..8], &[0x00, 0x00, 0x01, 0x18]);
}

#[test]
fn marker_is_found_first_and_last() {
    assert_eq!(find_lced_marker(&buffer(32, Some(7), None)), Some(7));
    assert_eq!(find_lced_marker(&buffer(32, Some(28), None)), Some(28));
    assert_eq!(find_lced_marker(&buffer(32, Some(0), None)), Some(0));
    let mut twice = buffer(32, Some(3), None);
    twice[20..24].copy_from_slice(&MARKER);
    assert_eq!(find_lced_marker(&twice), Some(3));
    assert_eq!(find_lced_marker(&buffer(32, None, None)), None);
    assert_eq!(find_lced_marker(&[0x4C, 0x43, 0x45]), None);
    assert_eq!(find_lced_marker(&[]), None);
}

#[test]
fn pattern_is_sought_from_the_marker_on() {
    let mut bytes = buffer(80, Some(30), Some(2));
    assert_eq!(find_coordinates_offset(&bytes, 30), None);
    assert_eq!(find_coordinates_offset(&bytes, 2), Some(14));
    assert_eq!(find_coordinates_offset(&bytes, 0), Some(14));
    bytes[40..52].copy_from_slice(&PATTERN);
    assert_eq!(find_coordinates_offset(&bytes, 30), Some(52));
    assert_eq!(find_coordinates_offset(&bytes, 40), Some(52));
    assert_eq!(find_coordinates_offset(&bytes, 41), None);
    assert_eq!(find_coordinates_offset(&bytes, 500), None);
}

#[test]
fn marker_at_100_and_pattern_at_150() {
    let mut bytes = buffer(256, Some(100), Some(150));
    assert_eq!(find_lced_marker(&bytes), Some(100));
    assert_eq!(find_coordinates_offset(&bytes, 100), Some(162));
    assert_eq!(locate_coordinates(&bytes), Ok(162));
    let before = bytes.clone();
    assert_eq!(teleport(&mut bytes, &dream()), Ok(()));
    assert_eq!(
        &bytes[162..174],
        &[0x00, 0x00, 0x00, 0xC1, 0x00, 0x00, 0xC0, 0xC0, 0x00, 0x00, 0x90, 0xC1]
    );
    assert_eq!(&bytes[4..8], &[0x00, 0x00, 0x15, 0x00]);
    for i in 0..bytes.len() {
        if !(4..8).contains(&i) && !(162..174).contains(&i) {
            assert_eq!(bytes[i], before[i]);
        }
    }
}

#[test]
fn coordinates_are_written_as_float_bytes() {
    let mut bytes = vec![0u8; 20];
    write_coordinates(&mut bytes, 3, &dream());
    let mut expected = vec![0u8; 20];
    expected[3..7].copy_from_slice(&(-8.0f32).to_le_bytes());
    expected[7..11].copy_from_slice(&(-6.0f32).to_le_bytes());
    expected[11..15].copy_from_slice(&(-18.0f32).to_le_bytes());
    assert_eq!(bytes, expected);
    let read = read_coordinates(&bytes, 3).unwrap();
    assert_eq!(f32::from_bits(read.0), -8.0);
    assert_eq!(f32::from_bits(read.1), -6.0);
    assert_eq!(f32::from_bits(read.2), -18.0);
}

#[test]
fn coordinates_need_twelve_bytes() {
    let bytes = vec![1u8; 20];
    assert!(read_coordinates(&bytes, 8).is_ok());
    assert_eq!(read_coordinates(&bytes, 9), Err(TeleportError::InvalidOffset));
    assert_eq!(read_coordinates(&bytes, usize::MAX), Err(TeleportError::InvalidOffset));
    assert_eq!(read_coordinates(&[], 0), Err(TeleportError::InvalidOffset));
    let one = [0x78u8, 0x56, 0x34, 0x12, 1, 0, 0, 0, 0, 0, 0, 0x80];
    assert_eq!(read_coordinates(&one, 0), Ok((0x12345678, 1, 0x80000000)));
}

#[test]
fn zone_field_lies_at_a_fixed_place() {
    let mut bytes: Vec<u8> = (0u8..16).collect();
    assert_eq!(read_map_id(&bytes), [4, 5, 6, 7]);
    write_map_id(&mut bytes, &LocationName::MoonsideLake.get_location());
    assert_eq!(bytes, vec![0, 1, 2, 3, 0x00, 0x00, 0x20, 0x02, 8, 9, 10, 11, 12, 13, 14, 15]);
}

#[test]
fn both_writes_at_once() {
    let mut bytes = vec![0x11u8; 30];
    teleport_to_location(&mut bytes, 12, &dream());
    assert_eq!(&bytes[0..4], &[0x11; 4]);
    assert_eq!(&bytes[4..8], &[0x00, 0x00, 0x15, 0x00]);
    assert_eq!(&bytes[8..12], &[0x11; 4]);
    assert_eq!(&bytes[12..16], &(-8.0f32).to_le_bytes());
    assert_eq!(&bytes[24..30], &[0x11; 6]);
}

#[test]
fn without_marker_both_fail_and_nothing_is_written() {
    let mut bytes = buffer(200, None, Some(50));
    let before = bytes.clone();
    assert_eq!(validate_save_file(&bytes), Err(TeleportError::LcedMarkerNotFound));
    assert_eq!(teleport(&mut bytes, &dream()), Err(TeleportError::LcedMarkerNotFound));
    assert_eq!(bytes, before);
    let mut empty: Vec<u8> = Vec::new();
    assert_eq!(teleport(&mut empty, &dream()), Err(TeleportError::LcedMarkerNotFound));
    assert_eq!(validate_save_file(&empty), Err(TeleportError::LcedMarkerNotFound));
}

#[test]
fn without_pattern_after_marker_both_fail() {
    let mut bytes = buffer(200, Some(60), Some(20));
    let before = bytes.clone();
    assert_eq!(validate_save_file(&bytes), Err(TeleportError::CoordPatternNotFound));
    assert_eq!(teleport(&mut bytes, &dream()), Err(TeleportError::CoordPatternNotFound));
    assert_eq!(bytes, before);
    let only_marker = buffer(200, Some(60), None);
    assert_eq!(validate_save_file(&only_marker), Err(TeleportError::CoordPatternNotFound));
}

#[test]
fn block_cut_short_is_an_invalid_offset() {
    let mut bytes = buffer(40, Some(0), Some(20));
    let before = bytes.clone();
    assert_eq!(locate_coordinates(&bytes), Err(TeleportError::InvalidOffset));
    assert_eq!(validate_save_file(&bytes), Err(TeleportError::InvalidOffset));
    assert_eq!(teleport(&mut bytes, &dream()), Err(TeleportError::InvalidOffset));
    assert_eq!(bytes, before);
    let mut exact = buffer(44, Some(0), Some(20));
    assert_eq!(teleport(&mut exact, &dream()), Ok(()));
}

#[test]
fn validate_reads_what_teleport_wrote() {
    for name in LocationName::all() {
        let location = name.get_location();
        let mut bytes = buffer(300, Some(0), Some(120));
        assert_eq!(teleport(&mut bytes, &location), Ok(()));
        let position = validate_save_file(&bytes).unwrap();
        assert_eq!(position.x, location.x);
        assert_eq!(position.y, location.y);
        assert_eq!(position.z, location.z);
        assert_eq!(position.map_id, to_save_format(&location.map_id));
    }
}

#[test]
fn validate_does_not_need_a_teleport() {
    let mut bytes = buffer(64, Some(8), Some(16));
    bytes[4..8].copy_from_slice(&[9, 8, 7, 6]);
    bytes[28..32].copy_from_slice(&1.5f32.to_le_bytes());
    bytes[32..36].copy_from_slice(&(-2.25f32).to_le_bytes());
    bytes[36..40].copy_from_slice(&1500.0f32.to_le_bytes());
    let position = validate_save_file(&bytes).unwrap();
    assert_eq!(f32::from_bits(position.x), 1.5);
    assert_eq!(f32::from_bits(position.y), -2.25);
    assert_eq!(f32::from_bits(position.z), 1500.0);
    assert_eq!(position.map_id, [9, 8, 7, 6]);
}

#[test]
fn second_teleport_changes_nothing() {
    let location = LocationName::Coast.get_location();
    let mut once = buffer(300, Some(0), Some(120));
    assert_eq!(teleport(&mut once, &location), Ok(()));
    let mut twice = once.clone();
    assert_eq!(teleport(&mut twice, &location), Ok(()));
    assert_eq!(once, twice);
}

#[test]
fn marker_under_the_zone_field_is_overwritten() {
    let mut bytes = buffer(120, Some(4), Some(8));
    bytes[60..64].copy_from_slice(&MARKER);
    bytes[70..82].copy_from_slice(&PATTERN);
    assert_eq!(locate_coordinates(&bytes), Ok(20));
    assert_eq!(teleport(&mut bytes, &dream()), Ok(()));
    assert_eq!(locate_coordinates(&bytes), Ok(82));
}

#[test]
fn error_messages() {
    assert_eq!(
        TeleportError::ReadError("gone".to_string()).message(),
        "Failed to read the save file: gone"
    );
    assert_eq!(
        TeleportError::WriteError("full".to_string()).message(),
        "Failed to write the save file: full"
    );
    assert_eq!(
        TeleportError::LcedMarkerNotFound.message(),
        "Could not find the LCED marker in the save file"
    );
    assert_eq!(
        TeleportError::CoordPatternNotFound.message(),
        "Could not find the coordinate pattern after the LCED marker"
    );
    assert_eq!(
        TeleportError::InvalidOffset.message(),
        "The save file ends inside the coordinate block"
    );
}
