//! What holds of every buffer: how locating, teleporting and validating
//! relate to one another.

use crate::save::{
    absent_from, coord_bytes, coord_pattern, coordinate_block, first_occurrence, first_offset,
    is_position_at, lced_marker, le_bytes, le_value, lemma_first_offset_absent,
    lemma_first_offset_found, occurs_at, teleported, with_bytes, COORD_BLOCK_LEN,
    COORD_OFFSET_AFTER_PATTERN, MAP_ID_OFFSET,
};
use crate::types::{CurrentPosition, Location, TeleportError};
use crate::zone::save_format;
use vstd::prelude::*;

verus! {

/// The buffer that `teleport` leaves: rewritten where the coordinate block is
/// found, untouched where it is not.
pub open spec fn after_teleport(bytes: Seq<u8>, location: Location) -> Seq<u8> {
    match coordinate_block(bytes) {
        Ok(coord) => teleported(bytes, location, coord),
        Err(_) => bytes,
    }
}

/// Writing the zone field leaves the coordinate block where it was found.
///
/// This fails only where the marker or the sentinel pattern overlaps the zone
/// field, or where the new field completes a marker in front of the first one.
pub open spec fn zone_write_keeps_block(bytes: Seq<u8>, location: Location) -> bool {
    coordinate_block(with_bytes(bytes, MAP_ID_OFFSET as int, save_format(location.map_id@)))
        == coordinate_block(bytes)
}

/// A buffer without the marker sequence has no coordinate block, and the
/// reason given is the missing marker: so `validate_save_file` and `teleport`
/// both fail with `LcedMarkerNotFound`, and `teleport` leaves every byte as it
/// was.
pub proof fn law_marker_missing(bytes: Seq<u8>, location: Location)
    requires
        absent_from(bytes, lced_marker(), 0),
    ensures
        coordinate_block(bytes) == Err::<int, TeleportError>(TeleportError::LcedMarkerNotFound),
        after_teleport(bytes, location) == bytes,
{
    lemma_first_offset_absent(bytes, lced_marker(), 0);
}

/// A buffer that holds the marker, first at `marker`, but no sentinel pattern
/// at or after it has no coordinate block, and the reason given is the missing
/// pattern: so `validate_save_file` and `teleport` both fail with
/// `CoordPatternNotFound`.
pub proof fn law_pattern_missing(bytes: Seq<u8>, marker: int, location: Location)
    requires
        first_occurrence(bytes, lced_marker(), 0, marker),
        absent_from(bytes, coord_pattern(), marker),
    ensures
        coordinate_block(bytes) == Err::<int, TeleportError>(TeleportError::CoordPatternNotFound),
        after_teleport(bytes, location) == bytes,
{
    lemma_first_offset_found(bytes, lced_marker(), 0, marker);
    lemma_first_offset_absent(bytes, coord_pattern(), marker);
}

/// Four bytes written least significant first read back as the same number.
pub proof fn lemma_le_round_trip(bytes: Seq<u8>, at: int, bits: u32)
    requires
        0 <= at,
        at + 4 <= bytes.len(),
    ensures
        le_value(with_bytes(bytes, at, le_bytes(bits)), at) == bits,
{
    let w = with_bytes(bytes, at, le_bytes(bits));
    assert(w[at] == le_bytes(bits)[0]);
    assert(w[at + 1] == le_bytes(bits)[1]);
    assert(w[at + 2] == le_bytes(bits)[2]);
    assert(w[at + 3] == le_bytes(bits)[3]);
}

/// Rewriting the coordinate block does not move it: the marker and the
/// sentinel pattern lie in front of the block, and are found as before.
pub proof fn lemma_coordinate_write_keeps_block(bytes: Seq<u8>, coord: int, data: Seq<u8>)
    requires
        coordinate_block(bytes) == Ok::<int, TeleportError>(coord),
        data.len() == COORD_BLOCK_LEN,
    ensures
        coordinate_block(with_bytes(bytes, coord, data)) == Ok::<int, TeleportError>(coord),
{
    let after = with_bytes(bytes, coord, data);
    let marker = first_offset(bytes, lced_marker(), 0)->0;
    let pattern = first_offset(bytes, coord_pattern(), marker)->0;
    assert(first_occurrence(bytes, lced_marker(), 0, marker));
    assert(first_occurrence(bytes, coord_pattern(), marker, pattern));
    assert(coord == pattern + COORD_OFFSET_AFTER_PATTERN);
    assert forall|j: int| 0 <= j <= marker implies occurs_at(after, lced_marker(), j)
        == occurs_at(bytes, lced_marker(), j) by {
        lemma_same_bytes_same_occurrence(bytes, after, lced_marker(), j);
    }
    assert forall|j: int| marker <= j <= pattern implies occurs_at(after, coord_pattern(), j)
        == occurs_at(bytes, coord_pattern(), j) by {
        lemma_same_bytes_same_occurrence(bytes, after, coord_pattern(), j);
    }
    assert(first_occurrence(after, lced_marker(), 0, marker));
    assert(first_occurrence(after, coord_pattern(), marker, pattern));
    lemma_first_offset_found(after, lced_marker(), 0, marker);
    lemma_first_offset_found(after, coord_pattern(), marker, pattern);
}

/// Two buffers of one length that agree on the bytes from `at` to the end of
/// the pattern agree on whether the pattern stands at `at`.
pub proof fn lemma_same_bytes_same_occurrence(a: Seq<u8>, b: Seq<u8>, pattern: Seq<u8>, at: int)
    requires
        a.len() == b.len(),
        forall|i: int| at <= i < at + pattern.len() && 0 <= i < a.len() ==> a[i] == b[i],
    ensures
        occurs_at(a, pattern, at) == occurs_at(b, pattern, at),
{
    if occurs_at(a, pattern, at) {
        assert forall|k: int| 0 <= k < pattern.len() implies #[trigger] b[at + k] == pattern[k] by {
            assert(a[at + k] == pattern[k]);
        }
    }
    if occurs_at(b, pattern, at) {
        assert forall|k: int| 0 <= k < pattern.len() implies #[trigger] a[at + k] == pattern[k] by {
            assert(b[at + k] == pattern[k]);
        }
    }
}

/// Round trip: where a teleport to `location` succeeds, and writing the zone
/// field has not moved the coordinate block, validating the rewritten buffer
/// finds the block where it was and reads back the destination's coordinates,
/// bit for bit, and its zone code in the four-byte form.
pub proof fn law_validate_after_teleport(
    bytes: Seq<u8>,
    location: Location,
    coord: int,
    position: CurrentPosition,
)
    requires
        coordinate_block(bytes) == Ok::<int, TeleportError>(coord),
        zone_write_keeps_block(bytes, location),
        is_position_at(after_teleport(bytes, location), coord, position),
    ensures
        coordinate_block(after_teleport(bytes, location)) == Ok::<int, TeleportError>(coord),
        position.x == location.x,
        position.y == location.y,
        position.z == location.z,
        position.map_id@ == save_format(location.map_id@),
{
    let zoned = with_bytes(bytes, MAP_ID_OFFSET as int, save_format(location.map_id@));
    let data = coord_bytes(location.x, location.y, location.z);
    let after = after_teleport(bytes, location);
    assert(after == with_bytes(zoned, coord, data));
    lemma_coordinate_write_keeps_block(zoned, coord, data);
    lemma_block_lies_behind_pattern(bytes, coord);
    assert(le_value(after, coord) == location.x) by {
        lemma_le_round_trip(zoned, coord, location.x);
        let w = with_bytes(zoned, coord, le_bytes(location.x));
        assert(after[coord + 0] == w[coord + 0]);
        assert(after[coord + 1] == w[coord + 1]);
        assert(after[coord + 2] == w[coord + 2]);
        assert(after[coord + 3] == w[coord + 3]);
    }
    assert(le_value(after, coord + 4) == location.y) by {
        lemma_le_round_trip(zoned, coord + 4, location.y);
        let w = with_bytes(zoned, coord + 4, le_bytes(location.y));
        assert(after[coord + 4 + 0] == w[coord + 4 + 0]);
        assert(after[coord + 4 + 1] == w[coord + 4 + 1]);
        assert(after[coord + 4 + 2] == w[coord + 4 + 2]);
        assert(after[coord + 4 + 3] == w[coord + 4 + 3]);
    }
    assert(le_value(after, coord + 8) == location.z) by {
        lemma_le_round_trip(zoned, coord + 8, location.z);
        let w = with_bytes(zoned, coord + 8, le_bytes(location.z));
        assert(after[coord + 8 + 0] == w[coord + 8 + 0]);
        assert(after[coord + 8 + 1] == w[coord + 8 + 1]);
        assert(after[coord + 8 + 2] == w[coord + 8 + 2]);
        assert(after[coord + 8 + 3] == w[coord + 8 + 3]);
    }
    assert(after.subrange(MAP_ID_OFFSET as int, MAP_ID_OFFSET + 4) =~= save_format(
        location.map_id@,
    ));
}

/// A coordinate block lies at least twelve bytes into the buffer, and wholly
/// inside it.
pub proof fn lemma_block_lies_behind_pattern(bytes: Seq<u8>, coord: int)
    requires
        coordinate_block(bytes) == Ok::<int, TeleportError>(coord),
    ensures
        COORD_OFFSET_AFTER_PATTERN <= coord,
        coord + COORD_BLOCK_LEN <= bytes.len(),
{
    let marker = first_offset(bytes, lced_marker(), 0)->0;
    let pattern = first_offset(bytes, coord_pattern(), marker)->0;
    assert(first_occurrence(bytes, lced_marker(), 0, marker));
    assert(first_occurrence(bytes, coord_pattern(), marker, pattern));
}

/// Idempotence: where writing the zone field does not move the coordinate
/// block, a second teleport to the same destination changes nothing.
pub proof fn law_teleport_twice(bytes: Seq<u8>, location: Location)
    requires
        coordinate_block(bytes) is Ok ==> zone_write_keeps_block(bytes, location),
    ensures
        after_teleport(after_teleport(bytes, location), location) == after_teleport(
            bytes,
            location,
        ),
{
    match coordinate_block(bytes) {
        Ok(coord) => {
            let zoned = with_bytes(bytes, MAP_ID_OFFSET as int, save_format(location.map_id@));
            let data = coord_bytes(location.x, location.y, location.z);
            let once = after_teleport(bytes, location);
            assert(once == with_bytes(zoned, coord, data));
            lemma_coordinate_write_keeps_block(zoned, coord, data);
            lemma_block_lies_behind_pattern(bytes, coord);
            assert(teleported(once, location, coord) =~= once);
        },
        Err(_) => {},
    }
}

/// A record that lies clear of the zone field stays where it is when the
/// field is written: this holds where the first marker stands at the very
/// start of the buffer or behind the field, the sentinel pattern behind the
/// field, and the zone code holds neither the first byte of the marker nor
/// that of the pattern.
pub proof fn law_clear_record_stays(
    bytes: Seq<u8>,
    location: Location,
    marker: int,
    pattern: int,
)
    requires
        first_occurrence(bytes, lced_marker(), 0, marker),
        first_occurrence(bytes, coord_pattern(), marker, pattern),
        marker == 0 || marker >= MAP_ID_OFFSET + 4,
        pattern >= MAP_ID_OFFSET + 4,
        location.map_id[0] != 0x4C,
        location.map_id[1] != 0x4C,
        location.map_id[0] != 0xFF,
    ensures
        zone_write_keeps_block(bytes, location),
{
    let field = save_format(location.map_id@);
    let zoned = with_bytes(bytes, MAP_ID_OFFSET as int, field);
    let m = lced_marker();
    let p = coord_pattern();
    assert forall|j: int| 0 <= j < marker implies !occurs_at(zoned, m, j) by {
        if j + 4 <= 4 || j >= 8 {
            lemma_same_bytes_same_occurrence(bytes, zoned, m, j);
        } else if j <= 4 {
            assert(zoned[j + (4 - j)] != m[4 - j]);
        } else if j == 5 {
            assert(zoned[j + 0] != m[0]);
        } else if j == 6 {
            assert(zoned[j + 0] != m[0]);
        } else {
            assert(zoned[j + 0] != m[0]);
        }
    }
    lemma_same_bytes_same_occurrence(bytes, zoned, m, marker);
    assert(first_occurrence(zoned, m, 0, marker));
    assert forall|j: int| marker <= j < pattern implies !occurs_at(zoned, p, j) by {
        if j >= 8 {
            lemma_same_bytes_same_occurrence(bytes, zoned, p, j);
        } else if j == 0 {
            assert(bytes[marker + 0] == m[0]);
            assert(zoned[j + 0] != p[0]);
        } else if j <= 4 {
            assert(zoned[j + (4 - j)] != p[4 - j]);
        } else if j == 5 {
            assert(zoned[j + 0] != p[0]);
        } else if j == 6 {
            assert(zoned[j + 1] != p[1]);
        } else {
            assert(zoned[j + 0] != p[0]);
        }
    }
    lemma_same_bytes_same_occurrence(bytes, zoned, p, pattern);
    assert(first_occurrence(zoned, p, marker, pattern));
    lemma_first_offset_found(bytes, m, 0, marker);
    lemma_first_offset_found(bytes, p, marker, pattern);
    lemma_first_offset_found(zoned, m, 0, marker);
    lemma_first_offset_found(zoned, p, marker, pattern);
}

} // verus!
