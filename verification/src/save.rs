//! Finding and rewriting the position record inside a save buffer.
//!
//! A save buffer is opaque but for four things: a four-byte marker, a
//! twelve-byte sentinel pattern somewhere at or after the marker, the twelve
//! bytes of coordinates that follow the sentinel, and a four-byte zone field at
//! a fixed place near the start of the buffer.

use crate::types::{CurrentPosition, Location, TeleportError};
use crate::zone::{save_format, to_save_format};
use vstd::prelude::*;

verus! {

/// Offset of the zone field, whatever else the buffer holds.
pub const MAP_ID_OFFSET: usize = 4;

/// Bytes from the start of the sentinel pattern to the coordinate block.
pub const COORD_OFFSET_AFTER_PATTERN: usize = 12;

/// Length of the coordinate block: three numbers of four bytes.
pub const COORD_BLOCK_LEN: usize = 12;

/// The marker sequence, the letters `LCED`.
pub open spec fn lced_marker() -> Seq<u8> {
    seq![0x4Cu8, 0x43u8, 0x45u8, 0x44u8]
}

/// The sentinel pattern: four `0xFF` bytes, then eight zero bytes.
pub open spec fn coord_pattern() -> Seq<u8> {
    seq![0xFFu8, 0xFFu8, 0xFFu8, 0xFFu8, 0u8, 0u8, 0u8, 0u8, 0u8, 0u8, 0u8, 0u8]
}

/// `pattern` stands in `bytes` at offset `at`, wholly inside the buffer.
pub open spec fn occurs_at(bytes: Seq<u8>, pattern: Seq<u8>, at: int) -> bool {
    &&& 0 <= at
    &&& at + pattern.len() <= bytes.len()
    &&& forall|k: int| 0 <= k < pattern.len() ==> #[trigger] bytes[at + k] == pattern[k]
}

/// `at` is the first offset from `from` on at which `pattern` stands in `bytes`.
pub open spec fn first_occurrence(bytes: Seq<u8>, pattern: Seq<u8>, from: int, at: int) -> bool {
    &&& from <= at
    &&& occurs_at(bytes, pattern, at)
    &&& forall|j: int| from <= j < at ==> !occurs_at(bytes, pattern, j)
}

/// `pattern` stands nowhere in `bytes` at an offset from `from` on.
pub open spec fn absent_from(bytes: Seq<u8>, pattern: Seq<u8>, from: int) -> bool {
    forall|j: int| from <= j ==> !occurs_at(bytes, pattern, j)
}

/// Tells whether `pattern` stands in `bytes` at `at`.
fn stands_at(bytes: &[u8], pattern: &[u8], at: usize) -> (found: bool)
    requires
        at + pattern@.len() <= bytes@.len(),
    ensures
        found == occurs_at(bytes@, pattern@, at as int),
{
    let n = bytes.len();
    let mut k: usize = 0;
    while k < pattern.len()
        invariant
            k <= pattern@.len(),
            n == bytes@.len(),
            at + pattern@.len() <= n,
            forall|m: int| 0 <= m < k ==> #[trigger] bytes@[at + m] == pattern@[m],
        decreases pattern@.len() - k,
    {
        if bytes[at + k] != pattern[k] {
            assert(bytes@[at + k] != pattern@[k as int]);
            return false;
        }
        k += 1;
    }
    true
}

/// Finds the first offset from `from` on at which `pattern` stands in
/// `bytes`. Every offset is tried in turn, up to the last at which the
/// pattern still fits in the buffer.
fn find_from(bytes: &[u8], pattern: &[u8], from: usize) -> (found: Option<usize>)
    ensures
        match found {
            Some(at) => first_occurrence(bytes@, pattern@, from as int, at as int),
            None => absent_from(bytes@, pattern@, from as int),
        },
{
    let n = bytes.len();
    let m = pattern.len();
    if n < m || from > n - m {
        return None;
    }
    let mut i: usize = from;
    while i <= n - m
        invariant
            n == bytes@.len(),
            m == pattern@.len(),
            m <= n,
            from <= i <= n - m + 1,
            forall|j: int| from <= j < i ==> !occurs_at(bytes@, pattern@, j),
        decreases n - i,
    {
        if stands_at(bytes, pattern, i) {
            return Some(i);
        }
        if i == n - m {
            return None;
        }
        i += 1;
    }
    None
}

/// Finds the first marker sequence in the buffer.
///
/// Every offset is tried in turn, the last four bytes of the buffer included.
pub fn find_lced_marker(bytes: &[u8]) -> (found: Option<usize>)
    ensures
        match found {
            Some(at) => first_occurrence(bytes@, lced_marker(), 0, at as int),
            None => absent_from(bytes@, lced_marker(), 0),
        },
{
    let marker: [u8; 4] = [0x4C, 0x43, 0x45, 0x44];
    assert(marker@ =~= lced_marker());
    find_from(bytes, marker.as_slice(), 0)
}

/// Finds the coordinate block: the offset just behind the first sentinel
/// pattern that stands at or after `lced_offset`.
///
/// The search begins at `lced_offset` itself, so that a pattern before the
/// marker is never taken, and tries every offset up to the last twelve bytes.
pub fn find_coordinates_offset(bytes: &[u8], lced_offset: usize) -> (found: Option<usize>)
    ensures
        match found {
            Some(coord) => {
                &&& coord >= COORD_OFFSET_AFTER_PATTERN
                &&& first_occurrence(
                    bytes@,
                    coord_pattern(),
                    lced_offset as int,
                    coord - COORD_OFFSET_AFTER_PATTERN,
                )
            },
            None => absent_from(bytes@, coord_pattern(), lced_offset as int),
        },
{
    let pattern: [u8; 12] = [0xFF, 0xFF, 0xFF, 0xFF, 0x00, 0x00, 0x00, 0x00, 0x00, 0x00, 0x00, 0x00];
    assert(pattern@ =~= coord_pattern());
    let _len = bytes.len();
    match find_from(bytes, pattern.as_slice(), lced_offset) {
        Some(at) => Some(at + COORD_OFFSET_AFTER_PATTERN),
        None => None,
    }
}

/// The four bytes of `bits`, least significant first.
pub open spec fn le_bytes(bits: u32) -> Seq<u8> {
    seq![
        (bits % 256) as u8,
        (bits / 256 % 256) as u8,
        (bits / 65536 % 256) as u8,
        (bits / 16777216 % 256) as u8,
    ]
}

/// The number whose four bytes, least significant first, start at `at`.
pub open spec fn le_value(bytes: Seq<u8>, at: int) -> int {
    bytes[at] + 256 * bytes[at + 1] + 65536 * bytes[at + 2] + 16777216 * bytes[at + 3]
}

/// `bytes` with the bytes from `at` on replaced by `data`.
pub open spec fn with_bytes(bytes: Seq<u8>, at: int, data: Seq<u8>) -> Seq<u8> {
    Seq::new(
        bytes.len(),
        |i: int|
            if at <= i < at + data.len() {
                data[i - at]
            } else {
                bytes[i]
            },
    )
}

/// The twelve bytes of a coordinate block.
pub open spec fn coord_bytes(x: u32, y: u32, z: u32) -> Seq<u8> {
    le_bytes(x) + le_bytes(y) + le_bytes(z)
}

/// Writes `bits` at `at`, least significant byte first.
fn write_u32_le(bytes: &mut Vec<u8>, at: usize, bits: u32)
    requires
        at + 4 <= old(bytes)@.len(),
    ensures
        final(bytes)@ == with_bytes(old(bytes)@, at as int, le_bytes(bits)),
{
    let _len = bytes.len();
    let b0: u8 = (bits % 256) as u8;
    let b1: u8 = (bits / 256 % 256) as u8;
    let b2: u8 = (bits / 65536 % 256) as u8;
    let b3: u8 = (bits / 16777216 % 256) as u8;
    bytes.set(at, b0);
    bytes.set(at + 1, b1);
    bytes.set(at + 2, b2);
    bytes.set(at + 3, b3);
    assert(bytes@ =~= with_bytes(old(bytes)@, at as int, le_bytes(bits)));
}

/// Reads the number whose four bytes, least significant first, start at `at`.
fn read_u32_le(bytes: &[u8], at: usize) -> (bits: u32)
    requires
        at + 4 <= bytes@.len(),
    ensures
        bits == le_value(bytes@, at as int),
{
    let b0: u32 = bytes[at] as u32;
    let b1: u32 = bytes[at + 1] as u32;
    let b2: u32 = bytes[at + 2] as u32;
    let b3: u32 = bytes[at + 3] as u32;
    b0 + 256 * b1 + 65536 * b2 + 16777216 * b3
}

/// Reads the three coordinates of the block at `offset`.
///
/// Fails with `InvalidOffset` when fewer than twelve bytes remain.
pub fn read_coordinates(bytes: &[u8], offset: usize) -> (read: Result<(u32, u32, u32), TeleportError>)
    ensures
        offset + COORD_BLOCK_LEN <= bytes@.len() ==> read == Ok::<(u32, u32, u32), TeleportError>(
            (
                le_value(bytes@, offset as int) as u32,
                le_value(bytes@, offset + 4) as u32,
                le_value(bytes@, offset + 8) as u32,
            ),
        ),
        offset + COORD_BLOCK_LEN > bytes@.len() ==> read == Err::<
            (u32, u32, u32),
            TeleportError,
        >(TeleportError::InvalidOffset),
{
    let n = bytes.len();
    if n < COORD_BLOCK_LEN || offset > n - COORD_BLOCK_LEN {
        return Err(TeleportError::InvalidOffset);
    }
    let x = read_u32_le(bytes, offset);
    let y = read_u32_le(bytes, offset + 4);
    let z = read_u32_le(bytes, offset + 8);
    Ok((x, y, z))
}

/// Reads the four raw bytes of the zone field.
///
/// The field lies at a fixed place, wherever the coordinate block was found.
pub fn read_map_id(bytes: &[u8]) -> (field: [u8; 4])
    requires
        bytes@.len() >= MAP_ID_OFFSET + 4,
    ensures
        field@ == bytes@.subrange(MAP_ID_OFFSET as int, MAP_ID_OFFSET + 4),
{
    let field = [
        bytes[MAP_ID_OFFSET],
        bytes[MAP_ID_OFFSET + 1],
        bytes[MAP_ID_OFFSET + 2],
        bytes[MAP_ID_OFFSET + 3],
    ];
    assert(field@ =~= bytes@.subrange(MAP_ID_OFFSET as int, MAP_ID_OFFSET + 4));
    field
}

/// Overwrites the coordinate block at `offset` with the destination's
/// coordinates. Every other byte stays as it was.
pub fn write_coordinates(bytes: &mut Vec<u8>, offset: usize, location: &Location)
    requires
        offset + COORD_BLOCK_LEN <= old(bytes)@.len(),
    ensures
        final(bytes)@ == with_bytes(
            old(bytes)@,
            offset as int,
            coord_bytes(location.x, location.y, location.z),
        ),
{
    let _len = bytes.len();
    write_u32_le(bytes, offset, location.x);
    write_u32_le(bytes, offset + 4, location.y);
    write_u32_le(bytes, offset + 8, location.z);
    assert(bytes@ =~= with_bytes(
        old(bytes)@,
        offset as int,
        coord_bytes(location.x, location.y, location.z),
    ));
}

/// Overwrites the zone field with the destination's zone code in its
/// four-byte form. Every other byte stays as it was.
pub fn write_map_id(bytes: &mut Vec<u8>, location: &Location)
    requires
        old(bytes)@.len() >= MAP_ID_OFFSET + 4,
    ensures
        final(bytes)@ == with_bytes(
            old(bytes)@,
            MAP_ID_OFFSET as int,
            save_format(location.map_id@),
        ),
{
    let field = to_save_format(&location.map_id);
    bytes.set(MAP_ID_OFFSET, field[0]);
    bytes.set(MAP_ID_OFFSET + 1, field[1]);
    bytes.set(MAP_ID_OFFSET + 2, field[2]);
    bytes.set(MAP_ID_OFFSET + 3, field[3]);
    assert(bytes@ =~= with_bytes(old(bytes)@, MAP_ID_OFFSET as int, save_format(location.map_id@)));
}

/// The first offset from `from` on at which `pattern` stands in `bytes`, if
/// there is one.
pub open spec fn first_offset(bytes: Seq<u8>, pattern: Seq<u8>, from: int) -> Option<int> {
    if exists|at: int| first_occurrence(bytes, pattern, from, at) {
        Some(choose|at: int| first_occurrence(bytes, pattern, from, at))
    } else {
        None
    }
}

/// A first occurrence is the only one: `first_offset` names it.
pub proof fn lemma_first_offset_found(bytes: Seq<u8>, pattern: Seq<u8>, from: int, at: int)
    requires
        first_occurrence(bytes, pattern, from, at),
    ensures
        first_offset(bytes, pattern, from) == Some(at),
{
    let chosen = choose|a: int| first_occurrence(bytes, pattern, from, a);
    assert(first_occurrence(bytes, pattern, from, chosen));
    if chosen < at {
        assert(!occurs_at(bytes, pattern, chosen));
    } else if at < chosen {
        assert(!occurs_at(bytes, pattern, at));
    }
}

/// Where the pattern stands nowhere, `first_offset` finds nothing.
pub proof fn lemma_first_offset_absent(bytes: Seq<u8>, pattern: Seq<u8>, from: int)
    requires
        absent_from(bytes, pattern, from),
    ensures
        first_offset(bytes, pattern, from) is None,
{
    if exists|at: int| first_occurrence(bytes, pattern, from, at) {
        let at = choose|at: int| first_occurrence(bytes, pattern, from, at);
        assert(!occurs_at(bytes, pattern, at));
    }
}

/// Where the coordinate block of a buffer lies, or why it has none.
///
/// The marker is sought from the start, the sentinel pattern from the marker
/// on; the block begins behind the pattern and must lie wholly in the buffer.
pub open spec fn coordinate_block(bytes: Seq<u8>) -> Result<int, TeleportError> {
    match first_offset(bytes, lced_marker(), 0) {
        None => Err(TeleportError::LcedMarkerNotFound),
        Some(marker) => match first_offset(bytes, coord_pattern(), marker) {
            None => Err(TeleportError::CoordPatternNotFound),
            Some(pattern) => if pattern + COORD_OFFSET_AFTER_PATTERN + COORD_BLOCK_LEN
                <= bytes.len() {
                Ok(pattern + COORD_OFFSET_AFTER_PATTERN)
            } else {
                Err(TeleportError::InvalidOffset)
            },
        },
    }
}

/// The buffer after both writes of a teleport to the block at `coord`.
pub open spec fn teleported(bytes: Seq<u8>, location: Location, coord: int) -> Seq<u8> {
    with_bytes(
        with_bytes(bytes, MAP_ID_OFFSET as int, save_format(location.map_id@)),
        coord,
        coord_bytes(location.x, location.y, location.z),
    )
}

/// `position` is what a buffer holds whose coordinate block lies at `coord`:
/// the three numbers of the block, and the four raw bytes of the zone field.
pub open spec fn is_position_at(bytes: Seq<u8>, coord: int, position: CurrentPosition) -> bool {
    &&& position.x == le_value(bytes, coord)
    &&& position.y == le_value(bytes, coord + 4)
    &&& position.z == le_value(bytes, coord + 8)
    &&& position.map_id@ == bytes.subrange(MAP_ID_OFFSET as int, MAP_ID_OFFSET + 4)
}

/// Locates the coordinate block of a buffer.
///
/// The marker is sought first, then the sentinel pattern from the marker on;
/// the first of these steps that fails decides the error.
pub fn locate_coordinates(bytes: &[u8]) -> (located: Result<usize, TeleportError>)
    ensures
        match coordinate_block(bytes@) {
            Ok(coord) => {
                &&& located matches Ok(at)
                &&& at == coord
                &&& COORD_OFFSET_AFTER_PATTERN <= coord
                &&& coord + COORD_BLOCK_LEN <= bytes@.len()
            },
            Err(e) => located == Err::<usize, TeleportError>(e),
        },
{
    let lced_offset = match find_lced_marker(bytes) {
        Some(at) => at,
        None => {
            proof {
                lemma_first_offset_absent(bytes@, lced_marker(), 0);
            }
            return Err(TeleportError::LcedMarkerNotFound);
        },
    };
    proof {
        lemma_first_offset_found(bytes@, lced_marker(), 0, lced_offset as int);
    }
    let coord_offset = match find_coordinates_offset(bytes, lced_offset) {
        Some(coord) => coord,
        None => {
            proof {
                lemma_first_offset_absent(bytes@, coord_pattern(), lced_offset as int);
            }
            return Err(TeleportError::CoordPatternNotFound);
        },
    };
    proof {
        lemma_first_offset_found(
            bytes@,
            coord_pattern(),
            lced_offset as int,
            coord_offset - COORD_OFFSET_AFTER_PATTERN,
        );
    }
    let n = bytes.len();
    if coord_offset > n - COORD_BLOCK_LEN {
        return Err(TeleportError::InvalidOffset);
    }
    Ok(coord_offset)
}

/// Writes the destination's zone code and coordinates into the buffer, the
/// coordinate block being at `coord_offset`.
pub fn teleport_to_location(bytes: &mut Vec<u8>, coord_offset: usize, location: &Location)
    requires
        old(bytes)@.len() >= MAP_ID_OFFSET + 4,
        coord_offset + COORD_BLOCK_LEN <= old(bytes)@.len(),
    ensures
        final(bytes)@ == teleported(old(bytes)@, *location, coord_offset as int),
{
    write_map_id(bytes, location);
    write_coordinates(bytes, coord_offset, location);
}

/// Rewrites the buffer so that the character stands at `location`.
///
/// Both locate steps run before anything is written: on an error the buffer is
/// as it was, and on success the zone field and the coordinate block are both
/// rewritten and nothing else.
pub fn teleport(bytes: &mut Vec<u8>, location: &Location) -> (done: Result<(), TeleportError>)
    ensures
        match coordinate_block(old(bytes)@) {
            Ok(coord) => done is Ok && final(bytes)@ == teleported(old(bytes)@, *location, coord),
            Err(e) => done == Err::<(), TeleportError>(e) && final(bytes)@ == old(bytes)@,
        },
{
    let coord_offset = match locate_coordinates(bytes.as_slice()) {
        Ok(coord) => coord,
        Err(e) => {
            return Err(e);
        },
    };
    teleport_to_location(bytes, coord_offset, location);
    Ok(())
}

/// Reads the position that the buffer holds, without changing it.
pub fn validate_save_file(bytes: &[u8]) -> (checked: Result<CurrentPosition, TeleportError>)
    ensures
        match coordinate_block(bytes@) {
            Ok(coord) => checked matches Ok(position) && is_position_at(bytes@, coord, position),
            Err(e) => checked == Err::<CurrentPosition, TeleportError>(e),
        },
{
    let coord_offset = match locate_coordinates(bytes) {
        Ok(coord) => coord,
        Err(e) => {
            return Err(e);
        },
    };
    let (x, y, z) = match read_coordinates(bytes, coord_offset) {
        Ok(xyz) => xyz,
        Err(e) => {
            return Err(e);
        },
    };
    let map_id = read_map_id(bytes);
    Ok(CurrentPosition { x, y, z, map_id })
}

} // verus!
