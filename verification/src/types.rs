//! The values that the library hands around: destinations, positions and errors.

use vstd::prelude::*;
use vstd::string::StringExecFns;

verus! {

/// A teleport destination.
///
/// Coordinates are held as the bit patterns of IEEE-754 single-precision
/// numbers: `x` is what `f32::to_bits` gives for the X coordinate. A save file
/// stores exactly these bits, least significant byte first.
#[derive(Debug, Clone, Copy, PartialEq, Eq)]
pub struct Location {
    /// Display name, unique in the catalog.
    pub name: &'static str,
    /// Region under which the destination is listed.
    pub region: &'static str,
    /// Bits of the X coordinate.
    pub x: u32,
    /// Bits of the Y coordinate.
    pub y: u32,
    /// Bits of the Z coordinate.
    pub z: u32,
    /// Compact two-byte zone code.
    pub map_id: [u8; 2],
}

/// The position found in a save file when it was validated.
#[derive(Debug, Clone, Copy, PartialEq, Eq)]
pub struct CurrentPosition {
    /// Bits of the X coordinate.
    pub x: u32,
    /// Bits of the Y coordinate.
    pub y: u32,
    /// Bits of the Z coordinate.
    pub z: u32,
    /// The four raw bytes of the zone field.
    pub map_id: [u8; 4],
}

/// Why a validation or a teleport did not go through.
#[derive(Debug, Clone, PartialEq, Eq)]
pub enum TeleportError {
    /// The save file could not be read; the text is the system's reason.
    ReadError(String),
    /// The save file could not be written; the text is the system's reason.
    WriteError(String),
    /// The buffer holds no marker sequence.
    LcedMarkerNotFound,
    /// The buffer holds no sentinel pattern at or after the marker.
    CoordPatternNotFound,
    /// Fewer than twelve bytes follow the sentinel pattern.
    InvalidOffset,
}

impl TeleportError {
    /// The words in which the error is told to the operator.
    pub open spec fn text(self) -> Seq<char> {
        match self {
            TeleportError::ReadError(reason) => "Failed to read the save file: "@ + reason@,
            TeleportError::WriteError(reason) => "Failed to write the save file: "@ + reason@,
            TeleportError::LcedMarkerNotFound => "Could not find the LCED marker in the save file"@,
            TeleportError::CoordPatternNotFound => {
                "Could not find the coordinate pattern after the LCED marker"@
            },
            TeleportError::InvalidOffset => {
                "The save file ends inside the coordinate block"@
            },
        }
    }

    /// Tells the error in words; a read or write error keeps the system's
    /// reason word for word.
    pub fn message(&self) -> (told: String)
        ensures
            told@ == self.text(),
    {
        match self {
            TeleportError::ReadError(reason) => {
                String::from_str("Failed to read the save file: ").concat(reason.as_str())
            },
            TeleportError::WriteError(reason) => {
                String::from_str("Failed to write the save file: ").concat(reason.as_str())
            },
            TeleportError::LcedMarkerNotFound => {
                String::from_str("Could not find the LCED marker in the save file")
            },
            TeleportError::CoordPatternNotFound => {
                String::from_str("Could not find the coordinate pattern after the LCED marker")
            },
            TeleportError::InvalidOffset => {
                String::from_str("The save file ends inside the coordinate block")
            },
        }
    }
}

} // verus!
