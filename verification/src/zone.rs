//! Zone identifiers: the compact two-byte catalog code and the four-byte field
//! that a save file holds for it.

use vstd::prelude::*;

verus! {

/// The four-byte field that stands for the two-byte code `code` in a save file:
/// two zero bytes, then the code's bytes in reverse order.
pub open spec fn save_format(code: Seq<u8>) -> Seq<u8> {
    seq![0u8, 0u8, code[1], code[0]]
}

/// Expands a catalog zone code into the four bytes written to a save file.
pub fn to_save_format(map_id: &[u8; 2]) -> (field: [u8; 4])
    ensures
        field@ == save_format(map_id@),
{
    [0x00, 0x00, map_id[1], map_id[0]]
}

} // verus!
