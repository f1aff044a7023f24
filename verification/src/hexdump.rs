//! The hex dump of a binary file, as `hexplay` lays it out.

use vstd::prelude::*;

verus! {

/// The dump that `hexplay` prints for `bytes` with its default layout and the
/// ASCII code page: rows of sixteen bytes, each with its offset, the bytes in
/// hexadecimal and, between bars, one character per byte, a `.` for every
/// byte that is not printable ASCII.
pub uninterp spec fn hex_view(bytes: Seq<u8>) -> Seq<char>;

/// Builds a `hexplay::HexView` of the bytes with `HexViewBuilder` (offset 0,
/// rows of 16, the ASCII code page) and formats it with its `Display` impl,
/// which fails only for a row width of 0. The contract gives the text its
/// name.
#[verifier::external_body]
pub(crate) fn format_hex_view(bytes: &[u8]) -> (dump: String)
    ensures
        dump@ == hex_view(bytes@),
{
    let view = hexplay::HexViewBuilder::new(bytes).codepage(hexplay::CODEPAGE_ASCII).finish();
    format!("{}", view)
}

} // verus!
