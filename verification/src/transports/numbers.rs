//! Numbers as the standard library reads them from text. Nothing in this
//! file is proved.

use vstd::prelude::*;

use crate::text::read;

verus! {

/// What `str::parse` gives for an 8-bit number: the number, or the text of the error.
pub uninterp spec fn parsed_u8(text: Seq<char>) -> Result<u8, Seq<char>>;

/// What `str::parse` gives for a 16-bit number: the number, or the text of the error.
pub uninterp spec fn parsed_u16(text: Seq<char>) -> Result<u16, Seq<char>>;

/// What `str::parse` gives for a 32-bit number: the number, or the text of the error.
pub uninterp spec fn parsed_u32(text: Seq<char>) -> Result<u32, Seq<char>>;

/// What `str::parse` gives for a number of the size of an address: the
/// number, or the text of the error.
pub uninterp spec fn parsed_usize(text: Seq<char>) -> Result<usize, Seq<char>>;

/// `str::parse::<u8>`, with the error as its text.
#[verifier::external_body]
pub(crate) fn parse_u8(text: &str) -> (r: Result<u8, String>)
    ensures
        read(r) == parsed_u8(text@),
{
    text.parse::<u8>().map_err(|e| e.to_string())
}

/// `str::parse::<u16>`, with the error as its text.
#[verifier::external_body]
pub(crate) fn parse_u16(text: &str) -> (r: Result<u16, String>)
    ensures
        read(r) == parsed_u16(text@),
{
    text.parse::<u16>().map_err(|e| e.to_string())
}

/// `str::parse::<u32>`, with the error as its text.
#[verifier::external_body]
pub(crate) fn parse_u32(text: &str) -> (r: Result<u32, String>)
    ensures
        read(r) == parsed_u32(text@),
{
    text.parse::<u32>().map_err(|e| e.to_string())
}

/// `str::parse::<usize>`, with the error as its text.
#[verifier::external_body]
pub(crate) fn parse_usize(text: &str) -> (r: Result<usize, String>)
    ensures
        read(r) == parsed_usize(text@),
{
    text.parse::<usize>().map_err(|e| e.to_string())
}

} // verus!
