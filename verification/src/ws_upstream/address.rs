//! Addresses of WebSocket servers, as the `url` crate reads them. Nothing
//! in this file is proved.

use vstd::prelude::*;

use crate::text::read;

verus! {

#[verifier::external_type_specification]
#[verifier::external_body]
pub struct ExUrl(url::Url);

/// What `url::Url::parse` gives for a text: the address that the text
/// names, or the debug form of the error.
pub uninterp spec fn parsed_url(text: Seq<char>) -> Result<url::Url, Seq<char>>;

/// `url::Url::parse`: the address that a text names, or the debug form of
/// the reason why it names none.
#[verifier::external_body]
pub(crate) fn parse_url(value: &str) -> (r: Result<url::Url, String>)
    ensures
        read(r) == parsed_url(value@),
{
    url::Url::parse(value).map_err(|e| format!("{:?}", e))
}

} // verus!
