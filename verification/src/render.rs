//! The tail of the rendering path that is plain computation: turning a
//! textual diagram description into the address of an online viewer. The
//! caller draws the exported graph as such a description and opens the
//! returned address in a browser.

use vstd::prelude::*;
use vstd::string::StringExecFns;

verus! {

/// The percent-encoded form of a string: what `urlencoding::encode`
/// returns for it, a function of the characters alone.
pub uninterp spec fn encoded_of(s: Seq<char>) -> Seq<char>;

/// Relies on `urlencoding::encode` of the `urlencoding` crate: it
/// percent-encodes every byte of the UTF-8 form of the input except
/// alphanumerics and `-`, `_`, `.`, `~`, depends on nothing but the input,
/// and leaves an empty string empty.
#[verifier::external_body]
fn encode_component(s: &str) -> (r: String)
    ensures
        r@ == encoded_of(s@),
        s@.len() == 0 ==> r@.len() == 0,
{
    urlencoding::encode(s).into_owned()
}

/// The address prefix of the online diagram viewer.
pub open spec fn viewer_prefix() -> Seq<char> {
    "https://dreampuf.github.io/GraphvizOnline/#"@
}

/// The address that shows the given diagram description in the online
/// viewer: the viewer's prefix followed by the percent-encoded
/// description.
pub fn graph_url(dot: &str) -> (r: String)
    ensures
        r@ == viewer_prefix() + encoded_of(dot@),
{
    let mut url = String::from_str("https://dreampuf.github.io/GraphvizOnline/#");
    let encoded = encode_component(dot);
    url.append(encoded.as_str());
    url
}

} // verus!
