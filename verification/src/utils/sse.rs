//! The headers every event stream is answered with.

use vstd::prelude::*;

verus! {

/// The headers that keep proxies and clients from caching or buffering an
/// event stream, as name and value.
pub open spec fn default_header_texts() -> Seq<(Seq<char>, Seq<char>)> {
    seq![
        ("Cache-Control"@, "no-cache, no-transform"@),
        ("Connection"@, "keep-alive"@),
        ("X-Accel-Buffering"@, "no"@),
    ]
}

/// The headers to set on every event stream, in the order they are set.
pub fn default_headers() -> (headers: Vec<(&'static str, &'static str)>)
    ensures
        headers@.len() == default_header_texts().len(),
        forall|i: int|
            0 <= i < headers@.len() ==> (#[trigger] headers@[i]).0@ == default_header_texts()[i].0
                && headers@[i].1@ == default_header_texts()[i].1,
{
    let mut headers: Vec<(&'static str, &'static str)> = Vec::new();
    headers.push(("Cache-Control", "no-cache, no-transform"));
    headers.push(("Connection", "keep-alive"));
    headers.push(("X-Accel-Buffering", "no"));
    headers
}

} // verus!
