//! The static set of browser-like request headers sent with every fetch,
//! alongside the rotating user agent, to reduce trivial bot blocking.

use vstd::prelude::*;

verus! {

/// The fixed header pairs sent with every request; the user agent is
/// chosen separately, per request.
pub open spec fn browser_header_list() -> Seq<(Seq<char>, Seq<char>)> {
    seq![
        ("Accept"@, "text/html,application/xhtml+xml,application/xml;q=0.9,image/webp,*/*;q=0.8"@),
        ("Accept-Language"@, "en-US,en;q=0.5"@),
        ("DNT"@, "1"@),
        ("Connection"@, "keep-alive"@),
        ("Upgrade-Insecure-Requests"@, "1"@),
        ("Sec-Fetch-Dest"@, "document"@),
        ("Sec-Fetch-Mode"@, "navigate"@),
        ("Sec-Fetch-Site"@, "none"@),
        ("Sec-Fetch-User"@, "?1"@),
        ("js_timeout"@, "2000"@),
        ("js"@, "true"@),
    ]
}

/// The browser-like headers carried by every request, as name/value
/// pairs, in the order they are applied.
pub fn browser_headers() -> (r: [(&'static str, &'static str); 11])
    ensures
        r@.map_values(|p: (&'static str, &'static str)| (p.0@, p.1@)) == browser_header_list(),
{
    let r: [(&'static str, &'static str); 11] = [
        ("Accept", "text/html,application/xhtml+xml,application/xml;q=0.9,image/webp,*/*;q=0.8"),
        ("Accept-Language", "en-US,en;q=0.5"),
        ("DNT", "1"),
        ("Connection", "keep-alive"),
        ("Upgrade-Insecure-Requests", "1"),
        ("Sec-Fetch-Dest", "document"),
        ("Sec-Fetch-Mode", "navigate"),
        ("Sec-Fetch-Site", "none"),
        ("Sec-Fetch-User", "?1"),
        ("js_timeout", "2000"),
        ("js", "true"),
    ];
    proof {
        assert(r@.map_values(|p: (&'static str, &'static str)| (p.0@, p.1@))
            =~= browser_header_list());
    }
    r
}

} // verus!
