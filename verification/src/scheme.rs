//! URL scheme normalization: a bare host is given an `https://` prefix, an
//! already-schemed URL passes through unchanged.

use vstd::prelude::*;
use vstd::string::{StrSliceExecFns, StringExecFns};
use crate::text::{contains_at, is_prefix_of, str_starts_with};

verus! {

/// A URL already carries one of the two accepted schemes.
pub open spec fn has_scheme(url: Seq<char>) -> bool {
    is_prefix_of("http://"@, url) || is_prefix_of("https://"@, url)
}

/// The normalized form: the URL itself when schemed, else `https://` + URL.
pub open spec fn spec_handle_scheme(url: Seq<char>) -> Seq<char> {
    if has_scheme(url) {
        url
    } else {
        "https://"@ + url
    }
}

/// Ensure the URL carries a scheme, defaulting to `https://`.
pub fn handle_scheme(url: &String) -> (r: String)
    ensures
        r@ == spec_handle_scheme(url@),
{
    if str_starts_with(url.as_str(), "http://") || str_starts_with(url.as_str(), "https://") {
        url.clone()
    } else {
        let mut r = String::from_str("https://");
        r.append(url.as_str());
        r
    }
}

/// A character that ends the host part of a URL: the path, query, fragment,
/// or port that follows it.
pub open spec fn is_host_delim(c: char) -> bool {
    c == '/' || c == '?' || c == '#' || c == ':'
}

/// `[s, e)` spans the host of `u`: it starts right after the first `://`
/// (at the front when there is none) and runs to the first delimiter.
pub open spec fn host_span(u: Seq<char>, s: int, e: int) -> bool {
    &&& 0 <= s <= e <= u.len()
    &&& ((s == 0 && forall|i: int| !contains_at(u, "://"@, i)) || (3 <= s && contains_at(
        u,
        "://"@,
        s - 3,
    ) && forall|i: int| 0 <= i < s - 3 ==> !contains_at(u, "://"@, i)))
    &&& forall|k: int| s <= k < e ==> !is_host_delim(u[k])
    &&& e == u.len() || is_host_delim(u[e])
}

/// The host part of a URL, which cookie records are matched against.
pub fn target_host(url: &String) -> (h: String)
    ensures
        exists|s: int, e: int| host_span(url@, s, e) && h@ == url@.subrange(s, e),
{
    let u = url.as_str();
    let len: usize = u.unicode_len();
    proof {
        reveal_strlit("://");
    }
    let start: usize = match crate::text::find_str(u, "://") {
        Some(i) => i + 3,
        None => 0,
    };
    let mut e: usize = start;
    while e < len
        invariant_except_break
            start <= e <= len,
            len == url@.len(),
            u@ == url@,
            forall|k: int| start <= k < e ==> !is_host_delim(url@[k]),
        ensures
            start <= e <= len,
            len == url@.len(),
            forall|k: int| start <= k < e ==> !is_host_delim(url@[k]),
            e == len || is_host_delim(url@[e as int]),
        decreases len - e,
    {
        let c = u.get_char(e);
        if c == '/' || c == '?' || c == '#' || c == ':' {
            break;
        }
        e = e + 1;
    }
    let host = u.substring_char(start, e);
    proof {
        assert(host_span(url@, start as int, e as int));
    }
    host.to_owned()
}

/// Law: normalization is idempotent — a second pass changes nothing.
pub proof fn lemma_handle_scheme_idempotent(url: Seq<char>)
    ensures
        spec_handle_scheme(spec_handle_scheme(url)) == spec_handle_scheme(url),
{
    if !has_scheme(url) {
        let r = "https://"@ + url;
        reveal_strlit("https://");
        assert(r.subrange(0, "https://"@.len() as int) =~= "https://"@);
        assert(has_scheme(r));
    }
}

} // verus!
