//! Parsing of gofile.io folder links.
//!
//! A folder is shared as `https://gofile.io/d/<folder-id>`; any other host
//! or path shape is rejected. The scheme and host are matched without
//! regard to ASCII case; the folder id is the single non-empty path
//! segment after `/d/`, ends at a `?` or `#` (a query or fragment is no
//! part of the id and is discarded), and may not contain a further `/`.

use vstd::prelude::*;

use crate::error::Error;

verus! {

/// The fixed prefix of every folder link.
pub open spec fn page_url_prefix() -> Seq<char> {
    "https://gofile.io/d/"@
}

/// The scheme-and-host part of the prefix: the one part of a link that is
/// matched without regard to ASCII case. The `/d/` path that follows it
/// must stand exactly as written.
pub open spec fn page_url_scheme_host() -> Seq<char> {
    "https://gofile.io"@
}

/// The two characters are equal up to ASCII case.
pub open spec fn eq_ignore_ascii_case(a: char, b: char) -> bool {
    ||| a == b
    ||| ('A' <= a && a <= 'Z' && (a as u32) + 32 == b as u32)
    ||| ('A' <= b && b <= 'Z' && (b as u32) + 32 == a as u32)
}

/// Where the folder id ends, scanning from `i`: the first `?` or `#`, or
/// the end of the link.
pub open spec fn spec_id_end(u: Seq<char>, i: int) -> int
    decreases u.len() - i
        when 0 <= i <= u.len()
{
    if i >= u.len() {
        i
    } else if u[i] == '?' || u[i] == '#' {
        i
    } else {
        spec_id_end(u, i + 1)
    }
}

/// `u` is a well-formed folder link: the scheme and host up to ASCII
/// case, then the path `/d/` exactly, then a non-empty id with no `/` in
/// it, ended only by a query, a fragment or the end of the link.
pub open spec fn is_page_url(u: Seq<char>) -> bool {
    let h = page_url_scheme_host().len() as int;
    let p = page_url_prefix().len() as int;
    let e = spec_id_end(u, p);
    &&& u.len() > p
    &&& (forall|i: int| 0 <= i < h ==> eq_ignore_ascii_case(u[i], page_url_prefix()[i]))
    &&& (forall|i: int| h <= i < p ==> u[i] == page_url_prefix()[i])
    &&& e > p
    &&& (forall|i: int| p <= i < e ==> u[i] != '/')
}

/// The folder id of a well-formed link: the path segment after the
/// prefix, without any query or fragment.
pub open spec fn page_url_id(u: Seq<char>) -> Seq<char> {
    let p = page_url_prefix().len() as int;
    u.subrange(p, spec_id_end(u, p))
}

/// The id's end never lies before the scan's start nor past the link.
proof fn lemma_id_end_bounds(u: Seq<char>, i: int)
    requires
        0 <= i <= u.len(),
    ensures
        i <= spec_id_end(u, i) <= u.len(),
    decreases u.len() - i,
{
    if i < u.len() && u[i] != '?' && u[i] != '#' {
        lemma_id_end_bounds(u, i + 1);
    }
}

/// The two characters are equal up to ASCII case, in executable code.
fn char_eq_ci(a: char, b: char) -> (r: bool)
    ensures
        r == eq_ignore_ascii_case(a, b),
{
    if a == b {
        true
    } else if 'A' <= a && a <= 'Z' {
        (a as u32) + 32 == (b as u32)
    } else if 'A' <= b && b <= 'Z' {
        (b as u32) + 32 == (a as u32)
    } else {
        false
    }
}

/// Extract the folder id from a share link.
///
/// Succeeds exactly on links of the shape `https://gofile.io/d/<id>`,
/// matching the scheme and host without regard to ASCII case and the
/// `/d/` path exactly, with a non-empty id holding no `/`. A query or
/// fragment after the id is discarded, never folded into the id; any
/// other scheme, host or path shape is rejected.
pub fn parse_page_url(url: &str) -> (r: Result<String, Error>)
    ensures
        r is Ok <==> is_page_url(url@),
        r matches Ok(id) ==> id@ == page_url_id(url@) && id@.len() > 0,
        r is Err ==> r == Err::<String, Error>(Error::Decode),
{
    let prefix = "https://gofile.io/d/";
    let scheme_host = "https://gofile.io";
    proof {
        reveal_strlit("https://gofile.io/d/");
        reveal_strlit("https://gofile.io");
    }
    let prefix_len = prefix.unicode_len();
    let host_len = scheme_host.unicode_len();
    let n = url.unicode_len();
    if n <= prefix_len {
        return Err(Error::Decode);
    }
    let mut i: usize = 0;
    while i < prefix_len
        invariant
            prefix@ == page_url_prefix(),
            prefix_len == prefix@.len(),
            host_len == page_url_scheme_host().len(),
            host_len < prefix_len,
            n == url@.len(),
            n > prefix_len,
            0 <= i <= prefix_len,
            forall|k: int|
                0 <= k < i && k < host_len ==> eq_ignore_ascii_case(
                    #[trigger] url@[k],
                    prefix@[k],
                ),
            forall|k: int| host_len <= k < i ==> #[trigger] url@[k] == prefix@[k],
        decreases prefix_len - i,
    {
        let c = url.get_char(i);
        let e = prefix.get_char(i);
        if i < host_len {
            if !char_eq_ci(c, e) {
                return Err(Error::Decode);
            }
        } else {
            if c != e {
                return Err(Error::Decode);
            }
        }
        i = i + 1;
    }
    let mut j: usize = prefix_len;
    while j < n
        invariant
            prefix@ == page_url_prefix(),
            prefix_len == prefix@.len(),
            host_len == page_url_scheme_host().len(),
            host_len < prefix_len,
            n == url@.len(),
            n > prefix_len,
            prefix_len <= j <= n,
            forall|k: int|
                0 <= k < host_len ==> eq_ignore_ascii_case(#[trigger] url@[k], prefix@[k]),
            forall|k: int| host_len <= k < prefix_len ==> #[trigger] url@[k] == prefix@[k],
            spec_id_end(url@, prefix_len as int) == spec_id_end(url@, j as int),
            forall|k: int| prefix_len <= k < j ==> url@[k] != '/',
        decreases n - j,
    {
        let c = url.get_char(j);
        if c == '?' || c == '#' {
            // The id ends here; what follows is a query or fragment.
            if j == prefix_len {
                return Err(Error::Decode);
            }
            let id = url.substring_char(prefix_len, j);
            return Ok(id.to_owned());
        }
        if c == '/' {
            proof {
                lemma_id_end_bounds(url@, j as int + 1);
            }
            return Err(Error::Decode);
        }
        j = j + 1;
    }
    let id = url.substring_char(prefix_len, n);
    Ok(id.to_owned())
}

} // verus!
