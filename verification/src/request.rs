//! The path part of a request URL, decoded and made relative to the served
//! directory.

use vstd::prelude::*;
use crate::percent::{percent_decode, spec_percent_decode};

verus! {

/// The part of a URL before its first `?` (all of it when there is none).
pub open spec fn spec_request_path(url: Seq<char>) -> Seq<char>
    decreases url.len(),
{
    if url.len() == 0 {
        url
    } else if url[0] == '?' {
        Seq::empty()
    } else {
        seq![url[0]] + spec_request_path(url.subrange(1, url.len() as int))
    }
}

/// A path with its leading `/` characters removed.
pub open spec fn spec_trim_leading_slashes(s: Seq<char>) -> Seq<char>
    decreases s.len(),
{
    if s.len() > 0 && s[0] == '/' {
        spec_trim_leading_slashes(s.subrange(1, s.len() as int))
    } else {
        s
    }
}

/// The path of a request, decoded and relative to the served directory.
pub open spec fn spec_relative_path(url: Seq<char>) -> Seq<char> {
    spec_trim_leading_slashes(spec_percent_decode(spec_request_path(url)))
}

proof fn lemma_request_path_prefix(url: Seq<char>, i: int)
    requires
        0 <= i <= url.len(),
        forall|j: int| 0 <= j < i ==> url[j] != '?',
    ensures
        spec_request_path(url) == url.subrange(0, i) + spec_request_path(url.subrange(i, url.len() as int)),
    decreases i,
{
    if i > 0 {
        let rest = url.subrange(1, url.len() as int);
        lemma_request_path_prefix(rest, i - 1);
        assert(rest.subrange(i - 1, rest.len() as int) =~= url.subrange(i, url.len() as int));
        assert(url.subrange(0, i) =~= seq![url[0]] + rest.subrange(0, i - 1));
    } else {
        assert(url.subrange(0, 0) =~= Seq::<char>::empty());
        assert(url.subrange(0, url.len() as int) =~= url);
    }
}

proof fn lemma_trim_prefix(s: Seq<char>, i: int)
    requires
        0 <= i <= s.len(),
        forall|j: int| 0 <= j < i ==> s[j] == '/',
    ensures
        spec_trim_leading_slashes(s) == spec_trim_leading_slashes(s.subrange(i, s.len() as int)),
    decreases i,
{
    if i > 0 {
        let rest = s.subrange(1, s.len() as int);
        lemma_trim_prefix(rest, i - 1);
        assert(rest.subrange(i - 1, rest.len() as int) =~= s.subrange(i, s.len() as int));
    } else {
        assert(s.subrange(0, s.len() as int) =~= s);
    }
}

proof fn lemma_trim_no_leading_slash(s: Seq<char>)
    ensures
        spec_trim_leading_slashes(s).len() == 0 || spec_trim_leading_slashes(s)[0] != '/',
    decreases s.len(),
{
    if s.len() > 0 && s[0] == '/' {
        lemma_trim_no_leading_slash(s.subrange(1, s.len() as int));
    }
}

/// Law: the relative path of any request is empty or starts with something
/// other than `/`, so joining it onto the served directory extends that
/// directory instead of replacing it with an absolute path.
pub proof fn law_relative_path_is_not_absolute(url: Seq<char>)
    ensures
        spec_relative_path(url).len() == 0 || spec_relative_path(url)[0] != '/',
{
    lemma_trim_no_leading_slash(spec_percent_decode(spec_request_path(url)));
}

/// The part of a request URL before its query string.
pub fn request_path(url: &str) -> (r: &str)
    ensures
        r@ == spec_request_path(url@),
{
    let n = url.unicode_len();
    let mut i: usize = 0;
    while i < n
        invariant
            n == url@.len(),
            i <= n,
            forall|j: int| 0 <= j < i ==> url@[j] != '?',
        ensures
            i <= n,
            forall|j: int| 0 <= j < i ==> url@[j] != '?',
            i < n ==> url@[i as int] == '?',
        decreases n - i,
    {
        if url.get_char(i) == '?' {
            break;
        }
        i = i + 1;
    }
    proof {
        lemma_request_path_prefix(url@, i as int);
        let rest = url@.subrange(i as int, n as int);
        if i < n {
            assert(rest[0] == '?');
        } else {
            assert(rest.len() == 0);
        }
        assert(spec_request_path(rest) == Seq::<char>::empty());
        assert(url@.subrange(0, i as int) + Seq::<char>::empty() =~= url@.subrange(0, i as int));
    }
    url.substring_char(0, i)
}

/// A path with its leading slashes removed.
pub fn trim_leading_slashes(s: &str) -> (r: &str)
    ensures
        r@ == spec_trim_leading_slashes(s@),
{
    let n = s.unicode_len();
    let mut i: usize = 0;
    while i < n
        invariant
            n == s@.len(),
            i <= n,
            forall|j: int| 0 <= j < i ==> s@[j] == '/',
        ensures
            i <= n,
            forall|j: int| 0 <= j < i ==> s@[j] == '/',
            i < n ==> s@[i as int] != '/',
        decreases n - i,
    {
        if s.get_char(i) != '/' {
            break;
        }
        i = i + 1;
    }
    proof {
        lemma_trim_prefix(s@, i as int);
        let rest = s@.subrange(i as int, n as int);
        if i < n {
            assert(rest[0] != '/');
        }
        assert(spec_trim_leading_slashes(rest) == rest);
    }
    s.substring_char(i, n)
}

/// The request's path made relative to the served directory: the part
/// before `?`, percent-decoded, without leading slashes.
pub fn relative_path(url: &str) -> (r: String)
    ensures
        r@ == spec_relative_path(url@),
{
    let path = request_path(url);
    let decoded = percent_decode(path);
    let trimmed = trim_leading_slashes(decoded.as_str());
    trimmed.to_owned()
}

} // verus!
