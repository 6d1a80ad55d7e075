//! Media download: the compute half.
//!
//! The binary fetch itself is an effect and stays outside the library.
//! What is verified here: the output file name is the URL's last path
//! segment stripped of any query string, the destination path joins the
//! directory and that name, and a response status classifies into
//! success or a download error.

use vstd::prelude::*;

use crate::error::{CrawlError, ErrorKind};
use crate::text::{spec_digits, u64_to_string};

verus! {

/// What follows the last `/`; the whole string when there is none.
pub open spec fn after_last_slash(u: Seq<char>) -> Seq<char>
    decreases u.len(),
{
    if u.len() == 0 {
        u
    } else if u.last() == '/' {
        Seq::empty()
    } else {
        after_last_slash(u.drop_last()).push(u.last())
    }
}

/// What precedes the first `?`; the whole string when there is none.
pub open spec fn before_first_query(s: Seq<char>) -> Seq<char>
    decreases s.len(),
{
    if s.len() == 0 {
        s
    } else if s[0] == '?' {
        Seq::empty()
    } else {
        seq![s[0]] + before_first_query(s.drop_first())
    }
}

/// The file a media URL is stored under: its last path segment, stripped
/// of any query string.
pub open spec fn spec_file_name_of_url(u: Seq<char>) -> Seq<char> {
    before_first_query(after_last_slash(u))
}

/// When nothing at or after `i` is a `/` and `i` sits just past one (or
/// at the start), the last segment is the suffix from `i`.
proof fn lemma_after_last_slash(u: Seq<char>, i: int)
    requires
        0 <= i <= u.len(),
        forall|j: int| i <= j < u.len() ==> u[j] != '/',
        i == 0 || u[i - 1] == '/',
    ensures
        after_last_slash(u) == u.subrange(i, u.len() as int),
    decreases u.len(),
{
    if i == u.len() {
        if i == 0 {
            assert(u.subrange(0, 0) =~= u);
        } else {
            assert(u.last() == '/');
            assert(after_last_slash(u) =~= u.subrange(i, u.len() as int));
        }
    } else {
        assert(u.last() != '/');
        lemma_after_last_slash(u.drop_last(), i);
        assert(u.drop_last().subrange(i, u.drop_last().len() as int).push(u.last()) =~= u.subrange(
            i,
            u.len() as int,
        ));
    }
}

/// When nothing before `j` is a `?` and `j` sits on one (or at the end),
/// the query-stripped prefix runs up to `j`.
proof fn lemma_before_first_query(s: Seq<char>, j: int)
    requires
        0 <= j <= s.len(),
        forall|t: int| 0 <= t < j ==> s[t] != '?',
        j == s.len() || s[j] == '?',
    ensures
        before_first_query(s) == s.subrange(0, j),
    decreases s.len(),
{
    if s.len() == 0 {
        assert(s.subrange(0, 0) =~= s);
    } else if s[0] == '?' {
        assert(j == 0);
        assert(before_first_query(s) =~= s.subrange(0, 0));
    } else {
        assert(j >= 1);
        lemma_before_first_query(s.drop_first(), j - 1);
        assert(seq![s[0]] + s.drop_first().subrange(0, j - 1) =~= s.subrange(0, j));
    }
}

/// Derives the output file name from a media URL: the last path segment,
/// stripped of any query string.
#[verifier::loop_isolation(false)]
pub fn file_name_of_url(url: &str) -> (r: String)
    ensures
        r@ == spec_file_name_of_url(url@),
{
    let n = url.unicode_len();
    let mut start: usize = 0;
    let mut i: usize = 0;
    while i < n
        invariant
            0 <= start <= i <= n,
            start == 0 || url@[start - 1] == '/',
            forall|j: int| start <= j < i ==> url@[j] != '/',
        decreases n - i,
    {
        if url.get_char(i) == '/' {
            start = i + 1;
        }
        i = i + 1;
    }
    let mut end: usize = n;
    let mut j: usize = start;
    while j < n
        invariant
            start <= j <= n,
            end == n,
            forall|t: int| start <= t < j ==> url@[t] != '?',
        decreases n - j,
    {
        if url.get_char(j) == '?' {
            end = j;
            proof {
                lemma_after_last_slash(url@, start as int);
                lemma_before_first_query(url@.subrange(start as int, n as int), j - start);
                assert(url@.subrange(start as int, n as int).subrange(0, j - start) =~= url@
                    .subrange(start as int, j as int));
            }
            let r = String::from_str(url.substring_char(start, end));
            return r;
        }
        j = j + 1;
    }
    proof {
        lemma_after_last_slash(url@, start as int);
        lemma_before_first_query(url@.subrange(start as int, n as int), n - start);
        assert(url@.subrange(start as int, n as int).subrange(0, n - start) =~= url@.subrange(
            start as int,
            n as int,
        ));
    }
    String::from_str(url.substring_char(start, n))
}

/// The destination path: the media directory, a separator, and the name
/// derived from the URL.
pub fn media_file_path(dir: &str, url: &str) -> (r: String)
    ensures
        r@ == dir@ + "/"@ + spec_file_name_of_url(url@),
{
    let mut out = String::from_str(dir);
    out.append("/");
    out.append(file_name_of_url(url).as_str());
    out
}

/// Classifies a download response status: success bodies may be written,
/// anything else is a download error carrying the status. One media
/// item's failure never fails anything beyond itself: the caller goes on
/// with the remaining items.
pub fn download_outcome(status: u16) -> (r: Result<(), CrawlError>)
    ensures
        200 <= status < 300 ==> r is Ok,
        !(200 <= status < 300) ==> match r {
            Ok(_) => false,
            Err(e) => e.kind == ErrorKind::Download && e.cause@ == "bad download status "@
                + spec_digits(status as int),
        },
{
    if 200 <= status && status < 300 {
        Ok(())
    } else {
        let mut cause = String::from_str("bad download status ");
        cause.append(u64_to_string(status as u64).as_str());
        Err(CrawlError { kind: ErrorKind::Download, cause })
    }
}

} // verus!
