//! Source locations: a file path, shortened as configured, and a line.
//!
//! A path is read as segments with `/` between them. Stripping a prefix
//! looks for the first segment that is the prefix, letter for letter, and
//! keeps what comes after it; trimming the directory keeps the last segment.
use vstd::prelude::*;
use vstd::string::StrSliceExecFns;
use vstd::string::StringExecFns;
use crate::text::{chars_of, decimal, push_decimal};

verus! {

/// The character between two segments of a path.
pub const SEPARATOR: char = '/';

/// `path[start..end]` is one whole segment: it holds no separator, and on
/// either side the path ends or a separator stands.
pub open spec fn is_segment(path: Seq<char>, start: int, end: int) -> bool {
    &&& 0 <= start <= end <= path.len()
    &&& (start == 0 || path[start - 1] == SEPARATOR)
    &&& (end == path.len() || path[end] == SEPARATOR)
    &&& forall|k: int| start <= k < end ==> path[k] != SEPARATOR
}

/// A whole segment that is `prefix` begins at `start`. The empty prefix is
/// no segment's name: it matches nowhere.
pub open spec fn segment_matches(path: Seq<char>, prefix: Seq<char>, start: int) -> bool {
    &&& prefix.len() > 0
    &&& is_segment(path, start, start + prefix.len())
    &&& path.subrange(start, start + prefix.len()) == prefix
}

/// What follows the separator behind the segment that ends at `end`;
/// nothing where that segment is the last one.
pub open spec fn after_segment(path: Seq<char>, end: int) -> Seq<char> {
    if end < path.len() {
        path.skip(end + 1)
    } else {
        Seq::<char>::empty()
    }
}

/// `stripped`, looking only at segments that begin at `start` or later.
pub open spec fn stripped_from(path: Seq<char>, prefix: Seq<char>, start: int) -> Option<Seq<char>>
    decreases path.len() - start,
{
    if start < 0 || start >= path.len() {
        None
    } else if segment_matches(path, prefix, start) {
        Some(after_segment(path, start + prefix.len()))
    } else {
        stripped_from(path, prefix, start + 1)
    }
}

/// The path behind its first segment that is `prefix`, or `None` where it
/// has no such segment.
pub open spec fn stripped(path: Seq<char>, prefix: Seq<char>) -> Option<Seq<char>> {
    stripped_from(path, prefix, 0)
}

/// The last segment of the path: its longest end without a separator.
pub open spec fn basename(path: Seq<char>) -> Seq<char>
    decreases path.len(),
{
    if path.len() == 0 || path.last() == SEPARATOR {
        Seq::<char>::empty()
    } else {
        basename(path.drop_last()).push(path.last())
    }
}

/// The path as a line shows it: behind the stripped prefix where one is
/// configured and found; else its last segment where the directory is
/// trimmed; else as it is.
pub open spec fn shown_path(path: Seq<char>, trim_directory: bool, strip_prefix: Option<Seq<char>>) -> Seq<char> {
    let found = match strip_prefix {
        Some(prefix) => stripped(path, prefix),
        None => None,
    };
    match found {
        Some(rest) => rest,
        None => if trim_directory {
            basename(path)
        } else {
            path
        },
    }
}

/// The shown path, a colon and the line number.
pub open spec fn location_text(
    path: Seq<char>,
    line: u32,
    trim_directory: bool,
    strip_prefix: Option<Seq<char>>,
) -> Seq<char> {
    shown_path(path, trim_directory, strip_prefix) + ":"@ + decimal(line as nat)
}

/// Where `stripped` finds a segment, it is the first that is `prefix`, and
/// the result is what follows it; where it finds none, no segment of the
/// path is `prefix`. A prefix that is only a part of a segment, that holds
/// a separator, or that is empty is therefore never stripped.
pub proof fn lemma_stripped_is_first_segment(path: Seq<char>, prefix: Seq<char>)
    ensures
        match stripped(path, prefix) {
            Some(rest) => exists|i: int|
                {
                    &&& #[trigger] segment_matches(path, prefix, i)
                    &&& forall|k: int| 0 <= k < i ==> !segment_matches(path, prefix, k)
                    &&& rest == after_segment(path, i + prefix.len())
                },
            None => forall|i: int| !segment_matches(path, prefix, i),
        },
{
    lemma_stripped_from(path, prefix, 0);
}

proof fn lemma_stripped_from(path: Seq<char>, prefix: Seq<char>, start: int)
    requires
        0 <= start,
    ensures
        match stripped_from(path, prefix, start) {
            Some(rest) => exists|i: int|
                {
                    &&& start <= i
                    &&& #[trigger] segment_matches(path, prefix, i)
                    &&& forall|k: int| start <= k < i ==> !segment_matches(path, prefix, k)
                    &&& rest == after_segment(path, i + prefix.len())
                },
            None => forall|i: int| start <= i ==> !segment_matches(path, prefix, i),
        },
    decreases path.len() - start,
{
    if start >= path.len() {
    } else if segment_matches(path, prefix, start) {
    } else {
        lemma_stripped_from(path, prefix, start + 1);
        match stripped_from(path, prefix, start) {
            Some(rest) => {
                let i = choose|i: int|
                    {
                        &&& start + 1 <= i
                        &&& #[trigger] segment_matches(path, prefix, i)
                        &&& forall|k: int| start + 1 <= k < i ==> !segment_matches(path, prefix, k)
                        &&& rest == after_segment(path, i + prefix.len())
                    };
                assert(forall|k: int| start <= k < i ==> !segment_matches(path, prefix, k));
            },
            None => {},
        }
    }
}

/// The last segment is the end of the path behind its last separator.
pub proof fn lemma_basename_is_last_segment(path: Seq<char>, start: int)
    requires
        is_segment(path, start, path.len() as int),
    ensures
        basename(path) == path.skip(start),
    decreases path.len() - start,
{
    if start == path.len() {
        assert(path.skip(start) =~= Seq::<char>::empty());
    } else {
        let shorter = path.drop_last();
        assert(is_segment(shorter, start, shorter.len() as int));
        lemma_basename_is_last_segment(shorter, start);
        assert(path.skip(start) =~= shorter.skip(start).push(path.last()));
    }
}

fn matches_at(path: &Vec<char>, prefix: &Vec<char>, start: usize) -> (b: bool)
    requires
        prefix.len() > 0,
        start + prefix.len() <= path.len(),
    ensures
        b == segment_matches(path@, prefix@, start as int),
{
    let end = start + prefix.len();
    if start > 0 && path[start - 1] != SEPARATOR {
        return false;
    }
    if end < path.len() && path[end] != SEPARATOR {
        return false;
    }
    let mut k: usize = 0;
    while k < prefix.len()
        invariant
            k <= prefix.len(),
            end == start + prefix.len(),
            end <= path.len(),
            start == 0 || path@[start - 1] == SEPARATOR,
            end == path.len() || path@[end as int] == SEPARATOR,
            forall|j: int| 0 <= j < k ==> path@[start + j] == prefix@[j] && prefix@[j] != SEPARATOR,
        decreases prefix.len() - k,
    {
        if path[start + k] != prefix[k] {
            assert(path@.subrange(start as int, end as int)[k as int] != prefix@[k as int]);
            return false;
        }
        if prefix[k] == SEPARATOR {
            return false;
        }
        k += 1;
    }
    assert(path@.subrange(start as int, end as int) =~= prefix@);
    assert forall|j: int| start <= j < end implies path@[j] != SEPARATOR by {
        assert(path@[start + (j - start)] == prefix@[j - start]);
    }
    true
}

/// Strips the path up to and with its first segment that is `prefix`.
///
/// Returns what follows that segment and its separator, or `None` where no
/// whole segment of the path is `prefix`.
pub fn strip_prefix<'a>(path: &'a str, prefix: &str) -> (r: Option<&'a str>)
    ensures
        r.deep_view() == stripped(path@, prefix@),
{
    let p = chars_of(path);
    let q = chars_of(prefix);
    let n = p.len();
    let m = q.len();
    if m == 0 || m > n {
        proof {
            lemma_stripped_is_first_segment(path@, prefix@);
        }
        return None;
    }
    let mut i: usize = 0;
    while i <= n - m
        invariant
            0 < m <= n,
            n == p.len(),
            m == q.len(),
            p@ == path@,
            q@ == prefix@,
            i <= n - m + 1,
            stripped(path@, prefix@) == stripped_from(path@, prefix@, i as int),
        decreases n - m + 1 - i,
    {
        if matches_at(&p, &q, i) {
            let end = i + m;
            if end < n {
                return Some(path.substring_char(end + 1, n));
            } else {
                proof {
                    reveal_strlit("");
                }
                let rest: &'static str = "";
                assert(rest@ =~= after_segment(path@, end as int));
                return Some(rest);
            }
        }
        i += 1;
    }
    proof {
        lemma_stripped_from(path@, prefix@, i as int);
    }
    None
}

/// The last segment of the path.
pub fn trim_directory(path: &str) -> (r: &str)
    ensures
        r@ == basename(path@),
{
    let p = chars_of(path);
    let n = p.len();
    let mut k: usize = n;
    while k > 0 && p[k - 1] != SEPARATOR
        invariant
            k <= n,
            n == p.len(),
            forall|j: int| k <= j < n ==> p@[j] != SEPARATOR,
        decreases k,
    {
        k -= 1;
    }
    proof {
        lemma_basename_is_last_segment(path@, k as int);
    }
    path.substring_char(k, n)
}

/// The path as a line shows it.
pub fn display_path<'a>(path: &'a str, trim_directory: bool, strip_prefix: Option<&str>) -> (r: &'a str)
    ensures
        r@ == shown_path(path@, trim_directory, strip_prefix.deep_view()),
        !trim_directory && strip_prefix is None ==> r@ == path@,
{
    let found = match strip_prefix {
        Some(prefix) => self::strip_prefix(path, prefix),
        None => None,
    };
    match found {
        Some(rest) => rest,
        None => if trim_directory {
            self::trim_directory(path)
        } else {
            path
        },
    }
}

/// The source location of an event: the shown path, a colon and the line.
///
/// With no prefix to strip and the directory kept, this is the path as
/// given, a colon and the line.
pub fn format_path(path: &str, line: u32, trim_directory: bool, strip_prefix: Option<&str>) -> (r: String)
    ensures
        r@ == location_text(path@, line, trim_directory, strip_prefix.deep_view()),
        !trim_directory && strip_prefix is None ==> r@ == path@ + ":"@ + decimal(line as nat),
{
    let shown = display_path(path, trim_directory, strip_prefix);
    let mut out = String::from_str(shown);
    out.append(":");
    push_decimal(&mut out, line);
    assert(out@ =~= location_text(path@, line, trim_directory, strip_prefix.deep_view()));
    out
}

} // verus!
