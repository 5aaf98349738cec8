//! The readiness protocol with locally launched plugins.
//!
//! A freshly launched plugin announces the address it listens on with a
//! line containing `Listen on <address>` on either of its output streams.
//! The launcher watches the merged streams line by line, in arrival
//! order, and takes the address from the first line that matches; a
//! process whose output ends without a match cannot be used. The
//! stream plumbing lives with the caller; the pattern itself is decided
//! here.

use vstd::prelude::*;

use vstd::string::{StrSliceExecFns, StringExecFns};

verus! {

/// The fixed prefix of the readiness pattern.
pub open spec fn listen_prefix() -> Seq<char> {
    "Listen on "@
}

/// Whether the readiness pattern matches `line` at position `i`: the
/// prefix occurs there, and at least one character follows it.
pub open spec fn listen_match_at(line: Seq<char>, i: int) -> bool {
    &&& 0 <= i
    &&& i + listen_prefix().len() < line.len()
    &&& line.subrange(i, i + listen_prefix().len() as int) == listen_prefix()
}

/// Whether `i` is the leftmost position at which the pattern matches.
pub open spec fn is_first_listen_match(line: Seq<char>, i: int) -> bool {
    &&& listen_match_at(line, i)
    &&& forall|j: int| 0 <= j < i ==> !listen_match_at(line, j)
}

/// The address the readiness pattern extracts from one line: everything
/// after the leftmost occurrence of the prefix, or nothing when no
/// position matches.
pub open spec fn listen_capture(line: Seq<char>) -> Option<Seq<char>> {
    if exists|i: int| listen_match_at(line, i) {
        let i = choose|i: int| is_first_listen_match(line, i);
        Some(line.subrange(i + listen_prefix().len() as int, line.len() as int))
    } else {
        None
    }
}

/// Whether the readiness prefix sits in `line` at position `i`.
fn prefix_matches_at(line: &str, i: usize) -> (r: bool)
    requires
        i + listen_prefix().len() < line@.len(),
        line@.len() <= usize::MAX,
    ensures
        r == (line@.subrange(i as int, i as int + listen_prefix().len() as int)
            == listen_prefix()),
{
    let pat: &str = "Listen on ";
    proof {
        reveal_strlit("Listen on ");
        assert(pat@ == listen_prefix());
    }
    let m: usize = pat.unicode_len();
    let mut j: usize = 0;
    while j < m
        invariant
            j <= m,
            m == listen_prefix().len(),
            pat@ == listen_prefix(),
            i + listen_prefix().len() < line@.len(),
            line@.len() <= usize::MAX,
            forall|k: int| 0 <= k < j ==> line@[i + k] == listen_prefix()[k],
        decreases m - j,
    {
        if line.get_char(i + j) != pat.get_char(j) {
            proof {
                assert(line@.subrange(i as int, i as int + listen_prefix().len() as int)[
                    j as int
                ] == line@[i + j]);
            }
            return false;
        }
        j += 1;
    }
    proof {
        assert(line@.subrange(i as int, i as int + listen_prefix().len() as int)
            =~= listen_prefix());
    }
    true
}

/// Apply the readiness pattern to one output line: the address after the
/// leftmost `Listen on `, or nothing when the line does not match.
pub fn match_listen_line(line: &str) -> (r: Option<String>)
    ensures
        match (r, listen_capture(line@)) {
            (Some(s), Some(addr)) => s@ == addr,
            (None, None) => true,
            _ => false,
        },
{
    let pat: &str = "Listen on ";
    proof {
        reveal_strlit("Listen on ");
        assert(pat@ == listen_prefix());
    }
    let m: usize = pat.unicode_len();
    let n: usize = line.unicode_len();
    if n <= m {
        proof {
            assert(forall|i: int| !listen_match_at(line@, i));
        }
        return None;
    }
    let limit: usize = n - m;
    let mut i: usize = 0;
    while i < limit
        invariant
            i <= limit,
            m == listen_prefix().len(),
            n == line@.len(),
            m < n,
            limit == n - m,
            forall|j: int| 0 <= j < i ==> !listen_match_at(line@, j),
        decreases limit - i,
    {
        if prefix_matches_at(line, i) {
            let captured = line.substring_char(i + m, n);
            let out = String::from_str(captured);
            proof {
                assert(listen_match_at(line@, i as int));
                assert(is_first_listen_match(line@, i as int));
                let c = choose|k: int| is_first_listen_match(line@, k);
                if c < i {
                    assert(!listen_match_at(line@, c));
                }
                if i < c {
                    assert(!listen_match_at(line@, i as int));
                }
                assert(c == i as int);
            }
            return Some(out);
        }
        i += 1;
    }
    proof {
        assert forall|k: int| !listen_match_at(line@, k) by {
            if 0 <= k < limit {
                assert(!listen_match_at(line@, k));
            }
        }
    }
    None
}

/// Scan output lines in arrival order, as the launcher consumes them:
/// the first line the readiness pattern accepts yields its position and
/// the extracted address; when none matches, the launch has failed.
pub fn scan_for_listen(lines: &Vec<String>) -> (r: Option<(usize, String)>)
    ensures
        match r {
            Some(p) => {
                &&& (p.0 as int) < lines@.len()
                &&& listen_capture(lines@[p.0 as int]@) == Some(p.1@)
                &&& forall|j: int| 0 <= j < p.0 as int ==> listen_capture(lines@[j]@) is None
            },
            None => forall|j: int| 0 <= j < lines@.len() ==> listen_capture(lines@[j]@) is None,
        },
{
    let mut i: usize = 0;
    while i < lines.len()
        invariant
            i <= lines@.len(),
            forall|j: int| 0 <= j < i ==> listen_capture(lines@[j]@) is None,
        decreases lines@.len() - i,
    {
        match match_listen_line(lines[i].as_str()) {
            Some(addr) => {
                return Some((i, addr));
            },
            None => {},
        }
        i += 1;
    }
    None
}

} // verus!
