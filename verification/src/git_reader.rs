//! Git state read straight from the workspace: the branch from `.git/HEAD` and
//! the number of changed tracked files from `git status --porcelain`.
use vstd::prelude::*;

use crate::text::{has_prefix, strip_prefix, take_chars, take_seq, trim, trim_seq};

verus! {

pub struct GitInfo {
    pub branch: Option<String>,
    pub dirty_count: u32,
}

/// The branch named by the text of `.git/HEAD`: the name after
/// `ref: refs/heads/`, or for a detached HEAD the first eight characters of
/// the commit hash.
pub open spec fn branch_spec(head: Seq<char>) -> Seq<char> {
    let h = trim_seq(head);
    if has_prefix(h, "ref: refs/heads/"@) {
        h.subrange("ref: refs/heads/"@.len() as int, h.len() as int)
    } else {
        take_seq(h, 8)
    }
}

pub fn branch_from_head(head: &str) -> (r: String)
    ensures
        r@ == branch_spec(head@),
{
    let h = trim(head);
    match strip_prefix(h, "ref: refs/heads/") {
        Some(name) => name.to_string(),
        None => take_chars(h, 8).to_string(),
    }
}

/// Scans text line by line: the number of non-empty lines completed so far,
/// the length of the line being read, and whether its last character is `\r`.
pub open spec fn line_scan(s: Seq<char>) -> (nat, nat, bool)
    decreases s.len(),
{
    if s.len() == 0 {
        (0, 0, false)
    } else {
        let (n, len, cr) = line_scan(s.drop_last());
        let c = s.last();
        if c == '\n' {
            // A line ending `\r\n` drops the `\r`.
            (if len > 0 && !(len == 1 && cr) {
                n + 1
            } else {
                n
            }, 0, false)
        } else {
            (n, len + 1, c == '\r')
        }
    }
}

/// The number of non-empty lines of `s`, as `str::lines` splits it (at `\n`
/// and `\r\n`; a last line needs no terminator).
pub open spec fn non_empty_lines(s: Seq<char>) -> nat {
    let (n, len, _) = line_scan(s);
    if len > 0 {
        n + 1
    } else {
        n
    }
}

/// The number of non-empty lines of `s` (truncated to `u32`).
pub fn count_non_empty_lines(s: &str) -> (r: u32)
    ensures
        r == non_empty_lines(s@) as u32,
{
    let n = s.unicode_len();
    let mut count: usize = 0;
    let mut len: usize = 0;
    let mut cr = false;
    let mut i: usize = 0;
    while i < n
        invariant
            n == s@.len(),
            i <= n,
            line_scan(s@.take(i as int)) == (count as nat, len as nat, cr),
            count + len <= i,
        decreases n - i,
    {
        let c = s.get_char(i);
        proof {
            assert(s@.take(i + 1).drop_last() =~= s@.take(i as int));
            assert(s@.take(i + 1).last() == c);
        }
        if c == '\n' {
            if len > 0 && !(len == 1 && cr) {
                count = count + 1;
            }
            len = 0;
            cr = false;
        } else {
            len = len + 1;
            cr = c == '\r';
        }
        i = i + 1;
    }
    assert(s@.take(n as int) =~= s@);
    let total = if len > 0 {
        count + 1
    } else {
        count
    };
    total as u32
}

/// Git state from what was read: the text of `.git/HEAD` (where it could be
/// read) and the output of `git status --porcelain --untracked-files=no`
/// (where the command succeeded). Without output no file counts as dirty.
pub fn git_info_from(head: Option<&str>, status_output: Option<&str>) -> (r: GitInfo)
    ensures
        r.branch is Some <==> head is Some,
        head is Some ==> r.branch->0@ == branch_spec(head->0@),
        r.dirty_count == match status_output {
            Some(out) => non_empty_lines(out@) as u32,
            None => 0,
        },
{
    let branch = match head {
        Some(h) => Some(branch_from_head(h)),
        None => None,
    };
    let dirty_count = match status_output {
        Some(out) => count_non_empty_lines(out),
        None => 0,
    };
    GitInfo { branch, dirty_count }
}

} // verus!
