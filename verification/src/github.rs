use vstd::prelude::*;
use vstd::string::*;
use crate::text::{contains, has_at, occurs_in, starts_with_at, to_chars};

verus! {

/// Whether a remote address points at GitHub: it names `github.com`
/// somewhere.
pub fn is_github_url(url: &str) -> (r: bool)
    ensures
        r == occurs_in(url@, "github.com"@),
{
    contains(url, "github.com")
}

/// Whether a release can be published on GitHub, given the address of the
/// `origin` remote. `None` stands for a repository without that remote, or
/// with one whose address is not text.
pub fn can_release(origin_url: Option<&str>) -> (r: bool)
    ensures
        r == match origin_url {
            Some(url) => occurs_in(url@, "github.com"@),
            None => false,
        },
{
    match origin_url {
        Some(url) => is_github_url(url),
        None => false,
    }
}

/// The characters that part the segments of a remote address.
pub open spec fn is_separator(c: char) -> bool {
    c == '/' || c == ':'
}

/// The position of the last separator before `end`, or -1 where there is
/// none.
pub open spec fn last_separator(s: Seq<char>, end: int) -> int
    decreases end,
{
    if end <= 0 || end > s.len() {
        -1
    } else if is_separator(s[end - 1]) {
        end - 1
    } else {
        last_separator(s, end - 1)
    }
}

/// The length of an address without the `.git` that may end it.
pub open spec fn length_without_suffix(s: Seq<char>) -> int {
    if s.len() >= 4 && has_at(s, s.len() - 4, ".git"@) {
        s.len() - 4
    } else {
        s.len() as int
    }
}

/// The owner and the name of the repository that a remote address names:
/// its last two segments, a `.git` at the end apart. There are none where
/// either segment would be empty or the address has no separator.
pub open spec fn user_and_repo(url: Seq<char>) -> Option<(Seq<char>, Seq<char>)> {
    let end = length_without_suffix(url);
    let slash = last_separator(url, end);
    let before = last_separator(url, slash);
    if 0 <= slash && before + 1 < slash && slash + 1 < end {
        Some((url.subrange(before + 1, slash), url.subrange(slash + 1, end)))
    } else {
        None
    }
}

/// Looks for the last separator before `end`.
pub fn find_last_separator(text: &Vec<char>, end: usize) -> (found: Option<usize>)
    requires
        end <= text.len(),
    ensures
        match found {
            Some(i) => i == last_separator(text@, end as int) && i < end,
            None => last_separator(text@, end as int) == -1,
        },
{
    let mut i: usize = end;
    while i > 0
        invariant
            i <= end <= text.len(),
            last_separator(text@, i as int) == last_separator(text@, end as int),
        decreases i,
    {
        if text[i - 1] == '/' || text[i - 1] == ':' {
            return Some(i - 1);
        }
        i -= 1;
    }
    None
}

/// Reads the owner and the name of a repository from the address of its
/// remote.
pub fn user_repo_from_url(url: &str) -> (pair: Option<(String, String)>)
    ensures
        match pair {
            Some((user, repo)) => user_and_repo(url@) == Some((user@, repo@)),
            None => user_and_repo(url@) is None,
        },
{
    let chars = to_chars(url);
    let n = chars.len();
    let end = if n >= 4 && starts_with_at(&chars, n - 4, ".git") { n - 4 } else { n };
    match find_last_separator(&chars, end) {
        Some(slash) => {
            let start = match find_last_separator(&chars, slash) {
                Some(before) => before + 1,
                None => 0,
            };
            if start < slash && slash + 1 < end {
                let user = url.substring_char(start, slash).to_owned();
                let repo = url.substring_char(slash + 1, end).to_owned();
                Some((user, repo))
            } else {
                None
            }
        },
        None => None,
    }
}

} // verus!
