use vstd::prelude::*;
use vstd::std_specs::iter::IteratorSpec;
use vstd::string::*;

verus! {

/// Whether `pat` occurs in `text` starting exactly at position `pos`.
pub open spec fn has_at(text: Seq<char>, pos: int, pat: Seq<char>) -> bool {
    &&& 0 <= pos
    &&& pos + pat.len() <= text.len()
    &&& text.subrange(pos, pos + pat.len()) == pat
}

/// Whether `pat` occurs somewhere in `text`.
pub open spec fn occurs_in(text: Seq<char>, pat: Seq<char>) -> bool {
    exists|pos: int| #[trigger] has_at(text, pos, pat)
}

/// The characters of a string slice, one vector element per character.
pub fn to_chars(s: &str) -> (out: Vec<char>)
    ensures
        out@ == s@,
{
    broadcast use vstd::string::group_string_axioms;

    let n = s.unicode_len();
    let mut it = s.chars();
    let mut out: Vec<char> = Vec::new();
    let mut i: usize = 0;
    assert(out@ + IteratorSpec::remaining(&it) =~= s@);
    while i < n
        invariant
            i <= n,
            n == s@.len(),
            out@.len() == i,
            it.obeys_prophetic_iter_laws(),
            out@ + IteratorSpec::remaining(&it) == s@,
        decreases n - i,
    {
        let ghost rest = IteratorSpec::remaining(&it);
        let ghost sofar = out@;
        assert((sofar + rest).len() == n);
        if let Some(c) = it.next() {
            out.push(c);
            assert(sofar.push(c) + rest.drop_first() =~= sofar + rest);
        }
        i += 1;
    }
    assert(out@ =~= s@);
    out
}

/// Tests whether the characters `pat` stand in `text` at position `pos`.
pub fn matches_at(text: &Vec<char>, pos: usize, pat: &Vec<char>) -> (found: bool)
    ensures
        found == has_at(text@, pos as int, pat@),
{
    let n = pat.len();
    if pos > text.len() || n > text.len() - pos {
        return false;
    }
    let mut j: usize = 0;
    while j < n
        invariant
            j <= n,
            n == pat@.len(),
            pos + n <= text@.len() <= usize::MAX,
            text@.subrange(pos as int, pos + j) == pat@.subrange(0, j as int),
        decreases n - j,
    {
        if text[pos + j] != pat[j] {
            assert(text@.subrange(pos as int, pos + n)[j as int] != pat@[j as int]);
            return false;
        }
        j += 1;
        assert(text@.subrange(pos as int, pos + j) =~= pat@.subrange(0, j as int));
    }
    assert(pat@.subrange(0, n as int) =~= pat@);
    true
}

/// Tests whether `pat` stands in `text` at position `pos`.
pub fn starts_with_at(text: &Vec<char>, pos: usize, pat: &str) -> (found: bool)
    ensures
        found == has_at(text@, pos as int, pat@),
{
    let wanted = to_chars(pat);
    matches_at(text, pos, &wanted)
}

/// Tests whether two string slices hold the same text.
pub fn same_text(a: &str, b: &str) -> (same: bool)
    ensures
        same == (a@ == b@),
{
    let chars = to_chars(a);
    let found = starts_with_at(&chars, 0, b);
    let same = found && chars.len() == b.unicode_len();
    proof {
        if same {
            assert(a@.subrange(0, b@.len() as int) =~= a@);
        }
        if a@ == b@ {
            assert(a@.subrange(0, b@.len() as int) =~= a@);
        }
    }
    same
}

/// Searches `text` for an occurrence of `pat`.
pub fn contains(text: &str, pat: &str) -> (found: bool)
    ensures
        found == occurs_in(text@, pat@),
{
    let chars = to_chars(text);
    let wanted = to_chars(pat);
    let mut pos: usize = 0;
    while pos < chars.len()
        invariant
            pos <= chars.len(),
            chars@ == text@,
            wanted@ == pat@,
            forall|p: int| 0 <= p < pos ==> !has_at(text@, p, pat@),
        decreases chars.len() - pos,
    {
        if matches_at(&chars, pos, &wanted) {
            assert(has_at(text@, pos as int, pat@));
            return true;
        }
        pos += 1;
    }
    let found = matches_at(&chars, pos, &wanted);
    assert(forall|p: int| has_at(text@, p, pat@) ==> p == pos);
    found
}

/// The texts of a list of strings.
pub open spec fn texts(strings: Seq<String>) -> Seq<Seq<char>> {
    strings.map_values(|s: String| s@)
}

/// The text of a string that may be absent.
pub open spec fn text_of(s: Option<String>) -> Option<Seq<char>> {
    match s {
        Some(s) => Some(s@),
        None => None,
    }
}

} // verus!
