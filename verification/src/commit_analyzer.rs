use vstd::prelude::*;
use vstd::string::*;
use crate::text::{has_at, matches_at, starts_with_at, to_chars};

verus! {

/// How severe a change is. The variants are listed from the least to the most
/// severe: no annotation, a fix, a feature, a breaking change.
#[derive(Clone, Copy, Debug, PartialEq, Eq, Structural, PartialOrd, Ord, Hash)]
pub enum CommitType {
    Unknown,
    Patch,
    Minor,
    Major,
}

/// The place of a kind of change in the order of severity.
pub open spec fn severity(kind: CommitType) -> nat {
    match kind {
        CommitType::Unknown => 0,
        CommitType::Patch => 1,
        CommitType::Minor => 2,
        CommitType::Major => 3,
    }
}

/// The same order as a number that executable code can compare.
pub fn rank(kind: CommitType) -> (r: u8)
    ensures
        r == severity(kind),
{
    match kind {
        CommitType::Unknown => 0,
        CommitType::Patch => 1,
        CommitType::Minor => 2,
        CommitType::Major => 3,
    }
}

/// The sets of characters that the commit grammar is built from.
#[derive(Clone, Copy, Debug, PartialEq, Eq, Structural)]
pub enum CharClass {
    /// An ASCII letter: the characters of a type token.
    Letter,
    /// Anything that may stand inside the parentheses of a scope.
    Scope,
    /// The blank that may follow the colon.
    Blank,
    /// Anything but a line break.
    Line,
    /// A decimal digit.
    Digit,
}

/// Whether a character belongs to a class.
pub open spec fn in_class(class: CharClass, c: char) -> bool {
    match class {
        CharClass::Letter => ('a' <= c && c <= 'z') || ('A' <= c && c <= 'Z'),
        CharClass::Scope => c != '(' && c != ')' && c != '\n',
        CharClass::Blank => c == ' ',
        CharClass::Line => c != '\n',
        CharClass::Digit => '0' <= c && c <= '9',
    }
}

/// Where the longest run of characters of `class` that starts at `from` ends.
pub open spec fn run_end(s: Seq<char>, from: int, class: CharClass) -> int
    decreases s.len() - from,
{
    if 0 <= from < s.len() && in_class(class, s[from]) {
        run_end(s, from + 1, class)
    } else {
        from
    }
}

/// Tests whether a character belongs to a class.
pub fn class_holds(class: CharClass, c: char) -> (r: bool)
    ensures
        r == in_class(class, c),
{
    match class {
        CharClass::Letter => ('a' <= c && c <= 'z') || ('A' <= c && c <= 'Z'),
        CharClass::Scope => c != '(' && c != ')' && c != '\n',
        CharClass::Blank => c == ' ',
        CharClass::Line => c != '\n',
        CharClass::Digit => '0' <= c && c <= '9',
    }
}

/// Skips the run of characters of `class` that starts at `from`.
pub fn scan(text: &Vec<char>, from: usize, class: CharClass) -> (end: usize)
    requires
        from <= text.len(),
    ensures
        end == run_end(text@, from as int, class),
        from <= end <= text.len(),
{
    let mut i: usize = from;
    while i < text.len() && class_holds(class, text[i])
        invariant
            from <= i <= text.len(),
            run_end(text@, i as int, class) == run_end(text@, from as int, class),
        decreases text.len() - i,
    {
        i += 1;
    }
    i
}

/// Whether `token` is `lower` or `upper` or any mix of the two, letter by
/// letter: a comparison that ignores the case of ASCII letters.
pub open spec fn is_word(token: Seq<char>, lower: Seq<char>, upper: Seq<char>) -> bool {
    &&& token.len() == lower.len()
    &&& token.len() == upper.len()
    &&& forall|i: int|
        0 <= i < token.len() ==> #[trigger] token[i] == lower[i] || token[i] == upper[i]
}

/// Compares the first `len` characters of `text` with a word, ignoring case.
pub fn word_matches(text: &Vec<char>, len: usize, lower: &str, upper: &str) -> (r: bool)
    requires
        len <= text.len(),
    ensures
        r == is_word(text@.subrange(0, len as int), lower@, upper@),
{
    if lower.unicode_len() != len || upper.unicode_len() != len {
        return false;
    }
    let ghost token = text@.subrange(0, len as int);
    let mut i: usize = 0;
    while i < len
        invariant
            i <= len <= text.len(),
            token == text@.subrange(0, len as int),
            lower@.len() == len,
            upper@.len() == len,
            forall|k: int| 0 <= k < i ==> #[trigger] token[k] == lower@[k] || token[k] == upper@[k],
        decreases len - i,
    {
        let c = text[i];
        if c != lower.get_char(i) && c != upper.get_char(i) {
            assert(!(token[i as int] == lower@[i as int] || token[i as int] == upper@[i as int]));
            return false;
        }
        i += 1;
    }
    true
}

/// The positions that the grammar `type(scope)!: subject` marks in a message.
/// The type runs from the start to `type_end`, the scope over the range in
/// `scope`, the subject from `subject_start` to `subject_end`.
pub ghost struct HeaderSpan {
    pub type_end: int,
    pub scope: Option<(int, int)>,
    pub bang: bool,
    pub subject_start: int,
    pub subject_end: int,
}

/// Reads the first line of a message against the grammar
/// `type(scope)!: subject`, in which the scope and the `!` are optional. The
/// type is a non-empty run of ASCII letters, the scope a non-empty run of
/// characters other than parentheses and line breaks. The subject is the rest
/// of the line after the colon and the blanks that follow it.
pub open spec fn header_of(m: Seq<char>) -> Option<HeaderSpan> {
    let t = run_end(m, 0, CharClass::Letter);
    let opens = t < m.len() && m[t] == '(';
    let close = run_end(m, t + 1, CharClass::Scope);
    let scope_ok = opens ==> (t + 1 < close && close < m.len() && m[close] == ')');
    let after = if opens { close + 1 } else { t };
    let bang = after < m.len() && m[after] == '!';
    let colon = if bang { after + 1 } else { after };
    if 0 < t && scope_ok && colon < m.len() && m[colon] == ':' {
        let start = run_end(m, colon + 1, CharClass::Blank);
        Some(
            HeaderSpan {
                type_end: t,
                scope: if opens { Some((t + 1, close)) } else { None },
                bang,
                subject_start: start,
                subject_end: run_end(m, start, CharClass::Line),
            },
        )
    } else {
        None
    }
}

/// The same positions as machine integers.
#[derive(Clone, Copy, Debug)]
pub struct Header {
    pub type_end: usize,
    pub scope: Option<(usize, usize)>,
    pub bang: bool,
    pub subject_start: usize,
    pub subject_end: usize,
}

impl Header {
    /// The positions as mathematical integers.
    pub open spec fn span(self) -> HeaderSpan {
        HeaderSpan {
            type_end: self.type_end as int,
            scope: match self.scope {
                Some((a, b)) => Some((a as int, b as int)),
                None => None,
            },
            bang: self.bang,
            subject_start: self.subject_start as int,
            subject_end: self.subject_end as int,
        }
    }

    /// The positions lie inside a text of `len` characters, in order.
    pub open spec fn within(self, len: int) -> bool {
        &&& 0 < self.type_end <= self.subject_start <= self.subject_end <= len
        &&& match self.scope {
            Some((a, b)) => self.type_end < a < b < self.subject_start,
            None => true,
        }
    }
}

/// Parses the first line of a message. `None` means that the line does not
/// follow the grammar.
pub fn parse_header(text: &Vec<char>) -> (header: Option<Header>)
    ensures
        match header {
            Some(h) => header_of(text@) == Some(h.span()) && h.within(text@.len() as int),
            None => header_of(text@) is None,
        },
{
    let n = text.len();
    let t = scan(text, 0, CharClass::Letter);
    if t == 0 {
        return None;
    }
    let mut after = t;
    let mut scope: Option<(usize, usize)> = None;
    if t < n && text[t] == '(' {
        let close = scan(text, t + 1, CharClass::Scope);
        if close == t + 1 || close >= n || text[close] != ')' {
            return None;
        }
        scope = Some((t + 1, close));
        after = close + 1;
    }
    let bang = after < n && text[after] == '!';
    let colon = if bang { after + 1 } else { after };
    if colon >= n || text[colon] != ':' {
        return None;
    }
    let start = scan(text, colon + 1, CharClass::Blank);
    let end = scan(text, start, CharClass::Line);
    Some(Header { type_end: t, scope, bang, subject_start: start, subject_end: end })
}


/// What a commit message says about the change: its kind, the scope it
/// names, and the subject without the prefix.
#[derive(Debug)]
pub struct Classification {
    pub kind: CommitType,
    pub scope: Option<String>,
    pub subject: String,
}

/// A classification with its texts as sequences of characters.
pub ghost struct ClassificationView {
    pub kind: CommitType,
    pub scope: Option<Seq<char>>,
    pub subject: Seq<char>,
}

impl View for Classification {
    type V = ClassificationView;

    open spec fn view(&self) -> ClassificationView {
        ClassificationView {
            kind: self.kind,
            scope: match self.scope {
                Some(s) => Some(s@),
                None => None,
            },
            subject: self.subject@,
        }
    }
}

/// The kind that a type token stands for: `feat` a feature, `fix` a fix,
/// in any case of the letters; every other token carries no annotation.
pub open spec fn base_kind(token: Seq<char>) -> CommitType {
    if is_word(token, "feat"@, "FEAT"@) {
        CommitType::Minor
    } else if is_word(token, "fix"@, "FIX"@) {
        CommitType::Patch
    } else {
        CommitType::Unknown
    }
}

/// Whether a line that begins with `BREAKING CHANGE:` starts right after the
/// line break at position `i`.
pub open spec fn footer_at(m: Seq<char>, i: int) -> bool {
    0 <= i < m.len() && m[i] == '\n' && has_at(m, i + 1, "BREAKING CHANGE:"@)
}

/// Whether the body of the message, the lines after the first, holds a line
/// that begins with `BREAKING CHANGE:`.
pub open spec fn has_breaking_footer(m: Seq<char>) -> bool {
    exists|i: int| footer_at(m, i)
}

/// The classification of a message. A message whose first line follows the
/// grammar gets the kind of its type token, raised to a breaking change by a
/// `!` before the colon or by a `BREAKING CHANGE:` line in the body. Any
/// other message carries no annotation and no scope, and its first line is
/// its subject.
pub open spec fn classification(m: Seq<char>) -> ClassificationView {
    match header_of(m) {
        Some(h) => ClassificationView {
            kind: if h.bang || has_breaking_footer(m) {
                CommitType::Major
            } else {
                base_kind(m.subrange(0, h.type_end))
            },
            scope: match h.scope {
                Some((a, b)) => Some(m.subrange(a, b)),
                None => None,
            },
            subject: m.subrange(h.subject_start, h.subject_end),
        },
        None => ClassificationView {
            kind: CommitType::Unknown,
            scope: None,
            subject: m.subrange(0, run_end(m, 0, CharClass::Line)),
        },
    }
}

/// Looks for a `BREAKING CHANGE:` line in the body of a message.
pub fn breaking_footer(text: &Vec<char>) -> (found: bool)
    ensures
        found == has_breaking_footer(text@),
{
    let marker = to_chars("BREAKING CHANGE:");
    let mut i: usize = 0;
    while i < text.len()
        invariant
            i <= text.len(),
            marker@ == "BREAKING CHANGE:"@,
            forall|k: int| 0 <= k < i ==> !footer_at(text@, k),
        decreases text.len() - i,
    {
        if text[i] == '\n' && matches_at(text, i + 1, &marker) {
            assert(footer_at(text@, i as int));
            return true;
        }
        i += 1;
    }
    false
}

/// The kind of a type token, which is the first `len` characters of `text`.
pub fn kind_of_token(text: &Vec<char>, len: usize) -> (kind: CommitType)
    requires
        len <= text.len(),
    ensures
        kind == base_kind(text@.subrange(0, len as int)),
{
    if word_matches(text, len, "feat", "FEAT") {
        CommitType::Minor
    } else if word_matches(text, len, "fix", "FIX") {
        CommitType::Patch
    } else {
        CommitType::Unknown
    }
}

/// Classifies a commit by the text of its message alone. Every message has a
/// classification: one that does not follow the grammar is unannotated.
pub fn classify(message: &str) -> (c: Classification)
    ensures
        c@ == classification(message@),
{
    let text = to_chars(message);
    match parse_header(&text) {
        Some(h) => {
            let kind = if h.bang || breaking_footer(&text) {
                CommitType::Major
            } else {
                kind_of_token(&text, h.type_end)
            };
            let scope = match h.scope {
                Some((a, b)) => Some(message.substring_char(a, b).to_owned()),
                None => None,
            };
            let subject = message.substring_char(h.subject_start, h.subject_end).to_owned();
            Classification { kind, scope, subject }
        },
        None => {
            let end = scan(&text, 0, CharClass::Line);
            Classification {
                kind: CommitType::Unknown,
                scope: None,
                subject: message.substring_char(0, end).to_owned(),
            }
        },
    }
}

/// Whether a message is one that a release writes itself: its first line is
/// `Bump version to ` followed by a version of three dot-separated numbers
/// and nothing more.
pub open spec fn release_marker(m: Seq<char>) -> bool {
    let a = "Bump version to "@.len() as int;
    let b = run_end(m, a, CharClass::Digit);
    let c = run_end(m, b + 1, CharClass::Digit);
    let d = run_end(m, c + 1, CharClass::Digit);
    &&& has_at(m, 0, "Bump version to "@)
    &&& a < b < m.len() && m[b] == '.'
    &&& b + 1 < c < m.len() && m[c] == '.'
    &&& c + 1 < d
    &&& d <= m.len()
    &&& d < m.len() ==> m[d] == '\n'
}

/// Recognises the commits of an earlier release, which take no part in the
/// next decision.
pub fn is_release_marker(message: &str) -> (r: bool)
    ensures
        r == release_marker(message@),
{
    let text = to_chars(message);
    let n = text.len();
    if !starts_with_at(&text, 0, "Bump version to ") {
        return false;
    }
    let a = "Bump version to ".unicode_len();
    let b = scan(&text, a, CharClass::Digit);
    if b == a || b >= n || text[b] != '.' {
        return false;
    }
    let c = scan(&text, b + 1, CharClass::Digit);
    if c == b + 1 || c >= n || text[c] != '.' {
        return false;
    }
    let d = scan(&text, c + 1, CharClass::Digit);
    if d == c + 1 {
        return false;
    }
    d == n || text[d] == '\n'
}

} // verus!
