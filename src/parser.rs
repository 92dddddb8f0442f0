use vstd::prelude::*;

verus! {

/// Whether `c` has the Unicode `White_Space` property (what `char::is_whitespace` tests).
pub open spec fn is_whitespace_char(c: char) -> bool {
    ('\u{9}' <= c && c <= '\u{d}') || c == ' ' || c == '\u{85}' || c == '\u{a0}' || c
        == '\u{1680}' || ('\u{2000}' <= c && c <= '\u{200a}') || c == '\u{2028}' || c
        == '\u{2029}' || c == '\u{202f}' || c == '\u{205f}' || c == '\u{3000}'
}

/// A string is blank when it is empty or made of whitespace only.
pub open spec fn is_blank(s: Seq<char>) -> bool {
    forall|i: int| 0 <= i < s.len() ==> #[trigger] is_whitespace_char(s[i])
}

/// Tests `c` for whitespace, as `is_whitespace_char` defines it.
pub fn is_whitespace(c: char) -> (r: bool)
    ensures
        r == is_whitespace_char(c),
{
    ('\u{9}' <= c && c <= '\u{d}') || c == ' ' || c == '\u{85}' || c == '\u{a0}' || c
        == '\u{1680}' || ('\u{2000}' <= c && c <= '\u{200a}') || c == '\u{2028}' || c
        == '\u{2029}' || c == '\u{202f}' || c == '\u{205f}' || c == '\u{3000}'
}

/// Tests whether `s` is blank.
pub fn is_blank_str(s: &str) -> (r: bool)
    ensures
        r == is_blank(s@),
{
    for c in it: s.chars()
        invariant
            it.seq() == s@,
            forall|i: int| 0 <= i < it.index() ==> #[trigger] is_whitespace_char(s@[i]),
    {
        if !is_whitespace(c) {
            return false;
        }
    }
    true
}

/// Why a raw string was refused as a view identifier.
#[derive(Clone, Copy, Debug, PartialEq, Eq, Structural)]
pub enum ViewIdError {
    /// The string is empty or holds whitespace only.
    Blank,
}

impl ViewIdError {
    pub open spec fn message_spec(self) -> Seq<char> {
        match self {
            ViewIdError::Blank => "View id can not be empty or whitespace"@,
        }
    }

    /// A human-readable description of the failure.
    pub fn message(&self) -> (r: String)
        ensures
            r@ == self.message_spec(),
    {
        match self {
            ViewIdError::Blank => String::from_str("View id can not be empty or whitespace"),
        }
    }
}

/// The normalization rule for view identifiers: a blank string is refused,
/// any other string is kept as it is.
pub open spec fn normalize(s: Seq<char>) -> Result<Seq<char>, ViewIdError> {
    if is_blank(s) {
        Err(ViewIdError::Blank)
    } else {
        Ok(s)
    }
}

/// A view identifier that has passed normalization.
pub struct ViewId(pub String);

impl ViewId {
    /// Checks `s` against the normalization rule.
    pub fn parse(s: String) -> (r: Result<ViewId, ViewIdError>)
        ensures
            match r {
                Ok(id) => normalize(s@) == Ok::<Seq<char>, ViewIdError>(id.0@),
                Err(e) => normalize(s@) == Err::<Seq<char>, ViewIdError>(e),
            },
    {
        if is_blank_str(s.as_str()) {
            Err(ViewIdError::Blank)
        } else {
            Ok(ViewId(s))
        }
    }
}

} // verus!
