use vstd::prelude::*;
use unicode_segmentation::UnicodeSegmentation;

verus! {

/// How many user-perceived characters (extended grapheme clusters) a string
/// holds. The count is a function of the characters alone.
pub uninterp spec fn grapheme_count(s: Seq<char>) -> usize;

/// Whether a character above ASCII has the Unicode `White_Space` property.
pub uninterp spec fn is_high_whitespace_char(c: char) -> bool;

/// Whether a character has the Unicode `White_Space` property. Within ASCII
/// the set is pinned down — the space and the controls U+0009 through
/// U+000D — so facts like "a name of spaces is blank" are provable; above
/// ASCII only the name above speaks.
pub open spec fn is_whitespace_char(c: char) -> bool {
    ||| c == ' '
    ||| ('\u{09}' <= c && c <= '\u{0d}')
    ||| ('\u{80}' <= c && is_high_whitespace_char(c))
}

/// Relies on unicode_segmentation's `UnicodeSegmentation::graphemes` with
/// extended grapheme clusters, which segments the string by characters alone.
#[verifier::external_body]
fn count_graphemes(s: &str) -> (r: usize)
    ensures
        r == grapheme_count(s@),
{
    s.graphemes(true).count()
}

/// Relies on std's `char::is_whitespace`: the Unicode `White_Space` property
/// of the character alone, whose members below U+0080 are exactly the space
/// and the controls U+0009 through U+000D.
#[verifier::external_body]
fn char_is_whitespace(c: char) -> (r: bool)
    ensures
        r == is_whitespace_char(c),
        '\u{80}' <= c ==> r == is_high_whitespace_char(c),
{
    c.is_whitespace()
}

/// The characters a display name may not contain.
pub open spec fn forbidden_name_char(c: char) -> bool {
    ||| c == '/'
    ||| c == '('
    ||| c == ')'
    ||| c == '"'
    ||| c == '<'
    ||| c == '>'
    ||| c == '\\'
    ||| c == '{'
    ||| c == '}'
}

/// A string is blank when every character is whitespace; the empty string is
/// blank. This is exactly when trimming leaves nothing.
pub open spec fn blank(s: Seq<char>) -> bool {
    forall|i: int| 0 <= i < s.len() ==> is_whitespace_char(#[trigger] s[i])
}

/// A valid display name: not blank, at most 256 user-perceived characters,
/// and free of the forbidden characters.
pub open spec fn name_ok(s: Seq<char>) -> bool {
    &&& !blank(s)
    &&& grapheme_count(s) <= 256
    &&& forall|i: int| 0 <= i < s.len() ==> !forbidden_name_char(#[trigger] s[i])
}

/// A subscriber's display name, validated on construction.
///
/// Invariants of the wrapped string:
///  - not empty and not whitespace-only
///  - at most 256 user-perceived characters (grapheme clusters)
///  - none of the forbidden characters `/ ( ) " < > \ { }`
pub struct SubscriberName(String);

impl View for SubscriberName {
    type V = Seq<char>;

    closed spec fn view(&self) -> Seq<char> {
        self.0@
    }
}

fn is_blank(s: &str) -> (r: bool)
    ensures
        r == blank(s@),
{
    let n = s.unicode_len();
    let mut i: usize = 0;
    while i < n
        invariant
            n == s@.len(),
            i <= n,
            forall|j: int| 0 <= j < i ==> is_whitespace_char(#[trigger] s@[j]),
        decreases n - i,
    {
        if !char_is_whitespace(s.get_char(i)) {
            return false;
        }
        i = i + 1;
    }
    true
}

fn has_forbidden_char(s: &str) -> (r: bool)
    ensures
        r == exists|i: int| 0 <= i < s@.len() && forbidden_name_char(#[trigger] s@[i]),
{
    let n = s.unicode_len();
    let mut i: usize = 0;
    while i < n
        invariant
            n == s@.len(),
            i <= n,
            forall|j: int| 0 <= j < i ==> !forbidden_name_char(#[trigger] s@[j]),
        decreases n - i,
    {
        let c = s.get_char(i);
        if c == '/' || c == '(' || c == ')' || c == '"' || c == '<' || c == '>' || c == '\\'
            || c == '{' || c == '}' {
            assert(forbidden_name_char(s@[i as int]));
            return true;
        }
        assert(!forbidden_name_char(s@[i as int]));
        i = i + 1;
    }
    false
}

impl SubscriberName {
    /// Accepts exactly the valid display names; a blank input (the empty
    /// string among them) is always rejected.
    pub fn parse(s: String) -> (r: Result<SubscriberName, String>)
        ensures
            r is Ok <==> name_ok(s@),
            r matches Ok(n) ==> n@ == s@,
            blank(s@) ==> r is Err,
            grapheme_count(s@) > 256 ==> r is Err,
    {
        if is_blank(s.as_str()) {
            return Err(String::from_str("the name is empty or whitespace only"));
        }
        // The limit is on user-perceived characters, not bytes or code points.
        if count_graphemes(s.as_str()) > 256 {
            return Err(String::from_str("the name must be at most 256 graphemes"));
        }
        if has_forbidden_char(s.as_str()) {
            return Err(String::from_str("the name contains a forbidden character"));
        }
        Ok(SubscriberName(s))
    }

    /// The validated name as a string slice.
    pub fn as_str(&self) -> (r: &str)
        ensures
            r@ == self@,
    {
        self.0.as_str()
    }

    /// The validated name as an owned string.
    pub fn as_string(&self) -> (r: String)
        ensures
            r@ == self@,
    {
        self.0.clone()
    }
}

} // verus!
