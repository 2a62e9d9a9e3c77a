use unicode_segmentation::UnicodeSegmentation;
use vstd::prelude::*;

verus! {

/// Whether `c` has the Unicode `White_Space` property (the code points that
/// `PropList.txt` lists as `White_Space`), which is what `char::is_whitespace`
/// and `str::trim` go by.
pub open spec fn is_white_space(c: char) -> bool {
    let u = c as u32;
    ||| 0x09 <= u <= 0x0D
    ||| u == 0x20
    ||| u == 0x85
    ||| u == 0xA0
    ||| u == 0x1680
    ||| 0x2000 <= u <= 0x200A
    ||| u == 0x2028
    ||| u == 0x2029
    ||| u == 0x202F
    ||| u == 0x205F
    ||| u == 0x3000
}

/// Calls `char::is_whitespace`, which is true exactly of the characters
/// with the Unicode `White_Space` property.
#[verifier::external_body]
fn char_is_whitespace(c: char) -> (r: bool)
    ensures
        r == is_white_space(c),
{
    c.is_whitespace()
}

/// Every character of `s` is whitespace (the empty string included): exactly
/// the strings that `str::trim` turns into the empty string.
pub open spec fn is_blank(s: Seq<char>) -> bool {
    forall|i: int| 0 <= i < s.len() ==> is_white_space(#[trigger] s[i])
}

fn is_blank_str(s: &str) -> (r: bool)
    ensures
        r == is_blank(s@),
{
    let mut blank = true;
    for c in it: s.chars()
        invariant
            it.seq() == s@,
            blank == (forall|j: int| 0 <= j < it.index() ==> is_white_space(#[trigger] s@[j])),
    {
        let w = char_is_whitespace(c);
        blank = blank && w;
    }
    blank
}

/// The number of extended grapheme clusters of `s`, as `unicode_segmentation` counts them.
pub uninterp spec fn grapheme_count(s: Seq<char>) -> usize;

/// Counts the extended grapheme clusters of `s` with
/// `UnicodeSegmentation::graphemes(s, true).count()`. The count is named
/// [`grapheme_count`]; each cluster the iterator yields holds at least one
/// character, so the count is at most the number of characters and is zero
/// only for the empty string.
#[verifier::external_body]
fn count_graphemes(s: &str) -> (n: usize)
    ensures
        n == grapheme_count(s@),
        n <= s@.len(),
        (n == 0) == (s@.len() == 0),
{
    s.graphemes(true).count()
}

/// The characters that no name or e-mail address may contain.
pub open spec fn is_forbidden_char(c: char) -> bool {
    ||| c == '/'
    ||| c == '('
    ||| c == ')'
    ||| c == '"'
    ||| c == '<'
    ||| c == '>'
    ||| c == '\\'
    ||| c == '{'
    ||| c == '}'
}

/// `s` holds at least one forbidden character.
pub open spec fn has_forbidden_char(s: Seq<char>) -> bool {
    exists|i: int| 0 <= i < s.len() && is_forbidden_char(#[trigger] s[i])
}

fn forbidden_char(c: char) -> (r: bool)
    ensures
        r == is_forbidden_char(c),
{
    c == '/' || c == '(' || c == ')' || c == '"' || c == '<' || c == '>' || c == '\\' || c == '{'
        || c == '}'
}

fn contains_forbidden_chars(s: &str) -> (r: bool)
    ensures
        r == has_forbidden_char(s@),
{
    let mut found = false;
    for c in it: s.chars()
        invariant
            it.seq() == s@,
            found == (exists|j: int| 0 <= j < it.index() && is_forbidden_char(#[trigger] s@[j])),
    {
        if forbidden_char(c) {
            found = true;
        }
    }
    found
}

/// The most extended grapheme clusters a name or e-mail address may have.
pub const MAX_GRAPHEMES: usize = 256;

/// `s`, of `count` grapheme clusters, is not blank, not longer than
/// [`MAX_GRAPHEMES`] and free of forbidden characters.
pub open spec fn passes_checks_with_count(s: Seq<char>, count: int) -> bool {
    &&& !is_blank(s)
    &&& count <= MAX_GRAPHEMES
    &&& !has_forbidden_char(s)
}

/// The checks that every name and e-mail address must pass.
pub open spec fn passes_generic_checks(s: Seq<char>) -> bool {
    passes_checks_with_count(s, grapheme_count(s) as int)
}

/// The checks of [`generic_string_checks`], given the grapheme count of `s`.
pub fn checks_with_grapheme_count(s: &str, graphemes: usize) -> (ok: bool)
    ensures
        ok == passes_checks_with_count(s@, graphemes as int),
{
    let empty_or_whitespace = is_blank_str(s);
    let is_too_long = graphemes > MAX_GRAPHEMES;
    let contains_forbidden = contains_forbidden_chars(s);
    !(empty_or_whitespace || is_too_long || contains_forbidden)
}

/// Whether `s` is acceptable as a subscriber name: not empty or whitespace
/// only, at most 256 grapheme clusters long, and without any of
/// `/ ( ) " < > \ { }`.
pub fn generic_string_checks(s: &str) -> (ok: bool)
    ensures
        ok == passes_generic_checks(s@),
        s@.len() <= MAX_GRAPHEMES ==> ok == (!is_blank(s@) && !has_forbidden_char(s@)),
        (forall|i: int| 0 <= i < s@.len() ==> is_white_space(#[trigger] s@[i])) ==> !ok,
        (exists|i: int| 0 <= i < s@.len() && (#[trigger] s@[i] == '/' || #[trigger] s@[i] == '(' || #[trigger] s@[i] == ')' || #[trigger] s@[i] == '"' || #[trigger] s@[i] == '<' || #[trigger] s@[i] == '>' || #[trigger] s@[i] == '\\' || #[trigger] s@[i] == '{' || #[trigger] s@[i] == '}')) ==> !ok,
        ({
            &&& s@.len() <= MAX_GRAPHEMES
            &&& exists|i: int| 0 <= i < s@.len() && !is_white_space(#[trigger] s@[i])
            &&& forall|i: int| 0 <= i < s@.len() ==> !(#[trigger] s@[i] == '/' || #[trigger] s@[i] == '(' || #[trigger] s@[i] == ')' || #[trigger] s@[i] == '"' || #[trigger] s@[i] == '<' || #[trigger] s@[i] == '>' || #[trigger] s@[i] == '\\' || #[trigger] s@[i] == '{' || #[trigger] s@[i] == '}')
        }) ==> ok,
{
    let count = count_graphemes(s);
    let ok = checks_with_grapheme_count(s, count);
    proof {
        lemma_checks_exactly(s@, count as int);
    }
    ok
}

/// A string passes the checks, at a given grapheme count, exactly when it is
/// at most 256 clusters long, holds a character that is not `White_Space`,
/// and holds none of the nine characters `/ ( ) " < > \ { }`. So a string
/// of whitespace alone, of any length, is rejected, and every other
/// character (letters, digits, `'`, `-`, `.`, `@`, ...) is allowed.
pub proof fn lemma_checks_exactly(s: Seq<char>, n: int)
    ensures
        passes_checks_with_count(s, n) <==> {
            &&& n <= 256
            &&& exists|i: int| 0 <= i < s.len() && !is_white_space(#[trigger] s[i])
            &&& forall|i: int| 0 <= i < s.len() ==> !(#[trigger] s[i] == '/' || #[trigger] s[i] == '(' || #[trigger] s[i] == ')' || #[trigger] s[i] == '"' || #[trigger] s[i] == '<' || #[trigger] s[i] == '>' || #[trigger] s[i] == '\\' || #[trigger] s[i] == '{' || #[trigger] s[i] == '}')
        },
        (forall|i: int| 0 <= i < s.len() ==> is_white_space(#[trigger] s[i])) ==> !passes_checks_with_count(s, n),
        n == grapheme_count(s) ==> (passes_generic_checks(s) <==> passes_checks_with_count(s, n)),
{
}

} // verus!
