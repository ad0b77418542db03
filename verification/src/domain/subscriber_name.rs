use crate::errors::Error;
use unicode_segmentation::UnicodeSegmentation;
use vstd::prelude::*;

verus! {

/// Upper bound on the number of extended grapheme clusters in a name.
pub const MAX_GRAPHEMES: usize = 256;

/// The number of extended (when `extended` holds) or legacy grapheme clusters
/// that `unicode_segmentation` finds in a string.
pub uninterp spec fn grapheme_count(s: Seq<char>, extended: bool) -> nat;

/// The Unicode `White_Space` property, which `char::is_whitespace` and
/// `str::trim` go by: U+0009 to U+000D, U+0020, U+0085, U+00A0, U+1680,
/// U+2000 to U+200A, U+2028, U+2029, U+202F, U+205F and U+3000.
pub open spec fn is_white_space(c: char) -> bool {
    ||| '\u{9}' <= c <= '\u{d}'
    ||| c == ' '
    ||| c == '\u{85}'
    ||| c == '\u{a0}'
    ||| c == '\u{1680}'
    ||| '\u{2000}' <= c <= '\u{200a}'
    ||| c == '\u{2028}'
    ||| c == '\u{2029}'
    ||| c == '\u{202f}'
    ||| c == '\u{205f}'
    ||| c == '\u{3000}'
}

/// Counts the grapheme clusters of `s` with `UnicodeSegmentation::graphemes`.
/// Trusted: the count is the named `grapheme_count` of the characters, and it
/// is at most the number of characters, since every cluster the iterator
/// yields is a non-empty slice of `s`.
#[verifier::external_body]
fn count_graphemes(s: &str, extended: bool) -> (n: usize)
    ensures
        n as nat == grapheme_count(s@, extended),
        n <= s@.len(),
{
    s.graphemes(extended).count()
}

/// Whether a character has the `White_Space` property.
fn white_space(c: char) -> (b: bool)
    ensures
        b == is_white_space(c),
{
    ('\u{9}' <= c && c <= '\u{d}') || c == ' ' || c == '\u{85}' || c == '\u{a0}' || c == '\u{1680}'
        || ('\u{2000}' <= c && c <= '\u{200a}') || c == '\u{2028}' || c == '\u{2029}'
        || c == '\u{202f}' || c == '\u{205f}' || c == '\u{3000}'
}

/// The characters that a subscriber name may not hold.
pub open spec fn is_forbidden_character(c: char) -> bool {
    c == '/' || c == '(' || c == ')' || c == '"' || c == '<' || c == '>' || c == '\\' || c == '{'
        || c == '}'
}

/// A string is blank when it is empty or holds white space only; this is
/// exactly when trimming it leaves nothing.
pub open spec fn is_blank(s: Seq<char>) -> bool {
    forall|i: int| 0 <= i < s.len() ==> #[trigger] is_white_space(s[i])
}

pub open spec fn has_forbidden_character(s: Seq<char>) -> bool {
    exists|i: int| 0 <= i < s.len() && #[trigger] is_forbidden_character(s[i])
}

/// The rule for a subscriber name, given the number of its grapheme clusters.
pub open spec fn name_rule_holds(s: Seq<char>, graphemes: nat) -> bool {
    &&& !is_blank(s)
    &&& graphemes <= MAX_GRAPHEMES
    &&& !has_forbidden_character(s)
}

/// A valid subscriber name: not blank, at most 256 extended grapheme clusters
/// long, and free of forbidden characters.
pub open spec fn is_valid_name(s: Seq<char>) -> bool {
    name_rule_holds(s, grapheme_count(s, true))
}

pub open spec fn invalid_name_message() -> Seq<char> {
    "Subscriber name is invalid"@
}

/// The error that a rejected name gives.
pub open spec fn is_name_error(e: Error) -> bool {
    e matches Error::ValidateSubscriberNameError(m) && m@ == invalid_name_message()
}

fn forbidden_character(c: char) -> (b: bool)
    ensures
        b == is_forbidden_character(c),
{
    c == '/' || c == '(' || c == ')' || c == '"' || c == '<' || c == '>' || c == '\\' || c == '{'
        || c == '}'
}

/// Whether `s` is empty or white space only, in one pass over its characters.
pub fn blank(s: &str) -> (b: bool)
    ensures
        b == is_blank(s@),
{
    broadcast use vstd::string::group_string_axioms;

    for c in it: s.chars()
        invariant
            it.seq() == s@,
            forall|j: int| 0 <= j < it.index() ==> #[trigger] is_white_space(s@[j]),
    {
        if !white_space(c) {
            return false;
        }
    }
    true
}

/// Whether `s` holds a character that a name may not hold, in one pass over
/// its characters.
pub fn contains_forbidden_characters(s: &str) -> (b: bool)
    ensures
        b == has_forbidden_character(s@),
{
    broadcast use vstd::string::group_string_axioms;

    for c in it: s.chars()
        invariant
            it.seq() == s@,
            forall|j: int| 0 <= j < it.index() ==> !#[trigger] is_forbidden_character(s@[j]),
    {
        if forbidden_character(c) {
            assert(is_forbidden_character(s@[it.index() as int]));
            return true;
        }
    }
    false
}

/// An empty or white-space-only name is never valid.
pub proof fn lemma_blank_names_are_invalid(s: Seq<char>)
    requires
        is_blank(s),
    ensures
        !is_valid_name(s),
{
}

/// A name that holds one of the forbidden characters is never valid.
pub proof fn lemma_forbidden_characters_make_names_invalid(s: Seq<char>, i: int)
    requires
        0 <= i < s.len(),
        is_forbidden_character(s[i]),
    ensures
        !is_valid_name(s),
{
}

/// The forbidden characters are exactly the nine `/ ( ) " < > \ { }`.
pub proof fn lemma_forbidden_characters_are_the_nine(c: char)
    ensures
        is_forbidden_character(c) <==> (c == '/' || c == '(' || c == ')' || c == '"' || c == '<'
            || c == '>' || c == '\\' || c == '{' || c == '}'),
{
}

/// White space is the Unicode `White_Space` property: U+0009 to U+000D,
/// U+0020, U+0085, U+00A0, U+1680, U+2000 to U+200A, U+2028, U+2029, U+202F,
/// U+205F and U+3000, and nothing else.
pub proof fn lemma_white_space_is_the_unicode_property(c: char)
    ensures
        is_white_space(c) <==> ((c as u32) >= 9 && (c as u32) <= 13 || (c as u32) == 32 || (c as u32)
            == 0x85 || (c as u32) == 0xa0 || (c as u32) == 0x1680 || (c as u32) >= 0x2000 && (c as u32)
            <= 0x200a || (c as u32) == 0x2028 || (c as u32) == 0x2029 || (c as u32) == 0x202f || (c
            as u32) == 0x205f || (c as u32) == 0x3000),
{
}

/// A name whose characters are all white space, of any length, is never valid.
pub proof fn lemma_white_space_only_names_are_invalid(s: Seq<char>)
    requires
        forall|i: int| 0 <= i < s.len() ==> is_white_space(#[trigger] s[i]),
    ensures
        !is_valid_name(s),
{
}

/// The name rule in terms of the characters themselves: a name is valid
/// exactly when some character of it is not white space, it has at most 256
/// extended grapheme clusters, and none of its characters is one of
/// `/ ( ) " < > \ { }`.
pub proof fn lemma_valid_names_are_exactly(s: Seq<char>)
    ensures
        is_valid_name(s) <==> {
            &&& exists|i: int| 0 <= i < s.len() && !is_white_space(#[trigger] s[i])
            &&& grapheme_count(s, true) <= 256
            &&& forall|i: int|
                0 <= i < s.len() ==> !is_one_of_the_nine(#[trigger] s[i])
        },
{
    assert(is_blank(s) <==> !exists|i: int| 0 <= i < s.len() && !is_white_space(#[trigger] s[i]));
    if has_forbidden_character(s) {
        let i = choose|i: int| 0 <= i < s.len() && #[trigger] is_forbidden_character(s[i]);
        assert(is_one_of_the_nine(s[i]));
    }
    if !forall|i: int| 0 <= i < s.len() ==> !is_one_of_the_nine(#[trigger] s[i]) {
        let i = choose|i: int| 0 <= i < s.len() && is_one_of_the_nine(#[trigger] s[i]);
        assert(is_forbidden_character(s[i]));
    }
}

/// Whether a character is one of `/ ( ) " < > \ { }`, written out on its own.
pub open spec fn is_one_of_the_nine(c: char) -> bool {
    c == '/' || c == '(' || c == ')' || c == '"' || c == '<' || c == '>' || c == '\\' || c == '{'
        || c == '}'
}

/// A rejected name is answered with exactly the error
/// `ValidateSubscriberNameError("Subscriber name is invalid")`.
pub proof fn lemma_name_error_text(e: Error)
    ensures
        is_name_error(e) <==> (e matches Error::ValidateSubscriberNameError(m) && m@
            == "Subscriber name is invalid"@),
{
}

/// A subscriber's name. `parse` makes one only from a valid name;
/// `parse_with_grapheme_count` trusts the count it is given, and `inner_mut`
/// lets the holder change the text to anything, so a value does not by itself
/// prove that its text is valid.
#[derive(Debug)]
pub struct SubscriberName(String);

impl View for SubscriberName {
    type V = Seq<char>;

    closed spec fn view(&self) -> Seq<char> {
        self.0@
    }
}

impl SubscriberName {
    /// Returns an instance of `SubscriberName` if the input satisfies all our
    /// validation constraints on subscriber names, an error otherwise.
    pub fn parse(s: &str) -> (r: Result<SubscriberName, Error>)
        ensures
            r is Ok <==> is_valid_name(s@),
            r matches Ok(n) ==> n@ == s@,
            r matches Err(e) ==> is_name_error(e),
            s@.len() <= MAX_GRAPHEMES && !is_blank(s@) && !has_forbidden_character(s@) ==> r is Ok,
    {
        let graphemes = count_graphemes(s, true);
        Self::parse_with_grapheme_count(s, graphemes)
    }

    /// The rule of `parse`, given the number of extended grapheme clusters of `s`.
    pub fn parse_with_grapheme_count(s: &str, graphemes: usize) -> (r: Result<SubscriberName, Error>)
        ensures
            r is Ok <==> name_rule_holds(s@, graphemes as nat),
            r matches Ok(n) ==> n@ == s@,
            r matches Err(e) ==> is_name_error(e),
    {
        let is_empty_or_whitespace = blank(s);
        let is_too_long = graphemes > MAX_GRAPHEMES;
        let contains_forbidden = contains_forbidden_characters(s);
        if is_empty_or_whitespace || is_too_long || contains_forbidden {
            Err(Error::ValidateSubscriberNameError(String::from_str("Subscriber name is invalid")))
        } else {
            Ok(SubscriberName(String::from_str(s)))
        }
    }

    /// Gives up the name and returns the string it holds.
    pub fn inner(self) -> (r: String)
        ensures
            r@ == self@,
    {
        self.0
    }

    /// Lends the string the name holds for changes in place; what the caller
    /// writes through it is what the name holds afterwards, valid or not.
    pub fn inner_mut(&mut self) -> (r: &mut str)
        ensures
            r@ == old(self)@,
            final(self)@ == final(r)@,
    {
        string_as_mut_str(&mut self.0)
    }
}

/// Calls `String::as_mut_str`. Trusted: the slice holds the string's
/// characters, and the string afterwards holds what the slice holds then.
#[verifier::external_body]
fn string_as_mut_str(s: &mut String) -> (r: &mut str)
    ensures
        r@ == old(s)@,
        final(s)@ == final(r)@,
{
    s.as_mut_str()
}

impl AsRef<str> for SubscriberName {
    fn as_ref(&self) -> (r: &str)
        ensures
            r@ == self@,
    {
        self.0.as_str()
    }
}

} // verus!
