//! The Unicode facts that the width strategies take from outside crates:
//! canonical composition, grapheme clusters, East-Asian-aware string width and
//! two emoji properties.
use vstd::prelude::*;
use unicode_normalization::UnicodeNormalization;
use unicode_segmentation::UnicodeSegmentation;
use unicode_width::UnicodeWidthStr;

verus! {

/// Every scalar is a printable ASCII character, space through tilde.
pub open spec fn printable_ascii(s: Seq<char>) -> bool {
    forall|i: int| 0 <= i < s.len() ==> ' ' <= #[trigger] s[i] <= '~'
}

/// The NFC (canonical composition) of a scalar sequence.
pub uninterp spec fn nfc_of(s: Seq<char>) -> Seq<char>;

/// The extended grapheme clusters of a scalar sequence, in order.
pub uninterp spec fn clusters_of(s: Seq<char>) -> Seq<Seq<char>>;

/// The UAX #11 display width of a whole string, ambiguous characters narrow.
pub uninterp spec fn str_width_of(s: Seq<char>) -> nat;

/// The Unicode `Emoji_Modifier_Base` property.
pub uninterp spec fn emoji_modifier_base(c: char) -> bool;

/// The Unicode `Emoji_Modifier` property: the five skin-tone modifiers.
pub open spec fn emoji_modifier(c: char) -> bool {
    0x1F3FB <= c as u32 <= 0x1F3FF
}

/// Relies on unicode_normalization's `nfc` iterator, collected into a string.
#[verifier::external_body]
pub(crate) fn nfc(s: &str) -> (r: String)
    ensures
        r@ == nfc_of(s@),
{
    s.nfc().collect::<String>()
}

/// Relies on unicode_segmentation's `graphemes(true)`: the extended grapheme
/// clusters in order. Its category lookup puts every character from space to
/// tilde in the class `Any`, and two `Any` characters always break, so such
/// a string has one cluster per character.
#[verifier::external_body]
pub(crate) fn graphemes(s: &str) -> (r: Vec<String>)
    ensures
        r@.len() == clusters_of(s@).len(),
        forall|i: int| 0 <= i < r@.len() ==> (#[trigger] r@[i])@ == clusters_of(s@)[i],
        printable_ascii(s@) ==> r@.len() == s@.len(),
{
    s.graphemes(true).map(String::from).collect()
}

/// Relies on unicode_width's `UnicodeWidthStr::width`. Characters up to
/// U+00A0 other than line feed and carriage return count 1 each there, so a
/// printable ASCII string is as wide as it is long.
#[verifier::external_body]
pub(crate) fn str_width(s: &str) -> (r: usize)
    ensures
        r as nat == str_width_of(s@),
        printable_ascii(s@) ==> r == s@.len(),
{
    s.width()
}

/// Relies on unic_emoji_char's `is_emoji_modifier`, whose table is the single
/// range U+1F3FB..=U+1F3FF.
#[verifier::external_body]
pub(crate) fn is_emoji_modifier(c: char) -> (r: bool)
    ensures
        r == emoji_modifier(c),
{
    unic_emoji_char::is_emoji_modifier(c)
}

/// Relies on unic_emoji_char's `is_emoji_modifier_base`.
#[verifier::external_body]
pub(crate) fn is_emoji_modifier_base(c: char) -> (r: bool)
    ensures
        r == emoji_modifier_base(c),
{
    unic_emoji_char::is_emoji_modifier_base(c)
}

} // verus!
