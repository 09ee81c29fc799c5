use termwidth::wcwidths::{
    fish_width_total, locale_is_utf8, recommended_width_total, system_width_total,
    wcwidth_result, widecharwidth_fish, widecharwidth_recommended, WCWidth,
};
use termwidth::widths::{
    byte_count, cluster_width, codepoint_count, grapheme_count, heuristic_width, hybrid_width,
    nfc_codepoint_count, nfc_unicode_str_width, unicode_str_width,
};

#[test]
fn ascii_strategies_agree() {
    let s = "Hello, world! ~{}";
    let n = s.len();
    assert_eq!(byte_count(s), n);
    assert_eq!(codepoint_count(s), n);
    assert_eq!(grapheme_count(s), n);
    assert_eq!(unicode_str_width(s), n);
}

#[test]
fn empty_string_is_zero_wide() {
    assert_eq!(byte_count(""), 0);
    assert_eq!(codepoint_count(""), 0);
    assert_eq!(nfc_codepoint_count(""), 0);
    assert_eq!(grapheme_count(""), 0);
    assert_eq!(unicode_str_width(""), 0);
    assert_eq!(hybrid_width(""), 0);
    assert_eq!(heuristic_width(""), 0);
}

#[test]
fn cafe_precomposed_counts() {
    let s = "caf\u{e9}";
    assert_eq!(byte_count(s), 5);
    assert_eq!(codepoint_count(s), 4);
    assert_eq!(grapheme_count(s), 4);
}

#[test]
fn cafe_combining_normalizes() {
    let s = "cafe\u{301}";
    assert_eq!(nfc_codepoint_count(s), 4);
    assert_eq!(codepoint_count(s), 5);
    assert_eq!(grapheme_count(s), 4);
    assert_eq!(nfc_unicode_str_width(s), 4);
}

#[test]
fn nfc_can_lengthen_an_excluded_composite() {
    // U+0958 is excluded from composition: its NFC is U+0915 U+093C.
    assert_eq!(codepoint_count("\u{958}"), 1);
    assert_eq!(nfc_codepoint_count("\u{958}"), 2);
}

#[test]
fn wide_ideographs() {
    assert_eq!(unicode_str_width("\u{65e5}\u{672c}"), 4);
    assert_eq!(hybrid_width("\u{65e5}\u{672c}"), 4);
    assert_eq!(byte_count("\u{65e5}\u{672c}"), 6);
}

#[test]
fn flag_cluster_is_two_wide() {
    let flag = "\u{1F1FA}\u{1F1F8}";
    assert_eq!(grapheme_count(flag), 1);
    assert_eq!(cluster_width(flag), 2);
    assert_eq!(hybrid_width(flag), 2);
    assert_eq!(heuristic_width(flag), 2);
    assert_eq!(hybrid_width("a\u{1F1FA}\u{1F1F8}b"), 4);
}

#[test]
fn skin_tone_sequence_is_two_wide() {
    let thumbs = "\u{1F44D}\u{1F3FD}";
    assert_eq!(grapheme_count(thumbs), 1);
    assert_eq!(hybrid_width(thumbs), 2);
    assert_eq!(cluster_width("\u{1F3FB}"), 2);
}

#[test]
fn heuristic_plain_text_uses_string_width() {
    assert_eq!(hybrid_width("abc"), 3);
    assert_eq!(cluster_width("e\u{301}"), 1);
    assert_eq!(heuristic_width("cafe\u{301}"), 4);
}

#[test]
fn fish_variation_selectors() {
    assert_eq!(widecharwidth_fish('\u{fe0f}', WCWidth::Combining, -1), 1);
    assert_eq!(widecharwidth_fish('\u{fe0f}', WCWidth::Width(0), 0), 1);
    assert_eq!(widecharwidth_fish('\u{fe0e}', WCWidth::Width(2), 2), 0);
    assert_eq!(widecharwidth_fish('\u{fe0e}', WCWidth::Combining, 1), 0);
    assert_eq!(fish_width_total("\u{fe0f}", &[WCWidth::Combining], &[0]), 1);
    assert_eq!(fish_width_total("\u{fe0e}", &[WCWidth::Combining], &[1]), 0);
}

#[test]
fn fish_jamo_and_fallbacks() {
    assert_eq!(widecharwidth_fish('\u{1161}', WCWidth::Width(1), 1), 0);
    assert_eq!(widecharwidth_fish('\u{11ff}', WCWidth::Width(1), 1), 0);
    assert_eq!(widecharwidth_fish('\u{1100}', WCWidth::Width(2), 2), 2);
    assert_eq!(widecharwidth_fish('a', WCWidth::Width(1), 1), 1);
    assert_eq!(widecharwidth_fish('x', WCWidth::Ambiguous, 2), 1);
    assert_eq!(widecharwidth_fish('x', WCWidth::PrivateUse, 2), 1);
    assert_eq!(widecharwidth_fish('x', WCWidth::WidenedIn9, 1), 2);
    assert_eq!(widecharwidth_fish('x', WCWidth::Nonprint, 1), 1);
    assert_eq!(widecharwidth_fish('x', WCWidth::Combining, -1), 0);
    assert_eq!(widecharwidth_fish('x', WCWidth::Unassigned, 2), 2);
}

#[test]
fn recommended_mapping() {
    assert_eq!(widecharwidth_recommended(WCWidth::Width(2)), 2);
    assert_eq!(widecharwidth_recommended(WCWidth::Width(1)), 1);
    assert_eq!(widecharwidth_recommended(WCWidth::Nonprint), 0);
    assert_eq!(widecharwidth_recommended(WCWidth::Combining), 0);
    assert_eq!(widecharwidth_recommended(WCWidth::Ambiguous), 1);
    assert_eq!(widecharwidth_recommended(WCWidth::PrivateUse), 1);
    assert_eq!(widecharwidth_recommended(WCWidth::Unassigned), 0);
    assert_eq!(widecharwidth_recommended(WCWidth::WidenedIn9), 2);
    let ws = [WCWidth::Width(1), WCWidth::WidenedIn9, WCWidth::Combining, WCWidth::Ambiguous];
    assert_eq!(recommended_width_total(&ws), 4);
    assert_eq!(recommended_width_total(&[]), 0);
}

#[test]
fn totals_saturate() {
    let ws = [WCWidth::Width(usize::MAX), WCWidth::Width(3)];
    assert_eq!(recommended_width_total(&ws), usize::MAX);
}

#[test]
fn system_widths_ignore_negatives() {
    assert_eq!(system_width_total(&[1, -1, 2, 0]), 3);
    assert_eq!(system_width_total(&[]), 0);
    assert_eq!(wcwidth_result(2), Ok(2));
    assert_eq!(wcwidth_result(0), Ok(0));
    assert_eq!(wcwidth_result(-1), Err(-1));
}

#[test]
fn fish_total_over_string() {
    let s = "a\u{fe0f}\u{1161}";
    let ws = [WCWidth::Width(1), WCWidth::Combining, WCWidth::Width(1)];
    assert_eq!(fish_width_total(s, &ws, &[1, 0, 1]), 2);
}

#[test]
fn utf8_locale_names() {
    assert!(locale_is_utf8("en_US.UTF-8"));
    assert!(locale_is_utf8("C.utf8"));
    assert!(locale_is_utf8("de_DE.Utf-8@euro"));
    assert!(!locale_is_utf8("C"));
    assert!(!locale_is_utf8("POSIX"));
    assert!(!locale_is_utf8("en_US.ISO-8859-1"));
    assert!(!locale_is_utf8("utf-"));
    assert!(!locale_is_utf8(""));
}

#[test]
fn modifier_base_alone_counts_two() {
    // U+261D is an emoji modifier base whose own string width is 1.
    assert_eq!(unicode_str_width("\u{261d}"), 1);
    assert_eq!(cluster_width("\u{261d}"), 2);
    assert_eq!(hybrid_width("\u{261d}x"), 3);
}
