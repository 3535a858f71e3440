//! Texts, their order, and numbers rounded as floating-point ones.

use dl_voice_typing::numeric::{find_unit, round_even, round_to_bits};
use dl_voice_typing::order::{is_before, stable_order};
use dl_voice_typing::text::{
    ascii_lowered, chars_of, decimal_text, matches_at, replace, same_text, take_chars,
    text_between, trim,
};

#[test]
fn space_is_trimmed_at_both_ends() {
    assert_eq!(trim(" \t 你 好\u{3000}\n"), "你 好");
    assert_eq!(trim(" \u{a0} "), "");
    assert_eq!(trim("x"), "x");
}

#[test]
fn occurrences_are_replaced_from_the_left() {
    assert_eq!(replace("aaa", "aa", "b"), "ba");
    assert_eq!(replace("abc", "x", "y"), "abc");
    assert_eq!(replace("密钥=密", "密", "*"), "*钥=*");
}

#[test]
fn texts_are_cut_by_characters() {
    assert_eq!(take_chars("你好吗", 2), "你好");
    assert_eq!(take_chars("ab", 5), "ab");
    let chars = chars_of("你好吗");
    assert_eq!(text_between(&chars, 1, 3), "好吗");
    assert!(matches_at(&chars, &chars_of("好"), 1));
    assert!(!matches_at(&chars, &chars_of("好"), 2));
    assert!(same_text("a", "a") && !same_text("a", "A"));
    assert_eq!(ascii_lowered("ÄB"), "Äb");
}

#[test]
fn numbers_are_written_in_decimal() {
    assert_eq!(decimal_text(0), "0");
    assert_eq!(decimal_text(u64::MAX), "18446744073709551615");
}

#[test]
fn texts_are_ordered_by_code_points() {
    assert!(is_before("a", "b") && is_before("a", "ab") && is_before("Z", "a"));
    assert!(!is_before("b", "a") && !is_before("a", "a"));
    assert!(is_before("", "a") && is_before("z", "一"));
}

#[test]
fn equal_keys_keep_their_order() {
    let keys: Vec<String> = ["b", "a", "b", "c"].iter().map(|s| s.to_string()).collect();
    assert_eq!(stable_order(&keys, false), vec![1, 0, 2, 3]);
    assert_eq!(stable_order(&keys, true), vec![3, 0, 2, 1]);
}

#[test]
fn ties_are_rounded_to_even() {
    assert_eq!(round_even(5, 2), 2);
    assert_eq!(round_even(7, 2), 4);
    assert_eq!(round_even(8, 3), 3);
    assert_eq!(find_unit(9, 1), 8);
}

#[test]
fn integers_are_rounded_as_the_compiler_does() {
    for n in [0u64, 1, 16_777_217, 16_777_219, 9_007_199_254_740_993, u64::MAX] {
        assert_eq!(round_to_bits(n, 1 << 24), (n as f32) as u128, "{n}");
        assert_eq!(round_to_bits(n, 1 << 53), (n as f64) as u128, "{n}");
    }
}
