use voucher_claim::cookie::{cookie_file_path, cookie_from_file_text, cookie_menu_line, pick_cookie_file};
use voucher_claim::mode::{mode_from_choice, parse_mode, plan_for, Mode, RunPlan, DEFAULT_SLUG};
use voucher_claim::text::{decimal_string, parse_i64, parse_usize, same_text, trim, zero_pad};

#[test]
fn trim_removes_unicode_whitespace_at_both_ends() {
    assert_eq!(trim("  1 \n"), "1");
    assert_eq!(trim("\u{3000}x y\u{a0}\t"), "x y");
    assert_eq!(trim("   "), "");
    assert_eq!(trim(""), "");
    assert_eq!(trim("abc"), "abc");
}

#[test]
fn trim_agrees_with_std() {
    for s in ["\u{85}a\u{2028}", " \u{200b}b ", "\r\nc\u{1680}", "d\u{202f}", " e f "] {
        assert_eq!(trim(s), s.trim());
    }
}

#[test]
fn parse_i64_reads_signed_decimals() {
    assert_eq!(parse_i64("123"), Some(123));
    assert_eq!(parse_i64("+5"), Some(5));
    assert_eq!(parse_i64("-42"), Some(-42));
    assert_eq!(parse_i64("-9223372036854775808"), Some(i64::MIN));
    assert_eq!(parse_i64("9223372036854775807"), Some(i64::MAX));
    assert_eq!(parse_i64("9223372036854775808"), None);
    assert_eq!(parse_i64("-9223372036854775809"), None);
    assert_eq!(parse_i64(""), None);
    assert_eq!(parse_i64("-"), None);
    assert_eq!(parse_i64("+"), None);
    assert_eq!(parse_i64("12a"), None);
    assert_eq!(parse_i64(" 1"), None);
    assert_eq!(parse_i64("0000000000000000000000000007"), Some(7));
}

#[test]
fn parse_i64_agrees_with_std() {
    for s in ["0", "-0", "+-1", "--1", "١٢", "99999999999999999999", "-00012", "7 ", "1_000"] {
        assert_eq!(parse_i64(s), s.parse::<i64>().ok(), "{:?}", s);
    }
}

#[test]
fn parse_usize_reads_unsigned_decimals() {
    assert_eq!(parse_usize("3"), Some(3));
    assert_eq!(parse_usize("+3"), Some(3));
    assert_eq!(parse_usize("-3"), None);
    assert_eq!(parse_usize(""), None);
    assert_eq!(parse_usize("x"), None);
    for s in ["18446744073709551615", "18446744073709551616", "0", "007", "-0"] {
        assert_eq!(parse_usize(s), s.parse::<usize>().ok(), "{:?}", s);
    }
}

#[test]
fn zero_pad_matches_format() {
    for (v, w) in [(5i64, 2usize), (-5, 3), (-5, 2), (123, 2), (0, 3), (-1234, 3), (i64::MIN, 2), (i64::MAX, 25), (7, 0)] {
        assert_eq!(zero_pad(v, w), format!("{:0w$}", v, w = w), "{} {}", v, w);
    }
}

#[test]
fn decimal_string_writes_digits() {
    assert_eq!(decimal_string(0), "0");
    assert_eq!(decimal_string(907), "907");
    assert_eq!(decimal_string(u64::MAX), u64::MAX.to_string());
}

#[test]
fn same_text_compares_characters() {
    assert!(same_text("abc", "abc"));
    assert!(!same_text("abc", "abd"));
    assert!(!same_text("ab", "abc"));
    assert!(same_text("", ""));
}

#[test]
fn menu_answers_select_modes() {
    assert_eq!(mode_from_choice("1"), Some(Mode::Normal));
    assert_eq!(mode_from_choice("2"), Some(Mode::Fast));
    assert_eq!(mode_from_choice("3"), Some(Mode::FastSlug));
    assert_eq!(mode_from_choice(" 1"), None);
    assert_eq!(parse_mode(" 2 \n"), Some(Mode::Fast));
    assert_eq!(parse_mode("\t3"), Some(Mode::FastSlug));
    assert_eq!(parse_mode("4"), None);
    assert_eq!(parse_mode("12"), None);
    assert_eq!(parse_mode(""), None);
}

#[test]
fn plans_follow_the_mode() {
    assert_eq!(plan_for(Mode::Normal), RunPlan { catalog_from_slug: false, validate_before_redeem: true });
    assert_eq!(plan_for(Mode::Fast), RunPlan { catalog_from_slug: false, validate_before_redeem: false });
    assert_eq!(plan_for(Mode::FastSlug), RunPlan { catalog_from_slug: true, validate_before_redeem: false });
    assert_eq!(DEFAULT_SLUG, "GC10DECA");
}

#[test]
fn cookie_file_is_read_from_the_account_folder() {
    assert_eq!(cookie_file_path("alice.txt"), "./akun/alice.txt");
}

#[test]
fn cookie_text_is_trimmed_and_never_empty() {
    assert_eq!(cookie_from_file_text("  sid=1; tok=2 \n"), "sid=1; tok=2");
    assert_eq!(cookie_from_file_text("   \n\t"), " ");
    assert_eq!(cookie_from_file_text(""), " ");
}

#[test]
fn cookie_menu_lines_count_from_one() {
    assert_eq!(cookie_menu_line(0, "a.txt"), "1. a.txt");
    assert_eq!(cookie_menu_line(9, "b"), "10. b");
}

#[test]
fn cookie_choice_must_be_a_listed_number() {
    let files = vec!["a".to_string(), "b".to_string(), "c".to_string()];
    assert_eq!(pick_cookie_file(&files, "1"), Some("a".to_string()));
    assert_eq!(pick_cookie_file(&files, " 3 "), Some("c".to_string()));
    assert_eq!(pick_cookie_file(&files, "+2"), Some("b".to_string()));
    assert_eq!(pick_cookie_file(&files, "0"), None);
    assert_eq!(pick_cookie_file(&files, "4"), None);
    assert_eq!(pick_cookie_file(&files, "x"), None);
    assert_eq!(pick_cookie_file(&Vec::new(), "1"), None);
}
