use app_shell::text::{i32_dec_string, truncate_chars, u64_dec_string};

#[test]
fn zero_renders_as_one_digit() {
    assert_eq!(u64_dec_string(0), "0");
}

#[test]
fn port_number_renders_exactly() {
    assert_eq!(u64_dec_string(3333), "3333");
}

#[test]
fn large_value_renders_exactly() {
    assert_eq!(u64_dec_string(18446744073709551615), "18446744073709551615");
}

#[test]
fn negative_value_gets_a_minus_sign() {
    assert_eq!(i32_dec_string(-123), "-123");
}

#[test]
fn extreme_exit_codes_render_exactly() {
    assert_eq!(i32_dec_string(i32::MIN), "-2147483648");
    assert_eq!(i32_dec_string(i32::MAX), "2147483647");
}

#[test]
fn short_text_is_kept_whole() {
    assert_eq!(truncate_chars("release notes", 200), "release notes");
}

#[test]
fn long_text_is_cut_at_the_limit() {
    assert_eq!(truncate_chars("abcdef", 3), "abc");
    let long: String = std::iter::repeat('x').take(250).collect();
    let cut = truncate_chars(&long, 200);
    assert_eq!(cut.chars().count(), 200);
}

#[test]
fn truncation_counts_characters_not_bytes() {
    assert_eq!(truncate_chars("héllo", 2), "hé");
}

#[test]
fn empty_text_stays_empty() {
    assert_eq!(truncate_chars("", 200), "");
}
