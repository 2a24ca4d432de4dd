use lua_engine::{integer_to_string, join_lines, unsigned_to_string};

#[test]
fn unsigned_numerals_match_the_standard_formatting() {
    for n in [0u64, 1, 9, 10, 11, 99, 100, 101, 12345, 1_000_000, u64::MAX - 1, u64::MAX] {
        assert_eq!(unsigned_to_string(n), n.to_string());
    }
}

#[test]
fn signed_numerals_match_the_standard_formatting() {
    for i in [0i64, 1, -1, 9, -9, 10, -10, 255, -300, 2147483647, -2147483648, i64::MAX, i64::MIN, i64::MIN + 1] {
        assert_eq!(integer_to_string(i), i.to_string());
    }
}

#[test]
fn join_puts_the_separator_between_lines_only() {
    let lines = vec!["a".to_string(), "".to_string(), "c".to_string()];
    assert_eq!(join_lines(&lines, "\n"), "a\n\nc");
    assert_eq!(join_lines(&lines, ", "), "a, , c");
    assert_eq!(join_lines(&vec!["only".to_string()], "\n"), "only");
    assert_eq!(join_lines(&vec![], "\n"), "");
    assert_eq!(join_lines(&vec!["".to_string(), "".to_string()], "-"), "-");
}
