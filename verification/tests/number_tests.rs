use harnex::number::{decimal_string, parse_u32_range};

fn parse(s: &str) -> Option<u32> {
    let v: Vec<char> = s.chars().collect();
    parse_u32_range(&v, 0, v.len())
}

#[test]
fn renders_decimal() {
    assert_eq!(decimal_string(0), "0");
    assert_eq!(decimal_string(7), "7");
    assert_eq!(decimal_string(3080), "3080");
    assert_eq!(decimal_string(u64::MAX), u64::MAX.to_string());
}

#[test]
fn parses_like_std() {
    for s in ["0", "42", "+42", "007", "4294967295", "4294967296", "", "+", "-1", "1 ", "x1", "99999999999999999999"] {
        assert_eq!(parse(s), s.parse::<u32>().ok(), "{s:?}");
    }
}

#[test]
fn parses_a_range() {
    let v: Vec<char> = "pid=1234;".chars().collect();
    assert_eq!(parse_u32_range(&v, 4, 8), Some(1234));
}
