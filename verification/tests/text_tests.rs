use response_error::text::{parse_u16, str_to_chars};

fn chars(s: &str) -> Vec<char> {
    s.chars().collect()
}

#[test]
fn str_to_chars_matches_the_string() {
    assert_eq!(str_to_chars("abc"), vec!['a', 'b', 'c']);
    assert_eq!(str_to_chars(""), Vec::<char>::new());
    assert_eq!(str_to_chars("{0.code}"), chars("{0.code}"));
}

#[test]
fn parse_u16_reads_decimal_numerals() {
    assert_eq!(parse_u16(&chars("0")), Some(0));
    assert_eq!(parse_u16(&chars("404")), Some(404));
    assert_eq!(parse_u16(&chars("007")), Some(7));
    assert_eq!(parse_u16(&chars("65535")), Some(65535));
}

#[test]
fn parse_u16_accepts_a_leading_plus_as_std_does() {
    assert_eq!(parse_u16(&chars("+44")), Some(44));
    assert_eq!(parse_u16(&chars("+")), None);
}

#[test]
fn parse_u16_rejects_what_is_not_a_u16_numeral() {
    assert_eq!(parse_u16(&chars("")), None);
    assert_eq!(parse_u16(&chars("65536")), None);
    assert_eq!(parse_u16(&chars("99999999999999999999")), None);
    assert_eq!(parse_u16(&chars("4_04")), None);
    assert_eq!(parse_u16(&chars("-1")), None);
    assert_eq!(parse_u16(&chars("4x")), None);
    assert_eq!(parse_u16(&chars(" 404")), None);
}

#[test]
fn parse_u16_agrees_with_std_on_samples() {
    for s in ["0", "12", "+9", "65535", "65536", "070", "a", "", "+", "1 2"] {
        assert_eq!(parse_u16(&chars(s)), s.parse::<u16>().ok(), "on {:?}", s);
    }
}
