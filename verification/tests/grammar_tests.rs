use response_error::grammar::{
    parse_annotation, parse_type_annotation, AnnotationEntry, GrammarError, StatusValue, ValueExpr,
};
use response_error::token::Token;

fn id(s: &str) -> Token {
    Token::Ident(s.to_string())
}

fn p(c: char) -> Token {
    Token::Punct(c)
}

fn lit(s: &str) -> Token {
    Token::Literal(s.to_string())
}

fn slit(s: &str) -> Token {
    Token::Literal(format!("\"{}\"", s))
}

#[test]
fn empty_payload_has_no_entries() {
    assert_eq!(parse_annotation(&vec![]), Ok(vec![]));
}

#[test]
fn flags_parse() {
    let toks = vec![id("internal"), p(','), id("forward")];
    assert_eq!(
        parse_annotation(&toks),
        Ok(vec![AnnotationEntry::Internal, AnnotationEntry::Forward])
    );
}

#[test]
fn status_literal_parses() {
    let toks = vec![id("status"), p('='), lit("404")];
    assert_eq!(
        parse_annotation(&toks),
        Ok(vec![AnnotationEntry::Status(StatusValue::Code(404))])
    );
}

#[test]
fn status_path_parses() {
    let toks = vec![id("status"), p('='), id("http"), p(':'), p(':'), id("NOT_FOUND")];
    assert_eq!(
        parse_annotation(&toks),
        Ok(vec![AnnotationEntry::Status(StatusValue::Path(vec![
            "http".to_string(),
            "NOT_FOUND".to_string()
        ]))])
    );
}

#[test]
fn status_range_edges() {
    let ok = |n: &str| {
        parse_annotation(&vec![id("status"), p('='), lit(n)])
    };
    assert_eq!(ok("100"), Ok(vec![AnnotationEntry::Status(StatusValue::Code(100))]));
    assert_eq!(ok("999"), Ok(vec![AnnotationEntry::Status(StatusValue::Code(999))]));
    assert_eq!(ok("99"), Err(GrammarError::InvalidStatusLiteral));
    assert_eq!(ok("1000"), Err(GrammarError::InvalidStatusLiteral));
    assert_eq!(ok("abc"), Err(GrammarError::InvalidStatusLiteral));
}

#[test]
fn status_string_literal_is_rejected() {
    let toks = vec![id("status"), p('='), slit("404")];
    assert_eq!(parse_annotation(&toks), Err(GrammarError::InvalidStatusLiteral));
}

#[test]
fn status_without_value_is_rejected() {
    assert_eq!(
        parse_annotation(&vec![id("status"), p('=')]),
        Err(GrammarError::InvalidStatus)
    );
    assert_eq!(
        parse_annotation(&vec![id("status"), p('='), p('!')]),
        Err(GrammarError::InvalidStatus)
    );
}

#[test]
fn reason_string_parses_to_content() {
    let toks = vec![id("reason"), p('='), slit("NOT_FOUND")];
    assert_eq!(
        parse_annotation(&toks),
        Ok(vec![AnnotationEntry::Reason(ValueExpr::StrLit("NOT_FOUND".to_string()))])
    );
}

#[test]
fn reason_numeric_literal_is_rejected() {
    let toks = vec![id("reason"), p('='), lit("5")];
    assert_eq!(parse_annotation(&toks), Err(GrammarError::InvalidReason));
}

#[test]
fn reason_path_parses() {
    let toks = vec![id("reason"), p('='), id("Reasons"), p(':'), p(':'), id("Gone")];
    assert_eq!(
        parse_annotation(&toks),
        Ok(vec![AnnotationEntry::Reason(ValueExpr::Path(vec![
            "Reasons".to_string(),
            "Gone".to_string()
        ]))])
    );
}

#[test]
fn type_accepts_string_and_path() {
    assert_eq!(
        parse_annotation(&vec![id("type"), p('='), slit("image error")]),
        Ok(vec![AnnotationEntry::TypeTag(ValueExpr::StrLit("image error".to_string()))])
    );
    assert_eq!(
        parse_annotation(&vec![id("type"), p('='), id("Kinds")]),
        Ok(vec![AnnotationEntry::TypeTag(ValueExpr::Path(vec!["Kinds".to_string()]))])
    );
    assert_eq!(
        parse_annotation(&vec![id("type"), p('='), lit("7")]),
        Err(GrammarError::InvalidType)
    );
}

#[test]
fn details_accepts_only_string_literals() {
    assert_eq!(
        parse_annotation(&vec![id("details"), p('='), slit("{0.code}")]),
        Ok(vec![AnnotationEntry::Details("{0.code}".to_string())])
    );
    assert_eq!(
        parse_annotation(&vec![id("details"), p('='), lit("7")]),
        Err(GrammarError::InvalidDetails)
    );
    assert_eq!(
        parse_annotation(&vec![id("details"), p('='), id("x")]),
        Err(GrammarError::InvalidDetails)
    );
}

#[test]
fn unknown_option_names_the_offender() {
    let toks = vec![id("colour"), p('='), slit("red")];
    assert_eq!(
        parse_annotation(&toks),
        Err(GrammarError::UnknownOption("colour".to_string()))
    );
}

#[test]
fn key_without_equals_is_rejected() {
    let toks = vec![id("colour")];
    assert_eq!(
        parse_annotation(&toks),
        Err(GrammarError::MissingEquals("colour".to_string()))
    );
}

#[test]
fn missing_separator_names_the_token() {
    let toks = vec![id("status"), p('='), lit("404"), id("reason"), p('='), slit("X")];
    assert_eq!(
        parse_annotation(&toks),
        Err(GrammarError::UnexpectedToken(Token::Ident("reason".to_string())))
    );
}

#[test]
fn flag_with_value_is_rejected() {
    let toks = vec![id("internal"), p('='), lit("5")];
    assert_eq!(
        parse_annotation(&toks),
        Err(GrammarError::UnexpectedToken(Token::Punct('=')))
    );
}

#[test]
fn malformed_path_is_rejected() {
    let toks = vec![id("reason"), p('='), id("a"), p(':')];
    assert_eq!(parse_annotation(&toks), Err(GrammarError::InvalidPath));
    let toks = vec![id("reason"), p('='), id("a"), p(':'), p(':'), lit("3")];
    assert_eq!(parse_annotation(&toks), Err(GrammarError::InvalidPath));
}

#[test]
fn trailing_comma_and_empty_chunks_are_tolerated() {
    let toks = vec![id("internal"), p(',')];
    assert_eq!(parse_annotation(&toks), Ok(vec![AnnotationEntry::Internal]));
    let toks = vec![p(','), id("internal")];
    assert_eq!(parse_annotation(&toks), Ok(vec![AnnotationEntry::Internal]));
}

#[test]
fn stray_single_token_chunk_is_skipped() {
    let toks = vec![lit("5"), p(','), id("forward")];
    assert_eq!(parse_annotation(&toks), Ok(vec![AnnotationEntry::Forward]));
}

#[test]
fn duplicate_keys_both_parse() {
    let toks = vec![
        id("reason"),
        p('='),
        slit("FIRST"),
        p(','),
        id("reason"),
        p('='),
        slit("SECOND"),
    ];
    assert_eq!(
        parse_annotation(&toks),
        Ok(vec![
            AnnotationEntry::Reason(ValueExpr::StrLit("FIRST".to_string())),
            AnnotationEntry::Reason(ValueExpr::StrLit("SECOND".to_string())),
        ])
    );
}

#[test]
fn type_annotation_custom() {
    let toks = vec![id("transform"), p('='), id("custom")];
    assert_eq!(parse_type_annotation(&toks), Ok(true));
}

#[test]
fn type_annotation_unresolvable_target_is_rejected() {
    let toks = vec![id("transform"), p('='), id("standard")];
    assert_eq!(
        parse_type_annotation(&toks),
        Err(GrammarError::UnresolvableTransform("standard".to_string()))
    );
}

#[test]
fn type_annotation_without_transform_is_not_custom() {
    let toks = vec![id("flavour"), p('='), id("custom")];
    assert_eq!(parse_type_annotation(&toks), Ok(false));
    assert_eq!(parse_type_annotation(&vec![]), Ok(false));
}

#[test]
fn type_annotation_last_assignment_wins() {
    let toks = vec![
        id("transform"),
        p('='),
        id("custom"),
        p(','),
        id("transform"),
        p('='),
        id("standard"),
    ];
    assert_eq!(
        parse_type_annotation(&toks),
        Err(GrammarError::UnresolvableTransform("standard".to_string()))
    );
    let toks = vec![
        id("transform"),
        p('='),
        id("standard"),
        p(','),
        id("transform"),
        p('='),
        id("custom"),
    ];
    assert_eq!(parse_type_annotation(&toks), Ok(true));
}

#[test]
fn type_annotation_non_ident_sides_are_ignored() {
    let toks = vec![lit("5"), p('='), lit("6"), p(','), id("transform"), p('='), id("custom")];
    assert_eq!(parse_type_annotation(&toks), Ok(true));
    let toks = vec![id("transform"), p('='), slit("custom")];
    assert_eq!(parse_type_annotation(&toks), Ok(false));
}

#[test]
fn raw_string_literals_are_accepted() {
    let toks = vec![id("reason"), p('='), lit("r\"NOT_FOUND\"")];
    assert_eq!(
        parse_annotation(&toks),
        Ok(vec![AnnotationEntry::Reason(ValueExpr::StrLit("NOT_FOUND".to_string()))])
    );
    let toks = vec![id("reason"), p('='), lit("r#\"quoted \" inside\"#")];
    assert_eq!(
        parse_annotation(&toks),
        Ok(vec![AnnotationEntry::Reason(ValueExpr::StrLit("quoted \" inside".to_string()))])
    );
    let toks = vec![id("details"), p('='), lit("r\"{0.code}\"")];
    assert_eq!(
        parse_annotation(&toks),
        Ok(vec![AnnotationEntry::Details("{0.code}".to_string())])
    );
}

#[test]
fn raw_string_guards_must_match() {
    let toks = vec![id("reason"), p('='), lit("r#\"X\"")];
    assert_eq!(parse_annotation(&toks), Err(GrammarError::InvalidReason));
}

#[test]
fn escape_sequences_stand_for_their_characters() {
    let toks = vec![id("reason"), p('='), lit("\"A\\nB\"")];
    assert_eq!(
        parse_annotation(&toks),
        Ok(vec![AnnotationEntry::Reason(ValueExpr::StrLit("A\nB".to_string()))])
    );
    let toks = vec![id("reason"), p('='), lit("\"say \\\"hi\\\"\"")];
    assert_eq!(
        parse_annotation(&toks),
        Ok(vec![AnnotationEntry::Reason(ValueExpr::StrLit("say \"hi\"".to_string()))])
    );
    let toks = vec![id("reason"), p('='), lit("\"\\x41\\u{263A}\\t\\\\\\0\"")];
    assert_eq!(
        parse_annotation(&toks),
        Ok(vec![AnnotationEntry::Reason(ValueExpr::StrLit("A\u{263A}\t\\\0".to_string()))])
    );
}

#[test]
fn malformed_escapes_are_rejected() {
    let toks = vec![id("reason"), p('='), lit("\"A\\qB\"")];
    assert_eq!(parse_annotation(&toks), Err(GrammarError::InvalidReason));
    let toks = vec![id("reason"), p('='), lit("\"\\u{}\"")];
    assert_eq!(parse_annotation(&toks), Err(GrammarError::InvalidReason));
    let toks = vec![id("reason"), p('='), lit("\"\\u{D800}\"")];
    assert_eq!(parse_annotation(&toks), Err(GrammarError::InvalidReason));
    let toks = vec![id("reason"), p('='), lit("\"\\xFF\"")];
    assert_eq!(parse_annotation(&toks), Err(GrammarError::InvalidReason));
}

#[test]
fn type_annotation_malformed_assignment_is_rejected() {
    let toks = vec![id("transform"), id("custom")];
    assert_eq!(parse_type_annotation(&toks), Err(GrammarError::InvalidAssignment));
    let toks = vec![id("transform"), p('=')];
    assert_eq!(parse_type_annotation(&toks), Err(GrammarError::InvalidAssignment));
}
