use response_error::generate::{generate, GenerateError, VariantInput};
use response_error::grammar::{GrammarError, StatusValue, ValueExpr};
use response_error::token::Token;

fn id(s: &str) -> Token {
    Token::Ident(s.to_string())
}

fn p(c: char) -> Token {
    Token::Punct(c)
}

fn lit(s: &str) -> Token {
    Token::Literal(s.to_string())
}

fn slit(s: &str) -> Token {
    Token::Literal(format!("\"{}\"", s))
}

fn variant(name: &str, groups: Vec<Vec<Token>>) -> VariantInput {
    VariantInput { name: name.to_string(), groups }
}

#[test]
fn generates_the_table_for_two_variants() {
    let variants = vec![
        variant(
            "NotFound",
            vec![vec![
                id("status"),
                p('='),
                lit("404"),
                p(','),
                id("reason"),
                p('='),
                slit("NOT_FOUND"),
            ]],
        ),
        variant("Other", vec![]),
    ];
    let g = generate("MyError".to_string(), &vec![], &variants).unwrap();
    assert_eq!(g.name, "MyError".to_string());
    assert_eq!(g.table.names, vec!["NotFound".to_string(), "Other".to_string()]);
    assert_eq!(g.table.status[0], Some(StatusValue::Code(404)));
    assert_eq!(g.table.reason[0], Some(ValueExpr::StrLit("NOT_FOUND".to_string())));
    assert_eq!(g.table.status[1], None);
    assert!(!g.custom_transform);
}

#[test]
fn entries_of_several_attributes_fold_in_order() {
    let variants = vec![variant(
        "Busy",
        vec![
            vec![id("reason"), p('='), slit("FIRST")],
            vec![id("reason"), p('='), slit("SECOND")],
        ],
    )];
    let g = generate("E".to_string(), &vec![], &variants).unwrap();
    assert_eq!(g.table.reason[0], Some(ValueExpr::StrLit("SECOND".to_string())));
}

#[test]
fn grammar_error_names_the_variant() {
    let variants = vec![
        variant("Fine", vec![]),
        variant("Broken", vec![vec![id("colour"), p('='), slit("red")]]),
    ];
    assert_eq!(
        generate("E".to_string(), &vec![], &variants),
        Err(GenerateError::Grammar {
            variant: "Broken".to_string(),
            error: GrammarError::UnknownOption("colour".to_string()),
        })
    );
}

#[test]
fn details_pattern_rewrites_to_a_field_access() {
    let variants = vec![variant("Db", vec![vec![id("details"), p('='), slit("{0.code}")]])];
    let g = generate("E".to_string(), &vec![], &variants).unwrap();
    assert_eq!(g.details_expr[0], Some("details.code".to_string()));
}

#[test]
fn details_pattern_for_the_whole_payload() {
    let variants = vec![variant("Db", vec![vec![id("details"), p('='), slit("{0}")]])];
    let g = generate("E".to_string(), &vec![], &variants).unwrap();
    assert_eq!(g.details_expr[0], Some("details".to_string()));
}

#[test]
fn details_not_anchored_fails_generation() {
    let variants = vec![variant("Db", vec![vec![id("details"), p('='), slit("code")]])];
    assert_eq!(
        generate("E".to_string(), &vec![], &variants),
        Err(GenerateError::DetailsPattern { variant: "Db".to_string() })
    );
    let variants = vec![variant("Db", vec![vec![id("details"), p('='), slit("{1.code}")]])];
    assert_eq!(
        generate("E".to_string(), &vec![], &variants),
        Err(GenerateError::DetailsPattern { variant: "Db".to_string() })
    );
}

#[test]
fn overwritten_bad_details_value_is_never_checked() {
    let variants = vec![variant(
        "Db",
        vec![vec![
            id("details"),
            p('='),
            slit("broken"),
            p(','),
            id("details"),
            p('='),
            slit("{0.code}"),
        ]],
    )];
    let g = generate("E".to_string(), &vec![], &variants).unwrap();
    assert_eq!(g.details_expr[0], Some("details.code".to_string()));
}

#[test]
fn custom_transform_opt_in() {
    let type_groups = vec![vec![id("transform"), p('='), id("custom")]];
    let g = generate("E".to_string(), &type_groups, &vec![]).unwrap();
    assert!(g.custom_transform);
}

#[test]
fn later_payload_may_opt_in() {
    let type_groups = vec![
        vec![id("flavour"), p('='), id("plain")],
        vec![id("transform"), p('='), id("custom")],
    ];
    let g = generate("E".to_string(), &type_groups, &vec![]).unwrap();
    assert!(g.custom_transform);
}

#[test]
fn unresolvable_transform_target_fails_generation() {
    let type_groups = vec![vec![id("transform"), p('='), id("invalid")]];
    assert_eq!(
        generate("E".to_string(), &type_groups, &vec![]),
        Err(GenerateError::TypeAnnotation {
            error: GrammarError::UnresolvableTransform("invalid".to_string()),
        })
    );
}

#[test]
fn malformed_type_annotation_fails_generation() {
    let type_groups = vec![vec![id("transform"), id("custom")]];
    assert_eq!(
        generate("E".to_string(), &type_groups, &vec![]),
        Err(GenerateError::TypeAnnotation { error: GrammarError::InvalidAssignment })
    );
}

#[test]
fn grammar_errors_come_before_details_and_type_annotation_errors() {
    let variants = vec![variant(
        "Broken",
        vec![vec![id("details"), p('='), slit("bad"), p(','), id("colour"), p('='), slit("x")]],
    )];
    let type_groups = vec![vec![id("transform"), id("custom")]];
    assert_eq!(
        generate("E".to_string(), &type_groups, &variants),
        Err(GenerateError::Grammar {
            variant: "Broken".to_string(),
            error: GrammarError::UnknownOption("colour".to_string()),
        })
    );
}
