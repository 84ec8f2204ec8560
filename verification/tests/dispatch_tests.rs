use response_error::dispatch::{literal_dispatch, DispatchTable, ErrorValue};
use response_error::generate::{generate, VariantInput};
use response_error::token::Token;
use serde_json::Value;

fn id(s: &str) -> Token {
    Token::Ident(s.to_string())
}

fn p(c: char) -> Token {
    Token::Punct(c)
}

fn lit(s: &str) -> Token {
    Token::Literal(s.to_string())
}

fn slit(s: &str) -> Token {
    Token::Literal(format!("\"{}\"", s))
}

fn variant(name: &str, groups: Vec<Vec<Token>>) -> VariantInput {
    VariantInput { name: name.to_string(), groups }
}

/// The dispatch data of the running example: `NotFound` with an explicit
/// status and reason, `Other` with no annotations.
fn example_table() -> DispatchTable {
    let variants = vec![
        variant(
            "NotFound",
            vec![vec![
                id("status"),
                p('='),
                lit("404"),
                p(','),
                id("reason"),
                p('='),
                slit("NOT_FOUND"),
            ]],
        ),
        variant("Other", vec![]),
    ];
    let g = generate("MyError".to_string(), &vec![], &variants).unwrap();
    literal_dispatch(&g).unwrap()
}

fn plain_value(table: DispatchTable, variant: usize) -> ErrorValue {
    ErrorValue { table, variant, inner: None, payload_details: None }
}

#[test]
fn explicit_status_and_reason_resolve() {
    let e = plain_value(example_table(), 0);
    assert!(e.wf_check());
    let r = e.resolve(500);
    assert_eq!(r.status, 404);
    assert_eq!(r.reason, Some(Value::String("NOT_FOUND".to_string())));
    assert_eq!(r.type_tag, None);
    assert_eq!(r.details, None);
}

#[test]
fn unannotated_variant_falls_through_to_the_default() {
    let e = plain_value(example_table(), 1);
    assert!(e.wf_check());
    let r = e.resolve(500);
    assert_eq!(r.status, 500);
    assert_eq!(r.reason, None);
    assert_eq!(r.type_tag, None);
    assert_eq!(r.details, None);
}

#[test]
fn classification_accessors_report_presence() {
    let e = plain_value(example_table(), 0);
    assert_eq!(e.status_code(), Some(404));
    assert_eq!(e.reason(), Some(Some(Value::String("NOT_FOUND".to_string()))));
    assert_eq!(e._type(), None);
    assert_eq!(e.details(), None);
    let o = plain_value(example_table(), 1);
    assert_eq!(o.status_code(), None);
    assert_eq!(o.reason(), None);
}

#[test]
fn forwarding_delegates_to_the_inner_error() {
    let inner_variants = vec![variant("Denied", vec![vec![id("status"), p('='), lit("403")]])];
    let ig = generate("Inner".to_string(), &vec![], &inner_variants).unwrap();
    let inner_table = literal_dispatch(&ig).unwrap();
    let outer_variants = vec![variant("Wrapped", vec![vec![id("forward")]])];
    let og = generate("Outer".to_string(), &vec![], &outer_variants).unwrap();
    let outer_table = literal_dispatch(&og).unwrap();
    let e = ErrorValue {
        table: outer_table,
        variant: 0,
        inner: Some(Box::new(plain_value(inner_table, 0))),
        payload_details: None,
    };
    assert!(e.wf_check());
    assert_eq!(e.resolved_status(500), 403);
    assert_eq!(e.status_code(), None);
}

#[test]
fn forwarding_chains_to_the_deepest_error() {
    let leaf_variants = vec![variant("Denied", vec![vec![id("status"), p('='), lit("403")]])];
    let leaf = literal_dispatch(&generate("Leaf".to_string(), &vec![], &leaf_variants).unwrap())
        .unwrap();
    let mid_variants = vec![variant("Wrapped", vec![vec![id("forward")]])];
    let mid = literal_dispatch(&generate("Mid".to_string(), &vec![], &mid_variants).unwrap())
        .unwrap();
    let top_variants = vec![variant("Wrapped", vec![vec![id("forward")]])];
    let top = literal_dispatch(&generate("Top".to_string(), &vec![], &top_variants).unwrap())
        .unwrap();
    let e = ErrorValue {
        table: top,
        variant: 0,
        inner: Some(Box::new(ErrorValue {
            table: mid,
            variant: 0,
            inner: Some(Box::new(plain_value(leaf, 0))),
            payload_details: None,
        })),
        payload_details: None,
    };
    assert!(e.wf_check());
    assert_eq!(e.resolved_status(500), 403);
}

#[test]
fn explicit_status_wins_over_forwarding() {
    let inner_variants = vec![variant("Denied", vec![vec![id("status"), p('='), lit("403")]])];
    let inner = literal_dispatch(&generate("Inner".to_string(), &vec![], &inner_variants).unwrap())
        .unwrap();
    let outer_variants = vec![variant(
        "Wrapped",
        vec![vec![id("forward"), p(','), id("status"), p('='), lit("502")]],
    )];
    let outer = literal_dispatch(&generate("Outer".to_string(), &vec![], &outer_variants).unwrap())
        .unwrap();
    let e = ErrorValue {
        table: outer,
        variant: 0,
        inner: Some(Box::new(plain_value(inner, 0))),
        payload_details: None,
    };
    assert_eq!(e.resolved_status(500), 502);
}

#[test]
fn details_come_from_the_error_value() {
    let variants = vec![variant("Db", vec![vec![id("details"), p('='), slit("{0.code}")]])];
    let g = generate("E".to_string(), &vec![], &variants).unwrap();
    let table = literal_dispatch(&g).unwrap();
    let e = ErrorValue {
        table,
        variant: 0,
        inner: None,
        payload_details: Some(Value::String("E_CONN".to_string())),
    };
    assert!(e.wf_check());
    assert_eq!(e.details(), Some(Some(Value::String("E_CONN".to_string()))));
    assert_eq!(e.resolved_details(), Some(Value::String("E_CONN".to_string())));
}

#[test]
fn forwarded_reason_type_and_details_resolve() {
    let inner_variants = vec![variant(
        "Leaf",
        vec![vec![
            id("reason"),
            p('='),
            slit("GONE"),
            p(','),
            id("type"),
            p('='),
            slit("stale"),
        ]],
    )];
    let inner = literal_dispatch(&generate("Inner".to_string(), &vec![], &inner_variants).unwrap())
        .unwrap();
    let outer_variants = vec![variant("Wrapped", vec![vec![id("forward")]])];
    let outer = literal_dispatch(&generate("Outer".to_string(), &vec![], &outer_variants).unwrap())
        .unwrap();
    let e = ErrorValue {
        table: outer,
        variant: 0,
        inner: Some(Box::new(plain_value(inner, 0))),
        payload_details: None,
    };
    assert_eq!(e.resolved_reason(), Some(Value::String("GONE".to_string())));
    assert_eq!(e.resolved_type_tag(), Some("stale".to_string()));
    assert_eq!(e.resolved_details(), None);
}

#[test]
fn explicit_reason_with_failed_serialization_still_wins() {
    // A reason whose serialization failed is present-but-empty: the
    // explicit entry short-circuits and the forwarded reason is ignored.
    let inner_variants = vec![variant("Leaf", vec![vec![id("reason"), p('='), slit("GONE")]])];
    let inner = literal_dispatch(&generate("Inner".to_string(), &vec![], &inner_variants).unwrap())
        .unwrap();
    let outer = DispatchTable {
        name: "Outer".to_string(),
        status: vec![None],
        reason: vec![Some(None)],
        type_tag: vec![None],
        has_details: vec![false],
        forward: vec![true],
    };
    let e = ErrorValue {
        table: outer,
        variant: 0,
        inner: Some(Box::new(plain_value(inner, 0))),
        payload_details: None,
    };
    assert!(e.wf_check());
    assert_eq!(e.reason(), Some(None));
    assert_eq!(e.resolved_reason(), None);
}

#[test]
fn ill_formed_values_are_detected() {
    let e = plain_value(example_table(), 7);
    assert!(!e.wf_check());
    let outer_variants = vec![variant("Wrapped", vec![vec![id("forward")]])];
    let outer = literal_dispatch(&generate("Outer".to_string(), &vec![], &outer_variants).unwrap())
        .unwrap();
    let forward_without_inner = ErrorValue {
        table: outer,
        variant: 0,
        inner: None,
        payload_details: None,
    };
    assert!(!forward_without_inner.wf_check());
}

#[test]
fn literal_dispatch_refuses_paths() {
    let variants = vec![variant(
        "NotFound",
        vec![vec![id("status"), p('='), id("http"), p(':'), p(':'), id("NOT_FOUND")]],
    )];
    let g = generate("E".to_string(), &vec![], &variants).unwrap();
    assert!(literal_dispatch(&g).is_none());
}
