//! Tests on the canonical value type and on conversions of trees built
//! directly in the library's model, including the fallback shapes no
//! parser run produces.

use promql_parser_js::ast::{Expr, Lit};
use promql_parser_js::expr_to_json;
use promql_parser_js::lit_to_json;
use promql_parser_js::Value;

fn entry<'a>(v: &'a Value, key: &str) -> &'a Value {
    v.get(key).expect("missing field")
}

fn text<'a>(v: &'a Value, key: &str) -> &'a str {
    entry(v, key).as_str().expect("expected a string").as_str()
}

#[test]
fn test_unknown_shape_never_fails() {
    let tree = Expr::Unknown { tokens: "@ # weird ; tokens".to_string() };
    let json = expr_to_json(&tree);
    assert_eq!(text(&json, "kind"), "Unknown");
    assert!(!text(&json, "tokens").is_empty());
}

#[test]
fn test_verbatim_shape_never_fails() {
    let tree = Expr::Verbatim { tokens: "builtin # format".to_string() };
    let json = expr_to_json(&tree);
    assert_eq!(text(&json, "kind"), "Verbatim");
    assert_eq!(text(&json, "tokens"), "builtin # format");
}

#[test]
fn test_unknown_literal_kind_never_fails() {
    let json = lit_to_json(&Lit::Unknown { tokens: "0z99".to_string() });
    assert_eq!(text(&json, "kind"), "Unknown");
    assert_eq!(text(&json, "tokens"), "0z99");
}

#[test]
fn test_try_block_kind() {
    let tree = Expr::TryBlock { attrs: vec![], block: "{ 1 }".to_string() };
    let json = expr_to_json(&tree);
    assert_eq!(text(&json, "kind"), "TryBlock");
    assert_eq!(text(&json, "block"), "{ 1 }");
}

#[test]
fn test_yield_with_and_without_value() {
    let bare = Expr::Yield { attrs: vec![], expr: None };
    let json = expr_to_json(&bare);
    assert_eq!(text(&json, "kind"), "Yield");
    assert!(entry(&json, "expr").is_null());

    let lit = Expr::Lit {
        attrs: vec![],
        lit: Lit::Int { digits: "7".to_string(), suffix: String::new() },
    };
    let with_value = Expr::Yield { attrs: vec![], expr: Some(Box::new(lit)) };
    let json = expr_to_json(&with_value);
    assert_eq!(text(&json, "kind"), "Yield");
    assert!(entry(&json, "expr").is_object());
}

#[test]
fn test_group_kind() {
    let inner = Expr::Path { attrs: vec![], qself: None, path: "x".to_string() };
    let tree = Expr::Group { attrs: vec![], expr: Box::new(inner) };
    let json = expr_to_json(&tree);
    assert_eq!(text(&json, "kind"), "Group");
    assert_eq!(text(entry(&json, "expr"), "kind"), "Path");
}

#[test]
fn test_attrs_keep_order() {
    let tree = Expr::Infer {
        attrs: vec!["# [cfg (test)]".to_string(), "# [allow (unused)]".to_string()],
    };
    let json = expr_to_json(&tree);
    let attrs = entry(&json, "attrs").as_array().expect("expected an array");
    assert_eq!(attrs.len(), 2);
    assert_eq!(attrs[0], Value::Str("# [cfg (test)]".to_string()));
    assert_eq!(attrs[1], Value::Str("# [allow (unused)]".to_string()));
}

#[test]
fn test_byte_string_content() {
    let json = lit_to_json(&Lit::ByteStr { value: vec![104, 105], suffix: String::new() });
    assert_eq!(text(&json, "kind"), "ByteStr");
    let bytes = entry(&json, "value").as_array().expect("expected an array");
    assert_eq!(bytes.len(), 2);
    assert_eq!(bytes[0], Value::Uint(104));
    assert_eq!(bytes[1], Value::Uint(105));
}

#[test]
fn test_model_conversion_deterministic() {
    let tree = Expr::Break {
        attrs: vec![],
        label: Some("outer".to_string()),
        expr: Some(Box::new(Expr::Lit {
            attrs: vec![],
            lit: Lit::Int { digits: "42".to_string(), suffix: String::new() },
        })),
    };
    assert_eq!(expr_to_json(&tree), expr_to_json(&tree));
}

#[test]
fn test_get_on_non_object() {
    let v = Value::Str("kind".to_string());
    assert!(v.get("kind").is_none());
    assert!(Value::Null.get("kind").is_none());
}

#[test]
fn test_get_missing_key() {
    let json = expr_to_json(&Expr::Unknown { tokens: "x".to_string() });
    assert!(json.get("attrs").is_none());
    assert!(json.get("kind").is_some());
}

#[test]
fn test_get_first_match_wins() {
    let v = Value::Obj(vec![
        ("a".to_string(), Value::Uint(1)),
        ("a".to_string(), Value::Uint(2)),
    ]);
    assert_eq!(v.get("a"), Some(&Value::Uint(1)));
}

#[test]
fn test_accessor_shapes() {
    assert!(Value::Null.is_null());
    assert!(!Value::Bool(true).is_null());
    assert_eq!(Value::Bool(true).as_bool(), Some(true));
    assert_eq!(Value::Uint(3).as_bool(), None);
    assert!(Value::Obj(vec![]).is_object());
    assert!(!Value::Arr(vec![]).is_object());
    assert!(Value::Str(String::new()).is_string());
    assert!(Value::Arr(vec![Value::Null]).as_array().is_some());
    assert!(Value::Null.as_array().is_none());
    assert!(Value::Obj(vec![]).as_object().is_some());
}
