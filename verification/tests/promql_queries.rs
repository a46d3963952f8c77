//! Conversion tests for the PromQL grammar: each test parses a query with
//! the real parser, carries the tree into the library's model, and
//! converts it.

use promql_parser::parser;
use promql_parser_js::promql::{
    AtModifier, BinModifier, Expr, Function, LabelModifier, MatchOp, Matcher, Offset, ValueType,
    VectorMatchCardinality, VectorSelector,
};
use promql_parser_js::Value;

fn conv_offset(o: &parser::ast::Offset) -> Offset {
    match o {
        parser::ast::Offset::Pos(d) => Offset::Pos { secs: d.as_secs() },
        parser::ast::Offset::Neg(d) => Offset::Neg { secs: d.as_secs() },
    }
}

fn conv_at(a: &parser::ast::AtModifier) -> AtModifier {
    match a {
        parser::ast::AtModifier::Start => AtModifier::Start,
        parser::ast::AtModifier::End => AtModifier::End,
        parser::ast::AtModifier::At(time) => AtModifier::At {
            timestamp: iso8601_timestamp::Timestamp::from(*time).format().to_string(),
        },
    }
}

fn conv_labels(ls: &promql_parser::label::Labels) -> Vec<String> {
    ls.labels.clone()
}

fn conv_label_modifier(m: &parser::LabelModifier) -> LabelModifier {
    match m {
        parser::LabelModifier::Include(ls) => LabelModifier::Include { labels: conv_labels(ls) },
        parser::LabelModifier::Exclude(ls) => LabelModifier::Exclude { labels: conv_labels(ls) },
    }
}

fn conv_cardinality(c: &parser::VectorMatchCardinality) -> VectorMatchCardinality {
    match c {
        parser::VectorMatchCardinality::OneToOne => VectorMatchCardinality::OneToOne,
        parser::VectorMatchCardinality::ManyToOne(ls) => {
            VectorMatchCardinality::ManyToOne { labels: conv_labels(ls) }
        }
        parser::VectorMatchCardinality::OneToMany(ls) => {
            VectorMatchCardinality::OneToMany { labels: conv_labels(ls) }
        }
        parser::VectorMatchCardinality::ManyToMany => VectorMatchCardinality::ManyToMany,
    }
}

fn conv_matcher(m: &promql_parser::label::Matcher) -> Matcher {
    Matcher {
        name: m.name.clone(),
        op: match &m.op {
            promql_parser::label::MatchOp::Equal => MatchOp::Equal,
            promql_parser::label::MatchOp::NotEqual => MatchOp::NotEqual,
            promql_parser::label::MatchOp::Re(_) => MatchOp::Re,
            promql_parser::label::MatchOp::NotRe(_) => MatchOp::NotRe,
        },
        value: m.value.clone(),
    }
}

fn conv_bin_modifier(m: &parser::ast::BinModifier) -> BinModifier {
    BinModifier {
        card: conv_cardinality(&m.card),
        matching: m.matching.as_ref().map(conv_label_modifier),
        return_bool: m.return_bool,
    }
}

fn conv_vs(vs: &parser::VectorSelector) -> VectorSelector {
    VectorSelector {
        name: vs.name.clone(),
        matchers: vs.matchers.matchers.iter().map(conv_matcher).collect(),
        offset: vs.offset.as_ref().map(conv_offset),
        at: vs.at.as_ref().map(conv_at),
    }
}

fn conv_value_type(t: &parser::value::ValueType) -> ValueType {
    match t {
        parser::value::ValueType::Vector => ValueType::Vector,
        parser::value::ValueType::Scalar => ValueType::Scalar,
        parser::value::ValueType::Matrix => ValueType::Matrix,
        parser::value::ValueType::String => ValueType::Text,
    }
}

fn conv_function(f: &parser::Function) -> Function {
    Function {
        name: f.name.to_string(),
        arg_types: f.arg_types.iter().map(conv_value_type).collect(),
        variadic: f.variadic as i64,
        return_type: conv_value_type(&f.return_type),
    }
}

fn conv(e: &parser::Expr) -> Expr {
    match e {
        parser::Expr::Aggregate(agg) => Expr::Aggregate {
            op: agg.op.to_string(),
            expr: Box::new(conv(&agg.expr)),
            param: agg.param.as_ref().map(|p| Box::new(conv(p))),
            modifier: agg.modifier.as_ref().map(conv_label_modifier),
        },
        parser::Expr::Unary(u) => Expr::Unary { expr: Box::new(conv(&u.expr)) },
        parser::Expr::Binary(b) => Expr::Binary {
            lhs: Box::new(conv(&b.lhs)),
            op: b.op.to_string(),
            rhs: Box::new(conv(&b.rhs)),
            modifier: b.modifier.as_ref().map(conv_bin_modifier),
        },
        parser::Expr::Paren(p) => Expr::Paren { expr: Box::new(conv(&p.expr)) },
        parser::Expr::Subquery(s) => Expr::Subquery {
            expr: Box::new(conv(&s.expr)),
            offset: s.offset.as_ref().map(conv_offset),
            at: s.at.as_ref().map(conv_at),
            range_secs: s.range.as_secs(),
            step_secs: s.step.as_ref().map(|d| d.as_secs()),
        },
        parser::Expr::NumberLiteral(n) => Expr::NumberLiteral { bits: n.val.to_bits() },
        parser::Expr::StringLiteral(s) => Expr::StringLiteral { val: s.val.clone() },
        parser::Expr::VectorSelector(vs) => Expr::VectorSelector(conv_vs(vs)),
        parser::Expr::MatrixSelector(ms) => Expr::MatrixSelector {
            vs: conv_vs(&ms.vs),
            range_secs: ms.range.as_secs(),
        },
        parser::Expr::Call(c) => Expr::Call {
            func: conv_function(&c.func),
            args: c.args.args.iter().map(|a| conv(a)).collect(),
        },
        parser::Expr::Extension(_) => Expr::Extension,
    }
}

fn query_to_value(query: &str) -> Value {
    let parsed = parser::parse(query).expect("failed to parse query");
    conv(&parsed).to_serde()
}

fn entry2<'a>(v: &'a Value, key: &str) -> &'a Value {
    v.get(key).expect("missing field")
}

fn text2<'a>(v: &'a Value, key: &str) -> &'a str {
    entry2(v, key).as_str().expect("expected a string").as_str()
}

#[test]
fn check_parser() {
    let payloads: Vec<String> = vec![
        "a or b".to_string(),
        "max
  by(node) (max by(instance) (kubelet_running_pod_count{job=\"kubelet\"}) *
  on(instance) group_left(node) group(kubelet_node_name{job=\"kubelet\"}) by (instance)) / max by(node)
  (kube_node_status_capacity_pods{job=\"kube-state-metrics\"}) > 0.95".to_string(),
        "http_requests_total{code=\"200\"}[30m:1m]".to_string(),
        "min_over_time(rate(http_requests_total{code=\"200\"}[5m])[30m:1m]) > 1".to_string(),
        "sum(rate(foo{bar=\"baz\"}[5m])) by (x,y)".to_string(),
        "foo{bar=~\"abc\"}".to_string(),
        "foo == bar".to_string(),
    ];
    for payload in payloads.iter() {
        println!("Payload: {}", payload);
        assert!(
            parser::parse(payload).map(|v| conv(&v).to_serde()).is_ok(),
            "failed to parse or serialize"
        );
    }
}

#[test]
fn test_query_binary_op() {
    let v = query_to_value("foo == bar");
    assert_eq!(text2(&v, "@type"), "binary");
    assert_eq!(text2(&v, "op"), "==");
    assert_eq!(text2(entry2(&v, "lhs"), "@type"), "vector_selector");
    assert_eq!(text2(entry2(&v, "lhs"), "name"), "foo");
    assert_eq!(text2(entry2(&v, "rhs"), "name"), "bar");
}

#[test]
fn test_query_number_literal_bits() {
    let v = query_to_value("1.5");
    assert_eq!(text2(&v, "@type"), "number");
    assert_eq!(entry2(&v, "value"), &Value::Float(1.5f64.to_bits()));
}

#[test]
fn test_query_selector_matchers() {
    let v = query_to_value("foo{bar=~\"abc\"}");
    assert_eq!(text2(&v, "@type"), "vector_selector");
    assert_eq!(text2(&v, "name"), "foo");
    let ms = entry2(&v, "matchers").as_array().expect("expected an array");
    let m = ms
        .iter()
        .find(|m| m.get("name").and_then(|n| n.as_str()).map(|s| s == "bar").unwrap_or(false))
        .expect("matcher on the label is missing");
    assert_eq!(text2(m, "op"), "=~");
    assert_eq!(text2(m, "value"), "abc");
}

#[test]
fn test_query_offsets() {
    let v = query_to_value("foo offset 5m");
    assert_eq!(entry2(&v, "offset"), &Value::Uint(300));
    let v = query_to_value("foo offset -5m");
    assert_eq!(entry2(&v, "offset"), &Value::Int(-300));
}

#[test]
fn test_query_subquery_range_step() {
    let v = query_to_value("http_requests_total{code=\"200\"}[30m:1m]");
    assert_eq!(text2(&v, "@type"), "subquery");
    assert_eq!(entry2(&v, "range"), &Value::Uint(1800));
    assert_eq!(entry2(&v, "step"), &Value::Uint(60));
    assert_eq!(text2(entry2(&v, "expr"), "@type"), "vector_selector");
}

#[test]
fn test_query_matrix_selector() {
    let v = query_to_value("rate(foo[5m])");
    assert_eq!(text2(&v, "@type"), "call");
    assert_eq!(text2(entry2(&v, "function"), "name"), "rate");
    let args = entry2(&v, "args").as_array().expect("expected an array");
    assert_eq!(args.len(), 1);
    assert_eq!(text2(&args[0], "@type"), "matrix_selector");
    assert_eq!(entry2(&args[0], "range"), &Value::Uint(300));
}

#[test]
fn test_query_aggregate_modifier() {
    let v = query_to_value("sum(rate(foo{bar=\"baz\"}[5m])) by (x,y)");
    assert_eq!(text2(&v, "@type"), "aggregate");
    assert_eq!(text2(&v, "op"), "sum");
    let modifier = entry2(&v, "modifier");
    let kept = entry2(modifier, "include").as_array().expect("expected an array");
    assert_eq!(kept.len(), 2);
    assert_eq!(kept[0], Value::Str("x".to_string()));
    assert_eq!(kept[1], Value::Str("y".to_string()));
}

#[test]
fn test_query_conversion_deterministic() {
    let parsed = parser::parse("a or b").expect("failed to parse query");
    let tree = conv(&parsed);
    assert_eq!(tree.to_serde(), tree.to_serde());
}

#[test]
fn test_query_string_literal() {
    let v = query_to_value("\"hello\"");
    assert_eq!(text2(&v, "@type"), "string");
    assert_eq!(text2(&v, "value"), "hello");
}
