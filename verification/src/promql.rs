//! The modeled PromQL query grammar and its conversion to the canonical
//! value.
//!
//! The model holds as plain values exactly what the conversion reads:
//! durations as whole seconds, timestamps as their rendered text, the
//! operator tokens as their display text, and a number literal as the
//! raw bit pattern of its binary64 value. The `*_model` spec functions
//! are the schema of the produced objects, keyed by `@type`.

use vstd::prelude::*;

use crate::convert::{attrs_to_json, opt_str_model, opt_str_val, push_field, str_val, strs_model};
use crate::value::{entries_model, values_model, JVal, Value};

verus! {

broadcast use vstd::std_specs::vec::group_vec_axioms, vstd::seq::group_seq_axioms;

/// A time offset: a whole number of seconds, signed by the variant.
#[derive(Debug, Clone, PartialEq, Eq)]
pub enum Offset {
    Pos { secs: u64 },
    Neg { secs: u64 },
}

/// An `@` modifier: the start or end of the evaluated range, or one fixed
/// point in time carried as its rendered timestamp text.
#[derive(Debug, Clone, PartialEq, Eq)]
pub enum AtModifier {
    Start,
    End,
    At { timestamp: String },
}

/// How vectors match in a binary operation.
#[derive(Debug, Clone, PartialEq, Eq)]
pub enum VectorMatchCardinality {
    OneToOne,
    ManyToOne { labels: Vec<String> },
    OneToMany { labels: Vec<String> },
    ManyToMany,
}

/// The label list of an aggregation: kept or dropped labels.
#[derive(Debug, Clone, PartialEq, Eq)]
pub enum LabelModifier {
    Include { labels: Vec<String> },
    Exclude { labels: Vec<String> },
}

/// A label matching operator.
#[derive(Debug, Clone, PartialEq, Eq)]
pub enum MatchOp {
    Equal,
    NotEqual,
    Re,
    NotRe,
}

/// One label matcher of a selector.
#[derive(Debug, Clone, PartialEq, Eq)]
pub struct Matcher {
    pub name: String,
    pub op: MatchOp,
    pub value: String,
}

/// The matching modifier of a binary operation.
#[derive(Debug, Clone, PartialEq, Eq)]
pub struct BinModifier {
    pub card: VectorMatchCardinality,
    pub matching: Option<LabelModifier>,
    pub return_bool: bool,
}

/// A vector selector: metric name, matchers, offset and `@` modifier.
#[derive(Debug, Clone, PartialEq, Eq)]
pub struct VectorSelector {
    pub name: Option<String>,
    pub matchers: Vec<Matcher>,
    pub offset: Option<Offset>,
    pub at: Option<AtModifier>,
}

/// The type of a value an expression evaluates to.
#[derive(Debug, Clone, PartialEq, Eq)]
pub enum ValueType {
    Vector,
    Scalar,
    Matrix,
    Text,
}

/// A built-in function's signature.
#[derive(Debug, Clone, PartialEq, Eq)]
pub struct Function {
    pub name: String,
    pub arg_types: Vec<ValueType>,
    pub variadic: i64,
    pub return_type: ValueType,
}

/// One query expression node.
#[derive(Debug, PartialEq, Eq)]
pub enum Expr {
    Aggregate {
        op: String,
        expr: Box<Expr>,
        param: Option<Box<Expr>>,
        modifier: Option<LabelModifier>,
    },
    Unary { expr: Box<Expr> },
    Binary { lhs: Box<Expr>, op: String, rhs: Box<Expr>, modifier: Option<BinModifier> },
    Paren { expr: Box<Expr> },
    Subquery {
        expr: Box<Expr>,
        offset: Option<Offset>,
        at: Option<AtModifier>,
        range_secs: u64,
        step_secs: Option<u64>,
    },
    NumberLiteral { bits: u64 },
    StringLiteral { val: String },
    VectorSelector(VectorSelector),
    MatrixSelector { vs: VectorSelector, range_secs: u64 },
    Call { func: Function, args: Vec<Expr> },
    Extension,
}

/// A signed count as the wire format's number: non-negative values are
/// carried unsigned, negative ones signed.
pub open spec fn int_model(n: i64) -> JVal {
    if n >= 0 {
        JVal::Uint(n as u64)
    } else {
        JVal::Int(n)
    }
}

/// A negative offset's rendered value: the second count is first narrowed
/// with the 32-bit wrap the wire format's integer cast gives, then negated
/// (the one value whose negation does not fit stays itself).
pub open spec fn neg_offset_model(secs: u64) -> JVal {
    let m = (secs as int) % 0x1_0000_0000;
    let signed: int = if m <= 0x7fff_ffff {
        m
    } else {
        m - 0x1_0000_0000
    };
    let v: int = if signed == -0x8000_0000 {
        signed
    } else {
        -signed
    };
    int_model(v as i64)
}

/// Model of an offset.
pub open spec fn offset_model(o: Offset) -> JVal {
    match o {
        Offset::Pos { secs } => JVal::Uint(secs),
        Offset::Neg { secs } => neg_offset_model(secs),
    }
}

/// Model of an optional offset: absent renders as null.
pub open spec fn opt_offset_model(o: Option<Offset>) -> JVal {
    match o {
        Option::None => JVal::Null,
        Option::Some(off) => offset_model(off),
    }
}

/// Model of an `@` modifier.
pub open spec fn at_model(a: AtModifier) -> JVal {
    match a {
        AtModifier::Start => JVal::Str("start"@),
        AtModifier::End => JVal::Str("end"@),
        AtModifier::At { timestamp } => JVal::Str(timestamp@),
    }
}

/// Model of an optional `@` modifier: absent renders as null.
pub open spec fn opt_at_model(a: Option<AtModifier>) -> JVal {
    match a {
        Option::None => JVal::Null,
        Option::Some(at) => at_model(at),
    }
}

/// Model of a match cardinality.
pub open spec fn cardinality_model(c: VectorMatchCardinality) -> JVal {
    match c {
        VectorMatchCardinality::OneToOne => JVal::Obj(
            seq![("@type"@, JVal::Str("one-to-one"@))],
        ),
        VectorMatchCardinality::ManyToOne { labels } => JVal::Obj(
            seq![
                ("@type"@, JVal::Str("many-to-one"@)),
                ("labels"@, JVal::Arr(strs_model(labels@))),
            ],
        ),
        VectorMatchCardinality::OneToMany { labels } => JVal::Obj(
            seq![
                ("@type"@, JVal::Str("one-to-many"@)),
                ("labels"@, JVal::Arr(strs_model(labels@))),
            ],
        ),
        VectorMatchCardinality::ManyToMany => JVal::Obj(
            seq![("@type"@, JVal::Str("many-to-many"@))],
        ),
    }
}

/// Model of a label modifier.
pub open spec fn label_modifier_model(m: LabelModifier) -> JVal {
    match m {
        LabelModifier::Include { labels } => JVal::Obj(
            seq![("include"@, JVal::Arr(strs_model(labels@)))],
        ),
        LabelModifier::Exclude { labels } => JVal::Obj(
            seq![("exclude"@, JVal::Arr(strs_model(labels@)))],
        ),
    }
}

/// Model of an optional label modifier: absent renders as null.
pub open spec fn opt_label_modifier_model(m: Option<LabelModifier>) -> JVal {
    match m {
        Option::None => JVal::Null,
        Option::Some(lm) => label_modifier_model(lm),
    }
}

/// Model of a matching operator's symbol.
pub open spec fn match_op_model(op: MatchOp) -> JVal {
    match op {
        MatchOp::Equal => JVal::Str("="@),
        MatchOp::NotEqual => JVal::Str("!="@),
        MatchOp::Re => JVal::Str("=~"@),
        MatchOp::NotRe => JVal::Str("!~"@),
    }
}

/// Model of one matcher.
pub open spec fn matcher_model(m: Matcher) -> JVal {
    JVal::Obj(
        seq![
            ("name"@, JVal::Str(m.name@)),
            ("op"@, match_op_model(m.op)),
            ("value"@, JVal::Str(m.value@)),
        ],
    )
}

/// Model of a matcher list, in source order.
pub open spec fn matchers_model(s: Seq<Matcher>) -> Seq<JVal> {
    Seq::new(s.len(), |i: int| matcher_model(s[i]))
}

/// Model of a binary-operation modifier.
pub open spec fn bin_modifier_model(m: BinModifier) -> JVal {
    JVal::Obj(
        seq![
            ("card"@, cardinality_model(m.card)),
            ("matching"@, opt_label_modifier_model(m.matching)),
            ("return_bool"@, JVal::Bool(m.return_bool)),
        ],
    )
}

/// Model of an optional binary-operation modifier: absent renders as null.
pub open spec fn opt_bin_modifier_model(m: Option<BinModifier>) -> JVal {
    match m {
        Option::None => JVal::Null,
        Option::Some(bm) => bin_modifier_model(bm),
    }
}

/// Model of a vector selector.
pub open spec fn vector_selector_model(vs: VectorSelector) -> JVal {
    JVal::Obj(
        seq![
            ("@type"@, JVal::Str("vector_selector"@)),
            ("name"@, opt_str_model(vs.name)),
            ("matchers"@, JVal::Arr(matchers_model(vs.matchers@))),
            ("offset"@, opt_offset_model(vs.offset)),
            ("at"@, opt_at_model(vs.at)),
        ],
    )
}

/// Model of a value type's name.
pub open spec fn value_type_model(t: ValueType) -> JVal {
    match t {
        ValueType::Vector => JVal::Str("vector"@),
        ValueType::Scalar => JVal::Str("scalar"@),
        ValueType::Matrix => JVal::Str("matrix"@),
        ValueType::Text => JVal::Str("string"@),
    }
}

/// Model of a list of value types.
pub open spec fn value_types_model(s: Seq<ValueType>) -> Seq<JVal> {
    Seq::new(s.len(), |i: int| value_type_model(s[i]))
}

/// Model of a function signature.
pub open spec fn function_model(f: Function) -> JVal {
    JVal::Obj(
        seq![
            ("name"@, JVal::Str(f.name@)),
            ("arg_types"@, JVal::Arr(value_types_model(f.arg_types@))),
            ("variadic"@, int_model(f.variadic)),
            ("return_type"@, value_type_model(f.return_type)),
        ],
    )
}

/// Model of an optional second count: absent renders as null.
pub open spec fn opt_secs_model(o: Option<u64>) -> JVal {
    match o {
        Option::None => JVal::Null,
        Option::Some(n) => JVal::Uint(n),
    }
}

/// Model of an optional child expression: absent renders as null.
pub open spec fn prom_opt_expr_model(o: Option<Box<Expr>>) -> JVal
    decreases o,
{
    match o {
        Option::None => JVal::Null,
        Option::Some(b) => prom_expr_model(*b),
    }
}

/// Model of a child list, element by element, in source order.
pub open spec fn prom_exprs_model(s: Seq<Expr>) -> Seq<JVal>
    decreases s,
{
    Seq::new(
        s.len(),
        |i: int|
            if 0 <= i < s.len() {
                prom_expr_model(s[i])
            } else {
                JVal::Null
            },
    )
}

/// The schema: the canonical value of each query expression node, keyed
/// by `@type`; optional pieces keep their key and render as null when
/// absent.
pub open spec fn prom_expr_model(e: Expr) -> JVal
    decreases e,
{
    match e {
        Expr::Aggregate { op, expr, param, modifier } => JVal::Obj(
            seq![
                ("@type"@, JVal::Str("aggregate"@)),
                ("op"@, JVal::Str(op@)),
                ("expr"@, prom_expr_model(*expr)),
                ("param"@, prom_opt_expr_model(param)),
                ("modifier"@, opt_label_modifier_model(modifier)),
            ],
        ),
        Expr::Unary { expr } => JVal::Obj(
            seq![("@type"@, JVal::Str("unary"@)), ("expr"@, prom_expr_model(*expr))],
        ),
        Expr::Binary { lhs, op, rhs, modifier } => JVal::Obj(
            seq![
                ("@type"@, JVal::Str("binary"@)),
                ("lhs"@, prom_expr_model(*lhs)),
                ("op"@, JVal::Str(op@)),
                ("rhs"@, prom_expr_model(*rhs)),
                ("modifier"@, opt_bin_modifier_model(modifier)),
            ],
        ),
        Expr::Paren { expr } => JVal::Obj(
            seq![("@type"@, JVal::Str("paren"@)), ("expr"@, prom_expr_model(*expr))],
        ),
        Expr::Subquery { expr, offset, at, range_secs, step_secs } => JVal::Obj(
            seq![
                ("@type"@, JVal::Str("subquery"@)),
                ("expr"@, prom_expr_model(*expr)),
                ("offset"@, opt_offset_model(offset)),
                ("at"@, opt_at_model(at)),
                ("range"@, JVal::Uint(range_secs)),
                ("step"@, opt_secs_model(step_secs)),
            ],
        ),
        Expr::NumberLiteral { bits } => JVal::Obj(
            seq![("@type"@, JVal::Str("number"@)), ("value"@, JVal::Float(bits))],
        ),
        Expr::StringLiteral { val } => JVal::Obj(
            seq![("@type"@, JVal::Str("string"@)), ("value"@, JVal::Str(val@))],
        ),
        Expr::VectorSelector(vs) => vector_selector_model(vs),
        Expr::MatrixSelector { vs, range_secs } => JVal::Obj(
            seq![
                ("@type"@, JVal::Str("matrix_selector"@)),
                ("vector"@, vector_selector_model(vs)),
                ("range"@, JVal::Uint(range_secs)),
            ],
        ),
        Expr::Call { func, args } => JVal::Obj(
            seq![
                ("@type"@, JVal::Str("call"@)),
                ("function"@, function_model(func)),
                ("args"@, JVal::Arr(prom_exprs_model(args@))),
            ],
        ),
        Expr::Extension => JVal::Obj(seq![("expr"@, JVal::Obj(Seq::empty()))]),
    }
}

/// A signed count as a value.
fn int_val(n: i64) -> (r: Value)
    ensures
        r@ == int_model(n),
{
    if n >= 0 {
        Value::Uint(n as u64)
    } else {
        Value::Int(n)
    }
}

impl Offset {
    /// Converts an offset to its second count, negated for the past.
    pub fn to_serde(&self) -> (r: Value)
        ensures
            r@ == offset_model(*self),
    {
        match self {
            Offset::Pos { secs } => Value::Uint(*secs),
            Offset::Neg { secs } => {
                let m: u64 = *secs % 0x1_0000_0000;
                let signed: i64 = if m <= 0x7fff_ffff {
                    m as i64
                } else {
                    m as i64 - 0x1_0000_0000
                };
                let v: i64 = if signed == -0x8000_0000 {
                    signed
                } else {
                    -signed
                };
                int_val(v)
            },
        }
    }
}

/// An optional offset as a value.
fn opt_offset_to_json(o: &Option<Offset>) -> (r: Value)
    ensures
        r@ == opt_offset_model(*o),
{
    match o {
        Option::None => Value::Null,
        Option::Some(off) => off.to_serde(),
    }
}

impl AtModifier {
    /// Converts an `@` modifier to its text form.
    pub fn to_serde(&self) -> (r: Value)
        ensures
            r@ == at_model(*self),
    {
        match self {
            AtModifier::Start => str_val("start"),
            AtModifier::End => str_val("end"),
            AtModifier::At { timestamp } => Value::Str(timestamp.clone()),
        }
    }
}

/// An optional `@` modifier as a value.
fn opt_at_to_json(a: &Option<AtModifier>) -> (r: Value)
    ensures
        r@ == opt_at_model(*a),
{
    match a {
        Option::None => Value::Null,
        Option::Some(at) => at.to_serde(),
    }
}

impl VectorMatchCardinality {
    /// Converts a match cardinality to its tagged object.
    pub fn to_serde(&self) -> (r: Value)
        ensures
            r@ == cardinality_model(*self),
    {
        let mut fields: Vec<(String, Value)> = Vec::new();
        match self {
            VectorMatchCardinality::OneToOne => {
                push_field(&mut fields, "@type", str_val("one-to-one"));
            },
            VectorMatchCardinality::ManyToOne { labels } => {
                push_field(&mut fields, "@type", str_val("many-to-one"));
                push_field(&mut fields, "labels", attrs_to_json(labels));
            },
            VectorMatchCardinality::OneToMany { labels } => {
                push_field(&mut fields, "@type", str_val("one-to-many"));
                push_field(&mut fields, "labels", attrs_to_json(labels));
            },
            VectorMatchCardinality::ManyToMany => {
                push_field(&mut fields, "@type", str_val("many-to-many"));
            },
        }
        let r = Value::Obj(fields);
        proof {
            assert(entries_model(fields@) =~= cardinality_model(*self)->Obj_0);
            assert(r@ == cardinality_model(*self));
        }
        r
    }
}

impl LabelModifier {
    /// Converts a label modifier to its one-entry object.
    pub fn to_serde(&self) -> (r: Value)
        ensures
            r@ == label_modifier_model(*self),
    {
        let mut fields: Vec<(String, Value)> = Vec::new();
        match self {
            LabelModifier::Include { labels } => {
                push_field(&mut fields, "include", attrs_to_json(labels));
            },
            LabelModifier::Exclude { labels } => {
                push_field(&mut fields, "exclude", attrs_to_json(labels));
            },
        }
        let r = Value::Obj(fields);
        proof {
            assert(entries_model(fields@) =~= label_modifier_model(*self)->Obj_0);
            assert(r@ == label_modifier_model(*self));
        }
        r
    }
}

/// An optional label modifier as a value.
fn opt_label_modifier_to_json(m: &Option<LabelModifier>) -> (r: Value)
    ensures
        r@ == opt_label_modifier_model(*m),
{
    match m {
        Option::None => Value::Null,
        Option::Some(lm) => lm.to_serde(),
    }
}

impl MatchOp {
    /// Converts a matching operator to its symbol.
    pub fn to_serde(&self) -> (r: Value)
        ensures
            r@ == match_op_model(*self),
    {
        match self {
            MatchOp::Equal => str_val("="),
            MatchOp::NotEqual => str_val("!="),
            MatchOp::Re => str_val("=~"),
            MatchOp::NotRe => str_val("!~"),
        }
    }
}

impl Matcher {
    /// Converts one matcher to its object.
    pub fn to_serde(&self) -> (r: Value)
        ensures
            r@ == matcher_model(*self),
    {
        let mut fields: Vec<(String, Value)> = Vec::new();
        push_field(&mut fields, "name", Value::Str(self.name.clone()));
        push_field(&mut fields, "op", self.op.to_serde());
        push_field(&mut fields, "value", Value::Str(self.value.clone()));
        let r = Value::Obj(fields);
        proof {
            assert(entries_model(fields@) =~= matcher_model(*self)->Obj_0);
            assert(r@ == matcher_model(*self));
        }
        r
    }
}

/// Converts a matcher list, in source order.
#[verifier::loop_isolation(false)]
fn matchers_to_json(xs: &Vec<Matcher>) -> (r: Value)
    ensures
        r@ == JVal::Arr(matchers_model(xs@)),
{
    let mut out: Vec<Value> = Vec::new();
    let n = xs.len();
    for i in 0..n
        invariant
            n == xs.len(),
            out.len() == i,
            forall|j: int| 0 <= j < i ==> out@[j]@ == matcher_model(xs@[j]),
        decreases n - i,
    {
        let v = xs[i].to_serde();
        out.push(v);
    }
    let r = Value::Arr(out);
    proof {
        assert(values_model(out@) =~= matchers_model(xs@));
    }
    r
}

impl BinModifier {
    /// Converts a binary-operation modifier to its object.
    pub fn to_serde(&self) -> (r: Value)
        ensures
            r@ == bin_modifier_model(*self),
    {
        let mut fields: Vec<(String, Value)> = Vec::new();
        push_field(&mut fields, "card", self.card.to_serde());
        push_field(&mut fields, "matching", opt_label_modifier_to_json(&self.matching));
        push_field(&mut fields, "return_bool", Value::Bool(self.return_bool));
        let r = Value::Obj(fields);
        proof {
            assert(entries_model(fields@) =~= bin_modifier_model(*self)->Obj_0);
            assert(r@ == bin_modifier_model(*self));
        }
        r
    }
}

/// An optional binary-operation modifier as a value.
fn opt_bin_modifier_to_json(m: &Option<BinModifier>) -> (r: Value)
    ensures
        r@ == opt_bin_modifier_model(*m),
{
    match m {
        Option::None => Value::Null,
        Option::Some(bm) => bm.to_serde(),
    }
}

impl VectorSelector {
    /// Converts a vector selector to its tagged object.
    pub fn to_serde(&self) -> (r: Value)
        ensures
            r@ == vector_selector_model(*self),
    {
        let mut fields: Vec<(String, Value)> = Vec::new();
        push_field(&mut fields, "@type", str_val("vector_selector"));
        push_field(&mut fields, "name", opt_str_val(&self.name));
        push_field(&mut fields, "matchers", matchers_to_json(&self.matchers));
        push_field(&mut fields, "offset", opt_offset_to_json(&self.offset));
        push_field(&mut fields, "at", opt_at_to_json(&self.at));
        let r = Value::Obj(fields);
        proof {
            assert(entries_model(fields@) =~= vector_selector_model(*self)->Obj_0);
            assert(r@ == vector_selector_model(*self));
        }
        r
    }
}

impl ValueType {
    /// Converts a value type to its name.
    pub fn to_serde(&self) -> (r: Value)
        ensures
            r@ == value_type_model(*self),
    {
        match self {
            ValueType::Vector => str_val("vector"),
            ValueType::Scalar => str_val("scalar"),
            ValueType::Matrix => str_val("matrix"),
            ValueType::Text => str_val("string"),
        }
    }
}

/// Converts a list of value types.
#[verifier::loop_isolation(false)]
fn value_types_to_json(xs: &Vec<ValueType>) -> (r: Value)
    ensures
        r@ == JVal::Arr(value_types_model(xs@)),
{
    let mut out: Vec<Value> = Vec::new();
    let n = xs.len();
    for i in 0..n
        invariant
            n == xs.len(),
            out.len() == i,
            forall|j: int| 0 <= j < i ==> out@[j]@ == value_type_model(xs@[j]),
        decreases n - i,
    {
        let v = xs[i].to_serde();
        out.push(v);
    }
    let r = Value::Arr(out);
    proof {
        assert(values_model(out@) =~= value_types_model(xs@));
    }
    r
}

impl Function {
    /// Converts a function signature to its object.
    pub fn to_serde(&self) -> (r: Value)
        ensures
            r@ == function_model(*self),
    {
        let mut fields: Vec<(String, Value)> = Vec::new();
        push_field(&mut fields, "name", Value::Str(self.name.clone()));
        push_field(&mut fields, "arg_types", value_types_to_json(&self.arg_types));
        push_field(&mut fields, "variadic", int_val(self.variadic));
        push_field(&mut fields, "return_type", self.return_type.to_serde());
        let r = Value::Obj(fields);
        proof {
            assert(entries_model(fields@) =~= function_model(*self)->Obj_0);
            assert(r@ == function_model(*self));
        }
        r
    }
}

/// An optional second count as a value.
fn opt_secs_to_json(o: &Option<u64>) -> (r: Value)
    ensures
        r@ == opt_secs_model(*o),
{
    match o {
        Option::None => Value::Null,
        Option::Some(n) => Value::Uint(*n),
    }
}

/// An optional child expression as a value.
fn prom_opt_expr_to_serde(o: &Option<Box<Expr>>) -> (r: Value)
    ensures
        r@ == prom_opt_expr_model(*o),
    decreases *o,
{
    match o {
        Option::None => Value::Null,
        Option::Some(b) => b.to_serde(),
    }
}

/// Converts an argument list, in source order.
#[verifier::loop_isolation(false)]
fn prom_exprs_to_serde(xs: &Vec<Expr>) -> (r: Vec<Value>)
    ensures
        values_model(r@) == prom_exprs_model(xs@),
    decreases *xs,
{
    let mut out: Vec<Value> = Vec::new();
    let n = xs.len();
    for i in 0..n
        invariant
            n == xs.len(),
            out.len() == i,
            forall|j: int| 0 <= j < i ==> out@[j]@ == prom_expr_model(xs@[j]),
        decreases n - i,
    {
        let v = xs[i].to_serde();
        out.push(v);
    }
    proof {
        assert(values_model(out@) =~= prom_exprs_model(xs@));
    }
    out
}

impl Expr {
    /// Converts one query expression to its canonical value.
    ///
    /// The result is exactly [`prom_expr_model`] of the input: total over
    /// the grammar, deterministic, and keyed by `@type` per variant.
    #[verifier::rlimit(50)]
    #[verifier::spinoff_prover]
    pub fn to_serde(&self) -> (r: Value)
        ensures
            r@ == prom_expr_model(*self),
        decreases *self,
    {
        let mut fields: Vec<(String, Value)> = Vec::new();
        match self {
            Expr::Aggregate { op, expr, param, modifier } => {
                push_field(&mut fields, "@type", str_val("aggregate"));
                push_field(&mut fields, "op", Value::Str(op.clone()));
                push_field(&mut fields, "expr", expr.to_serde());
                push_field(&mut fields, "param", prom_opt_expr_to_serde(param));
                push_field(&mut fields, "modifier", opt_label_modifier_to_json(modifier));
            },
            Expr::Unary { expr } => {
                push_field(&mut fields, "@type", str_val("unary"));
                push_field(&mut fields, "expr", expr.to_serde());
            },
            Expr::Binary { lhs, op, rhs, modifier } => {
                push_field(&mut fields, "@type", str_val("binary"));
                push_field(&mut fields, "lhs", lhs.to_serde());
                push_field(&mut fields, "op", Value::Str(op.clone()));
                push_field(&mut fields, "rhs", rhs.to_serde());
                push_field(&mut fields, "modifier", opt_bin_modifier_to_json(modifier));
            },
            Expr::Paren { expr } => {
                push_field(&mut fields, "@type", str_val("paren"));
                push_field(&mut fields, "expr", expr.to_serde());
            },
            Expr::Subquery { expr, offset, at, range_secs, step_secs } => {
                push_field(&mut fields, "@type", str_val("subquery"));
                push_field(&mut fields, "expr", expr.to_serde());
                push_field(&mut fields, "offset", opt_offset_to_json(offset));
                push_field(&mut fields, "at", opt_at_to_json(at));
                push_field(&mut fields, "range", Value::Uint(*range_secs));
                push_field(&mut fields, "step", opt_secs_to_json(step_secs));
            },
            Expr::NumberLiteral { bits } => {
                push_field(&mut fields, "@type", str_val("number"));
                push_field(&mut fields, "value", Value::Float(*bits));
            },
            Expr::StringLiteral { val } => {
                push_field(&mut fields, "@type", str_val("string"));
                push_field(&mut fields, "value", Value::Str(val.clone()));
            },
            Expr::VectorSelector(vs) => {
                return vs.to_serde();
            },
            Expr::MatrixSelector { vs, range_secs } => {
                push_field(&mut fields, "@type", str_val("matrix_selector"));
                push_field(&mut fields, "vector", vs.to_serde());
                push_field(&mut fields, "range", Value::Uint(*range_secs));
            },
            Expr::Call { func, args } => {
                push_field(&mut fields, "@type", str_val("call"));
                push_field(&mut fields, "function", func.to_serde());
                push_field(&mut fields, "args", Value::Arr(prom_exprs_to_serde(args)));
            },
            Expr::Extension => {
                let empty: Vec<(String, Value)> = Vec::new();
                proof {
                    assert(entries_model(empty@) =~= Seq::<(Seq<char>, JVal)>::empty());
                }
                push_field(&mut fields, "expr", Value::Obj(empty));
            },
        }
        let r = Value::Obj(fields);
        proof {
            assert(entries_model(fields@) =~= prom_expr_model(*self)->Obj_0);
            assert(r@ == prom_expr_model(*self));
        }
        r
    }
}

/// The `@type` tag each tagged variant documents. The extension escape
/// hatch is the one untagged shape.
pub open spec fn prom_type_of(e: Expr) -> Seq<char> {
    match e {
        Expr::Aggregate { .. } => "aggregate"@,
        Expr::Unary { .. } => "unary"@,
        Expr::Binary { .. } => "binary"@,
        Expr::Paren { .. } => "paren"@,
        Expr::Subquery { .. } => "subquery"@,
        Expr::NumberLiteral { .. } => "number"@,
        Expr::StringLiteral { .. } => "string"@,
        Expr::VectorSelector(_) => "vector_selector"@,
        Expr::MatrixSelector { .. } => "matrix_selector"@,
        Expr::Call { .. } => "call"@,
        Expr::Extension => ""@,
    }
}

/// Law: every query node converts to an object, and every variant but the
/// extension escape hatch tags it with its documented `@type` as the
/// first entry.
pub proof fn lemma_prom_variant_tag(e: Expr)
    ensures
        prom_expr_model(e) is Obj,
        prom_expr_model(e)->Obj_0.len() > 0,
        !(e is Extension) ==> prom_expr_model(e)->Obj_0[0] == (
            "@type"@,
            JVal::Str(prom_type_of(e)),
        ),
{
}

} // verus!
