//! The node converter: every expression variant maps to one canonical
//! value with a fixed, per-variant key set.
//!
//! The `*_model` spec functions are the schema itself: for each variant
//! they state the exact tag, key list and field contents of the produced
//! object. The executable converters return precisely the modeled value —
//! conversion is total (no error path) and pure, so equal inputs give
//! equal outputs.

use vstd::prelude::*;

use crate::ast::{Arm, BinOp, Expr, FieldValue, Lit, Member, RangeLimits, UnOp};
use crate::value::{entries_model, values_model, JVal, Value};

verus! {

broadcast use vstd::std_specs::vec::group_vec_axioms, vstd::seq::group_seq_axioms;

/// Model of a list of plain texts as an array of strings.
pub open spec fn strs_model(s: Seq<String>) -> Seq<JVal> {
    Seq::new(s.len(), |i: int| JVal::Str(s[i]@))
}

/// Model of an attribute list: an array (possibly empty) of opaque texts.
pub open spec fn attrs_model(attrs: Seq<String>) -> JVal {
    JVal::Arr(strs_model(attrs))
}

/// An optional text: absent renders as null.
pub open spec fn opt_str_model(o: Option<String>) -> JVal {
    match o {
        Option::None => JVal::Null,
        Option::Some(s) => JVal::Str(s@),
    }
}

/// Model of raw byte content as an array of numbers.
pub open spec fn bytes_model(s: Seq<u8>) -> Seq<JVal> {
    Seq::new(s.len(), |i: int| JVal::Uint(s[i] as u64))
}

/// Model of a member: a named field or a tuple index.
pub open spec fn member_model(m: Member) -> JVal {
    match m {
        Member::Named { name } => JVal::Obj(
            seq![("kind"@, JVal::Str("Named"@)), ("name"@, JVal::Str(name@))],
        ),
        Member::Unnamed { index } => JVal::Obj(
            seq![("kind"@, JVal::Str("Unnamed"@)), ("index"@, JVal::Uint(index as u64))],
        ),
    }
}

/// The canonical symbol of a binary operator; outside the closed set the
/// verbatim source token stands in.
pub open spec fn binop_symbol(op: BinOp) -> Seq<char> {
    match op {
        BinOp::Add => "+"@,
        BinOp::Sub => "-"@,
        BinOp::Mul => "*"@,
        BinOp::Div => "/"@,
        BinOp::Rem => "%"@,
        BinOp::And => "&&"@,
        BinOp::Or => "||"@,
        BinOp::BitXor => "^"@,
        BinOp::BitAnd => "&"@,
        BinOp::BitOr => "|"@,
        BinOp::Shl => "<<"@,
        BinOp::Shr => ">>"@,
        BinOp::Eq => "=="@,
        BinOp::Lt => "<"@,
        BinOp::Le => "<="@,
        BinOp::Ne => "!="@,
        BinOp::Ge => ">="@,
        BinOp::Gt => ">"@,
        BinOp::AddAssign => "+="@,
        BinOp::SubAssign => "-="@,
        BinOp::MulAssign => "*="@,
        BinOp::DivAssign => "/="@,
        BinOp::RemAssign => "%="@,
        BinOp::BitXorAssign => "^="@,
        BinOp::BitAndAssign => "&="@,
        BinOp::BitOrAssign => "|="@,
        BinOp::ShlAssign => "<<="@,
        BinOp::ShrAssign => ">>="@,
        BinOp::Other { token } => token@,
    }
}

/// The canonical symbol of a unary operator, with the same fallback.
pub open spec fn unop_symbol(op: UnOp) -> Seq<char> {
    match op {
        UnOp::Deref => "*"@,
        UnOp::Not => "!"@,
        UnOp::Neg => "-"@,
        UnOp::Other { token } => token@,
    }
}

/// Model of range limits.
pub open spec fn limits_model(l: RangeLimits) -> JVal {
    match l {
        RangeLimits::HalfOpen => JVal::Str("HalfOpen"@),
        RangeLimits::Closed => JVal::Str("Closed"@),
    }
}

/// Model of a literal: its tag, its value in the most lossless plain form,
/// and its type suffix where the grammar has one. Numeric literals keep
/// their original digit text.
pub open spec fn lit_model(l: Lit) -> JVal {
    match l {
        Lit::Str { value, suffix } => JVal::Obj(
            seq![
                ("kind"@, JVal::Str("Str"@)),
                ("value"@, JVal::Str(value@)),
                ("suffix"@, JVal::Str(suffix@)),
            ],
        ),
        Lit::ByteStr { value, suffix } => JVal::Obj(
            seq![
                ("kind"@, JVal::Str("ByteStr"@)),
                ("value"@, JVal::Arr(bytes_model(value@))),
                ("suffix"@, JVal::Str(suffix@)),
            ],
        ),
        Lit::CStr { value, suffix } => JVal::Obj(
            seq![
                ("kind"@, JVal::Str("CStr"@)),
                ("value"@, JVal::Str(value@)),
                ("suffix"@, JVal::Str(suffix@)),
            ],
        ),
        Lit::Byte { value, suffix } => JVal::Obj(
            seq![
                ("kind"@, JVal::Str("Byte"@)),
                ("value"@, JVal::Uint(value as u64)),
                ("suffix"@, JVal::Str(suffix@)),
            ],
        ),
        Lit::Char { value, suffix } => JVal::Obj(
            seq![
                ("kind"@, JVal::Str("Char"@)),
                ("value"@, JVal::Str(value@)),
                ("suffix"@, JVal::Str(suffix@)),
            ],
        ),
        Lit::Int { digits, suffix } => JVal::Obj(
            seq![
                ("kind"@, JVal::Str("Int"@)),
                ("value"@, JVal::Str(digits@)),
                ("suffix"@, JVal::Str(suffix@)),
            ],
        ),
        Lit::Float { digits, suffix } => JVal::Obj(
            seq![
                ("kind"@, JVal::Str("Float"@)),
                ("value"@, JVal::Str(digits@)),
                ("suffix"@, JVal::Str(suffix@)),
            ],
        ),
        Lit::Bool { value } => JVal::Obj(
            seq![("kind"@, JVal::Str("Bool"@)), ("value"@, JVal::Bool(value))],
        ),
        Lit::Verbatim { tokens } => JVal::Obj(
            seq![("kind"@, JVal::Str("Verbatim"@)), ("tokens"@, JVal::Str(tokens@))],
        ),
        Lit::Unknown { tokens } => JVal::Obj(
            seq![("kind"@, JVal::Str("Unknown"@)), ("tokens"@, JVal::Str(tokens@))],
        ),
    }
}

/// Model of an optional child expression: absent renders as null.
pub open spec fn opt_expr_model(o: Option<Box<Expr>>) -> JVal
    decreases o,
{
    match o {
        Option::None => JVal::Null,
        Option::Some(b) => expr_model(*b),
    }
}

/// Model of a child list, element by element, in source order.
pub open spec fn exprs_model(s: Seq<Expr>) -> Seq<JVal>
    decreases s,
{
    Seq::new(
        s.len(),
        |i: int|
            if 0 <= i < s.len() {
                expr_model(s[i])
            } else {
                JVal::Null
            },
    )
}

/// Model of one match arm: opaque pattern text, optional guard, body.
pub open spec fn arm_model(a: Arm) -> JVal
    decreases a,
{
    JVal::Obj(
        seq![
            ("attrs"@, attrs_model(a.attrs@)),
            ("pat"@, JVal::Str(a.pat@)),
            ("guard"@, opt_expr_model(a.guard)),
            ("body"@, expr_model(*a.body)),
        ],
    )
}

/// Model of a list of match arms, in source order.
pub open spec fn arms_model(s: Seq<Arm>) -> Seq<JVal>
    decreases s,
{
    Seq::new(
        s.len(),
        |i: int|
            if 0 <= i < s.len() {
                arm_model(s[i])
            } else {
                JVal::Null
            },
    )
}

/// Model of one `member: expr` entry of a struct literal.
pub open spec fn fieldvalue_model(f: FieldValue) -> JVal
    decreases f,
{
    JVal::Obj(
        seq![
            ("attrs"@, attrs_model(f.attrs@)),
            ("member"@, member_model(f.member)),
            ("expr"@, expr_model(f.expr)),
        ],
    )
}

/// Model of the entry list of a struct literal, in source order.
pub open spec fn fieldvalues_model(s: Seq<FieldValue>) -> Seq<JVal>
    decreases s,
{
    Seq::new(
        s.len(),
        |i: int|
            if 0 <= i < s.len() {
                fieldvalue_model(s[i])
            } else {
                JVal::Null
            },
    )
}

/// The documented tag of each variant.
pub open spec fn kind_of(e: Expr) -> Seq<char> {
    match e {
        Expr::Array { .. } => "Array"@,
        Expr::Assign { .. } => "Assign"@,
        Expr::Async { .. } => "Async"@,
        Expr::Await { .. } => "Await"@,
        Expr::Binary { .. } => "Binary"@,
        Expr::Block { .. } => "Block"@,
        Expr::Break { .. } => "Break"@,
        Expr::Call { .. } => "Call"@,
        Expr::Cast { .. } => "Cast"@,
        Expr::Closure { .. } => "Closure"@,
        Expr::Const { .. } => "Const"@,
        Expr::Continue { .. } => "Continue"@,
        Expr::Field { .. } => "Field"@,
        Expr::ForLoop { .. } => "ForLoop"@,
        Expr::Group { .. } => "Group"@,
        Expr::If { .. } => "If"@,
        Expr::Index { .. } => "Index"@,
        Expr::Infer { .. } => "Infer"@,
        Expr::Let { .. } => "Let"@,
        Expr::Lit { .. } => "Lit"@,
        Expr::Loop { .. } => "Loop"@,
        Expr::Macro { .. } => "Macro"@,
        Expr::Match { .. } => "Match"@,
        Expr::MethodCall { .. } => "MethodCall"@,
        Expr::Paren { .. } => "Paren"@,
        Expr::Path { .. } => "Path"@,
        Expr::Range { .. } => "Range"@,
        Expr::RawAddr { .. } => "RawAddr"@,
        Expr::Reference { .. } => "Reference"@,
        Expr::Repeat { .. } => "Repeat"@,
        Expr::Return { .. } => "Return"@,
        Expr::Struct { .. } => "Struct"@,
        Expr::Try { .. } => "Try"@,
        Expr::TryBlock { .. } => "TryBlock"@,
        Expr::Tuple { .. } => "Tuple"@,
        Expr::Unary { .. } => "Unary"@,
        Expr::Unsafe { .. } => "Unsafe"@,
        Expr::Verbatim { .. } => "Verbatim"@,
        Expr::While { .. } => "While"@,
        Expr::Yield { .. } => "Yield"@,
        Expr::Unknown { .. } => "Unknown"@,
    }
}

/// The schema: the canonical value of each expression node. Every arm is
/// an object whose first entry is the variant tag under `kind`; optional
/// pieces always keep their key and render as null when absent.
pub open spec fn expr_model(e: Expr) -> JVal
    decreases e,
{
    match e {
        Expr::Array { attrs, elems } => JVal::Obj(
            seq![
                ("kind"@, JVal::Str("Array"@)),
                ("attrs"@, attrs_model(attrs@)),
                ("elems"@, JVal::Arr(exprs_model(elems@))),
            ],
        ),
        Expr::Assign { attrs, left, right } => JVal::Obj(
            seq![
                ("kind"@, JVal::Str("Assign"@)),
                ("attrs"@, attrs_model(attrs@)),
                ("left"@, expr_model(*left)),
                ("right"@, expr_model(*right)),
            ],
        ),
        Expr::Async { attrs, capture, block } => JVal::Obj(
            seq![
                ("kind"@, JVal::Str("Async"@)),
                ("attrs"@, attrs_model(attrs@)),
                ("capture"@, JVal::Bool(capture)),
                ("block"@, JVal::Str(block@)),
            ],
        ),
        Expr::Await { attrs, base } => JVal::Obj(
            seq![
                ("kind"@, JVal::Str("Await"@)),
                ("attrs"@, attrs_model(attrs@)),
                ("base"@, expr_model(*base)),
            ],
        ),
        Expr::Binary { attrs, left, op, right } => JVal::Obj(
            seq![
                ("kind"@, JVal::Str("Binary"@)),
                ("attrs"@, attrs_model(attrs@)),
                ("left"@, expr_model(*left)),
                ("op"@, JVal::Str(binop_symbol(op))),
                ("right"@, expr_model(*right)),
            ],
        ),
        Expr::Block { attrs, label, block } => JVal::Obj(
            seq![
                ("kind"@, JVal::Str("Block"@)),
                ("attrs"@, attrs_model(attrs@)),
                ("label"@, opt_str_model(label)),
                ("block"@, JVal::Str(block@)),
            ],
        ),
        Expr::Break { attrs, label, expr } => JVal::Obj(
            seq![
                ("kind"@, JVal::Str("Break"@)),
                ("attrs"@, attrs_model(attrs@)),
                ("label"@, opt_str_model(label)),
                ("expr"@, opt_expr_model(expr)),
            ],
        ),
        Expr::Call { attrs, func, args } => JVal::Obj(
            seq![
                ("kind"@, JVal::Str("Call"@)),
                ("attrs"@, attrs_model(attrs@)),
                ("func"@, expr_model(*func)),
                ("args"@, JVal::Arr(exprs_model(args@))),
            ],
        ),
        Expr::Cast { attrs, expr, ty } => JVal::Obj(
            seq![
                ("kind"@, JVal::Str("Cast"@)),
                ("attrs"@, attrs_model(attrs@)),
                ("expr"@, expr_model(*expr)),
                ("ty"@, JVal::Str(ty@)),
            ],
        ),
        Expr::Closure {
            attrs,
            lifetimes,
            constness,
            movability,
            asyncness,
            capture,
            inputs,
            output,
            body,
        } => JVal::Obj(
            seq![
                ("kind"@, JVal::Str("Closure"@)),
                ("attrs"@, attrs_model(attrs@)),
                ("lifetimes"@, opt_str_model(lifetimes)),
                ("constness"@, JVal::Bool(constness)),
                ("movability"@, JVal::Bool(movability)),
                ("asyncness"@, JVal::Bool(asyncness)),
                ("capture"@, JVal::Bool(capture)),
                ("inputs"@, JVal::Arr(strs_model(inputs@))),
                ("output"@, JVal::Str(output@)),
                ("body"@, expr_model(*body)),
            ],
        ),
        Expr::Const { attrs, block } => JVal::Obj(
            seq![
                ("kind"@, JVal::Str("Const"@)),
                ("attrs"@, attrs_model(attrs@)),
                ("block"@, JVal::Str(block@)),
            ],
        ),
        Expr::Continue { attrs, label } => JVal::Obj(
            seq![
                ("kind"@, JVal::Str("Continue"@)),
                ("attrs"@, attrs_model(attrs@)),
                ("label"@, opt_str_model(label)),
            ],
        ),
        Expr::Field { attrs, base, member } => JVal::Obj(
            seq![
                ("kind"@, JVal::Str("Field"@)),
                ("attrs"@, attrs_model(attrs@)),
                ("base"@, expr_model(*base)),
                ("member"@, member_model(member)),
            ],
        ),
        Expr::ForLoop { attrs, label, pat, expr, body } => JVal::Obj(
            seq![
                ("kind"@, JVal::Str("ForLoop"@)),
                ("attrs"@, attrs_model(attrs@)),
                ("label"@, opt_str_model(label)),
                ("pat"@, JVal::Str(pat@)),
                ("expr"@, expr_model(*expr)),
                ("body"@, JVal::Str(body@)),
            ],
        ),
        Expr::Group { attrs, expr } => JVal::Obj(
            seq![
                ("kind"@, JVal::Str("Group"@)),
                ("attrs"@, attrs_model(attrs@)),
                ("expr"@, expr_model(*expr)),
            ],
        ),
        Expr::If { attrs, cond, then_branch, else_branch } => JVal::Obj(
            seq![
                ("kind"@, JVal::Str("If"@)),
                ("attrs"@, attrs_model(attrs@)),
                ("cond"@, expr_model(*cond)),
                ("then_branch"@, JVal::Str(then_branch@)),
                ("else_branch"@, opt_expr_model(else_branch)),
            ],
        ),
        Expr::Index { attrs, expr, index } => JVal::Obj(
            seq![
                ("kind"@, JVal::Str("Index"@)),
                ("attrs"@, attrs_model(attrs@)),
                ("expr"@, expr_model(*expr)),
                ("index"@, expr_model(*index)),
            ],
        ),
        Expr::Infer { attrs } => JVal::Obj(
            seq![("kind"@, JVal::Str("Infer"@)), ("attrs"@, attrs_model(attrs@))],
        ),
        Expr::Let { attrs, pat, expr } => JVal::Obj(
            seq![
                ("kind"@, JVal::Str("Let"@)),
                ("attrs"@, attrs_model(attrs@)),
                ("pat"@, JVal::Str(pat@)),
                ("expr"@, expr_model(*expr)),
            ],
        ),
        Expr::Lit { attrs, lit } => JVal::Obj(
            seq![
                ("kind"@, JVal::Str("Lit"@)),
                ("attrs"@, attrs_model(attrs@)),
                ("lit"@, lit_model(lit)),
            ],
        ),
        Expr::Loop { attrs, label, body } => JVal::Obj(
            seq![
                ("kind"@, JVal::Str("Loop"@)),
                ("attrs"@, attrs_model(attrs@)),
                ("label"@, opt_str_model(label)),
                ("body"@, JVal::Str(body@)),
            ],
        ),
        Expr::Macro { attrs, mac } => JVal::Obj(
            seq![
                ("kind"@, JVal::Str("Macro"@)),
                ("attrs"@, attrs_model(attrs@)),
                ("mac"@, JVal::Str(mac@)),
            ],
        ),
        Expr::Match { attrs, expr, arms } => JVal::Obj(
            seq![
                ("kind"@, JVal::Str("Match"@)),
                ("attrs"@, attrs_model(attrs@)),
                ("expr"@, expr_model(*expr)),
                ("arms"@, JVal::Arr(arms_model(arms@))),
            ],
        ),
        Expr::MethodCall { attrs, receiver, method, turbofish, args } => JVal::Obj(
            seq![
                ("kind"@, JVal::Str("MethodCall"@)),
                ("attrs"@, attrs_model(attrs@)),
                ("receiver"@, expr_model(*receiver)),
                ("method"@, JVal::Str(method@)),
                ("turbofish"@, opt_str_model(turbofish)),
                ("args"@, JVal::Arr(exprs_model(args@))),
            ],
        ),
        Expr::Paren { attrs, expr } => JVal::Obj(
            seq![
                ("kind"@, JVal::Str("Paren"@)),
                ("attrs"@, attrs_model(attrs@)),
                ("expr"@, expr_model(*expr)),
            ],
        ),
        Expr::Path { attrs, qself, path } => JVal::Obj(
            seq![
                ("kind"@, JVal::Str("Path"@)),
                ("attrs"@, attrs_model(attrs@)),
                ("qself"@, opt_str_model(qself)),
                ("path"@, JVal::Str(path@)),
            ],
        ),
        Expr::Range { attrs, start, limits, end } => JVal::Obj(
            seq![
                ("kind"@, JVal::Str("Range"@)),
                ("attrs"@, attrs_model(attrs@)),
                ("start"@, opt_expr_model(start)),
                ("limits"@, limits_model(limits)),
                ("end"@, opt_expr_model(end)),
            ],
        ),
        Expr::RawAddr { attrs, mutable, expr } => JVal::Obj(
            seq![
                ("kind"@, JVal::Str("RawAddr"@)),
                ("attrs"@, attrs_model(attrs@)),
                ("mutability"@, JVal::Bool(mutable)),
                ("expr"@, expr_model(*expr)),
            ],
        ),
        Expr::Reference { attrs, mutable, expr } => JVal::Obj(
            seq![
                ("kind"@, JVal::Str("Reference"@)),
                ("attrs"@, attrs_model(attrs@)),
                ("mutability"@, JVal::Bool(mutable)),
                ("expr"@, expr_model(*expr)),
            ],
        ),
        Expr::Repeat { attrs, expr, len } => JVal::Obj(
            seq![
                ("kind"@, JVal::Str("Repeat"@)),
                ("attrs"@, attrs_model(attrs@)),
                ("expr"@, expr_model(*expr)),
                ("len"@, expr_model(*len)),
            ],
        ),
        Expr::Return { attrs, expr } => JVal::Obj(
            seq![
                ("kind"@, JVal::Str("Return"@)),
                ("attrs"@, attrs_model(attrs@)),
                ("expr"@, opt_expr_model(expr)),
            ],
        ),
        Expr::Struct { attrs, qself, path, fields, dot2_token, rest } => JVal::Obj(
            seq![
                ("kind"@, JVal::Str("Struct"@)),
                ("attrs"@, attrs_model(attrs@)),
                ("qself"@, opt_str_model(qself)),
                ("path"@, JVal::Str(path@)),
                ("fields"@, JVal::Arr(fieldvalues_model(fields@))),
                ("dot2_token"@, JVal::Bool(dot2_token)),
                ("rest"@, opt_expr_model(rest)),
            ],
        ),
        Expr::Try { attrs, expr } => JVal::Obj(
            seq![
                ("kind"@, JVal::Str("Try"@)),
                ("attrs"@, attrs_model(attrs@)),
                ("expr"@, expr_model(*expr)),
            ],
        ),
        Expr::TryBlock { attrs, block } => JVal::Obj(
            seq![
                ("kind"@, JVal::Str("TryBlock"@)),
                ("attrs"@, attrs_model(attrs@)),
                ("block"@, JVal::Str(block@)),
            ],
        ),
        Expr::Tuple { attrs, elems } => JVal::Obj(
            seq![
                ("kind"@, JVal::Str("Tuple"@)),
                ("attrs"@, attrs_model(attrs@)),
                ("elems"@, JVal::Arr(exprs_model(elems@))),
            ],
        ),
        Expr::Unary { attrs, op, expr } => JVal::Obj(
            seq![
                ("kind"@, JVal::Str("Unary"@)),
                ("attrs"@, attrs_model(attrs@)),
                ("op"@, JVal::Str(unop_symbol(op))),
                ("expr"@, expr_model(*expr)),
            ],
        ),
        Expr::Unsafe { attrs, block } => JVal::Obj(
            seq![
                ("kind"@, JVal::Str("Unsafe"@)),
                ("attrs"@, attrs_model(attrs@)),
                ("block"@, JVal::Str(block@)),
            ],
        ),
        Expr::Verbatim { tokens } => JVal::Obj(
            seq![("kind"@, JVal::Str("Verbatim"@)), ("tokens"@, JVal::Str(tokens@))],
        ),
        Expr::While { attrs, label, cond, body } => JVal::Obj(
            seq![
                ("kind"@, JVal::Str("While"@)),
                ("attrs"@, attrs_model(attrs@)),
                ("label"@, opt_str_model(label)),
                ("cond"@, expr_model(*cond)),
                ("body"@, JVal::Str(body@)),
            ],
        ),
        Expr::Yield { attrs, expr } => JVal::Obj(
            seq![
                ("kind"@, JVal::Str("Yield"@)),
                ("attrs"@, attrs_model(attrs@)),
                ("expr"@, opt_expr_model(expr)),
            ],
        ),
        Expr::Unknown { tokens } => JVal::Obj(
            seq![("kind"@, JVal::Str("Unknown"@)), ("tokens"@, JVal::Str(tokens@))],
        ),
    }
}

/// A string value from borrowed text.
pub(crate) fn str_val(s: &str) -> (r: Value)
    ensures
        r@ == JVal::Str(s@),
{
    Value::Str(s.to_owned())
}

/// An optional text as a value: null when absent.
pub(crate) fn opt_str_val(o: &Option<String>) -> (r: Value)
    ensures
        r@ == opt_str_model(*o),
{
    match o {
        Option::None => Value::Null,
        Option::Some(s) => Value::Str(s.clone()),
    }
}

/// Appends one `key: value` entry to an object under construction.
pub(crate) fn push_field(fields: &mut Vec<(String, Value)>, key: &str, v: Value)
    ensures
        entries_model(final(fields)@) == entries_model(old(fields)@).push((key@, v@)),
{
    let gv = Ghost(v@);
    fields.push((key.to_owned(), v));
    proof {
        assert(entries_model(fields@) =~= entries_model(old(fields)@).push((key@, gv@)));
    }
}

/// Converts a list of opaque texts: attribute lists, closure inputs.
#[verifier::loop_isolation(false)]
pub(crate) fn attrs_to_json(xs: &Vec<String>) -> (r: Value)
    ensures
        r@ == JVal::Arr(strs_model(xs@)),
{
    let mut out: Vec<Value> = Vec::new();
    let n = xs.len();
    for i in 0..n
        invariant
            n == xs.len(),
            out.len() == i,
            forall|j: int| 0 <= j < i ==> out@[j]@ == JVal::Str(xs@[j]@),
        decreases n - i,
    {
        out.push(Value::Str(xs[i].clone()));
    }
    let r = Value::Arr(out);
    proof {
        assert(values_model(out@) =~= strs_model(xs@));
    }
    r
}

/// Converts decoded byte-string content.
#[verifier::loop_isolation(false)]
fn bytes_to_json(xs: &Vec<u8>) -> (r: Value)
    ensures
        r@ == JVal::Arr(bytes_model(xs@)),
{
    let mut out: Vec<Value> = Vec::new();
    let n = xs.len();
    for i in 0..n
        invariant
            n == xs.len(),
            out.len() == i,
            forall|j: int| 0 <= j < i ==> out@[j]@ == JVal::Uint(xs@[j] as u64),
        decreases n - i,
    {
        out.push(Value::Uint(xs[i] as u64));
    }
    let r = Value::Arr(out);
    proof {
        assert(values_model(out@) =~= bytes_model(xs@));
    }
    r
}

/// Converts a member to its canonical object.
fn member_to_json(member: &Member) -> (r: Value)
    ensures
        r@ == member_model(*member),
{
    let mut fields: Vec<(String, Value)> = Vec::new();
    match member {
        Member::Named { name } => {
            push_field(&mut fields, "kind", str_val("Named"));
            push_field(&mut fields, "name", Value::Str(name.clone()));
        },
        Member::Unnamed { index } => {
            push_field(&mut fields, "kind", str_val("Unnamed"));
            push_field(&mut fields, "index", Value::Uint(*index as u64));
        },
    }
    let r = Value::Obj(fields);
    proof {
        assert(entries_model(fields@) =~= member_model(*member)->Obj_0);
        assert(r@ == member_model(*member));
    }
    r
}

/// Converts a binary operator to its canonical symbol.
fn binop_to_json(op: &BinOp) -> (r: Value)
    ensures
        r@ == JVal::Str(binop_symbol(*op)),
{
    match op {
        BinOp::Add => str_val("+"),
        BinOp::Sub => str_val("-"),
        BinOp::Mul => str_val("*"),
        BinOp::Div => str_val("/"),
        BinOp::Rem => str_val("%"),
        BinOp::And => str_val("&&"),
        BinOp::Or => str_val("||"),
        BinOp::BitXor => str_val("^"),
        BinOp::BitAnd => str_val("&"),
        BinOp::BitOr => str_val("|"),
        BinOp::Shl => str_val("<<"),
        BinOp::Shr => str_val(">>"),
        BinOp::Eq => str_val("=="),
        BinOp::Lt => str_val("<"),
        BinOp::Le => str_val("<="),
        BinOp::Ne => str_val("!="),
        BinOp::Ge => str_val(">="),
        BinOp::Gt => str_val(">"),
        BinOp::AddAssign => str_val("+="),
        BinOp::SubAssign => str_val("-="),
        BinOp::MulAssign => str_val("*="),
        BinOp::DivAssign => str_val("/="),
        BinOp::RemAssign => str_val("%="),
        BinOp::BitXorAssign => str_val("^="),
        BinOp::BitAndAssign => str_val("&="),
        BinOp::BitOrAssign => str_val("|="),
        BinOp::ShlAssign => str_val("<<="),
        BinOp::ShrAssign => str_val(">>="),
        BinOp::Other { token } => Value::Str(token.clone()),
    }
}

/// Converts a unary operator to its canonical symbol.
fn unop_to_json(op: &UnOp) -> (r: Value)
    ensures
        r@ == JVal::Str(unop_symbol(*op)),
{
    match op {
        UnOp::Deref => str_val("*"),
        UnOp::Not => str_val("!"),
        UnOp::Neg => str_val("-"),
        UnOp::Other { token } => Value::Str(token.clone()),
    }
}

/// Converts range limits to their canonical name.
fn range_limits_to_json(limits: &RangeLimits) -> (r: Value)
    ensures
        r@ == limits_model(*limits),
{
    match limits {
        RangeLimits::HalfOpen => str_val("HalfOpen"),
        RangeLimits::Closed => str_val("Closed"),
    }
}

/// Converts a literal to its canonical object.
pub fn lit_to_json(lit: &Lit) -> (r: Value)
    ensures
        r@ == lit_model(*lit),
{
    let mut fields: Vec<(String, Value)> = Vec::new();
    match lit {
        Lit::Str { value, suffix } => {
            push_field(&mut fields, "kind", str_val("Str"));
            push_field(&mut fields, "value", Value::Str(value.clone()));
            push_field(&mut fields, "suffix", Value::Str(suffix.clone()));
        },
        Lit::ByteStr { value, suffix } => {
            push_field(&mut fields, "kind", str_val("ByteStr"));
            push_field(&mut fields, "value", bytes_to_json(value));
            push_field(&mut fields, "suffix", Value::Str(suffix.clone()));
        },
        Lit::CStr { value, suffix } => {
            push_field(&mut fields, "kind", str_val("CStr"));
            push_field(&mut fields, "value", Value::Str(value.clone()));
            push_field(&mut fields, "suffix", Value::Str(suffix.clone()));
        },
        Lit::Byte { value, suffix } => {
            push_field(&mut fields, "kind", str_val("Byte"));
            push_field(&mut fields, "value", Value::Uint(*value as u64));
            push_field(&mut fields, "suffix", Value::Str(suffix.clone()));
        },
        Lit::Char { value, suffix } => {
            push_field(&mut fields, "kind", str_val("Char"));
            push_field(&mut fields, "value", Value::Str(value.clone()));
            push_field(&mut fields, "suffix", Value::Str(suffix.clone()));
        },
        Lit::Int { digits, suffix } => {
            push_field(&mut fields, "kind", str_val("Int"));
            push_field(&mut fields, "value", Value::Str(digits.clone()));
            push_field(&mut fields, "suffix", Value::Str(suffix.clone()));
        },
        Lit::Float { digits, suffix } => {
            push_field(&mut fields, "kind", str_val("Float"));
            push_field(&mut fields, "value", Value::Str(digits.clone()));
            push_field(&mut fields, "suffix", Value::Str(suffix.clone()));
        },
        Lit::Bool { value } => {
            push_field(&mut fields, "kind", str_val("Bool"));
            push_field(&mut fields, "value", Value::Bool(*value));
        },
        Lit::Verbatim { tokens } => {
            push_field(&mut fields, "kind", str_val("Verbatim"));
            push_field(&mut fields, "tokens", Value::Str(tokens.clone()));
        },
        Lit::Unknown { tokens } => {
            push_field(&mut fields, "kind", str_val("Unknown"));
            push_field(&mut fields, "tokens", Value::Str(tokens.clone()));
        },
    }
    let r = Value::Obj(fields);
    proof {
        assert(entries_model(fields@) =~= lit_model(*lit)->Obj_0);
        assert(r@ == lit_model(*lit));
    }
    r
}

/// Converts an optional child expression: null when absent.
fn opt_expr_to_json(o: &Option<Box<Expr>>) -> (r: Value)
    ensures
        r@ == opt_expr_model(*o),
    decreases *o,
{
    match o {
        Option::None => Value::Null,
        Option::Some(b) => expr_to_json(&**b),
    }
}

/// Converts a child list, in source order.
#[verifier::loop_isolation(false)]
fn exprs_to_json(xs: &Vec<Expr>) -> (r: Vec<Value>)
    ensures
        values_model(r@) == exprs_model(xs@),
    decreases *xs,
{
    let mut out: Vec<Value> = Vec::new();
    let n = xs.len();
    for i in 0..n
        invariant
            n == xs.len(),
            out.len() == i,
            forall|j: int| 0 <= j < i ==> out@[j]@ == expr_model(xs@[j]),
        decreases n - i,
    {
        let v = expr_to_json(&xs[i]);
        out.push(v);
    }
    proof {
        assert(values_model(out@) =~= exprs_model(xs@));
    }
    out
}

/// Converts one match arm.
fn arm_to_json(a: &Arm) -> (r: Value)
    ensures
        r@ == arm_model(*a),
    decreases *a,
{
    let mut fields: Vec<(String, Value)> = Vec::new();
    push_field(&mut fields, "attrs", attrs_to_json(&a.attrs));
    push_field(&mut fields, "pat", Value::Str(a.pat.clone()));
    push_field(&mut fields, "guard", opt_expr_to_json(&a.guard));
    push_field(&mut fields, "body", expr_to_json(&*a.body));
    let r = Value::Obj(fields);
    proof {
        assert(entries_model(fields@) =~= arm_model(*a)->Obj_0);
        assert(r@ == arm_model(*a));
    }
    r
}

/// Converts the arm list of a match, in source order.
#[verifier::loop_isolation(false)]
fn arms_to_json(xs: &Vec<Arm>) -> (r: Vec<Value>)
    ensures
        values_model(r@) == arms_model(xs@),
    decreases *xs,
{
    let mut out: Vec<Value> = Vec::new();
    let n = xs.len();
    for i in 0..n
        invariant
            n == xs.len(),
            out.len() == i,
            forall|j: int| 0 <= j < i ==> out@[j]@ == arm_model(xs@[j]),
        decreases n - i,
    {
        let v = arm_to_json(&xs[i]);
        out.push(v);
    }
    proof {
        assert(values_model(out@) =~= arms_model(xs@));
    }
    out
}

/// Converts one `member: expr` entry of a struct literal.
#[verifier::rlimit(50)]
#[verifier::spinoff_prover]
fn field_value_to_json(f: &FieldValue) -> (r: Value)
    ensures
        r@ == fieldvalue_model(*f),
    decreases *f,
{
    let mut fields: Vec<(String, Value)> = Vec::new();
    push_field(&mut fields, "attrs", attrs_to_json(&f.attrs));
    push_field(&mut fields, "member", member_to_json(&f.member));
    push_field(&mut fields, "expr", expr_to_json(&f.expr));
    let r = Value::Obj(fields);
    proof {
        assert(entries_model(fields@) =~= fieldvalue_model(*f)->Obj_0);
        assert(r@ == fieldvalue_model(*f));
    }
    r
}

/// Converts the entry list of a struct literal, in source order.
#[verifier::loop_isolation(false)]
fn field_values_to_json(xs: &Vec<FieldValue>) -> (r: Vec<Value>)
    ensures
        values_model(r@) == fieldvalues_model(xs@),
    decreases *xs,
{
    let mut out: Vec<Value> = Vec::new();
    let n = xs.len();
    for i in 0..n
        invariant
            n == xs.len(),
            out.len() == i,
            forall|j: int| 0 <= j < i ==> out@[j]@ == fieldvalue_model(xs@[j]),
        decreases n - i,
    {
        let v = field_value_to_json(&xs[i]);
        out.push(v);
    }
    proof {
        assert(values_model(out@) =~= fieldvalues_model(xs@));
    }
    out
}

/// Converts one expression node to its canonical value.
///
/// The conversion is exhaustive over the modeled grammar and total: a node
/// outside the modeled set ([`Expr::Unknown`]) converts to a tagged
/// fallback object carrying its rendered tokens, never to an error. The
/// result is exactly [`expr_model`] of the input, so equal trees convert
/// to equal values.
#[verifier::rlimit(100)]
#[verifier::spinoff_prover]
pub fn expr_to_json(e: &Expr) -> (r: Value)
    ensures
        r@ == expr_model(*e),
    decreases *e,
{
    let mut fields: Vec<(String, Value)> = Vec::new();
    match e {
        Expr::Array { attrs, elems } => {
            push_field(&mut fields, "kind", str_val("Array"));
            push_field(&mut fields, "attrs", attrs_to_json(attrs));
            push_field(&mut fields, "elems", Value::Arr(exprs_to_json(elems)));
        },
        Expr::Assign { attrs, left, right } => {
            push_field(&mut fields, "kind", str_val("Assign"));
            push_field(&mut fields, "attrs", attrs_to_json(attrs));
            push_field(&mut fields, "left", expr_to_json(&**left));
            push_field(&mut fields, "right", expr_to_json(&**right));
        },
        Expr::Async { attrs, capture, block } => {
            push_field(&mut fields, "kind", str_val("Async"));
            push_field(&mut fields, "attrs", attrs_to_json(attrs));
            push_field(&mut fields, "capture", Value::Bool(*capture));
            push_field(&mut fields, "block", Value::Str(block.clone()));
        },
        Expr::Await { attrs, base } => {
            push_field(&mut fields, "kind", str_val("Await"));
            push_field(&mut fields, "attrs", attrs_to_json(attrs));
            push_field(&mut fields, "base", expr_to_json(&**base));
        },
        Expr::Binary { attrs, left, op, right } => {
            push_field(&mut fields, "kind", str_val("Binary"));
            push_field(&mut fields, "attrs", attrs_to_json(attrs));
            push_field(&mut fields, "left", expr_to_json(&**left));
            push_field(&mut fields, "op", binop_to_json(op));
            push_field(&mut fields, "right", expr_to_json(&**right));
        },
        Expr::Block { attrs, label, block } => {
            push_field(&mut fields, "kind", str_val("Block"));
            push_field(&mut fields, "attrs", attrs_to_json(attrs));
            push_field(&mut fields, "label", opt_str_val(label));
            push_field(&mut fields, "block", Value::Str(block.clone()));
        },
        Expr::Break { attrs, label, expr } => {
            push_field(&mut fields, "kind", str_val("Break"));
            push_field(&mut fields, "attrs", attrs_to_json(attrs));
            push_field(&mut fields, "label", opt_str_val(label));
            push_field(&mut fields, "expr", opt_expr_to_json(expr));
        },
        Expr::Call { attrs, func, args } => {
            push_field(&mut fields, "kind", str_val("Call"));
            push_field(&mut fields, "attrs", attrs_to_json(attrs));
            push_field(&mut fields, "func", expr_to_json(&**func));
            push_field(&mut fields, "args", Value::Arr(exprs_to_json(args)));
        },
        Expr::Cast { attrs, expr, ty } => {
            push_field(&mut fields, "kind", str_val("Cast"));
            push_field(&mut fields, "attrs", attrs_to_json(attrs));
            push_field(&mut fields, "expr", expr_to_json(&**expr));
            push_field(&mut fields, "ty", Value::Str(ty.clone()));
        },
        Expr::Closure {
            attrs,
            lifetimes,
            constness,
            movability,
            asyncness,
            capture,
            inputs,
            output,
            body,
        } => {
            push_field(&mut fields, "kind", str_val("Closure"));
            push_field(&mut fields, "attrs", attrs_to_json(attrs));
            push_field(&mut fields, "lifetimes", opt_str_val(lifetimes));
            push_field(&mut fields, "constness", Value::Bool(*constness));
            push_field(&mut fields, "movability", Value::Bool(*movability));
            push_field(&mut fields, "asyncness", Value::Bool(*asyncness));
            push_field(&mut fields, "capture", Value::Bool(*capture));
            push_field(&mut fields, "inputs", attrs_to_json(inputs));
            push_field(&mut fields, "output", Value::Str(output.clone()));
            push_field(&mut fields, "body", expr_to_json(&**body));
        },
        Expr::Const { attrs, block } => {
            push_field(&mut fields, "kind", str_val("Const"));
            push_field(&mut fields, "attrs", attrs_to_json(attrs));
            push_field(&mut fields, "block", Value::Str(block.clone()));
        },
        Expr::Continue { attrs, label } => {
            push_field(&mut fields, "kind", str_val("Continue"));
            push_field(&mut fields, "attrs", attrs_to_json(attrs));
            push_field(&mut fields, "label", opt_str_val(label));
        },
        Expr::Field { attrs, base, member } => {
            push_field(&mut fields, "kind", str_val("Field"));
            push_field(&mut fields, "attrs", attrs_to_json(attrs));
            push_field(&mut fields, "base", expr_to_json(&**base));
            push_field(&mut fields, "member", member_to_json(member));
        },
        Expr::ForLoop { attrs, label, pat, expr, body } => {
            push_field(&mut fields, "kind", str_val("ForLoop"));
            push_field(&mut fields, "attrs", attrs_to_json(attrs));
            push_field(&mut fields, "label", opt_str_val(label));
            push_field(&mut fields, "pat", Value::Str(pat.clone()));
            push_field(&mut fields, "expr", expr_to_json(&**expr));
            push_field(&mut fields, "body", Value::Str(body.clone()));
        },
        Expr::Group { attrs, expr } => {
            push_field(&mut fields, "kind", str_val("Group"));
            push_field(&mut fields, "attrs", attrs_to_json(attrs));
            push_field(&mut fields, "expr", expr_to_json(&**expr));
        },
        Expr::If { attrs, cond, then_branch, else_branch } => {
            push_field(&mut fields, "kind", str_val("If"));
            push_field(&mut fields, "attrs", attrs_to_json(attrs));
            push_field(&mut fields, "cond", expr_to_json(&**cond));
            push_field(&mut fields, "then_branch", Value::Str(then_branch.clone()));
            push_field(&mut fields, "else_branch", opt_expr_to_json(else_branch));
        },
        Expr::Index { attrs, expr, index } => {
            push_field(&mut fields, "kind", str_val("Index"));
            push_field(&mut fields, "attrs", attrs_to_json(attrs));
            push_field(&mut fields, "expr", expr_to_json(&**expr));
            push_field(&mut fields, "index", expr_to_json(&**index));
        },
        Expr::Infer { attrs } => {
            push_field(&mut fields, "kind", str_val("Infer"));
            push_field(&mut fields, "attrs", attrs_to_json(attrs));
        },
        Expr::Let { attrs, pat, expr } => {
            push_field(&mut fields, "kind", str_val("Let"));
            push_field(&mut fields, "attrs", attrs_to_json(attrs));
            push_field(&mut fields, "pat", Value::Str(pat.clone()));
            push_field(&mut fields, "expr", expr_to_json(&**expr));
        },
        Expr::Lit { attrs, lit } => {
            push_field(&mut fields, "kind", str_val("Lit"));
            push_field(&mut fields, "attrs", attrs_to_json(attrs));
            push_field(&mut fields, "lit", lit_to_json(lit));
        },
        Expr::Loop { attrs, label, body } => {
            push_field(&mut fields, "kind", str_val("Loop"));
            push_field(&mut fields, "attrs", attrs_to_json(attrs));
            push_field(&mut fields, "label", opt_str_val(label));
            push_field(&mut fields, "body", Value::Str(body.clone()));
        },
        Expr::Macro { attrs, mac } => {
            push_field(&mut fields, "kind", str_val("Macro"));
            push_field(&mut fields, "attrs", attrs_to_json(attrs));
            push_field(&mut fields, "mac", Value::Str(mac.clone()));
        },
        Expr::Match { attrs, expr, arms } => {
            push_field(&mut fields, "kind", str_val("Match"));
            push_field(&mut fields, "attrs", attrs_to_json(attrs));
            push_field(&mut fields, "expr", expr_to_json(&**expr));
            push_field(&mut fields, "arms", Value::Arr(arms_to_json(arms)));
        },
        Expr::MethodCall { attrs, receiver, method, turbofish, args } => {
            push_field(&mut fields, "kind", str_val("MethodCall"));
            push_field(&mut fields, "attrs", attrs_to_json(attrs));
            push_field(&mut fields, "receiver", expr_to_json(&**receiver));
            push_field(&mut fields, "method", Value::Str(method.clone()));
            push_field(&mut fields, "turbofish", opt_str_val(turbofish));
            push_field(&mut fields, "args", Value::Arr(exprs_to_json(args)));
        },
        Expr::Paren { attrs, expr } => {
            push_field(&mut fields, "kind", str_val("Paren"));
            push_field(&mut fields, "attrs", attrs_to_json(attrs));
            push_field(&mut fields, "expr", expr_to_json(&**expr));
        },
        Expr::Path { attrs, qself, path } => {
            push_field(&mut fields, "kind", str_val("Path"));
            push_field(&mut fields, "attrs", attrs_to_json(attrs));
            push_field(&mut fields, "qself", opt_str_val(qself));
            push_field(&mut fields, "path", Value::Str(path.clone()));
        },
        Expr::Range { attrs, start, limits, end } => {
            push_field(&mut fields, "kind", str_val("Range"));
            push_field(&mut fields, "attrs", attrs_to_json(attrs));
            push_field(&mut fields, "start", opt_expr_to_json(start));
            push_field(&mut fields, "limits", range_limits_to_json(limits));
            push_field(&mut fields, "end", opt_expr_to_json(end));
        },
        Expr::RawAddr { attrs, mutable, expr } => {
            push_field(&mut fields, "kind", str_val("RawAddr"));
            push_field(&mut fields, "attrs", attrs_to_json(attrs));
            push_field(&mut fields, "mutability", Value::Bool(*mutable));
            push_field(&mut fields, "expr", expr_to_json(&**expr));
        },
        Expr::Reference { attrs, mutable, expr } => {
            push_field(&mut fields, "kind", str_val("Reference"));
            push_field(&mut fields, "attrs", attrs_to_json(attrs));
            push_field(&mut fields, "mutability", Value::Bool(*mutable));
            push_field(&mut fields, "expr", expr_to_json(&**expr));
        },
        Expr::Repeat { attrs, expr, len } => {
            push_field(&mut fields, "kind", str_val("Repeat"));
            push_field(&mut fields, "attrs", attrs_to_json(attrs));
            push_field(&mut fields, "expr", expr_to_json(&**expr));
            push_field(&mut fields, "len", expr_to_json(&**len));
        },
        Expr::Return { attrs, expr } => {
            push_field(&mut fields, "kind", str_val("Return"));
            push_field(&mut fields, "attrs", attrs_to_json(attrs));
            push_field(&mut fields, "expr", opt_expr_to_json(expr));
        },
        Expr::Struct { attrs, qself, path, fields: entries, dot2_token, rest } => {
            push_field(&mut fields, "kind", str_val("Struct"));
            push_field(&mut fields, "attrs", attrs_to_json(attrs));
            push_field(&mut fields, "qself", opt_str_val(qself));
            push_field(&mut fields, "path", Value::Str(path.clone()));
            push_field(&mut fields, "fields", Value::Arr(field_values_to_json(entries)));
            push_field(&mut fields, "dot2_token", Value::Bool(*dot2_token));
            push_field(&mut fields, "rest", opt_expr_to_json(rest));
        },
        Expr::Try { attrs, expr } => {
            push_field(&mut fields, "kind", str_val("Try"));
            push_field(&mut fields, "attrs", attrs_to_json(attrs));
            push_field(&mut fields, "expr", expr_to_json(&**expr));
        },
        Expr::TryBlock { attrs, block } => {
            push_field(&mut fields, "kind", str_val("TryBlock"));
            push_field(&mut fields, "attrs", attrs_to_json(attrs));
            push_field(&mut fields, "block", Value::Str(block.clone()));
        },
        Expr::Tuple { attrs, elems } => {
            push_field(&mut fields, "kind", str_val("Tuple"));
            push_field(&mut fields, "attrs", attrs_to_json(attrs));
            push_field(&mut fields, "elems", Value::Arr(exprs_to_json(elems)));
        },
        Expr::Unary { attrs, op, expr } => {
            push_field(&mut fields, "kind", str_val("Unary"));
            push_field(&mut fields, "attrs", attrs_to_json(attrs));
            push_field(&mut fields, "op", unop_to_json(op));
            push_field(&mut fields, "expr", expr_to_json(&**expr));
        },
        Expr::Unsafe { attrs, block } => {
            push_field(&mut fields, "kind", str_val("Unsafe"));
            push_field(&mut fields, "attrs", attrs_to_json(attrs));
            push_field(&mut fields, "block", Value::Str(block.clone()));
        },
        Expr::Verbatim { tokens } => {
            push_field(&mut fields, "kind", str_val("Verbatim"));
            push_field(&mut fields, "tokens", Value::Str(tokens.clone()));
        },
        Expr::While { attrs, label, cond, body } => {
            push_field(&mut fields, "kind", str_val("While"));
            push_field(&mut fields, "attrs", attrs_to_json(attrs));
            push_field(&mut fields, "label", opt_str_val(label));
            push_field(&mut fields, "cond", expr_to_json(&**cond));
            push_field(&mut fields, "body", Value::Str(body.clone()));
        },
        Expr::Yield { attrs, expr } => {
            push_field(&mut fields, "kind", str_val("Yield"));
            push_field(&mut fields, "attrs", attrs_to_json(attrs));
            push_field(&mut fields, "expr", opt_expr_to_json(expr));
        },
        Expr::Unknown { tokens } => {
            push_field(&mut fields, "kind", str_val("Unknown"));
            push_field(&mut fields, "tokens", Value::Str(tokens.clone()));
        },
    }
    let r = Value::Obj(fields);
    proof {
        assert(entries_model(fields@) =~= expr_model(*e)->Obj_0);
        assert(r@ == expr_model(*e));
    }
    r
}

} // verus!
