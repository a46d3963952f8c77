//! Laws of the conversion, stated and proved over the schema.
//!
//! Each proof function here is a statement about every input, not about
//! chosen values: the fixed per-variant key set and tag, determinism of
//! the conversion, the closed operator tables, exact nesting of children,
//! null-for-absent optional fields, order and length of converted
//! collections, the total fallback for unrecognized shapes, and the
//! textual fidelity of numeric literals.

use vstd::prelude::*;

use crate::ast::{BinOp, Expr, Lit, UnOp};
use crate::convert::{
    binop_symbol, expr_model, exprs_model, fieldvalues_model, kind_of, lit_model, opt_expr_model,
    unop_symbol,
};
use crate::value::{keys_of, lemma_lookup_hit, lookup, JVal, Value};

verus! {

broadcast use vstd::std_specs::vec::group_vec_axioms, vstd::seq::group_seq_axioms;

/// The fixed key list of the object produced for each variant. It depends
/// on the variant alone, never on the fields: two nodes of one variant
/// always convert to objects with identical key sets.
pub open spec fn schema_keys(e: Expr) -> Seq<Seq<char>> {
    match e {
        Expr::Array { .. } => seq!["kind"@, "attrs"@, "elems"@],
        Expr::Assign { .. } => seq!["kind"@, "attrs"@, "left"@, "right"@],
        Expr::Async { .. } => seq!["kind"@, "attrs"@, "capture"@, "block"@],
        Expr::Await { .. } => seq!["kind"@, "attrs"@, "base"@],
        Expr::Binary { .. } => seq!["kind"@, "attrs"@, "left"@, "op"@, "right"@],
        Expr::Block { .. } => seq!["kind"@, "attrs"@, "label"@, "block"@],
        Expr::Break { .. } => seq!["kind"@, "attrs"@, "label"@, "expr"@],
        Expr::Call { .. } => seq!["kind"@, "attrs"@, "func"@, "args"@],
        Expr::Cast { .. } => seq!["kind"@, "attrs"@, "expr"@, "ty"@],
        Expr::Closure { .. } => seq![
            "kind"@,
            "attrs"@,
            "lifetimes"@,
            "constness"@,
            "movability"@,
            "asyncness"@,
            "capture"@,
            "inputs"@,
            "output"@,
            "body"@,
        ],
        Expr::Const { .. } => seq!["kind"@, "attrs"@, "block"@],
        Expr::Continue { .. } => seq!["kind"@, "attrs"@, "label"@],
        Expr::Field { .. } => seq!["kind"@, "attrs"@, "base"@, "member"@],
        Expr::ForLoop { .. } => seq!["kind"@, "attrs"@, "label"@, "pat"@, "expr"@, "body"@],
        Expr::Group { .. } => seq!["kind"@, "attrs"@, "expr"@],
        Expr::If { .. } => seq!["kind"@, "attrs"@, "cond"@, "then_branch"@, "else_branch"@],
        Expr::Index { .. } => seq!["kind"@, "attrs"@, "expr"@, "index"@],
        Expr::Infer { .. } => seq!["kind"@, "attrs"@],
        Expr::Let { .. } => seq!["kind"@, "attrs"@, "pat"@, "expr"@],
        Expr::Lit { .. } => seq!["kind"@, "attrs"@, "lit"@],
        Expr::Loop { .. } => seq!["kind"@, "attrs"@, "label"@, "body"@],
        Expr::Macro { .. } => seq!["kind"@, "attrs"@, "mac"@],
        Expr::Match { .. } => seq!["kind"@, "attrs"@, "expr"@, "arms"@],
        Expr::MethodCall { .. } => seq![
            "kind"@,
            "attrs"@,
            "receiver"@,
            "method"@,
            "turbofish"@,
            "args"@,
        ],
        Expr::Paren { .. } => seq!["kind"@, "attrs"@, "expr"@],
        Expr::Path { .. } => seq!["kind"@, "attrs"@, "qself"@, "path"@],
        Expr::Range { .. } => seq!["kind"@, "attrs"@, "start"@, "limits"@, "end"@],
        Expr::RawAddr { .. } => seq!["kind"@, "attrs"@, "mutability"@, "expr"@],
        Expr::Reference { .. } => seq!["kind"@, "attrs"@, "mutability"@, "expr"@],
        Expr::Repeat { .. } => seq!["kind"@, "attrs"@, "expr"@, "len"@],
        Expr::Return { .. } => seq!["kind"@, "attrs"@, "expr"@],
        Expr::Struct { .. } => seq![
            "kind"@,
            "attrs"@,
            "qself"@,
            "path"@,
            "fields"@,
            "dot2_token"@,
            "rest"@,
        ],
        Expr::Try { .. } => seq!["kind"@, "attrs"@, "expr"@],
        Expr::TryBlock { .. } => seq!["kind"@, "attrs"@, "block"@],
        Expr::Tuple { .. } => seq!["kind"@, "attrs"@, "elems"@],
        Expr::Unary { .. } => seq!["kind"@, "attrs"@, "op"@, "expr"@],
        Expr::Unsafe { .. } => seq!["kind"@, "attrs"@, "block"@],
        Expr::Verbatim { .. } => seq!["kind"@, "tokens"@],
        Expr::While { .. } => seq!["kind"@, "attrs"@, "label"@, "cond"@, "body"@],
        Expr::Yield { .. } => seq!["kind"@, "attrs"@, "expr"@],
        Expr::Unknown { .. } => seq!["kind"@, "tokens"@],
    }
}

/// Law: every node converts to an object; the object's first entry is the
/// variant's documented tag under `kind`, and its key list is exactly
/// [`schema_keys`] of the node, which depends on the variant alone.
#[verifier::rlimit(100)]
#[verifier::spinoff_prover]
pub proof fn lemma_variant_tag_and_keys(e: Expr)
    ensures
        expr_model(e) is Obj,
        expr_model(e)->Obj_0.len() == schema_keys(e).len(),
        expr_model(e)->Obj_0[0] == ("kind"@, JVal::Str(kind_of(e))),
        keys_of(expr_model(e)->Obj_0) == schema_keys(e),
{
    assert(keys_of(expr_model(e)->Obj_0) =~= schema_keys(e));
}

/// Law: conversion is deterministic. The canonical value is a function of
/// the input tree alone, so converting the same sub-tree twice — in one
/// process or in two — yields equal values, and any two results of
/// [`crate::convert::expr_to_json`] on one tree have equal models.
pub proof fn lemma_conversion_deterministic(e: Expr, v1: Value, v2: Value)
    requires
        v1@ == expr_model(e),
        v2@ == expr_model(e),
    ensures
        v1@ == v2@,
{
}

/// Law: every operator of the closed sets maps to its documented symbol.
pub proof fn lemma_operator_symbols()
    ensures
        binop_symbol(BinOp::Add) == "+"@,
        binop_symbol(BinOp::Sub) == "-"@,
        binop_symbol(BinOp::Mul) == "*"@,
        binop_symbol(BinOp::Div) == "/"@,
        binop_symbol(BinOp::Rem) == "%"@,
        binop_symbol(BinOp::And) == "&&"@,
        binop_symbol(BinOp::Or) == "||"@,
        binop_symbol(BinOp::BitXor) == "^"@,
        binop_symbol(BinOp::BitAnd) == "&"@,
        binop_symbol(BinOp::BitOr) == "|"@,
        binop_symbol(BinOp::Shl) == "<<"@,
        binop_symbol(BinOp::Shr) == ">>"@,
        binop_symbol(BinOp::Eq) == "=="@,
        binop_symbol(BinOp::Lt) == "<"@,
        binop_symbol(BinOp::Le) == "<="@,
        binop_symbol(BinOp::Ne) == "!="@,
        binop_symbol(BinOp::Ge) == ">="@,
        binop_symbol(BinOp::Gt) == ">"@,
        binop_symbol(BinOp::AddAssign) == "+="@,
        binop_symbol(BinOp::SubAssign) == "-="@,
        binop_symbol(BinOp::MulAssign) == "*="@,
        binop_symbol(BinOp::DivAssign) == "/="@,
        binop_symbol(BinOp::RemAssign) == "%="@,
        binop_symbol(BinOp::BitXorAssign) == "^="@,
        binop_symbol(BinOp::BitAndAssign) == "&="@,
        binop_symbol(BinOp::BitOrAssign) == "|="@,
        binop_symbol(BinOp::ShlAssign) == "<<="@,
        binop_symbol(BinOp::ShrAssign) == ">>="@,
        unop_symbol(UnOp::Deref) == "*"@,
        unop_symbol(UnOp::Not) == "!"@,
        unop_symbol(UnOp::Neg) == "-"@,
{
}

/// Law: a parenthesis node nests its child's conversion unchanged under
/// `expr`, so any depth of parenthesization is preserved exactly.
pub proof fn lemma_paren_preserves_child(e: Expr)
    requires
        e is Paren,
    ensures
        lookup(expr_model(e)->Obj_0, "expr"@) == Option::Some(expr_model(*e->Paren_expr)),
{
    reveal_strlit("kind");
    reveal_strlit("attrs");
    reveal_strlit("expr");
    assert("kind"@[0] == 'k');
    assert("attrs"@[0] == 'a');
    assert("expr"@[0] == 'e');
    lemma_lookup_hit(expr_model(e)->Obj_0, "expr"@, 2);
}

/// Law: an optional child keeps its key either way and reflects presence
/// precisely — null exactly when the child is absent, the child's own
/// conversion (always an object, never null) when present. Stated for the
/// `break` node's value.
pub proof fn lemma_break_expr_presence(e: Expr)
    requires
        e is Break,
    ensures
        lookup(expr_model(e)->Obj_0, "expr"@) == Option::Some(opt_expr_model(e->Break_expr)),
        opt_expr_model(e->Break_expr) is Null <==> e->Break_expr is None,
{
    reveal_strlit("kind");
    reveal_strlit("attrs");
    reveal_strlit("label");
    reveal_strlit("expr");
    assert("kind"@[0] == 'k');
    assert("attrs"@[0] == 'a');
    assert("label"@[0] == 'l');
    assert("expr"@[0] == 'e');
    lemma_lookup_hit(expr_model(e)->Obj_0, "expr"@, 3);
    match e->Break_expr {
        Option::None => {},
        Option::Some(b) => {
            lemma_variant_tag_and_keys(*b);
        },
    }
}

/// Law: a call's arguments convert to an array of the same length, each
/// element the conversion of the argument at the same position.
pub proof fn lemma_call_args_order(e: Expr)
    requires
        e is Call,
    ensures
        lookup(expr_model(e)->Obj_0, "args"@) == Option::Some(
            JVal::Arr(exprs_model(e->Call_args@)),
        ),
        exprs_model(e->Call_args@).len() == e->Call_args@.len(),
        forall|i: int|
            0 <= i < e->Call_args@.len() ==> exprs_model(e->Call_args@)[i] == expr_model(
                e->Call_args@[i],
            ),
{
    reveal_strlit("kind");
    reveal_strlit("attrs");
    reveal_strlit("func");
    reveal_strlit("args");
    assert("kind"@[0] == 'k');
    assert("func"@[0] == 'f');
    assert("attrs"@[1] == 't');
    assert("args"@[1] == 'r');
    lemma_lookup_hit(expr_model(e)->Obj_0, "args"@, 3);
}

/// Law: a struct literal's entries convert to an array of the same length,
/// each element the conversion of the entry at the same position.
pub proof fn lemma_struct_fields_order(e: Expr)
    requires
        e is Struct,
    ensures
        lookup(expr_model(e)->Obj_0, "fields"@) == Option::Some(
            JVal::Arr(fieldvalues_model(e->Struct_fields@)),
        ),
        fieldvalues_model(e->Struct_fields@).len() == e->Struct_fields@.len(),
        forall|i: int|
            0 <= i < e->Struct_fields@.len() ==> fieldvalues_model(e->Struct_fields@)[i]
                == crate::convert::fieldvalue_model(e->Struct_fields@[i]),
{
    reveal_strlit("kind");
    reveal_strlit("attrs");
    reveal_strlit("qself");
    reveal_strlit("path");
    reveal_strlit("fields");
    assert("kind"@[0] == 'k');
    assert("attrs"@[0] == 'a');
    assert("qself"@[0] == 'q');
    assert("path"@[0] == 'p');
    assert("fields"@[0] == 'f');
    lemma_lookup_hit(expr_model(e)->Obj_0, "fields"@, 4);
}

/// Law: a node kind outside the modeled grammar never fails; it converts
/// to the tagged fallback object that carries its rendered tokens, and
/// that text is non-empty whenever the rendering was.
pub proof fn lemma_unknown_fallback(tokens: String)
    ensures
        expr_model(Expr::Unknown { tokens }) == JVal::Obj(
            seq![("kind"@, JVal::Str("Unknown"@)), ("tokens"@, JVal::Str(tokens@))],
        ),
        lookup(expr_model(Expr::Unknown { tokens })->Obj_0, "tokens"@) == Option::Some(
            JVal::Str(tokens@),
        ),
        tokens@.len() > 0 ==> (lookup(expr_model(Expr::Unknown { tokens })->Obj_0, "tokens"@)
            matches Option::Some(JVal::Str(t)) && t.len() > 0),
{
    reveal_strlit("kind");
    reveal_strlit("tokens");
    assert("kind"@[0] == 'k');
    assert("tokens"@[0] == 't');
    lemma_lookup_hit(expr_model(Expr::Unknown { tokens })->Obj_0, "tokens"@, 1);
}

/// Law: the same fallback shape carries deliberately verbatim token
/// streams, under their own tag.
pub proof fn lemma_verbatim_fallback(tokens: String)
    ensures
        expr_model(Expr::Verbatim { tokens }) == JVal::Obj(
            seq![("kind"@, JVal::Str("Verbatim"@)), ("tokens"@, JVal::Str(tokens@))],
        ),
{
}

/// Law: numeric literals keep their original digit text — the produced
/// `value` field is that text as a string, never a reparsed number.
pub proof fn lemma_numeric_literal_fidelity(l: Lit)
    requires
        l is Int || l is Float,
    ensures
        l matches Lit::Int { digits, .. } ==> lookup(lit_model(l)->Obj_0, "value"@)
            == Option::Some(JVal::Str(digits@)),
        l matches Lit::Float { digits, .. } ==> lookup(lit_model(l)->Obj_0, "value"@)
            == Option::Some(JVal::Str(digits@)),
{
    reveal_strlit("kind");
    reveal_strlit("value");
    assert("kind"@[0] == 'k');
    assert("value"@[0] == 'v');
    lemma_lookup_hit(lit_model(l)->Obj_0, "value"@, 1);
}

/// Which variant a node is, as a plain index into the modeled grammar.
pub open spec fn kind_ord(e: Expr) -> int {
    match e {
        Expr::Array { .. } => 0,
        Expr::Assign { .. } => 1,
        Expr::Async { .. } => 2,
        Expr::Await { .. } => 3,
        Expr::Binary { .. } => 4,
        Expr::Block { .. } => 5,
        Expr::Break { .. } => 6,
        Expr::Call { .. } => 7,
        Expr::Cast { .. } => 8,
        Expr::Closure { .. } => 9,
        Expr::Const { .. } => 10,
        Expr::Continue { .. } => 11,
        Expr::Field { .. } => 12,
        Expr::ForLoop { .. } => 13,
        Expr::Group { .. } => 14,
        Expr::If { .. } => 15,
        Expr::Index { .. } => 16,
        Expr::Infer { .. } => 17,
        Expr::Let { .. } => 18,
        Expr::Lit { .. } => 19,
        Expr::Loop { .. } => 20,
        Expr::Macro { .. } => 21,
        Expr::Match { .. } => 22,
        Expr::MethodCall { .. } => 23,
        Expr::Paren { .. } => 24,
        Expr::Path { .. } => 25,
        Expr::Range { .. } => 26,
        Expr::RawAddr { .. } => 27,
        Expr::Reference { .. } => 28,
        Expr::Repeat { .. } => 29,
        Expr::Return { .. } => 30,
        Expr::Struct { .. } => 31,
        Expr::Try { .. } => 32,
        Expr::TryBlock { .. } => 33,
        Expr::Tuple { .. } => 34,
        Expr::Unary { .. } => 35,
        Expr::Unsafe { .. } => 36,
        Expr::Verbatim { .. } => 37,
        Expr::While { .. } => 38,
        Expr::Yield { .. } => 39,
        Expr::Unknown { .. } => 40,
    }
}

/// Law: the schema is fixed per variant. Two nodes of one variant carry
/// the same tag and convert to objects with identical key lists, whatever
/// their fields hold.
#[verifier::rlimit(100)]
#[verifier::spinoff_prover]
pub proof fn lemma_same_variant_same_schema(e1: Expr, e2: Expr)
    requires
        kind_ord(e1) == kind_ord(e2),
    ensures
        kind_of(e1) == kind_of(e2),
        schema_keys(e1) == schema_keys(e2),
        keys_of(expr_model(e1)->Obj_0) == keys_of(expr_model(e2)->Obj_0),
{
    lemma_variant_tag_and_keys(e1);
    lemma_variant_tag_and_keys(e2);
}

} // verus!
