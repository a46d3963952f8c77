//! The modeled expression grammar of Rust source text.
//!
//! Each node owns its children outright (the grammar is a tree, never a
//! cycle) and carries the ordered list of its annotation texts (`attrs`).
//! Sub-trees the canonical schema does not model structurally — blocks,
//! patterns, type expressions, macro arguments, generic-argument lists —
//! are held as their deterministic textual re-rendering, exactly the text
//! the converter will emit for them. The grammar is extensible: shapes
//! outside the modeled set arrive as [`Expr::Unknown`] with their rendered
//! tokens, and the converter never fails on them.

use vstd::prelude::*;

verus! {

/// A literal, with its original textual form kept for numbers.
///
/// Integer and float literals carry their base-10 digit text untouched, so
/// no precision or formatting is lost to a binary round-trip. The `suffix`
/// is the literal's type suffix, empty when absent.
#[derive(Debug, Clone, PartialEq, Eq)]
pub enum Lit {
    Str { value: String, suffix: String },
    ByteStr { value: Vec<u8>, suffix: String },
    CStr { value: String, suffix: String },
    Byte { value: u8, suffix: String },
    Char { value: String, suffix: String },
    Int { digits: String, suffix: String },
    Float { digits: String, suffix: String },
    Bool { value: bool },
    Verbatim { tokens: String },
    Unknown { tokens: String },
}

/// A struct or tuple member: a field name, or a tuple index.
#[derive(Debug, Clone, PartialEq, Eq)]
pub enum Member {
    Named { name: String },
    Unnamed { index: u32 },
}

/// A binary operator. The closed set maps to fixed symbols; an operator
/// outside it (possible only if the grammar grows) carries its verbatim
/// source token.
#[derive(Debug, Clone, PartialEq, Eq)]
pub enum BinOp {
    Add,
    Sub,
    Mul,
    Div,
    Rem,
    And,
    Or,
    BitXor,
    BitAnd,
    BitOr,
    Shl,
    Shr,
    Eq,
    Lt,
    Le,
    Ne,
    Ge,
    Gt,
    AddAssign,
    SubAssign,
    MulAssign,
    DivAssign,
    RemAssign,
    BitXorAssign,
    BitAndAssign,
    BitOrAssign,
    ShlAssign,
    ShrAssign,
    Other { token: String },
}

/// A unary operator, with the same fallback policy as [`BinOp`].
#[derive(Debug, Clone, PartialEq, Eq)]
pub enum UnOp {
    Deref,
    Not,
    Neg,
    Other { token: String },
}

/// Whether a range includes its end point.
#[derive(Debug, Clone, PartialEq, Eq)]
pub enum RangeLimits {
    HalfOpen,
    Closed,
}

/// One arm of a `match` expression.
#[derive(Debug, PartialEq, Eq)]
pub struct Arm {
    pub attrs: Vec<String>,
    pub pat: String,
    pub guard: Option<Box<Expr>>,
    pub body: Box<Expr>,
}

/// One `member: expr` entry of a struct literal.
#[derive(Debug, PartialEq, Eq)]
pub struct FieldValue {
    pub attrs: Vec<String>,
    pub member: Member,
    pub expr: Expr,
}

/// One expression node.
#[derive(Debug, PartialEq, Eq)]
pub enum Expr {
    Array { attrs: Vec<String>, elems: Vec<Expr> },
    Assign { attrs: Vec<String>, left: Box<Expr>, right: Box<Expr> },
    Async { attrs: Vec<String>, capture: bool, block: String },
    Await { attrs: Vec<String>, base: Box<Expr> },
    Binary { attrs: Vec<String>, left: Box<Expr>, op: BinOp, right: Box<Expr> },
    Block { attrs: Vec<String>, label: Option<String>, block: String },
    Break { attrs: Vec<String>, label: Option<String>, expr: Option<Box<Expr>> },
    Call { attrs: Vec<String>, func: Box<Expr>, args: Vec<Expr> },
    Cast { attrs: Vec<String>, expr: Box<Expr>, ty: String },
    Closure {
        attrs: Vec<String>,
        lifetimes: Option<String>,
        constness: bool,
        movability: bool,
        asyncness: bool,
        capture: bool,
        inputs: Vec<String>,
        output: String,
        body: Box<Expr>,
    },
    Const { attrs: Vec<String>, block: String },
    Continue { attrs: Vec<String>, label: Option<String> },
    Field { attrs: Vec<String>, base: Box<Expr>, member: Member },
    ForLoop {
        attrs: Vec<String>,
        label: Option<String>,
        pat: String,
        expr: Box<Expr>,
        body: String,
    },
    Group { attrs: Vec<String>, expr: Box<Expr> },
    If {
        attrs: Vec<String>,
        cond: Box<Expr>,
        then_branch: String,
        else_branch: Option<Box<Expr>>,
    },
    Index { attrs: Vec<String>, expr: Box<Expr>, index: Box<Expr> },
    Infer { attrs: Vec<String> },
    Let { attrs: Vec<String>, pat: String, expr: Box<Expr> },
    Lit { attrs: Vec<String>, lit: Lit },
    Loop { attrs: Vec<String>, label: Option<String>, body: String },
    Macro { attrs: Vec<String>, mac: String },
    Match { attrs: Vec<String>, expr: Box<Expr>, arms: Vec<Arm> },
    MethodCall {
        attrs: Vec<String>,
        receiver: Box<Expr>,
        method: String,
        turbofish: Option<String>,
        args: Vec<Expr>,
    },
    Paren { attrs: Vec<String>, expr: Box<Expr> },
    Path { attrs: Vec<String>, qself: Option<String>, path: String },
    Range {
        attrs: Vec<String>,
        start: Option<Box<Expr>>,
        limits: RangeLimits,
        end: Option<Box<Expr>>,
    },
    RawAddr { attrs: Vec<String>, mutable: bool, expr: Box<Expr> },
    Reference { attrs: Vec<String>, mutable: bool, expr: Box<Expr> },
    Repeat { attrs: Vec<String>, expr: Box<Expr>, len: Box<Expr> },
    Return { attrs: Vec<String>, expr: Option<Box<Expr>> },
    Struct {
        attrs: Vec<String>,
        qself: Option<String>,
        path: String,
        fields: Vec<FieldValue>,
        dot2_token: bool,
        rest: Option<Box<Expr>>,
    },
    Try { attrs: Vec<String>, expr: Box<Expr> },
    TryBlock { attrs: Vec<String>, block: String },
    Tuple { attrs: Vec<String>, elems: Vec<Expr> },
    Unary { attrs: Vec<String>, op: UnOp, expr: Box<Expr> },
    Unsafe { attrs: Vec<String>, block: String },
    Verbatim { tokens: String },
    While { attrs: Vec<String>, label: Option<String>, cond: Box<Expr>, body: String },
    Yield { attrs: Vec<String>, expr: Option<Box<Expr>> },
    Unknown { tokens: String },
}

} // verus!
