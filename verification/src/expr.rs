//! The expression tree that the analyses read: each node with its location,
//! its source text where that can be recovered, and its resolved type.

use vstd::prelude::*;
use crate::ty::TypeDescriptor;

verus! {

/// A range of bytes in one source.
#[derive(Clone, Copy, Debug, PartialEq, Eq, Structural)]
pub struct Span {
    /// Which source the range lies in.
    pub source: u32,
    /// The first byte of the range.
    pub lo: u32,
    /// The byte after the last one of the range.
    pub hi: u32,
}

/// A literal: a boolean, or any other.
#[derive(Clone, Copy, Debug, PartialEq, Eq, Structural)]
pub enum Literal {
    Bool(bool),
    Other,
}

/// The operator of a binary expression.
#[derive(Clone, Copy, Debug, PartialEq, Eq, Structural)]
pub enum BinOp {
    Add,
    Sub,
    Mul,
    Div,
    Rem,
    And,
    Or,
    BitXor,
    BitAnd,
    BitOr,
    Shl,
    Shr,
    Eq,
    Lt,
    Le,
    Ne,
    Ge,
    Gt,
}

/// A statement of a block.
#[derive(Debug)]
pub enum Statement {
    /// A declaration: a `let` or an item.
    Decl,
    /// An expression without a trailing semicolon.
    Expr(Expr),
    /// An expression with a trailing semicolon.
    Semi(Expr),
}

/// A block: its statements in order, and the expression that it ends with
/// where it has one.
#[derive(Debug)]
pub struct Block {
    pub stmts: Vec<Statement>,
    pub expr: Option<Box<Expr>>,
}

/// What kind of expression a node is, with the parts that the analyses read.
#[derive(Debug)]
pub enum ExprKind {
    /// A literal.
    Lit(Literal),
    /// A block expression.
    Block(Block),
    /// A `return`, with its argument where it has one.
    Ret(Option<Box<Expr>>),
    /// A conditional: the condition, the then-branch, and the else-branch
    /// where there is one.
    If(Box<Expr>, Block, Option<Box<Expr>>),
    /// A binary expression: the operator and the two operands.
    Binary(BinOp, Box<Expr>, Box<Expr>),
    /// A call: the callee and the arguments.
    Call(Box<Expr>, Vec<Expr>),
    /// A method call.
    MethodCall,
    /// A path to a definition.
    Path {
        /// Whether the path has a qualified self type, as in
        /// `<T as Trait>::name`.
        qualified: bool,
        /// The absolute path of the definition that the path resolves to,
        /// segment by segment.
        resolved: Vec<String>,
    },
    /// Any other expression.
    Other,
}

/// A node of the expression tree.
#[derive(Debug)]
pub struct Expr {
    /// The kind of expression.
    pub node: ExprKind,
    /// Where the expression stands.
    pub span: Span,
    /// The source text at `span`, where it can be recovered.
    pub snippet: Option<String>,
    /// The resolved type of the expression.
    pub ty: TypeDescriptor,
}

impl Span {
    /// The range from `lo` up to `hi` in the source `source`.
    pub fn new(source: u32, lo: u32, hi: u32) -> (span: Span)
        ensures
            span == (Span { source, lo, hi }),
    {
        Span { source, lo, hi }
    }
}

impl Expr {
    /// A node whose source text is not known.
    pub fn new(node: ExprKind, span: Span, ty: TypeDescriptor) -> (e: Expr)
        ensures
            e.node == node,
            e.span == span,
            e.snippet is None,
            e.ty == ty,
    {
        Expr { node, span, snippet: None, ty }
    }

    /// The same node, with `text` as its source text.
    pub fn with_snippet(self, text: &str) -> (e: Expr)
        ensures
            e.node == self.node,
            e.span == self.span,
            e.snippet matches Some(s) && s@ == text@,
            e.ty == self.ty,
    {
        Expr { node: self.node, span: self.span, snippet: Some(String::from_str(text)), ty: self.ty }
    }
}

} // verus!
