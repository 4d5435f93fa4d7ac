//! Needless boolean results: conditionals whose branches are plain boolean
//! literals, and equality comparisons against a boolean literal.

use vstd::prelude::*;
use crate::diagnostic::{replacement, Diagnostic, DiagnosticView, Lint};
use crate::expr::{BinOp, Block, Expr, ExprKind, Literal, Statement};

verus! {

/// What an expression amounts to, as far as these analyses care.
#[derive(Clone, Copy, Debug, PartialEq, Eq, Structural)]
pub enum Expression {
    /// A boolean literal.
    Bool(bool),
    /// A `return` of a boolean literal.
    RetBool(bool),
    /// Anything else.
    Other,
}

/// The classification of an expression.
///
/// A boolean literal `v` is `Bool(v)`. A block expression is what its block
/// is. A `return` whose argument is `Bool(v)` is `RetBool(v)`. Every other
/// expression is `Other`.
pub open spec fn classify(e: Expr) -> Expression
    decreases e,
{
    match e.node {
        ExprKind::Lit(Literal::Bool(v)) => Expression::Bool(v),
        ExprKind::Block(block) => classify_block(block),
        ExprKind::Ret(Some(arg)) => match classify(*arg) {
            Expression::Bool(v) => Expression::RetBool(v),
            _ => Expression::Other,
        },
        _ => Expression::Other,
    }
}

/// The classification of a block.
///
/// A block without statements that ends with an expression is what that
/// expression is. A block that is one `return ...;` statement and nothing
/// else is what that `return` is. Every other block is `Other`.
pub open spec fn classify_block(b: Block) -> Expression
    decreases b,
{
    if b.stmts@.len() == 0 {
        match b.expr {
            Some(e) => classify(*e),
            None => Expression::Other,
        }
    } else if b.stmts@.len() == 1 && b.expr is None {
        match b.stmts@[0] {
            Statement::Semi(e) => match e.node {
                ExprKind::Ret(_) => classify(e),
                _ => Expression::Other,
            },
            _ => Expression::Other,
        }
    } else {
        Expression::Other
    }
}

/// Classifies a block.
pub fn fetch_bool_block(block: &Block) -> (r: Expression)
    ensures
        r == classify_block(*block),
    decreases block,
{
    if block.stmts.len() == 0 {
        match &block.expr {
            Some(e) => fetch_bool_expr(e),
            None => Expression::Other,
        }
    } else if block.stmts.len() == 1 && block.expr.is_none() {
        match &block.stmts[0] {
            Statement::Semi(e) => match &e.node {
                ExprKind::Ret(_) => fetch_bool_expr(e),
                _ => Expression::Other,
            },
            _ => Expression::Other,
        }
    } else {
        Expression::Other
    }
}

/// Classifies an expression.
pub fn fetch_bool_expr(expr: &Expr) -> (r: Expression)
    ensures
        r == classify(*expr),
    decreases expr,
{
    match &expr.node {
        ExprKind::Block(block) => fetch_bool_block(block),
        ExprKind::Lit(lit) => match lit {
            Literal::Bool(value) => Expression::Bool(*value),
            _ => Expression::Other,
        },
        ExprKind::Ret(Some(arg)) => match fetch_bool_expr(arg) {
            Expression::Bool(value) => Expression::RetBool(value),
            _ => Expression::Other,
        },
        _ => Expression::Other,
    }
}

/// What is said of a conditional that gives its condition, or the negation
/// of its condition.
pub const RETURNS_LITERAL: &'static str = "this if-then-else expression returns a bool literal";

/// What is said of a conditional that gives `true` on both branches.
pub const ALWAYS_TRUE: &'static str = "this if-then-else expression will always return true";

/// What is said of a conditional that gives `false` on both branches.
pub const ALWAYS_FALSE: &'static str = "this if-then-else expression will always return false";

/// What introduces the replacement of a conditional.
pub const REDUCE_HELP: &'static str = "you can reduce it to";

/// What stands for the condition where its text is not known.
pub const PREDICATE: &'static str = "its predicate";

/// What stands for the negated condition where its text is not known.
pub const NEGATED_PREDICATE: &'static str = "`!` and its predicate";

/// What is said of a comparison with `true`.
pub const AGAINST_TRUE: &'static str = "equality checks against true are unnecessary";

/// What is said of a comparison with `false`.
pub const AGAINST_FALSE: &'static str =
    "equality checks against false can be replaced by a negation";

/// What introduces the replacement of a comparison.
pub const SIMPLIFY_HELP: &'static str = "try simplifying it as shown:";

/// What a conditional with plain boolean branches amounts to.
#[derive(Clone, Copy, Debug, PartialEq, Eq, Structural)]
pub enum Reduction {
    /// Both branches give this value.
    Constant(bool),
    /// The branches give the condition, or its negation where `negated`; they
    /// return it where `returned`.
    Condition { returned: bool, negated: bool },
}

/// What a conditional amounts to, by what its two branches are.
///
/// Two boolean literals, or two returns of boolean literals, make a
/// reduction: to the constant where both hold the same value, else to the
/// condition, negated where the then-branch holds `false`. Any other pair
/// makes none.
pub open spec fn reduction(then_branch: Expression, else_branch: Expression) -> Option<Reduction> {
    match (then_branch, else_branch) {
        (Expression::Bool(t), Expression::Bool(e)) => Some(
            if t == e {
                Reduction::Constant(t)
            } else {
                Reduction::Condition { returned: false, negated: e }
            },
        ),
        (Expression::RetBool(t), Expression::RetBool(e)) => Some(
            if t == e {
                Reduction::Constant(t)
            } else {
                Reduction::Condition { returned: true, negated: e }
            },
        ),
        _ => None,
    }
}

/// Tells what a conditional amounts to, by what its two branches are.
pub fn reduce(then_branch: Expression, else_branch: Expression) -> (r: Option<Reduction>)
    ensures
        r == reduction(then_branch, else_branch),
{
    match (then_branch, else_branch) {
        (Expression::RetBool(true), Expression::RetBool(true))
        | (Expression::Bool(true), Expression::Bool(true)) => Some(Reduction::Constant(true)),
        (Expression::RetBool(false), Expression::RetBool(false))
        | (Expression::Bool(false), Expression::Bool(false)) => Some(Reduction::Constant(false)),
        (Expression::RetBool(true), Expression::RetBool(false)) => Some(
            Reduction::Condition { returned: true, negated: false },
        ),
        (Expression::Bool(true), Expression::Bool(false)) => Some(
            Reduction::Condition { returned: false, negated: false },
        ),
        (Expression::RetBool(false), Expression::RetBool(true)) => Some(
            Reduction::Condition { returned: true, negated: true },
        ),
        (Expression::Bool(false), Expression::Bool(true)) => Some(
            Reduction::Condition { returned: false, negated: true },
        ),
        _ => None,
    }
}

/// What stands before the condition in the replacement of a conditional.
pub open spec fn condition_prefix(returned: bool, negated: bool) -> Seq<char> {
    match (returned, negated) {
        (true, false) => "return "@,
        (false, false) => ""@,
        (true, true) => "return !"@,
        (false, true) => "!"@,
    }
}

/// The replacement of a conditional that gives its condition: the prefix
/// and the condition's text, where that is known; else a phrase that stands
/// for the condition, negated or not.
pub open spec fn condition_text(
    returned: bool,
    negated: bool,
    pred: Option<Seq<char>>,
) -> Seq<char> {
    match pred {
        Some(text) => condition_prefix(returned, negated) + text,
        None => if negated {
            NEGATED_PREDICATE@
        } else {
            PREDICATE@
        },
    }
}

/// What the pass reports of an expression.
///
/// Of a conditional with an else-branch whose branches make a reduction:
/// that it always gives `true`, or always `false`, without a suggestion; or
/// that it gives a boolean literal, with the suggestion to put
/// [`condition_text`] in its place. Of anything else, nothing.
pub open spec fn needless_bool_diagnostic(e: Expr) -> Option<DiagnosticView> {
    match e.node {
        ExprKind::If(pred, then_block, Some(else_expr)) => match reduction(
            classify_block(then_block),
            classify(*else_expr),
        ) {
            Some(Reduction::Constant(true)) => Some(
                DiagnosticView::new(Lint::NeedlessBool, e.span, ALWAYS_TRUE@),
            ),
            Some(Reduction::Constant(false)) => Some(
                DiagnosticView::new(Lint::NeedlessBool, e.span, ALWAYS_FALSE@),
            ),
            Some(Reduction::Condition { returned, negated }) => Some(
                DiagnosticView::new(Lint::NeedlessBool, e.span, RETURNS_LITERAL@).suggest(
                    REDUCE_HELP@,
                    condition_text(returned, negated, pred.snippet.deep_view()),
                ),
            ),
            None => None,
        },
        _ => None,
    }
}

/// The lint pass for conditionals whose branches are plain boolean literals.
#[derive(Clone, Copy)]
pub struct NeedlessBool;

impl NeedlessBool {
    /// The lints that this pass reports.
    pub fn get_lints(&self) -> (r: Vec<Lint>)
        ensures
            r@ == seq![Lint::NeedlessBool],
    {
        vec![Lint::NeedlessBool]
    }

    /// Checks one expression, and reports at most one finding about it.
    pub fn check_expr(&mut self, e: &Expr) -> (r: Option<Diagnostic>)
        ensures
            *final(self) == *old(self),
            r.deep_view() == needless_bool_diagnostic(*e),
    {
        if let ExprKind::If(pred, then_block, Some(else_expr)) = &e.node {
            match reduce(fetch_bool_block(then_block), fetch_bool_expr(else_expr)) {
                Some(Reduction::Constant(true)) => Some(
                    Diagnostic::new(Lint::NeedlessBool, e.span, String::from_str(ALWAYS_TRUE)),
                ),
                Some(Reduction::Constant(false)) => Some(
                    Diagnostic::new(Lint::NeedlessBool, e.span, String::from_str(ALWAYS_FALSE)),
                ),
                Some(Reduction::Condition { returned, negated }) => {
                    let hint = match &pred.snippet {
                        Some(text) => {
                            let not = match (returned, negated) {
                                (true, false) => "return ",
                                (false, false) => "",
                                (true, true) => "return !",
                                (false, true) => "!",
                            };
                            let mut hint = String::from_str(not);
                            hint.append(text.as_str());
                            hint
                        },
                        None => if negated {
                            String::from_str(NEGATED_PREDICATE)
                        } else {
                            String::from_str(PREDICATE)
                        },
                    };
                    let found = Diagnostic::new(
                        Lint::NeedlessBool,
                        e.span,
                        String::from_str(RETURNS_LITERAL),
                    );
                    Some(found.suggest(String::from_str(REDUCE_HELP), hint))
                },
                None => None,
            }
        } else {
            None
        }
    }
}

/// One of the two operands of a comparison.
#[derive(Clone, Copy, Debug, PartialEq, Eq, Structural)]
pub enum Operand {
    Left,
    Right,
}

/// A comparison of one operand with a boolean literal.
#[derive(Clone, Copy, Debug, PartialEq, Eq, Structural)]
pub struct Comparison {
    /// The literal that one operand is.
    pub literal: bool,
    /// The operand that is not the literal.
    pub other: Operand,
}

/// What an equality comparison amounts to, by what its two operands are.
///
/// Where one operand is a boolean literal and the other is neither a
/// boolean literal nor a return of one, the comparison is one with that
/// literal. Any other pair makes none.
pub open spec fn comparison(left: Expression, right: Expression) -> Option<Comparison> {
    match (left, right) {
        (Expression::Bool(literal), Expression::Other) => Some(
            Comparison { literal, other: Operand::Right },
        ),
        (Expression::Other, Expression::Bool(literal)) => Some(
            Comparison { literal, other: Operand::Left },
        ),
        _ => None,
    }
}

/// Tells what an equality comparison amounts to, by what its two operands
/// are.
pub fn compare(left: Expression, right: Expression) -> (r: Option<Comparison>)
    ensures
        r == comparison(left, right),
{
    match (left, right) {
        (Expression::Bool(true), Expression::Other) => Some(
            Comparison { literal: true, other: Operand::Right },
        ),
        (Expression::Other, Expression::Bool(true)) => Some(
            Comparison { literal: true, other: Operand::Left },
        ),
        (Expression::Bool(false), Expression::Other) => Some(
            Comparison { literal: false, other: Operand::Right },
        ),
        (Expression::Other, Expression::Bool(false)) => Some(
            Comparison { literal: false, other: Operand::Left },
        ),
        _ => None,
    }
}

/// What can stand in place of a comparison of `other` with `literal`: with
/// `true`, `other` itself; with `false`, its negation.
pub open spec fn comparison_text(literal: bool, other: Seq<char>) -> Seq<char> {
    if literal {
        other
    } else {
        "!"@ + other
    }
}

/// What the pass reports of an expression.
///
/// Of an equality comparison of a boolean literal with an operand that is
/// neither a boolean literal nor a return of one: that the comparison is
/// unnecessary, or can be a negation, with the suggestion to put
/// [`comparison_text`] in its place where the operand's text is known. Of
/// anything else, nothing.
pub open spec fn bool_comparison_diagnostic(e: Expr) -> Option<DiagnosticView> {
    match e.node {
        ExprKind::Binary(BinOp::Eq, left, right) => match comparison(
            classify(*left),
            classify(*right),
        ) {
            Some(found) => {
                let other = match found.other {
                    Operand::Left => *left,
                    Operand::Right => *right,
                };
                let message = if found.literal {
                    AGAINST_TRUE@
                } else {
                    AGAINST_FALSE@
                };
                let report = DiagnosticView::new(Lint::BoolComparison, e.span, message);
                match other.snippet {
                    Some(text) => Some(
                        report.suggest(SIMPLIFY_HELP@, comparison_text(found.literal, text@)),
                    ),
                    None => Some(report),
                }
            },
            None => None,
        },
        _ => None,
    }
}

/// The lint pass for equality comparisons against a boolean literal.
#[derive(Clone, Copy)]
pub struct BoolComparison;

impl BoolComparison {
    /// The lints that this pass reports.
    pub fn get_lints(&self) -> (r: Vec<Lint>)
        ensures
            r@ == seq![Lint::BoolComparison],
    {
        vec![Lint::BoolComparison]
    }

    /// Checks one expression, and reports at most one finding about it.
    pub fn check_expr(&mut self, e: &Expr) -> (r: Option<Diagnostic>)
        ensures
            *final(self) == *old(self),
            r.deep_view() == bool_comparison_diagnostic(*e),
    {
        if let ExprKind::Binary(BinOp::Eq, left, right) = &e.node {
            match compare(fetch_bool_expr(left), fetch_bool_expr(right)) {
                Some(found) => {
                    let other: &Expr = match found.other {
                        Operand::Left => left,
                        Operand::Right => right,
                    };
                    let message = if found.literal {
                        String::from_str(AGAINST_TRUE)
                    } else {
                        String::from_str(AGAINST_FALSE)
                    };
                    let report = Diagnostic::new(Lint::BoolComparison, e.span, message);
                    match &other.snippet {
                        Some(text) => {
                            let hint = if found.literal {
                                text.clone()
                            } else {
                                let mut hint = String::from_str("!");
                                hint.append(text.as_str());
                                hint
                            };
                            Some(report.suggest(String::from_str(SIMPLIFY_HELP), hint))
                        },
                        None => Some(report),
                    }
                },
                None => None,
            }
        } else {
            None
        }
    }
}

/// A boolean literal is classified as that boolean.
pub proof fn lemma_literal_is_bool(e: Expr, b: bool)
    requires
        e.node == ExprKind::Lit(Literal::Bool(b)),
    ensures
        classify(e) == Expression::Bool(b),
{
}

/// A `return` of a boolean literal is classified as a return of that
/// boolean.
pub proof fn lemma_return_of_literal_is_ret_bool(e: Expr, b: bool)
    requires
        e.node matches ExprKind::Ret(Some(arg)) && arg.node == ExprKind::Lit(Literal::Bool(b)),
    ensures
        classify(e) == Expression::RetBool(b),
{
    reveal_with_fuel(classify, 2);
}

/// Classifying an expression has no hidden state: any two results of
/// classifying the same expression are equal.
pub proof fn lemma_fetch_bool_expr_repeats(e: &Expr, first: Expression, second: Expression)
    requires
        call_ensures(fetch_bool_expr, (e,), first),
        call_ensures(fetch_bool_expr, (e,), second),
    ensures
        first == second,
{
}

/// Classifying a block has no hidden state: any two results of classifying
/// the same block are equal.
pub proof fn lemma_fetch_bool_block_repeats(b: &Block, first: Expression, second: Expression)
    requires
        call_ensures(fetch_bool_block, (b,), first),
        call_ensures(fetch_bool_block, (b,), second),
    ensures
        first == second,
{
}

/// Of a conditional whose branches are both the literal `true`, the pass
/// reports that it always gives `true`, without a suggestion, and nothing
/// else.
pub proof fn lemma_both_true_is_always_true(e: Expr)
    requires
        e.node matches ExprKind::If(_, then_block, Some(else_expr)) && classify_block(then_block)
            == Expression::Bool(true) && classify(*else_expr) == Expression::Bool(true),
    ensures
        needless_bool_diagnostic(e) == Some(
            DiagnosticView::new(Lint::NeedlessBool, e.span, ALWAYS_TRUE@),
        ),
        replacement(needless_bool_diagnostic(e)) is None,
{
}

/// Of a conditional whose branches are both the literal `false`, the pass
/// reports that it always gives `false`, without a suggestion, and nothing
/// else.
pub proof fn lemma_both_false_is_always_false(e: Expr)
    requires
        e.node matches ExprKind::If(_, then_block, Some(else_expr)) && classify_block(then_block)
            == Expression::Bool(false) && classify(*else_expr) == Expression::Bool(false),
    ensures
        needless_bool_diagnostic(e) == Some(
            DiagnosticView::new(Lint::NeedlessBool, e.span, ALWAYS_FALSE@),
        ),
        replacement(needless_bool_diagnostic(e)) is None,
{
}

/// Of a conditional that gives the literal `true` where its condition holds
/// and the literal `false` where it does not, the suggested replacement is
/// the source text of the condition, where that text is known.
pub proof fn lemma_true_else_false_is_condition(e: Expr)
    requires
        e.node matches ExprKind::If(pred, then_block, Some(else_expr)) && classify_block(
            then_block,
        ) == Expression::Bool(true) && classify(*else_expr) == Expression::Bool(false)
            && pred.snippet is Some,
    ensures
        replacement(needless_bool_diagnostic(e)) == Some(e.node->If_0.snippet->0@),
{
    reveal_strlit("");
    assert(""@ + e.node->If_0.snippet->0@ =~= e.node->If_0.snippet->0@);
}

/// Of a conditional that gives the literal `false` where its condition
/// holds and the literal `true` where it does not, the suggested
/// replacement is `!` and the source text of the condition, where that text
/// is known.
pub proof fn lemma_false_else_true_is_negation(e: Expr)
    requires
        e.node matches ExprKind::If(pred, then_block, Some(else_expr)) && classify_block(
            then_block,
        ) == Expression::Bool(false) && classify(*else_expr) == Expression::Bool(true)
            && pred.snippet is Some,
    ensures
        replacement(needless_bool_diagnostic(e)) == Some(seq!['!'] + e.node->If_0.snippet->0@),
{
    reveal_strlit("!");
    assert("!"@ =~= seq!['!']);
}

/// Of a comparison `x == true`, where `x` is neither a boolean literal nor
/// a return of one, the suggested replacement is the source text of `x`,
/// where that text is known.
pub proof fn lemma_equals_true_is_operand(e: Expr)
    requires
        e.node matches ExprKind::Binary(BinOp::Eq, x, literal) && classify(*x)
            == Expression::Other && classify(*literal) == Expression::Bool(true)
            && x.snippet is Some,
    ensures
        replacement(bool_comparison_diagnostic(e)) == Some(e.node->Binary_1.snippet->0@),
{
}

/// Of a comparison `x == false`, where `x` is neither a boolean literal nor
/// a return of one, the suggested replacement is `!` and the source text of
/// `x`, where that text is known.
pub proof fn lemma_equals_false_is_negation(e: Expr)
    requires
        e.node matches ExprKind::Binary(BinOp::Eq, x, literal) && classify(*x)
            == Expression::Other && classify(*literal) == Expression::Bool(false)
            && x.snippet is Some,
    ensures
        replacement(bool_comparison_diagnostic(e)) == Some(
            seq!['!'] + e.node->Binary_1.snippet->0@,
        ),
{
    reveal_strlit("!");
    assert("!"@ =~= seq!['!']);
}

} // verus!
