//! Transmutes that are useless, wrong, or better written another way.

use vstd::prelude::*;
use crate::diagnostic::{replacement, Diagnostic, DiagnosticView, Lint};
use crate::expr::{Expr, ExprKind, Span};
use crate::paths::{is_transmute, same_path, TRANSMUTE};
use crate::ty::{Mutability, TypeDescriptor, TypeShape};

verus! {

/// How the type that a transmute starts from relates to the type that it
/// arrives at.
#[derive(Clone, Copy, Debug, PartialEq, Eq, Structural)]
pub enum CastRelationship {
    /// Both are the same type.
    Identical,
    /// From a reference to a raw pointer.
    ReferenceToPointer,
    /// From an integer, signed or unsigned, to a raw pointer.
    IntegerToPointer,
    /// From a float or a `char` to a reference or a raw pointer.
    WrongKind,
    /// From a raw pointer to the type that it points to.
    PointerToPointee,
    /// From a type to a raw pointer to that type.
    PointeeToPointer,
    /// From a raw pointer to a reference.
    PointerToReference {
        /// Whether both have the same mutability.
        same_mutability: bool,
        /// Whether both point to the same type.
        same_pointee: bool,
    },
    /// None of these.
    Unrelated,
}

/// The relationship of `from` to `to`: the first in the order of
/// [`CastRelationship`]'s variants that holds of the two.
pub open spec fn cast_relationship(from: TypeShape, to: TypeShape) -> CastRelationship {
    if from == to {
        CastRelationship::Identical
    } else if from is Reference && to is RawPointer {
        CastRelationship::ReferenceToPointer
    } else if (from is Integer || from is Unsigned) && to is RawPointer {
        CastRelationship::IntegerToPointer
    } else if (from is Float || from is Char) && (to is Reference || to is RawPointer) {
        CastRelationship::WrongKind
    } else if from is RawPointer && from.pointee() == Some(to) {
        CastRelationship::PointerToPointee
    } else if to is RawPointer && to.pointee() == Some(from) {
        CastRelationship::PointeeToPointer
    } else if from is RawPointer && to is Reference {
        CastRelationship::PointerToReference {
            same_mutability: from->RawPointer_0 == to->Reference_0,
            same_pointee: from.pointee() == to.pointee(),
        }
    } else {
        CastRelationship::Unrelated
    }
}

/// Tells how `from` relates to `to`.
pub fn classify_cast(from: &TypeDescriptor, to: &TypeDescriptor) -> (r: CastRelationship)
    ensures
        r == cast_relationship(from@, to@),
{
    if *from == *to {
        return CastRelationship::Identical;
    }
    match (from, to) {
        (TypeDescriptor::Reference(_, _), TypeDescriptor::RawPointer(_, _)) => {
            CastRelationship::ReferenceToPointer
        },
        (TypeDescriptor::Integer(_), TypeDescriptor::RawPointer(_, _))
        | (TypeDescriptor::Unsigned(_), TypeDescriptor::RawPointer(_, _)) => {
            CastRelationship::IntegerToPointer
        },
        (TypeDescriptor::Float(_), TypeDescriptor::Reference(_, _))
        | (TypeDescriptor::Float(_), TypeDescriptor::RawPointer(_, _))
        | (TypeDescriptor::Char, TypeDescriptor::Reference(_, _))
        | (TypeDescriptor::Char, TypeDescriptor::RawPointer(_, _)) => CastRelationship::WrongKind,
        (TypeDescriptor::RawPointer(_, from_pointee), _) if **from_pointee == *to => {
            CastRelationship::PointerToPointee
        },
        (_, TypeDescriptor::RawPointer(_, to_pointee)) if **to_pointee == *from => {
            CastRelationship::PointeeToPointer
        },
        (
            TypeDescriptor::RawPointer(from_mut, from_pointee),
            TypeDescriptor::Reference(to_mut, to_pointee),
        ) => CastRelationship::PointerToReference {
            same_mutability: *from_mut == *to_mut,
            same_pointee: **from_pointee == **to_pointee,
        },
        _ => CastRelationship::Unrelated,
    }
}

/// What is said of a transmute from a reference to a raw pointer.
pub const REFERENCE_TO_POINTER: &'static str = "transmute from a reference to a pointer";

/// What is said of a transmute from an integer to a raw pointer.
pub const INTEGER_TO_POINTER: &'static str = "transmute from an integer to a pointer";

/// What introduces the replacement of a transmute.
pub const TRY: &'static str = "try";

impl CastRelationship {
    /// The lint that reports a transmute between types in this relationship:
    /// none where they are unrelated.
    pub open spec fn lint(self) -> Option<Lint> {
        match self {
            CastRelationship::Identical => Some(Lint::UselessTransmute),
            CastRelationship::ReferenceToPointer => Some(Lint::UselessTransmute),
            CastRelationship::IntegerToPointer => Some(Lint::UselessTransmute),
            CastRelationship::WrongKind => Some(Lint::WrongTransmute),
            CastRelationship::PointerToPointee => Some(Lint::CrosspointerTransmute),
            CastRelationship::PointeeToPointer => Some(Lint::CrosspointerTransmute),
            CastRelationship::PointerToReference { .. } => Some(Lint::TransmutePtrToRef),
            CastRelationship::Unrelated => None,
        }
    }
}

/// The text of an ordinary cast of `arg` to the type `to`.
pub open spec fn ordinary_cast(arg: Seq<char>, to: TypeShape) -> Seq<char> {
    arg + " as "@ + to.text()
}

/// What is said of a transmute from `from` to `to`, by their relationship.
pub open spec fn cast_message(from: TypeShape, to: TypeShape) -> Seq<char> {
    match cast_relationship(from, to) {
        CastRelationship::Identical => {
            "transmute from a type (`"@ + from.text() + "`) to itself"@
        },
        CastRelationship::ReferenceToPointer => REFERENCE_TO_POINTER@,
        CastRelationship::IntegerToPointer => INTEGER_TO_POINTER@,
        CastRelationship::WrongKind => {
            "transmute from a `"@ + from.text() + "` to a pointer"@
        },
        CastRelationship::PointerToPointee => {
            "transmute from a type (`"@ + from.text() + "`) to the type that it points to (`"@
                + to.text() + "`)"@
        },
        CastRelationship::PointeeToPointer => {
            "transmute from a type (`"@ + from.text() + "`) to a pointer to that type (`"@
                + to.text() + "`)"@
        },
        CastRelationship::PointerToReference { .. } => {
            "transmute from a pointer type (`"@ + from.text() + "`) to a reference type (`"@
                + to.text() + "`)"@
        },
        CastRelationship::Unrelated => Seq::empty(),
    }
}

/// What can stand in place of a transmute of `arg` from `from` to `to`,
/// where the relationship of the two allows a rewrite.
///
/// - From a reference to a raw pointer: a cast to `to` where both point to
///   the same type, else a cast to the raw pointer that the reference
///   coerces to and from there a cast to `to`.
/// - From an integer to a raw pointer: a cast to `to`.
/// - From a raw pointer to a reference: a reborrow of what `arg` points to,
///   with `arg` in parentheses unless it is `bare`, where both point to the
///   same type; else a reborrow of what a cast of `arg` to a raw pointer to
///   the reference's pointee points to.
/// - Otherwise none.
pub open spec fn cast_replacement(
    from: TypeShape,
    to: TypeShape,
    arg: Seq<char>,
    bare: bool,
) -> Option<Seq<char>> {
    match cast_relationship(from, to) {
        CastRelationship::ReferenceToPointer => {
            if from.pointee() == to.pointee() {
                Some(ordinary_cast(arg, to))
            } else {
                Some(
                    ordinary_cast(
                        ordinary_cast(
                            arg,
                            TypeShape::raw_pointer(from->Reference_0, *from->Reference_1),
                        ),
                        to,
                    ),
                )
            }
        },
        CastRelationship::IntegerToPointer => Some(ordinary_cast(arg, to)),
        CastRelationship::PointerToReference { same_pointee, .. } => {
            let m = to->Reference_0;
            if same_pointee {
                if bare {
                    Some(m.reborrow_text() + arg)
                } else {
                    Some(m.reborrow_text() + "("@ + arg + ")"@)
                }
            } else {
                Some(
                    m.reborrow_text() + "("@ + ordinary_cast(
                        arg,
                        TypeShape::raw_pointer(m, *to->Reference_1),
                    ) + ")"@,
                )
            }
        },
        _ => None,
    }
}

/// What the analysis reports of a transmute from `from` to `to` at `span`,
/// whose argument has the source text `arg`, where that is known, and is
/// `bare` where it needs no parentheses to be dereferenced.
///
/// Nothing where the two types are unrelated. Otherwise one finding of the
/// relationship's lint with the relationship's message, and with a
/// suggestion exactly where the relationship allows a rewrite and the
/// argument's text is known.
pub open spec fn cast_diagnostic(
    from: TypeShape,
    to: TypeShape,
    arg: Option<Seq<char>>,
    bare: bool,
    span: Span,
) -> Option<DiagnosticView> {
    match cast_relationship(from, to).lint() {
        None => None,
        Some(lint) => {
            let found = DiagnosticView::new(lint, span, cast_message(from, to));
            match arg {
                Some(text) => match cast_replacement(from, to, text, bare) {
                    Some(replacement) => Some(found.suggest(TRY@, replacement)),
                    None => Some(found),
                },
                None => Some(found),
            }
        },
    }
}

/// Whether an expression of this kind can be dereferenced as it stands,
/// without parentheses: a path, a call, a method call or a block.
pub open spec fn is_bare(kind: ExprKind) -> bool {
    kind is Path || kind is Call || kind is MethodCall || kind is Block
}

/// The text `head from tail`.
fn message_about(head: &str, from: &TypeDescriptor, tail: &str) -> (s: String)
    ensures
        s@ == head@ + from@.text() + tail@,
{
    let mut s = String::from_str(head);
    let from_text = from.to_string();
    s.append(from_text.as_str());
    s.append(tail);
    s
}

/// The text `head from middle to tail`.
fn message_about_both(
    head: &str,
    from: &TypeDescriptor,
    middle: &str,
    to: &TypeDescriptor,
    tail: &str,
) -> (s: String)
    ensures
        s@ == head@ + from@.text() + middle@ + to@.text() + tail@,
{
    let mut s = String::from_str(head);
    let from_text = from.to_string();
    s.append(from_text.as_str());
    s.append(middle);
    let to_text = to.to_string();
    s.append(to_text.as_str());
    s.append(tail);
    s
}

/// The text of an ordinary cast of `arg` to the type whose text is `to`.
fn cast_to(arg: &str, to: &str) -> (s: String)
    ensures
        s@ == arg@ + " as "@ + to@,
{
    let mut s = String::from_str(arg);
    s.append(" as ");
    s.append(to);
    s
}

/// The text of a raw pointer type with the given mutability and pointee.
fn raw_pointer_text(m: Mutability, pointee: &TypeDescriptor) -> (s: String)
    ensures
        s@ == TypeShape::raw_pointer(m, pointee@).text(),
{
    let mut s = String::from_str(m.pointer_prefix());
    let pointee_text = pointee.to_string();
    s.append(pointee_text.as_str());
    s
}

/// Reports what there is to say of a transmute of `arg` from the type
/// `from` to the type `to`, where `span` is the whole transmute.
pub fn check_cast(
    from: &TypeDescriptor,
    to: &TypeDescriptor,
    arg: &Expr,
    span: Span,
) -> (r: Option<Diagnostic>)
    ensures
        r.deep_view() == cast_diagnostic(
            from@,
            to@,
            arg.snippet.deep_view(),
            is_bare(arg.node),
            span,
        ),
{
    match classify_cast(from, to) {
        CastRelationship::Identical => {
            let message = message_about("transmute from a type (`", from, "`) to itself");
            Some(Diagnostic::new(Lint::UselessTransmute, span, message))
        },
        CastRelationship::ReferenceToPointer => {
            let found = Diagnostic::new(
                Lint::UselessTransmute,
                span,
                String::from_str(REFERENCE_TO_POINTER),
            );
            match (&arg.snippet, from, to) {
                (
                    Some(text),
                    TypeDescriptor::Reference(from_mut, from_pointee),
                    TypeDescriptor::RawPointer(_, to_pointee),
                ) => {
                    let to_text = to.to_string();
                    let replacement = if **from_pointee == **to_pointee {
                        cast_to(text.as_str(), to_text.as_str())
                    } else {
                        let pointer = raw_pointer_text(*from_mut, from_pointee);
                        let first = cast_to(text.as_str(), pointer.as_str());
                        cast_to(first.as_str(), to_text.as_str())
                    };
                    Some(found.suggest(String::from_str(TRY), replacement))
                },
                _ => Some(found),
            }
        },
        CastRelationship::IntegerToPointer => {
            let found = Diagnostic::new(
                Lint::UselessTransmute,
                span,
                String::from_str(INTEGER_TO_POINTER),
            );
            match &arg.snippet {
                Some(text) => {
                    let to_text = to.to_string();
                    let replacement = cast_to(text.as_str(), to_text.as_str());
                    Some(found.suggest(String::from_str(TRY), replacement))
                },
                None => Some(found),
            }
        },
        CastRelationship::WrongKind => {
            let message = message_about("transmute from a `", from, "` to a pointer");
            Some(Diagnostic::new(Lint::WrongTransmute, span, message))
        },
        CastRelationship::PointerToPointee => {
            let message = message_about_both(
                "transmute from a type (`",
                from,
                "`) to the type that it points to (`",
                to,
                "`)",
            );
            Some(Diagnostic::new(Lint::CrosspointerTransmute, span, message))
        },
        CastRelationship::PointeeToPointer => {
            let message = message_about_both(
                "transmute from a type (`",
                from,
                "`) to a pointer to that type (`",
                to,
                "`)",
            );
            Some(Diagnostic::new(Lint::CrosspointerTransmute, span, message))
        },
        CastRelationship::PointerToReference { same_mutability: _, same_pointee } => {
            let message = message_about_both(
                "transmute from a pointer type (`",
                from,
                "`) to a reference type (`",
                to,
                "`)",
            );
            let found = Diagnostic::new(Lint::TransmutePtrToRef, span, message);
            match (&arg.snippet, to) {
                (Some(text), TypeDescriptor::Reference(to_mut, to_pointee)) => {
                    let mut replacement = String::from_str(to_mut.reborrow_prefix());
                    if same_pointee {
                        match &arg.node {
                            ExprKind::Path { .. }
                            | ExprKind::Call(_, _)
                            | ExprKind::MethodCall
                            | ExprKind::Block(_) => {
                                replacement.append(text.as_str());
                            },
                            _ => {
                                replacement.append("(");
                                replacement.append(text.as_str());
                                replacement.append(")");
                            },
                        }
                    } else {
                        let pointer = raw_pointer_text(*to_mut, to_pointee);
                        let cast = cast_to(text.as_str(), pointer.as_str());
                        replacement.append("(");
                        replacement.append(cast.as_str());
                        replacement.append(")");
                    }
                    Some(found.suggest(String::from_str(TRY), replacement))
                },
                _ => Some(found),
            }
        },
        CastRelationship::Unrelated => None,
    }
}

/// The lint pass for transmutes.
pub struct Transmute;

/// The argument of a transmute: of a call with one argument whose callee is
/// an unqualified path that resolves to the transmute intrinsic.
pub open spec fn transmute_argument(e: Expr) -> Option<Expr> {
    match e.node {
        ExprKind::Call(callee, args) => match callee.node {
            ExprKind::Path { qualified, resolved } => {
                if !qualified && same_path(resolved@, TRANSMUTE@) && args@.len() == 1 {
                    Some(args@[0])
                } else {
                    None
                }
            },
            _ => None,
        },
        _ => None,
    }
}

/// What the pass reports of an expression: of a transmute, what
/// [`cast_diagnostic`] says of a cast from the argument's type to the
/// call's type; of anything else, nothing.
pub open spec fn transmute_diagnostic(e: Expr) -> Option<DiagnosticView> {
    match transmute_argument(e) {
        Some(arg) => cast_diagnostic(
            arg.ty@,
            e.ty@,
            arg.snippet.deep_view(),
            is_bare(arg.node),
            e.span,
        ),
        None => None,
    }
}

impl Transmute {
    /// The lints that this pass reports.
    pub fn get_lints(&self) -> (r: Vec<Lint>)
        ensures
            r@ == seq![
                Lint::CrosspointerTransmute,
                Lint::TransmutePtrToRef,
                Lint::UselessTransmute,
                Lint::WrongTransmute,
            ],
    {
        vec![
            Lint::CrosspointerTransmute,
            Lint::TransmutePtrToRef,
            Lint::UselessTransmute,
            Lint::WrongTransmute,
        ]
    }

    /// Checks one expression, and reports at most one finding about it.
    pub fn check_expr(&mut self, e: &Expr) -> (r: Option<Diagnostic>)
        ensures
            *final(self) == *old(self),
            r.deep_view() == transmute_diagnostic(*e),
    {
        if let ExprKind::Call(callee, args) = &e.node {
            if let ExprKind::Path { qualified, resolved } = &callee.node {
                if !*qualified && is_transmute(resolved) && args.len() == 1 {
                    return check_cast(&args[0].ty, &e.ty, &args[0], e.span);
                }
            }
        }
        None
    }
}

/// No type is the type that it points to.
pub proof fn lemma_pointee_differs(t: TypeShape)
    ensures
        t.pointee() != Some(t),
{
    match t {
        TypeShape::Reference(_, inner) => {
            assert(decreases_to!(t => *inner));
        },
        TypeShape::RawPointer(_, inner) => {
            assert(decreases_to!(t => *inner));
        },
        _ => {},
    }
}

/// A type is identical to itself, whatever it is.
pub proof fn lemma_same_type_is_identical(t: TypeShape)
    ensures
        cast_relationship(t, t) == CastRelationship::Identical,
{
}

/// Telling how two types relate has no hidden state: any two results for
/// the same two types are equal.
pub proof fn lemma_classify_cast_repeats(
    from: &TypeDescriptor,
    to: &TypeDescriptor,
    first: CastRelationship,
    second: CastRelationship,
)
    requires
        call_ensures(classify_cast, (from, to), first),
        call_ensures(classify_cast, (from, to), second),
    ensures
        first == second,
{
}

/// Reporting on a transmute has no hidden state: any two reports on the
/// same types, argument and span say the same.
pub proof fn lemma_check_cast_repeats(
    from: &TypeDescriptor,
    to: &TypeDescriptor,
    arg: &Expr,
    span: Span,
    first: Option<Diagnostic>,
    second: Option<Diagnostic>,
)
    requires
        call_ensures(check_cast, (from, to, arg, span), first),
        call_ensures(check_cast, (from, to, arg, span), second),
    ensures
        first.deep_view() == second.deep_view(),
{
}

/// Of a transmute from a type to itself the analysis reports a useless
/// transmute, and never a replacement.
pub proof fn lemma_identical_has_no_replacement(
    t: TypeShape,
    arg: Option<Seq<char>>,
    bare: bool,
    span: Span,
)
    ensures
        cast_diagnostic(t, t, arg, bare, span) == Some(
            DiagnosticView::new(Lint::UselessTransmute, span, cast_message(t, t)),
        ),
        replacement(cast_diagnostic(t, t, arg, bare, span)) is None,
{
}

/// Of a transmute whose argument has the type of the call itself the pass
/// reports a useless transmute, and never a replacement.
pub proof fn lemma_transmute_to_same_type(e: Expr)
    requires
        transmute_argument(e) matches Some(arg) && arg.ty@ == e.ty@,
    ensures
        transmute_diagnostic(e) matches Some(found) && found.lint == Lint::UselessTransmute,
        replacement(transmute_diagnostic(e)) is None,
{
}

/// Of a transmute from a raw pointer to a reference to the same type,
/// whose argument is the bare text `arg`, the suggested replacement is
/// `&*arg` for a shared reference and `&mut *arg` for a mutable one.
pub proof fn lemma_reborrow_of_bare_argument(
    from_mut: Mutability,
    to_mut: Mutability,
    pointee: TypeShape,
    arg: Seq<char>,
    span: Span,
)
    ensures
        replacement(
            cast_diagnostic(
                TypeShape::RawPointer(from_mut, Box::new(pointee)),
                TypeShape::Reference(to_mut, Box::new(pointee)),
                Some(arg),
                true,
                span,
            ),
        ) == Some(
            match to_mut {
                Mutability::Immutable => "&*"@ + arg,
                Mutability::Mutable => "&mut *"@ + arg,
            },
        ),
{
    lemma_pointee_differs(TypeShape::Reference(to_mut, Box::new(pointee)));
}

/// Of a transmute from a raw pointer to a reference to the same type,
/// whose argument `arg` is not bare, the suggested replacement is `&*(arg)`
/// for a shared reference and `&mut *(arg)` for a mutable one.
pub proof fn lemma_reborrow_in_parentheses(
    from_mut: Mutability,
    to_mut: Mutability,
    pointee: TypeShape,
    arg: Seq<char>,
    span: Span,
)
    ensures
        replacement(
            cast_diagnostic(
                TypeShape::RawPointer(from_mut, Box::new(pointee)),
                TypeShape::Reference(to_mut, Box::new(pointee)),
                Some(arg),
                false,
                span,
            ),
        ) == Some(
            match to_mut {
                Mutability::Immutable => "&*("@ + arg + ")"@,
                Mutability::Mutable => "&mut *("@ + arg + ")"@,
            },
        ),
{
    lemma_pointee_differs(TypeShape::Reference(to_mut, Box::new(pointee)));
    reveal_strlit("&*");
    reveal_strlit("&mut *");
    reveal_strlit("(");
    reveal_strlit("&*(");
    reveal_strlit("&mut *(");
    assert("&*"@ + "("@ =~= "&*("@);
    assert("&mut *"@ + "("@ =~= "&mut *("@);
}

/// Of a transmute from a raw pointer to a reference to another type the
/// suggested replacement casts the argument to a raw pointer to the
/// reference's pointee before it reborrows: `&*(arg as *const T)` for a
/// shared reference to `T` and `&mut *(arg as *mut T)` for a mutable one.
pub proof fn lemma_reborrow_of_cast(
    from: TypeShape,
    to: TypeShape,
    arg: Seq<char>,
    bare: bool,
    span: Span,
)
    requires
        cast_relationship(from, to) matches CastRelationship::PointerToReference {
            same_pointee: false,
            ..
        },
    ensures
        replacement(cast_diagnostic(from, to, Some(arg), bare, span)) == Some(
            match to->Reference_0 {
                Mutability::Immutable => "&*("@ + arg + " as *const "@ + to->Reference_1.text()
                    + ")"@,
                Mutability::Mutable => "&mut *("@ + arg + " as *mut "@ + to->Reference_1.text()
                    + ")"@,
            },
        ),
{
    let pointee = to->Reference_1.text();
    reveal_strlit("&*");
    reveal_strlit("&mut *");
    reveal_strlit("(");
    reveal_strlit("&*(");
    reveal_strlit("&mut *(");
    reveal_strlit(" as ");
    reveal_strlit("*const ");
    reveal_strlit("*mut ");
    reveal_strlit(" as *const ");
    reveal_strlit(" as *mut ");
    assert("&*"@ + "("@ + (arg + " as "@ + ("*const "@ + pointee)) + ")"@ =~= "&*("@ + arg
        + " as *const "@ + pointee + ")"@);
    assert("&mut *"@ + "("@ + (arg + " as "@ + ("*mut "@ + pointee)) + ")"@ =~= "&mut *("@ + arg
        + " as *mut "@ + pointee + ")"@);
}

} // verus!
