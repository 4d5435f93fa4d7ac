use clippy_lints::diagnostic::{Diagnostic, Level, Lint, Suggestion};
use clippy_lints::expr::{BinOp, Block, Expr, ExprKind, Literal, Span};
use clippy_lints::paths::{is_transmute, match_def_path, TRANSMUTE};
use clippy_lints::transmute::{check_cast, classify_cast, CastRelationship, Transmute};
use clippy_lints::ty::{FloatWidth, IntWidth, Mutability, TypeDescriptor, UintWidth};

fn named(name: &str) -> TypeDescriptor {
    TypeDescriptor::Other(name.to_string())
}

fn shared(pointee: TypeDescriptor) -> TypeDescriptor {
    TypeDescriptor::Reference(Mutability::Immutable, Box::new(pointee))
}

fn exclusive(pointee: TypeDescriptor) -> TypeDescriptor {
    TypeDescriptor::Reference(Mutability::Mutable, Box::new(pointee))
}

fn const_ptr(pointee: TypeDescriptor) -> TypeDescriptor {
    TypeDescriptor::RawPointer(Mutability::Immutable, Box::new(pointee))
}

fn mut_ptr(pointee: TypeDescriptor) -> TypeDescriptor {
    TypeDescriptor::RawPointer(Mutability::Mutable, Box::new(pointee))
}

fn signed(width: IntWidth) -> TypeDescriptor {
    TypeDescriptor::Integer(width)
}

fn unsigned(width: UintWidth) -> TypeDescriptor {
    TypeDescriptor::Unsigned(width)
}

fn floating(width: FloatWidth) -> TypeDescriptor {
    TypeDescriptor::Float(width)
}

fn whole() -> Span {
    Span::new(7, 100, 130)
}

fn path_to(segments: &[&str]) -> Vec<String> {
    segments.iter().map(|s| s.to_string()).collect()
}

fn var(name: &str, ty: TypeDescriptor) -> Expr {
    let path = ExprKind::Path { qualified: false, resolved: vec![name.to_string()] };
    Expr::new(path, Span::new(7, 110, 110 + name.len() as u32), ty).with_snippet(name)
}

fn complex(text: &str, ty: TypeDescriptor) -> Expr {
    let node = ExprKind::Binary(
        BinOp::Add,
        Box::new(var("p", ty.clone())),
        Box::new(var("q", ty.clone())),
    );
    Expr::new(node, Span::new(7, 110, 115), ty).with_snippet(text)
}

fn transmute_fn() -> Expr {
    let path = ExprKind::Path {
        qualified: false,
        resolved: path_to(&["core", "intrinsics", "transmute"]),
    };
    Expr::new(path, Span::new(7, 100, 109), named("fn")).with_snippet("transmute")
}

fn call(callee: Expr, args: Vec<Expr>, ty: TypeDescriptor) -> Expr {
    Expr::new(ExprKind::Call(Box::new(callee), args), whole(), ty)
}

fn transmute(arg: Expr, to: TypeDescriptor) -> Expr {
    call(transmute_fn(), vec![arg], to)
}

fn check(e: &Expr) -> Option<Diagnostic> {
    Transmute.check_expr(e)
}

fn report(lint: Lint, message: &str, replacement: Option<&str>) -> Option<Diagnostic> {
    Some(Diagnostic {
        lint,
        level: Level::Warn,
        span: whole(),
        message: message.to_string(),
        suggestion: replacement.map(|r| Suggestion {
            help: "try".to_string(),
            replacement: r.to_string(),
        }),
    })
}

const PTR_TO_REF: CastRelationship =
    CastRelationship::PointerToReference { same_mutability: true, same_pointee: true };

#[test]
fn types_render_as_source_text() {
    assert_eq!(signed(IntWidth::Isize).to_string(), "isize");
    assert_eq!(signed(IntWidth::I8).to_string(), "i8");
    assert_eq!(signed(IntWidth::I16).to_string(), "i16");
    assert_eq!(signed(IntWidth::I32).to_string(), "i32");
    assert_eq!(signed(IntWidth::I64).to_string(), "i64");
    assert_eq!(signed(IntWidth::I128).to_string(), "i128");
    assert_eq!(unsigned(UintWidth::Usize).to_string(), "usize");
    assert_eq!(unsigned(UintWidth::U8).to_string(), "u8");
    assert_eq!(unsigned(UintWidth::U16).to_string(), "u16");
    assert_eq!(unsigned(UintWidth::U32).to_string(), "u32");
    assert_eq!(unsigned(UintWidth::U64).to_string(), "u64");
    assert_eq!(unsigned(UintWidth::U128).to_string(), "u128");
    assert_eq!(floating(FloatWidth::F32).to_string(), "f32");
    assert_eq!(floating(FloatWidth::F64).to_string(), "f64");
    assert_eq!(TypeDescriptor::Char.to_string(), "char");
    assert_eq!(named("std::string::String").to_string(), "std::string::String");
    assert_eq!(shared(named("T")).to_string(), "&T");
    assert_eq!(exclusive(named("T")).to_string(), "&mut T");
    assert_eq!(const_ptr(named("T")).to_string(), "*const T");
    assert_eq!(mut_ptr(named("T")).to_string(), "*mut T");
    assert_eq!(
        shared(mut_ptr(exclusive(const_ptr(unsigned(UintWidth::U8))))).to_string(),
        "&*mut &mut *const u8"
    );
}

#[test]
fn types_are_equal_by_structure() {
    assert_eq!(named("T"), named("T"));
    assert_ne!(named("T"), named("U"));
    assert_eq!(shared(named("T")), shared(named("T")));
    assert_ne!(shared(named("T")), exclusive(named("T")));
    assert_ne!(shared(named("T")), const_ptr(named("T")));
    assert_ne!(const_ptr(named("T")), mut_ptr(named("T")));
    assert_ne!(const_ptr(named("T")), const_ptr(named("U")));
    assert_eq!(signed(IntWidth::I32), signed(IntWidth::I32));
    assert_ne!(signed(IntWidth::I32), signed(IntWidth::I64));
    assert_ne!(signed(IntWidth::I32), unsigned(UintWidth::U32));
    assert_ne!(floating(FloatWidth::F32), floating(FloatWidth::F64));
    assert_eq!(TypeDescriptor::Char, TypeDescriptor::Char);
    assert_ne!(TypeDescriptor::Char, named("char"));
    assert_eq!(
        mut_ptr(shared(unsigned(UintWidth::U8))),
        mut_ptr(shared(unsigned(UintWidth::U8)))
    );
    assert_ne!(
        mut_ptr(shared(unsigned(UintWidth::U8))),
        mut_ptr(shared(unsigned(UintWidth::U16)))
    );
}

#[test]
fn clone_of_a_type_is_the_same_type() {
    let t = shared(mut_ptr(exclusive(const_ptr(named("Vec<u8>")))));
    assert_eq!(t.clone(), t);
    assert_eq!(signed(IntWidth::I16).clone(), signed(IntWidth::I16));
    assert_eq!(TypeDescriptor::Char.clone(), TypeDescriptor::Char);
}

#[test]
fn equal_types_are_identical() {
    for t in [
        named("T"),
        unsigned(UintWidth::U8),
        signed(IntWidth::I64),
        floating(FloatWidth::F64),
        TypeDescriptor::Char,
        shared(named("T")),
        exclusive(named("T")),
        const_ptr(named("T")),
        mut_ptr(const_ptr(named("T"))),
    ] {
        assert_eq!(classify_cast(&t, &t.clone()), CastRelationship::Identical);
    }
}

#[test]
fn reference_to_raw_pointer_is_recognised() {
    for from in [shared(named("T")), exclusive(named("T"))] {
        for to in [const_ptr(named("T")), mut_ptr(named("T")), const_ptr(named("U"))] {
            assert_eq!(classify_cast(&from, &to), CastRelationship::ReferenceToPointer);
        }
    }
    // also where the pointer points to the reference itself
    let r = shared(named("T"));
    assert_eq!(classify_cast(&r, &const_ptr(r.clone())), CastRelationship::ReferenceToPointer);
}

#[test]
fn integer_to_raw_pointer_is_recognised() {
    for from in [signed(IntWidth::Isize), signed(IntWidth::I32), unsigned(UintWidth::Usize), unsigned(UintWidth::U64)] {
        for to in [const_ptr(named("T")), mut_ptr(named("T"))] {
            assert_eq!(classify_cast(&from, &to), CastRelationship::IntegerToPointer);
        }
    }
    // also where the pointer points to the integer type itself
    assert_eq!(
        classify_cast(&unsigned(UintWidth::Usize), &const_ptr(unsigned(UintWidth::Usize))),
        CastRelationship::IntegerToPointer
    );
}

#[test]
fn float_or_char_to_pointer_or_reference_is_wrong() {
    for from in [floating(FloatWidth::F32), floating(FloatWidth::F64), TypeDescriptor::Char] {
        for to in [
            shared(named("T")),
            exclusive(named("T")),
            const_ptr(named("T")),
            mut_ptr(named("T")),
        ] {
            assert_eq!(classify_cast(&from, &to), CastRelationship::WrongKind);
        }
        // also where the pointer points to the type itself
        assert_eq!(classify_cast(&from, &const_ptr(from.clone())), CastRelationship::WrongKind);
    }
}

#[test]
fn raw_pointer_to_its_pointee_is_recognised() {
    assert_eq!(
        classify_cast(&const_ptr(named("T")), &named("T")),
        CastRelationship::PointerToPointee
    );
    assert_eq!(
        classify_cast(&mut_ptr(unsigned(UintWidth::U8)), &unsigned(UintWidth::U8)),
        CastRelationship::PointerToPointee
    );
    // a pointer to a reference, transmuted to that reference
    assert_eq!(
        classify_cast(&const_ptr(shared(named("T"))), &shared(named("T"))),
        CastRelationship::PointerToPointee
    );
    // a pointer to a pointer, transmuted to the inner pointer
    assert_eq!(
        classify_cast(&mut_ptr(const_ptr(named("T"))), &const_ptr(named("T"))),
        CastRelationship::PointerToPointee
    );
}

#[test]
fn pointee_to_raw_pointer_is_recognised() {
    assert_eq!(
        classify_cast(&named("T"), &const_ptr(named("T"))),
        CastRelationship::PointeeToPointer
    );
    assert_eq!(
        classify_cast(&named("T"), &mut_ptr(named("T"))),
        CastRelationship::PointeeToPointer
    );
    assert_eq!(
        classify_cast(&const_ptr(named("T")), &mut_ptr(const_ptr(named("T")))),
        CastRelationship::PointeeToPointer
    );
}

#[test]
fn raw_pointer_to_reference_carries_what_matches() {
    assert_eq!(classify_cast(&const_ptr(named("T")), &shared(named("T"))), PTR_TO_REF);
    assert_eq!(classify_cast(&mut_ptr(named("T")), &exclusive(named("T"))), PTR_TO_REF);
    assert_eq!(
        classify_cast(&mut_ptr(named("T")), &shared(named("T"))),
        CastRelationship::PointerToReference { same_mutability: false, same_pointee: true }
    );
    assert_eq!(
        classify_cast(&const_ptr(named("T")), &exclusive(named("U"))),
        CastRelationship::PointerToReference { same_mutability: false, same_pointee: false }
    );
    assert_eq!(
        classify_cast(&const_ptr(named("T")), &shared(named("U"))),
        CastRelationship::PointerToReference { same_mutability: true, same_pointee: false }
    );
}

#[test]
fn other_pairs_are_unrelated() {
    let pairs = [
        (named("T"), named("U")),
        (unsigned(UintWidth::U32), signed(IntWidth::I32)),
        (unsigned(UintWidth::U32), floating(FloatWidth::F32)),
        (floating(FloatWidth::F32), unsigned(UintWidth::U32)),
        (TypeDescriptor::Char, unsigned(UintWidth::U32)),
        (shared(named("T")), shared(named("U"))),
        (shared(named("T")), exclusive(named("T"))),
        (shared(named("T")), unsigned(UintWidth::Usize)),
        (shared(named("T")), named("T")),
        (named("T"), shared(named("T"))),
        (unsigned(UintWidth::Usize), shared(named("T"))),
        (const_ptr(named("T")), mut_ptr(named("T"))),
        (const_ptr(named("T")), const_ptr(named("U"))),
        (const_ptr(named("T")), unsigned(UintWidth::Usize)),
        (const_ptr(named("T")), named("U")),
        (named("T"), const_ptr(named("U"))),
    ];
    for (from, to) in pairs {
        assert_eq!(classify_cast(&from, &to), CastRelationship::Unrelated);
    }
}

#[test]
fn classify_cast_is_repeatable() {
    let from = mut_ptr(named("T"));
    let to = shared(named("U"));
    assert_eq!(classify_cast(&from, &to), classify_cast(&from, &to));
}

#[test]
fn transmute_to_the_same_type_is_useless() {
    let e = transmute(var("x", unsigned(UintWidth::U8)), unsigned(UintWidth::U8));
    assert_eq!(
        check(&e),
        report(Lint::UselessTransmute, "transmute from a type (`u8`) to itself", None)
    );
}

#[test]
fn transmute_to_the_same_pointer_type_is_useless_whatever_it_is() {
    let e = transmute(var("p", const_ptr(named("T"))), const_ptr(named("T")));
    assert_eq!(
        check(&e),
        report(Lint::UselessTransmute, "transmute from a type (`*const T`) to itself", None)
    );
    let e = transmute(var("r", exclusive(named("T"))), exclusive(named("T")));
    assert_eq!(
        check(&e),
        report(Lint::UselessTransmute, "transmute from a type (`&mut T`) to itself", None)
    );
}

#[test]
fn transmute_of_a_reference_to_a_pointer_to_the_same_type_is_a_cast() {
    let e = transmute(var("r", shared(named("T"))), const_ptr(named("T")));
    assert_eq!(
        check(&e),
        report(
            Lint::UselessTransmute,
            "transmute from a reference to a pointer",
            Some("r as *const T")
        )
    );
    let e = transmute(var("r", exclusive(named("T"))), mut_ptr(named("T")));
    assert_eq!(
        check(&e),
        report(
            Lint::UselessTransmute,
            "transmute from a reference to a pointer",
            Some("r as *mut T")
        )
    );
}

#[test]
fn transmute_of_a_reference_to_a_pointer_to_another_type_is_two_casts() {
    let e = transmute(var("r", shared(named("T"))), const_ptr(named("U")));
    assert_eq!(
        check(&e),
        report(
            Lint::UselessTransmute,
            "transmute from a reference to a pointer",
            Some("r as *const T as *const U")
        )
    );
    let e = transmute(var("r", exclusive(named("T"))), const_ptr(unsigned(UintWidth::U8)));
    assert_eq!(
        check(&e),
        report(
            Lint::UselessTransmute,
            "transmute from a reference to a pointer",
            Some("r as *mut T as *const u8")
        )
    );
}

#[test]
fn transmute_of_an_integer_to_a_pointer_is_a_cast() {
    let e = transmute(var("addr", unsigned(UintWidth::Usize)), mut_ptr(named("T")));
    assert_eq!(
        check(&e),
        report(
            Lint::UselessTransmute,
            "transmute from an integer to a pointer",
            Some("addr as *mut T")
        )
    );
    let e = transmute(var("n", signed(IntWidth::Isize)), const_ptr(unsigned(UintWidth::U8)));
    assert_eq!(
        check(&e),
        report(
            Lint::UselessTransmute,
            "transmute from an integer to a pointer",
            Some("n as *const u8")
        )
    );
}

#[test]
fn transmute_of_a_float_or_char_to_a_pointer_is_wrong() {
    let e = transmute(var("x", floating(FloatWidth::F32)), const_ptr(named("T")));
    assert_eq!(
        check(&e),
        report(Lint::WrongTransmute, "transmute from a `f32` to a pointer", None)
    );
    let e = transmute(var("c", TypeDescriptor::Char), shared(named("T")));
    assert_eq!(
        check(&e),
        report(Lint::WrongTransmute, "transmute from a `char` to a pointer", None)
    );
}

#[test]
fn transmute_between_pointer_and_pointee_is_crosspointer() {
    let e = transmute(var("p", const_ptr(named("T"))), named("T"));
    assert_eq!(
        check(&e),
        report(
            Lint::CrosspointerTransmute,
            "transmute from a type (`*const T`) to the type that it points to (`T`)",
            None
        )
    );
    let e = transmute(var("t", named("T")), mut_ptr(named("T")));
    assert_eq!(
        check(&e),
        report(
            Lint::CrosspointerTransmute,
            "transmute from a type (`T`) to a pointer to that type (`*mut T`)",
            None
        )
    );
}

#[test]
fn transmute_of_a_pointer_to_a_reference_is_a_reborrow() {
    let e = transmute(var("p", const_ptr(named("T"))), shared(named("T")));
    assert_eq!(
        check(&e),
        report(
            Lint::TransmutePtrToRef,
            "transmute from a pointer type (`*const T`) to a reference type (`&T`)",
            Some("&*p")
        )
    );
    let e = transmute(var("p", mut_ptr(named("T"))), exclusive(named("T")));
    assert_eq!(
        check(&e),
        report(
            Lint::TransmutePtrToRef,
            "transmute from a pointer type (`*mut T`) to a reference type (`&mut T`)",
            Some("&mut *p")
        )
    );
    // the mutability of the pointer does not matter
    let e = transmute(var("p", const_ptr(named("T"))), exclusive(named("T")));
    assert_eq!(
        check(&e),
        report(
            Lint::TransmutePtrToRef,
            "transmute from a pointer type (`*const T`) to a reference type (`&mut T`)",
            Some("&mut *p")
        )
    );
}

#[test]
fn reborrow_puts_a_complex_argument_in_parentheses() {
    let e = transmute(complex("p + q", const_ptr(named("T"))), shared(named("T")));
    assert_eq!(check(&e).unwrap().suggestion.unwrap().replacement, "&*(p + q)");
    let e = transmute(complex("p + q", mut_ptr(named("T"))), exclusive(named("T")));
    assert_eq!(check(&e).unwrap().suggestion.unwrap().replacement, "&mut *(p + q)");
    // a literal, a return and anything else count as complex too
    let ty = const_ptr(named("T"));
    for node in [
        ExprKind::Lit(Literal::Other),
        ExprKind::Ret(None),
        ExprKind::Other,
    ] {
        let arg = Expr::new(node, Span::new(7, 110, 111), ty.clone()).with_snippet("0");
        let e = transmute(arg, shared(named("T")));
        assert_eq!(check(&e).unwrap().suggestion.unwrap().replacement, "&*(0)");
    }
}

#[test]
fn reborrow_leaves_a_bare_argument_as_it_is() {
    let ty = const_ptr(named("T"));
    let nodes = [
        ExprKind::Path { qualified: true, resolved: vec![] },
        ExprKind::Call(Box::new(var("f", named("fn"))), vec![]),
        ExprKind::MethodCall,
        ExprKind::Block(Block { stmts: vec![], expr: None }),
    ];
    for node in nodes {
        let arg = Expr::new(node, Span::new(7, 110, 113), ty.clone()).with_snippet("f()");
        let e = transmute(arg, shared(named("T")));
        assert_eq!(check(&e).unwrap().suggestion.unwrap().replacement, "&*f()");
    }
}

#[test]
fn reborrow_to_another_pointee_casts_first() {
    let e = transmute(var("p", const_ptr(named("T"))), shared(named("U")));
    assert_eq!(
        check(&e),
        report(
            Lint::TransmutePtrToRef,
            "transmute from a pointer type (`*const T`) to a reference type (`&U`)",
            Some("&*(p as *const U)")
        )
    );
    let e = transmute(var("p", const_ptr(named("T"))), exclusive(unsigned(UintWidth::U8)));
    assert_eq!(
        check(&e),
        report(
            Lint::TransmutePtrToRef,
            "transmute from a pointer type (`*const T`) to a reference type (`&mut u8`)",
            Some("&mut *(p as *mut u8)")
        )
    );
    // a complex argument gets no parentheses of its own
    let e = transmute(complex("p + q", mut_ptr(named("T"))), shared(named("U")));
    assert_eq!(check(&e).unwrap().suggestion.unwrap().replacement, "&*(p + q as *const U)");
}

#[test]
fn unrelated_types_are_not_reported() {
    let e = transmute(var("x", unsigned(UintWidth::U32)), floating(FloatWidth::F32));
    assert_eq!(check(&e), None);
    let e = transmute(var("x", named("T")), named("U"));
    assert_eq!(check(&e), None);
    let e = transmute(var("r", shared(named("T"))), shared(named("U")));
    assert_eq!(check(&e), None);
}

#[test]
fn argument_without_source_text_gives_no_suggestion() {
    let hidden = |ty: TypeDescriptor| Expr::new(ExprKind::Other, Span::new(7, 110, 111), ty);
    let e = transmute(hidden(shared(named("T"))), const_ptr(named("T")));
    assert_eq!(
        check(&e),
        report(Lint::UselessTransmute, "transmute from a reference to a pointer", None)
    );
    let e = transmute(hidden(unsigned(UintWidth::Usize)), const_ptr(named("T")));
    assert_eq!(
        check(&e),
        report(Lint::UselessTransmute, "transmute from an integer to a pointer", None)
    );
    let e = transmute(hidden(const_ptr(named("T"))), shared(named("T")));
    assert_eq!(
        check(&e),
        report(
            Lint::TransmutePtrToRef,
            "transmute from a pointer type (`*const T`) to a reference type (`&T`)",
            None
        )
    );
    let e = transmute(hidden(named("T")), named("T"));
    assert_eq!(
        check(&e),
        report(Lint::UselessTransmute, "transmute from a type (`T`) to itself", None)
    );
}

#[test]
fn calls_of_other_functions_are_not_reported() {
    let path = ExprKind::Path { qualified: false, resolved: path_to(&["core", "mem", "swap"]) };
    let callee = Expr::new(path, Span::new(7, 100, 104), named("fn"));
    let e = call(callee, vec![var("x", unsigned(UintWidth::U8))], unsigned(UintWidth::U8));
    assert_eq!(check(&e), None);
}

#[test]
fn qualified_paths_are_not_reported() {
    let path = ExprKind::Path {
        qualified: true,
        resolved: path_to(&["core", "intrinsics", "transmute"]),
    };
    let callee = Expr::new(path, Span::new(7, 100, 109), named("fn"));
    let e = call(callee, vec![var("x", unsigned(UintWidth::U8))], unsigned(UintWidth::U8));
    assert_eq!(check(&e), None);
}

#[test]
fn callees_that_are_no_paths_are_not_reported() {
    let callee = Expr::new(ExprKind::Other, Span::new(7, 100, 109), named("fn"));
    let e = call(callee, vec![var("x", unsigned(UintWidth::U8))], unsigned(UintWidth::U8));
    assert_eq!(check(&e), None);
}

#[test]
fn calls_without_exactly_one_argument_are_not_reported() {
    let e = call(transmute_fn(), vec![], unsigned(UintWidth::U8));
    assert_eq!(check(&e), None);
    let e = call(
        transmute_fn(),
        vec![var("x", unsigned(UintWidth::U8)), var("y", unsigned(UintWidth::U8))],
        unsigned(UintWidth::U8),
    );
    assert_eq!(check(&e), None);
}

#[test]
fn transmute_pass_ignores_other_expressions() {
    assert_eq!(check(&var("x", unsigned(UintWidth::U8))), None);
    assert_eq!(check(&transmute_fn()), None);
    assert_eq!(check(&Expr::new(ExprKind::MethodCall, whole(), unsigned(UintWidth::U8))), None);
}

#[test]
fn check_cast_reports_at_the_given_span() {
    let arg = var("p", const_ptr(named("T")));
    let found = check_cast(&arg.ty, &shared(named("T")), &arg, Span::new(3, 1, 2)).unwrap();
    assert_eq!(found.span, Span { source: 3, lo: 1, hi: 2 });
    assert_eq!(found.lint, Lint::TransmutePtrToRef);
    assert_eq!(found.level, Level::Warn);
    assert_eq!(found.suggestion.unwrap().replacement, "&*p");
    assert_eq!(check_cast(&named("T"), &named("U"), &arg, Span::new(3, 1, 2)), None);
}

#[test]
fn transmute_pass_lists_its_lints() {
    assert_eq!(
        Transmute.get_lints(),
        vec![
            Lint::CrosspointerTransmute,
            Lint::TransmutePtrToRef,
            Lint::UselessTransmute,
            Lint::WrongTransmute,
        ]
    );
}

#[test]
fn transmute_path_is_matched_segment_by_segment() {
    assert_eq!(TRANSMUTE, ["core", "intrinsics", "transmute"]);
    assert!(is_transmute(&path_to(&["core", "intrinsics", "transmute"])));
    assert!(!is_transmute(&path_to(&["core", "intrinsics"])));
    assert!(!is_transmute(&path_to(&["core", "intrinsics", "transmute", "x"])));
    assert!(!is_transmute(&path_to(&["std", "intrinsics", "transmute"])));
    assert!(!is_transmute(&path_to(&["core", "mem", "transmute"])));
    assert!(!is_transmute(&path_to(&["core", "intrinsics", "transmute_copy"])));
    assert!(!is_transmute(&path_to(&[])));
    assert!(!is_transmute(&path_to(&["core::intrinsics::transmute"])));
}

#[test]
fn paths_match_when_all_segments_do() {
    assert!(match_def_path(&path_to(&[]), &[]));
    assert!(match_def_path(&path_to(&["a"]), &["a"]));
    assert!(match_def_path(&path_to(&["a", "b"]), &["a", "b"]));
    assert!(!match_def_path(&path_to(&["a", "b"]), &["a"]));
    assert!(!match_def_path(&path_to(&["a"]), &["a", "b"]));
    assert!(!match_def_path(&path_to(&["a", "b"]), &["a", "c"]));
    assert!(!match_def_path(&path_to(&["a", "b"]), &["b", "a"]));
    assert!(!match_def_path(&path_to(&["a", ""]), &["a", "b"]));
}

#[test]
fn lints_have_names_levels_and_descriptions() {
    let lints = [
        (Lint::NeedlessBool, "NEEDLESS_BOOL"),
        (Lint::BoolComparison, "BOOL_COMPARISON"),
        (Lint::UselessTransmute, "USELESS_TRANSMUTE"),
        (Lint::WrongTransmute, "WRONG_TRANSMUTE"),
        (Lint::CrosspointerTransmute, "CROSSPOINTER_TRANSMUTE"),
        (Lint::TransmutePtrToRef, "TRANSMUTE_PTR_TO_REF"),
    ];
    for (lint, name) in lints {
        assert_eq!(lint.name(), name);
        assert_eq!(lint.default_level(), Level::Warn);
        assert!(!lint.description().is_empty());
    }
    assert_eq!(
        Lint::NeedlessBool.description(),
        "if-statements with plain booleans in the then- and else-clause, e.g. `if p { true } else { false }`"
    );
    assert_eq!(
        Lint::TransmutePtrToRef.description(),
        "transmutes from a pointer to a reference type"
    );
}

#[test]
fn diagnostics_are_built_and_cloned_field_by_field() {
    let d = Diagnostic::new(Lint::WrongTransmute, whole(), "m".to_string());
    assert_eq!(
        d,
        Diagnostic {
            lint: Lint::WrongTransmute,
            level: Level::Warn,
            span: whole(),
            message: "m".to_string(),
            suggestion: None,
        }
    );
    let s = d.clone().suggest("h".to_string(), "r".to_string());
    assert_eq!(s.lint, d.lint);
    assert_eq!(s.span, d.span);
    assert_eq!(s.message, d.message);
    assert_eq!(
        s.suggestion,
        Some(Suggestion { help: "h".to_string(), replacement: "r".to_string() })
    );
    assert_eq!(s.clone(), s);
    // a second suggestion takes the place of the first
    let t = s.suggest("h2".to_string(), "r2".to_string());
    assert_eq!(
        t.suggestion,
        Some(Suggestion { help: "h2".to_string(), replacement: "r2".to_string() })
    );
}
