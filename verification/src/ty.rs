//! Type descriptors: the shape of a resolved type, as far as the cast
//! analysis reads it, and its rendering as source text.

use vstd::prelude::*;
use vstd::std_specs::cmp::PartialEqSpecImpl;

verus! {

/// Whether a reference or a raw pointer allows writing through it.
#[derive(Clone, Copy, Debug, PartialEq, Eq, Structural)]
pub enum Mutability {
    Immutable,
    Mutable,
}

/// The signed integer types.
#[derive(Clone, Copy, Debug, PartialEq, Eq, Structural)]
pub enum IntWidth {
    Isize,
    I8,
    I16,
    I32,
    I64,
    I128,
}

/// The unsigned integer types.
#[derive(Clone, Copy, Debug, PartialEq, Eq, Structural)]
pub enum UintWidth {
    Usize,
    U8,
    U16,
    U32,
    U64,
    U128,
}

/// The floating-point types.
#[derive(Clone, Copy, Debug, PartialEq, Eq, Structural)]
pub enum FloatWidth {
    F32,
    F64,
}

/// A resolved type, reduced to the shapes that the cast analysis tells apart.
///
/// Every type that is neither a reference, a raw pointer, an integer, a float
/// nor `char` is `Other`, identified by its canonical name.
#[derive(Debug)]
pub enum TypeDescriptor {
    Reference(Mutability, Box<TypeDescriptor>),
    RawPointer(Mutability, Box<TypeDescriptor>),
    Integer(IntWidth),
    Unsigned(UintWidth),
    Float(FloatWidth),
    Char,
    Other(String),
}

/// The mathematical model of a [`TypeDescriptor`]: the same tree, with the
/// name of an `Other` type as a sequence of characters.
pub enum TypeShape {
    Reference(Mutability, Box<TypeShape>),
    RawPointer(Mutability, Box<TypeShape>),
    Integer(IntWidth),
    Unsigned(UintWidth),
    Float(FloatWidth),
    Char,
    Other(Seq<char>),
}

impl IntWidth {
    /// The name of the type in source text.
    pub open spec fn text(self) -> Seq<char> {
        match self {
            IntWidth::Isize => "isize"@,
            IntWidth::I8 => "i8"@,
            IntWidth::I16 => "i16"@,
            IntWidth::I32 => "i32"@,
            IntWidth::I64 => "i64"@,
            IntWidth::I128 => "i128"@,
        }
    }

    /// The name of the type in source text.
    pub fn name(self) -> (r: &'static str)
        ensures
            r@ == self.text(),
    {
        match self {
            IntWidth::Isize => "isize",
            IntWidth::I8 => "i8",
            IntWidth::I16 => "i16",
            IntWidth::I32 => "i32",
            IntWidth::I64 => "i64",
            IntWidth::I128 => "i128",
        }
    }
}

impl UintWidth {
    /// The name of the type in source text.
    pub open spec fn text(self) -> Seq<char> {
        match self {
            UintWidth::Usize => "usize"@,
            UintWidth::U8 => "u8"@,
            UintWidth::U16 => "u16"@,
            UintWidth::U32 => "u32"@,
            UintWidth::U64 => "u64"@,
            UintWidth::U128 => "u128"@,
        }
    }

    /// The name of the type in source text.
    pub fn name(self) -> (r: &'static str)
        ensures
            r@ == self.text(),
    {
        match self {
            UintWidth::Usize => "usize",
            UintWidth::U8 => "u8",
            UintWidth::U16 => "u16",
            UintWidth::U32 => "u32",
            UintWidth::U64 => "u64",
            UintWidth::U128 => "u128",
        }
    }
}

impl FloatWidth {
    /// The name of the type in source text.
    pub open spec fn text(self) -> Seq<char> {
        match self {
            FloatWidth::F32 => "f32"@,
            FloatWidth::F64 => "f64"@,
        }
    }

    /// The name of the type in source text.
    pub fn name(self) -> (r: &'static str)
        ensures
            r@ == self.text(),
    {
        match self {
            FloatWidth::F32 => "f32",
            FloatWidth::F64 => "f64",
        }
    }
}

impl Mutability {
    /// What stands before the pointee in a reference type: `&` or `&mut `.
    pub open spec fn reference_text(self) -> Seq<char> {
        match self {
            Mutability::Immutable => "&"@,
            Mutability::Mutable => "&mut "@,
        }
    }

    /// What stands before the pointee in a raw pointer type: `*const ` or
    /// `*mut `.
    pub open spec fn pointer_text(self) -> Seq<char> {
        match self {
            Mutability::Immutable => "*const "@,
            Mutability::Mutable => "*mut "@,
        }
    }

    /// What stands before a raw pointer to borrow what it points to: `&*` or
    /// `&mut *`.
    pub open spec fn reborrow_text(self) -> Seq<char> {
        match self {
            Mutability::Immutable => "&*"@,
            Mutability::Mutable => "&mut *"@,
        }
    }

    /// What stands before the pointee in a reference type: `&` or `&mut `.
    pub fn reference_prefix(self) -> (r: &'static str)
        ensures
            r@ == self.reference_text(),
    {
        match self {
            Mutability::Immutable => "&",
            Mutability::Mutable => "&mut ",
        }
    }

    /// What stands before the pointee in a raw pointer type: `*const ` or
    /// `*mut `.
    pub fn pointer_prefix(self) -> (r: &'static str)
        ensures
            r@ == self.pointer_text(),
    {
        match self {
            Mutability::Immutable => "*const ",
            Mutability::Mutable => "*mut ",
        }
    }

    /// What stands before a raw pointer to borrow what it points to: `&*` or
    /// `&mut *`.
    pub fn reborrow_prefix(self) -> (r: &'static str)
        ensures
            r@ == self.reborrow_text(),
    {
        match self {
            Mutability::Immutable => "&*",
            Mutability::Mutable => "&mut *",
        }
    }
}

impl TypeShape {
    /// The type as it is written in source text: a reference as `&T` or
    /// `&mut T`, a raw pointer as `*const T` or `*mut T`, a primitive type or
    /// any other type by its name.
    pub open spec fn text(self) -> Seq<char>
        decreases self,
    {
        match self {
            TypeShape::Reference(m, inner) => m.reference_text() + inner.text(),
            TypeShape::RawPointer(m, inner) => m.pointer_text() + inner.text(),
            TypeShape::Integer(w) => w.text(),
            TypeShape::Unsigned(w) => w.text(),
            TypeShape::Float(w) => w.text(),
            TypeShape::Char => "char"@,
            TypeShape::Other(name) => name,
        }
    }

    /// The type that a reference or a raw pointer refers to.
    pub open spec fn pointee(self) -> Option<TypeShape> {
        match self {
            TypeShape::Reference(_, inner) => Some(*inner),
            TypeShape::RawPointer(_, inner) => Some(*inner),
            _ => None,
        }
    }

    /// A raw pointer with the given mutability to the given type.
    pub open spec fn raw_pointer(m: Mutability, pointee: TypeShape) -> TypeShape {
        TypeShape::RawPointer(m, Box::new(pointee))
    }
}

/// The shape of a descriptor: what its view is.
pub open spec fn shape_of(t: TypeDescriptor) -> TypeShape
    decreases t,
{
    match t {
        TypeDescriptor::Reference(m, inner) => TypeShape::Reference(m, Box::new(shape_of(*inner))),
        TypeDescriptor::RawPointer(m, inner) => TypeShape::RawPointer(m, Box::new(shape_of(*inner))),
        TypeDescriptor::Integer(w) => TypeShape::Integer(w),
        TypeDescriptor::Unsigned(w) => TypeShape::Unsigned(w),
        TypeDescriptor::Float(w) => TypeShape::Float(w),
        TypeDescriptor::Char => TypeShape::Char,
        TypeDescriptor::Other(name) => TypeShape::Other(name@),
    }
}

impl View for TypeDescriptor {
    type V = TypeShape;

    open spec fn view(&self) -> TypeShape {
        shape_of(*self)
    }
}

impl TypeDescriptor {
    /// Renders the type as it is written in source text.
    pub fn to_string(&self) -> (s: String)
        ensures
            s@ == self@.text(),
        decreases self,
    {
        match self {
            TypeDescriptor::Reference(m, inner) => {
                let mut s = String::from_str(m.reference_prefix());
                let pointee = inner.to_string();
                s.append(pointee.as_str());
                s
            },
            TypeDescriptor::RawPointer(m, inner) => {
                let mut s = String::from_str(m.pointer_prefix());
                let pointee = inner.to_string();
                s.append(pointee.as_str());
                s
            },
            TypeDescriptor::Integer(w) => String::from_str(w.name()),
            TypeDescriptor::Unsigned(w) => String::from_str(w.name()),
            TypeDescriptor::Float(w) => String::from_str(w.name()),
            TypeDescriptor::Char => String::from_str("char"),
            TypeDescriptor::Other(name) => name.clone(),
        }
    }
}

impl PartialEq for TypeDescriptor {
    /// Two descriptors are equal when they have the same shape throughout and
    /// their `Other` leaves have the same name.
    fn eq(&self, other: &TypeDescriptor) -> (r: bool)
        decreases self,
    {
        match (self, other) {
            (TypeDescriptor::Reference(m1, t1), TypeDescriptor::Reference(m2, t2)) => {
                *m1 == *m2 && (**t1).eq(&**t2)
            },
            (TypeDescriptor::RawPointer(m1, t1), TypeDescriptor::RawPointer(m2, t2)) => {
                *m1 == *m2 && (**t1).eq(&**t2)
            },
            (TypeDescriptor::Integer(w1), TypeDescriptor::Integer(w2)) => *w1 == *w2,
            (TypeDescriptor::Unsigned(w1), TypeDescriptor::Unsigned(w2)) => *w1 == *w2,
            (TypeDescriptor::Float(w1), TypeDescriptor::Float(w2)) => *w1 == *w2,
            (TypeDescriptor::Char, TypeDescriptor::Char) => true,
            (TypeDescriptor::Other(n1), TypeDescriptor::Other(n2)) => *n1 == *n2,
            _ => false,
        }
    }
}

impl PartialEqSpecImpl for TypeDescriptor {
    open spec fn obeys_eq_spec() -> bool {
        true
    }

    open spec fn eq_spec(&self, other: &TypeDescriptor) -> bool {
        self@ == other@
    }
}

impl Eq for TypeDescriptor {}

impl Clone for TypeDescriptor {
    fn clone(&self) -> (r: TypeDescriptor)
        ensures
            r@ == self@,
        decreases self,
    {
        match self {
            TypeDescriptor::Reference(m, inner) => {
                TypeDescriptor::Reference(*m, Box::new((&**inner).clone()))
            },
            TypeDescriptor::RawPointer(m, inner) => {
                TypeDescriptor::RawPointer(*m, Box::new((&**inner).clone()))
            },
            TypeDescriptor::Integer(w) => TypeDescriptor::Integer(*w),
            TypeDescriptor::Unsigned(w) => TypeDescriptor::Unsigned(*w),
            TypeDescriptor::Float(w) => TypeDescriptor::Float(*w),
            TypeDescriptor::Char => TypeDescriptor::Char,
            TypeDescriptor::Other(name) => TypeDescriptor::Other(name.clone()),
        }
    }
}

} // verus!
