//! Scalar, vector, matrix and aggregate type shapes of the typed IR.

use vstd::prelude::*;

verus! {

/// The scalar kind of a numeric or boolean value.
#[derive(Clone, Copy, PartialEq, Eq, Structural, Debug)]
pub enum ScalarKind {
    Sint,
    Uint,
    Float,
    Bool,
}

/// Number of lanes of a vector, or of a matrix axis.
#[derive(Clone, Copy, PartialEq, Eq, Structural, Debug)]
pub enum VectorSize {
    Bi,
    Tri,
    Quad,
}

/// Dimensionality of an image type.
#[derive(Clone, Copy, PartialEq, Eq, Structural, Debug)]
pub enum ImageDimension {
    D1,
    D2,
    D3,
    Cube,
}

impl VectorSize {
    /// Lane count of this size.
    pub open spec fn spec_count(self) -> u32 {
        match self {
            VectorSize::Bi => 2,
            VectorSize::Tri => 3,
            VectorSize::Quad => 4,
        }
    }

    #[verifier::when_used_as_spec(spec_count)]
    pub fn count(self) -> (r: u32)
        ensures
            r == self.spec_count(),
    {
        match self {
            VectorSize::Bi => 2,
            VectorSize::Tri => 3,
            VectorSize::Quad => 4,
        }
    }
}

/// The rank of a scalar kind in the implicit-widening order.
///
/// A call argument may be widened to a parameter of higher or equal rank,
/// never narrowed.  Booleans take part in no implicit conversion and have
/// no rank.  The order is strict and total over the ranked kinds.
pub open spec fn spec_type_power(kind: ScalarKind) -> Option<u32> {
    match kind {
        ScalarKind::Sint => Some(0),
        ScalarKind::Uint => Some(1),
        ScalarKind::Float => Some(2),
        ScalarKind::Bool => None,
    }
}

#[verifier::when_used_as_spec(spec_type_power)]
pub fn type_power(kind: ScalarKind) -> (r: Option<u32>)
    ensures
        r == spec_type_power(kind),
{
    match kind {
        ScalarKind::Sint => Some(0),
        ScalarKind::Uint => Some(1),
        ScalarKind::Float => Some(2),
        ScalarKind::Bool => None,
    }
}

/// How a stage-interface value is bound: a pipeline builtin slot or a
/// numbered user location.
#[derive(Clone, Copy, PartialEq, Eq, Structural, Debug)]
pub enum Binding {
    BuiltIn(u32),
    Location(u32),
}

/// One member of a struct type: its name, the handle of its type in the
/// module's type arena, an optional interface binding, and its byte offset.
pub struct StructMember {
    pub name: Option<String>,
    pub ty: usize,
    pub binding: Option<Binding>,
    pub offset: u32,
}

/// The shape of a type.  Aggregate members refer to other types through
/// handles into the module's type arena, so the shape itself is flat.
pub enum TypeInner {
    Scalar { kind: ScalarKind, width: u8 },
    Vector { size: VectorSize, kind: ScalarKind, width: u8 },
    Matrix { columns: VectorSize, rows: VectorSize, width: u8 },
    Pointer { base: usize },
    Image { dim: ImageDimension, arrayed: bool },
    Sampler,
    Struct { members: Vec<StructMember>, span: u32 },
}

/// A registered type: an optional debug name and its shape.
pub struct Type {
    pub name: Option<String>,
    pub inner: TypeInner,
}

/// Structural equality of struct members; names compare by their text.
pub open spec fn member_equal(a: StructMember, b: StructMember) -> bool {
    &&& match (a.name, b.name) {
        (Option::Some(x), Option::Some(y)) => x@ == y@,
        (Option::None, Option::None) => true,
        _ => false,
    }
    &&& a.ty == b.ty
    &&& a.binding == b.binding
    &&& a.offset == b.offset
}

/// Structural equality of type shapes, the relation that overload
/// resolution and redefinition checks compare parameter types with.
pub open spec fn type_inner_equal(a: TypeInner, b: TypeInner) -> bool {
    match (a, b) {
        (
            TypeInner::Scalar { kind: k1, width: w1 },
            TypeInner::Scalar { kind: k2, width: w2 },
        ) => k1 == k2 && w1 == w2,
        (
            TypeInner::Vector { size: s1, kind: k1, width: w1 },
            TypeInner::Vector { size: s2, kind: k2, width: w2 },
        ) => s1 == s2 && k1 == k2 && w1 == w2,
        (
            TypeInner::Matrix { columns: c1, rows: r1, width: w1 },
            TypeInner::Matrix { columns: c2, rows: r2, width: w2 },
        ) => c1 == c2 && r1 == r2 && w1 == w2,
        (TypeInner::Pointer { base: b1 }, TypeInner::Pointer { base: b2 }) => b1 == b2,
        (
            TypeInner::Image { dim: d1, arrayed: a1 },
            TypeInner::Image { dim: d2, arrayed: a2 },
        ) => d1 == d2 && a1 == a2,
        (TypeInner::Sampler, TypeInner::Sampler) => true,
        (
            TypeInner::Struct { members: m1, span: s1 },
            TypeInner::Struct { members: m2, span: s2 },
        ) => {
            &&& s1 == s2
            &&& m1@.len() == m2@.len()
            &&& forall|i: int| 0 <= i < m1@.len() ==> member_equal(m1@[i], m2@[i])
        },
        _ => false,
    }
}

fn option_name_eq(a: &Option<String>, b: &Option<String>) -> (r: bool)
    ensures
        r == match (a, b) {
            (Option::Some(x), Option::Some(y)) => x@ == y@,
            (Option::None, Option::None) => true,
            _ => false,
        },
{
    match (a, b) {
        (Option::Some(x), Option::Some(y)) => *x == *y,
        (Option::None, Option::None) => true,
        _ => false,
    }
}

fn member_eq(a: &StructMember, b: &StructMember) -> (r: bool)
    ensures
        r == member_equal(*a, *b),
{
    option_name_eq(&a.name, &b.name) && a.ty == b.ty && a.binding == b.binding
        && a.offset == b.offset
}

/// Decides [`type_inner_equal`] on two type shapes.
pub fn type_inner_eq(a: &TypeInner, b: &TypeInner) -> (r: bool)
    ensures
        r == type_inner_equal(*a, *b),
{
    match (a, b) {
        (
            TypeInner::Scalar { kind: k1, width: w1 },
            TypeInner::Scalar { kind: k2, width: w2 },
        ) => k1 == k2 && w1 == w2,
        (
            TypeInner::Vector { size: s1, kind: k1, width: w1 },
            TypeInner::Vector { size: s2, kind: k2, width: w2 },
        ) => s1 == s2 && k1 == k2 && w1 == w2,
        (
            TypeInner::Matrix { columns: c1, rows: r1, width: w1 },
            TypeInner::Matrix { columns: c2, rows: r2, width: w2 },
        ) => c1 == c2 && r1 == r2 && w1 == w2,
        (TypeInner::Pointer { base: b1 }, TypeInner::Pointer { base: b2 }) => b1 == b2,
        (
            TypeInner::Image { dim: d1, arrayed: a1 },
            TypeInner::Image { dim: d2, arrayed: a2 },
        ) => d1 == d2 && a1 == a2,
        (TypeInner::Sampler, TypeInner::Sampler) => true,
        (
            TypeInner::Struct { members: m1, span: s1 },
            TypeInner::Struct { members: m2, span: s2 },
        ) => {
            if s1 != s2 || m1.len() != m2.len() {
                false
            } else {
                let mut i: usize = 0;
                let mut same = true;
                while i < m1.len()
                    invariant
                        i <= m1@.len(),
                        m1@.len() == m2@.len(),
                        same == forall|j: int| 0 <= j < i ==> member_equal(m1@[j], m2@[j]),
                    decreases m1@.len() - i,
                {
                    if !member_eq(&m1[i], &m2[i]) {
                        same = false;
                    }
                    i = i + 1;
                }
                same
            }
        },
        _ => false,
    }
}

impl TypeInner {
    /// The scalar kind carried by this shape, if any: the element kind of
    /// scalars and vectors; matrices are always floating point.
    pub open spec fn spec_scalar_kind(&self) -> Option<ScalarKind> {
        match *self {
            TypeInner::Scalar { kind, .. } => Some(kind),
            TypeInner::Vector { kind, .. } => Some(kind),
            TypeInner::Matrix { .. } => Some(ScalarKind::Float),
            _ => None,
        }
    }

    #[verifier::when_used_as_spec(spec_scalar_kind)]
    pub fn scalar_kind(&self) -> (r: Option<ScalarKind>)
        ensures
            r == self.spec_scalar_kind(),
    {
        match *self {
            TypeInner::Scalar { kind, .. } => Some(kind),
            TypeInner::Vector { kind, .. } => Some(kind),
            TypeInner::Matrix { .. } => Some(ScalarKind::Float),
            _ => None,
        }
    }

    /// The layout size of a value of this shape in bytes.  Opaque handles
    /// (pointers, images, samplers) occupy no interface bytes; a struct
    /// carries its precomputed span.
    pub open spec fn spec_span(&self) -> u32 {
        match *self {
            TypeInner::Scalar { width, .. } => width as u32,
            TypeInner::Vector { size, width, .. } => (size.spec_count() * width as u32) as u32,
            TypeInner::Matrix { columns, rows, width } => (columns.spec_count()
                * rows.spec_count() * width as u32) as u32,
            TypeInner::Pointer { .. } => 0,
            TypeInner::Image { .. } => 0,
            TypeInner::Sampler => 0,
            TypeInner::Struct { span, .. } => span,
        }
    }

    #[verifier::when_used_as_spec(spec_span)]
    pub fn span(&self) -> (r: u32)
        ensures
            r == self.spec_span(),
    {
        match *self {
            TypeInner::Scalar { width, .. } => width as u32,
            TypeInner::Vector { size, width, .. } => {
                let c = size.count();
                proof {
                    assert(c <= 4);
                }
                c * width as u32
            },
            TypeInner::Matrix { columns, rows, width } => {
                let c = columns.count();
                let r = rows.count();
                proof {
                    assert(c <= 4 && r <= 4);
                    assert(c as int * r as int <= 16) by (nonlinear_arith)
                        requires
                            c <= 4,
                            r <= 4,
                    ;
                    assert(c as int * r as int * (width as u32) as int <= 16 * 255)
                        by (nonlinear_arith)
                        requires
                            c as int * r as int <= 16,
                            0 <= c as int * r as int,
                            width as u32 <= 255,
                    ;
                }
                c * r * width as u32
            },
            TypeInner::Pointer { .. } => 0,
            TypeInner::Image { .. } => 0,
            TypeInner::Sampler => 0,
            TypeInner::Struct { span, .. } => span,
        }
    }
}

/// The resolved type of one expression: either a handle into the module's
/// type arena (the only way to name an aggregate), or a flat shape written
/// out directly.  Kept copyable so a resolution can be recorded per
/// expression without aliasing the arena.
#[derive(Clone, Copy, PartialEq, Eq, Structural, Debug)]
pub enum TypeResolution {
    Handle(usize),
    Scalar { kind: ScalarKind, width: u8 },
    Vector { size: VectorSize, kind: ScalarKind, width: u8 },
    Matrix { columns: VectorSize, rows: VectorSize, width: u8 },
    Pointer { base: usize },
    Image { dim: ImageDimension, arrayed: bool },
    Sampler,
}

/// The type shape a resolution stands for, if its handle is valid.
pub open spec fn spec_rt_inner(rt: TypeResolution, types: Seq<Type>) -> Option<TypeInner> {
    match rt {
        TypeResolution::Handle(h) => if h < types.len() {
            Some(types[h as int].inner)
        } else {
            None
        },
        TypeResolution::Scalar { kind, width } => Some(TypeInner::Scalar { kind, width }),
        TypeResolution::Vector { size, kind, width } => Some(
            TypeInner::Vector { size, kind, width },
        ),
        TypeResolution::Matrix { columns, rows, width } => Some(
            TypeInner::Matrix { columns, rows, width },
        ),
        TypeResolution::Pointer { base } => Some(TypeInner::Pointer { base }),
        TypeResolution::Image { dim, arrayed } => Some(TypeInner::Image { dim, arrayed }),
        TypeResolution::Sampler => Some(TypeInner::Sampler),
    }
}

/// The scalar kind a resolution stands for.
pub open spec fn spec_rt_scalar_kind(rt: TypeResolution, types: Seq<Type>) -> Option<ScalarKind> {
    match spec_rt_inner(rt, types) {
        Some(t) => t.spec_scalar_kind(),
        None => None,
    }
}

/// Decides [`spec_rt_scalar_kind`].
pub fn rt_scalar_kind(rt: TypeResolution, types: &Vec<Type>) -> (r: Option<ScalarKind>)
    ensures
        r == spec_rt_scalar_kind(rt, types@),
{
    match rt {
        TypeResolution::Handle(h) => if h < types.len() {
            types[h].inner.scalar_kind()
        } else {
            None
        },
        TypeResolution::Scalar { kind, .. } => Some(kind),
        TypeResolution::Vector { kind, .. } => Some(kind),
        TypeResolution::Matrix { .. } => Some(ScalarKind::Float),
        _ => None,
    }
}

/// The vector parts (size, kind, width) a resolution stands for.
pub open spec fn spec_rt_vector(rt: TypeResolution, types: Seq<Type>) -> Option<
    (VectorSize, ScalarKind, u8),
> {
    match spec_rt_inner(rt, types) {
        Some(TypeInner::Vector { size, kind, width }) => Some((size, kind, width)),
        _ => None,
    }
}

/// Decides [`spec_rt_vector`].
pub fn rt_vector_parts(rt: TypeResolution, types: &Vec<Type>) -> (r: Option<
    (VectorSize, ScalarKind, u8),
>)
    ensures
        r == spec_rt_vector(rt, types@),
{
    match rt {
        TypeResolution::Handle(h) => if h < types.len() {
            match types[h].inner {
                TypeInner::Vector { size, kind, width } => Some((size, kind, width)),
                _ => None,
            }
        } else {
            None
        },
        TypeResolution::Vector { size, kind, width } => Some((size, kind, width)),
        _ => None,
    }
}

/// The image parts (dimension, arrayed) a resolution stands for.
pub open spec fn spec_rt_image(rt: TypeResolution, types: Seq<Type>) -> Option<
    (ImageDimension, bool),
> {
    match spec_rt_inner(rt, types) {
        Some(TypeInner::Image { dim, arrayed }) => Some((dim, arrayed)),
        _ => None,
    }
}

/// Decides [`spec_rt_image`].
pub fn rt_image_parts(rt: TypeResolution, types: &Vec<Type>) -> (r: Option<(ImageDimension, bool)>)
    ensures
        r == spec_rt_image(rt, types@),
{
    match rt {
        TypeResolution::Handle(h) => if h < types.len() {
            match types[h].inner {
                TypeInner::Image { dim, arrayed } => Some((dim, arrayed)),
                _ => None,
            }
        } else {
            None
        },
        TypeResolution::Image { dim, arrayed } => Some((dim, arrayed)),
        _ => None,
    }
}

/// Whether a resolution stands for a shape structurally equal to `other`.
pub open spec fn spec_rt_equals_inner(
    rt: TypeResolution,
    types: Seq<Type>,
    other: TypeInner,
) -> bool {
    match spec_rt_inner(rt, types) {
        Some(t) => type_inner_equal(t, other),
        None => false,
    }
}

/// Decides [`spec_rt_equals_inner`].
pub fn rt_equals_inner(rt: TypeResolution, types: &Vec<Type>, other: &TypeInner) -> (r: bool)
    ensures
        r == spec_rt_equals_inner(rt, types@, *other),
{
    match rt {
        TypeResolution::Handle(h) => h < types.len() && type_inner_eq(&types[h].inner, other),
        TypeResolution::Scalar { kind, width } => type_inner_eq(
            &TypeInner::Scalar { kind, width },
            other,
        ),
        TypeResolution::Vector { size, kind, width } => type_inner_eq(
            &TypeInner::Vector { size, kind, width },
            other,
        ),
        TypeResolution::Matrix { columns, rows, width } => type_inner_eq(
            &TypeInner::Matrix { columns, rows, width },
            other,
        ),
        TypeResolution::Pointer { base } => type_inner_eq(&TypeInner::Pointer { base }, other),
        TypeResolution::Image { dim, arrayed } => type_inner_eq(
            &TypeInner::Image { dim, arrayed },
            other,
        ),
        TypeResolution::Sampler => type_inner_eq(&TypeInner::Sampler, other),
    }
}

} // verus!
