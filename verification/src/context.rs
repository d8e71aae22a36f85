//! The per-function lowering context: the expression arena under
//! construction, its recorded types, local variables, the per-function
//! sampler pairings, the untyped call-tree arena and the emission marker.

use vstd::prelude::*;

use crate::error::{ErrorKind, SourceMetadata};
use crate::hir::{HirExpr, HirExprKind};
use crate::ir::{Expression, LocalVariable, Statement};
use crate::types::{
    ScalarKind, Type, TypeInner, TypeResolution, rt_scalar_kind, rt_vector_parts, spec_rt_inner,
    spec_rt_scalar_kind, spec_type_power, type_power,
};

verus! {

/// The spec-level picture of the expression arena: the expressions and, in
/// parallel, the recorded type resolution of each (absent for expressions
/// whose typing is a later stage's job).
pub struct ExprArena {
    pub exprs: Seq<Expression>,
    pub tys: Seq<Option<TypeResolution>>,
}

impl ExprArena {
    /// Appends one expression with its recorded type.
    pub open spec fn push(self, e: Expression, t: Option<TypeResolution>) -> ExprArena {
        ExprArena { exprs: self.exprs.push(e), tys: self.tys.push(t) }
    }

    /// Whether the two parallel sequences agree in length.
    pub open spec fn wf(self) -> bool {
        self.tys.len() == self.exprs.len()
    }
}

/// The per-function lowering context.
pub struct Context {
    /// The expression arena of the function being lowered.
    pub expressions: Vec<Expression>,
    /// The recorded type of each expression, parallel to `expressions`.
    pub expr_types: Vec<Option<TypeResolution>>,
    /// The function's local variables.
    pub locals: Vec<LocalVariable>,
    /// Sampler pairings registered in this function: pairs of (texture
    /// expression, sampler expression); a later pair for the same texture
    /// shadows an earlier one.
    pub samplers: Vec<(usize, usize)>,
    /// The untyped call-tree arena raw call arguments point into.
    pub hir_exprs: Vec<HirExpr>,
    /// Start of the expression range that has not been emitted yet.
    pub emit_from: usize,
}

/// The sampler paired with `image`, if one was registered: the association
/// written last wins.
pub open spec fn spec_sampler_get(s: Seq<(usize, usize)>, image: usize) -> Option<usize>
    decreases s.len(),
{
    if s.len() == 0 {
        None
    } else if s.last().0 == image {
        Some(s.last().1)
    } else {
        spec_sampler_get(s.drop_last(), image)
    }
}

/// The scalar width of a shape that has one; zero otherwise.
pub open spec fn spec_width_of(t: TypeInner) -> u8 {
    match t {
        TypeInner::Scalar { width, .. } => width,
        TypeInner::Vector { width, .. } => width,
        TypeInner::Matrix { width, .. } => width,
        _ => 0,
    }
}

/// The scalar width a resolution stands for.
pub open spec fn spec_rt_width(rt: TypeResolution, types: Seq<Type>) -> u8 {
    match spec_rt_inner(rt, types) {
        Some(t) => spec_width_of(t),
        None => 0,
    }
}

/// The resolution an implicit conversion to `kind` leaves a value with:
/// only scalars and vectors change kind.
pub open spec fn spec_rt_retarget(
    rt: TypeResolution,
    types: Seq<Type>,
    kind: ScalarKind,
) -> TypeResolution {
    match spec_rt_inner(rt, types) {
        Some(TypeInner::Scalar { width, .. }) => TypeResolution::Scalar { kind, width },
        Some(TypeInner::Vector { size, width, .. }) => TypeResolution::Vector {
            size,
            kind,
            width,
        },
        _ => rt,
    }
}

/// Whether an implicit conversion of a value resolved as `rt` to scalar
/// kind `kind` actually widens: both kinds are ranked and the target rank
/// is strictly higher.
pub open spec fn spec_widens(rt: TypeResolution, types: Seq<Type>, kind: ScalarKind) -> bool {
    match spec_rt_scalar_kind(rt, types) {
        Some(sk) => match (spec_type_power(kind), spec_type_power(sk)) {
            (Some(tp), Some(sp)) => tp > sp,
            _ => false,
        },
        None => false,
    }
}

/// What an implicit conversion of expression `value` to kind `kind` does to
/// the arena: a widening appends one conversion expression and the result
/// is its handle; anything else leaves both untouched.
pub open spec fn spec_implicit_conversion(
    a: ExprArena,
    types: Seq<Type>,
    value: int,
    kind: ScalarKind,
) -> (ExprArena, int) {
    if 0 <= value < a.exprs.len() {
        match a.tys[value] {
            Some(rt) => if spec_widens(rt, types, kind) {
                (
                    a.push(
                        Expression::As {
                            expr: value as usize,
                            kind,
                            convert: Some(spec_rt_width(rt, types)),
                        },
                        Some(spec_rt_retarget(rt, types, kind)),
                    ),
                    a.exprs.len() as int,
                )
            } else {
                (a, value)
            },
            None => (a, value),
        }
    } else {
        (a, value)
    }
}

/// The scalar kind recorded for expression `v`, if any.
pub open spec fn spec_kind_at(a: ExprArena, types: Seq<Type>, v: int) -> Option<ScalarKind> {
    if 0 <= v < a.tys.len() {
        match a.tys[v] {
            Some(rt) => spec_rt_scalar_kind(rt, types),
            None => None,
        }
    } else {
        None
    }
}

/// What the mutual implicit conversion of two operands does: with two
/// ranked, different scalar kinds the lower-ranked operand is widened to
/// the other's kind; different kinds that are not both ranked are
/// incompatible; equal or unresolved kinds change nothing.
pub open spec fn spec_binary_conversion(
    a: ExprArena,
    types: Seq<Type>,
    l: int,
    r: int,
    meta: SourceMetadata,
) -> (ExprArena, Result<(int, int), ErrorKind>) {
    match (spec_kind_at(a, types, l), spec_kind_at(a, types, r)) {
        (Some(kl), Some(kr)) => if kl == kr {
            (a, Ok((l, r)))
        } else {
            match (spec_type_power(kl), spec_type_power(kr)) {
                (Some(pl), Some(pr)) => if pl < pr {
                    let converted = spec_implicit_conversion(a, types, l, kr);
                    (converted.0, Ok((converted.1, r)))
                } else {
                    let converted = spec_implicit_conversion(a, types, r, kl);
                    (converted.0, Ok((l, converted.1)))
                },
                _ => (a, Err(ErrorKind::IncompatibleOperands { meta })),
            }
        },
        _ => (a, Ok((l, r))),
    }
}

/// The resolution a load through a pointer-shaped expression produces, when
/// the pointer's base type is on record.
pub open spec fn spec_pointee(t: Option<TypeResolution>, types: Seq<Type>) -> Option<
    TypeResolution,
> {
    match t {
        Some(rt) => match spec_rt_inner(rt, types) {
            Some(TypeInner::Pointer { base }) => Some(TypeResolution::Handle(base)),
            _ => None,
        },
        None => None,
    }
}

/// What lowering one untyped call-tree node does to the arena, and the
/// handle (or error) it produces.  `lhs` asks for an addressable location
/// rather than a value.
pub open spec fn spec_lower(
    a: ExprArena,
    hir: Seq<HirExpr>,
    types: Seq<Type>,
    h: int,
    lhs: bool,
) -> (ExprArena, Result<(int, SourceMetadata), ErrorKind>)
    decreases h,
{
    if !(0 <= h < hir.len()) {
        (a, Err(ErrorKind::InvalidHir { meta: SourceMetadata { start: 0, end: 0 } }))
    } else {
        let node = hir[h];
        let meta = node.meta;
        match node.kind {
            HirExprKind::Value(e) => if 0 <= e < a.exprs.len() {
                (a, Ok((e as int, meta)))
            } else {
                (a, Err(ErrorKind::InvalidHir { meta }))
            },
            HirExprKind::Variable(vr) => if vr.expr < a.exprs.len() {
                if lhs || !vr.load {
                    (a, Ok((vr.expr as int, meta)))
                } else {
                    (
                        a.push(
                            Expression::Load { pointer: vr.expr },
                            spec_pointee(a.tys[vr.expr as int], types),
                        ),
                        Ok((a.exprs.len() as int, meta)),
                    )
                }
            } else {
                (a, Err(ErrorKind::InvalidHir { meta }))
            },
            HirExprKind::Swizzle { vector, size, pattern } => if 0 <= vector < h {
                let lowered = spec_lower(a, hir, types, vector as int, false);
                let a1 = lowered.0;
                match lowered.1 {
                    Ok((vh, _)) => if 0 <= vh < a1.tys.len() {
                        match a1.tys[vh] {
                            Some(rt) => match spec_rt_inner(rt, types) {
                                Some(TypeInner::Vector { kind, width, .. }) => (
                                    a1.push(
                                        Expression::Swizzle { size, vector: vh as usize, pattern },
                                        Some(TypeResolution::Vector { size, kind, width }),
                                    ),
                                    Ok((a1.exprs.len() as int, meta)),
                                ),
                                _ => (a1, Err(ErrorKind::InvalidHir { meta })),
                            },
                            None => (a1, Err(ErrorKind::InvalidHir { meta })),
                        }
                    } else {
                        (a1, Err(ErrorKind::InvalidHir { meta }))
                    },
                    Err(e) => (a1, Err(e)),
                }
            } else {
                (a, Err(ErrorKind::InvalidHir { meta }))
            },
        }
    }
}

/// Whether an executable lowering result agrees with the spec-level one.
pub open spec fn lower_result_matches(
    s: Result<(int, SourceMetadata), ErrorKind>,
    r: Result<(usize, SourceMetadata), ErrorKind>,
) -> bool {
    match (s, r) {
        (Ok((h, m)), Ok(p)) => p.0 == h && p.1 == m,
        (Err(e1), Err(e2)) => e1 == e2,
        _ => false,
    }
}

impl Context {
    /// The spec-level picture of this context's expression arena.
    pub open spec fn arena(self) -> ExprArena {
        ExprArena { exprs: self.expressions@, tys: self.expr_types@ }
    }

    /// Basic well-formedness: the type record is parallel to the arena and
    /// the emission marker is in range.
    pub open spec fn arena_wf(self) -> bool {
        &&& self.expr_types@.len() == self.expressions@.len()
        &&& self.emit_from <= self.expressions@.len()
    }

    /// Well-formedness of one call-tree node: it refers only to existing
    /// expressions and to earlier call-tree nodes.
    pub open spec fn hir_wf_at(self, i: int) -> bool {
        match self.hir_exprs@[i].kind {
            HirExprKind::Value(e) => e < self.expressions@.len(),
            HirExprKind::Variable(vr) => vr.expr < self.expressions@.len(),
            HirExprKind::Swizzle { vector, .. } => vector < i,
        }
    }

    /// Full well-formedness of the context.
    pub open spec fn wf(self) -> bool {
        &&& self.arena_wf()
        &&& forall|i: int| 0 <= i < self.hir_exprs@.len() ==> self.hir_wf_at(i)
    }

    /// Everything but the expression arena and its type record is the same
    /// in `post` as in `pre`.
    pub open spec fn same_but_arena(pre: Context, post: Context) -> bool {
        &&& post.locals@ == pre.locals@
        &&& post.samplers@ == pre.samplers@
        &&& post.hir_exprs@ == pre.hir_exprs@
        &&& post.emit_from == pre.emit_from
    }

    /// A fresh context with empty arenas.
    pub fn new() -> (r: Context)
        ensures
            r.expressions@ =~= Seq::<Expression>::empty(),
            r.expr_types@ =~= Seq::<Option<TypeResolution>>::empty(),
            r.locals@ =~= Seq::<LocalVariable>::empty(),
            r.samplers@ =~= Seq::<(usize, usize)>::empty(),
            r.hir_exprs@ =~= Seq::<HirExpr>::empty(),
            r.emit_from == 0,
            r.wf(),
    {
        Context {
            expressions: Vec::new(),
            expr_types: Vec::new(),
            locals: Vec::new(),
            samplers: Vec::new(),
            hir_exprs: Vec::new(),
            emit_from: 0,
        }
    }

    /// Appends one expression with its recorded type and returns its handle.
    pub fn add_expression(&mut self, expr: Expression, ty: Option<TypeResolution>) -> (r: usize)
        requires
            old(self).arena_wf(),
        ensures
            final(self).arena() == old(self).arena().push(expr, ty),
            Self::same_but_arena(*old(self), *final(self)),
            r == old(self).expressions@.len(),
            final(self).arena_wf(),
            old(self).wf() ==> final(self).wf(),
    {
        let h = self.expressions.len();
        self.expressions.push(expr);
        self.expr_types.push(ty);
        proof {
            assert(self.arena().exprs =~= old(self).arena().exprs.push(expr));
            assert(self.arena().tys =~= old(self).arena().tys.push(ty));
            assert(self.arena() == old(self).arena().push(expr, ty));
            if old(self).wf() {
                assert forall|i: int| 0 <= i < self.hir_exprs@.len() implies self.hir_wf_at(i) by {
                    assert(old(self).hir_wf_at(i));
                }
            }
        }
        h
    }

    /// Appends an untyped call-tree node and returns its handle; the node
    /// must refer only to existing expressions and earlier nodes.
    pub fn add_hir(&mut self, node: HirExpr) -> (r: usize)
        requires
            old(self).wf(),
            match node.kind {
                HirExprKind::Value(e) => e < old(self).expressions@.len(),
                HirExprKind::Variable(vr) => vr.expr < old(self).expressions@.len(),
                HirExprKind::Swizzle { vector, .. } => vector < old(self).hir_exprs@.len(),
            },
        ensures
            final(self).hir_exprs@ == old(self).hir_exprs@.push(node),
            final(self).expressions@ == old(self).expressions@,
            final(self).expr_types@ == old(self).expr_types@,
            final(self).locals@ == old(self).locals@,
            final(self).samplers@ == old(self).samplers@,
            final(self).emit_from == old(self).emit_from,
            r == old(self).hir_exprs@.len(),
            final(self).wf(),
    {
        let h = self.hir_exprs.len();
        self.hir_exprs.push(node);
        proof {
            assert forall|i: int| 0 <= i < self.hir_exprs@.len() implies self.hir_wf_at(i) by {
                if i < old(self).hir_exprs@.len() {
                    assert(old(self).hir_wf_at(i));
                }
            }
        }
        h
    }

    /// Registers `sampler` as the pairing of the texture expression `image`.
    pub fn sampler_insert(&mut self, image: usize, sampler: usize)
        ensures
            final(self).samplers@ == old(self).samplers@.push((image, sampler)),
            final(self).expressions@ == old(self).expressions@,
            final(self).expr_types@ == old(self).expr_types@,
            final(self).locals@ == old(self).locals@,
            final(self).hir_exprs@ == old(self).hir_exprs@,
            final(self).emit_from == old(self).emit_from,
            spec_sampler_get(final(self).samplers@, image) == Some(sampler),
            old(self).wf() ==> final(self).wf(),
            old(self).arena_wf() ==> final(self).arena_wf(),
    {
        self.samplers.push((image, sampler));
        proof {
            assert(self.samplers@.last() == (image, sampler));
            if old(self).wf() {
                assert forall|i: int| 0 <= i < self.hir_exprs@.len() implies self.hir_wf_at(i) by {
                    assert(old(self).hir_wf_at(i));
                }
            }
        }
    }

    /// Looks up the sampler paired with the texture expression `image`.
    pub fn sampler_get(&self, image: usize) -> (r: Option<usize>)
        ensures
            r == spec_sampler_get(self.samplers@, image),
    {
        let mut i: usize = self.samplers.len();
        proof {
            assert(self.samplers@.take(i as int) =~= self.samplers@);
        }
        while i > 0
            invariant
                i <= self.samplers@.len(),
                spec_sampler_get(self.samplers@, image) == spec_sampler_get(
                    self.samplers@.take(i as int),
                    image,
                ),
            decreases i,
        {
            i = i - 1;
            let pair = self.samplers[i];
            proof {
                assert(self.samplers@.take(i as int + 1).last() == self.samplers@[i as int]);
                assert(self.samplers@.take(i as int + 1).drop_last() =~= self.samplers@.take(
                    i as int,
                ));
            }
            if pair.0 == image {
                return Some(pair.1);
            }
        }
        proof {
            assert(self.samplers@.take(0) =~= Seq::<(usize, usize)>::empty());
        }
        None
    }

    /// Restarts expression emission at the current end of the arena.
    pub fn emit_start(&mut self)
        ensures
            final(self).emit_from == final(self).expressions@.len(),
            final(self).expressions@ == old(self).expressions@,
            final(self).expr_types@ == old(self).expr_types@,
            final(self).locals@ == old(self).locals@,
            final(self).samplers@ == old(self).samplers@,
            final(self).hir_exprs@ == old(self).hir_exprs@,
            old(self).wf() ==> final(self).wf(),
            old(self).arena_wf() ==> final(self).arena_wf(),
    {
        self.emit_from = self.expressions.len();
        proof {
            if old(self).wf() {
                assert forall|i: int| 0 <= i < self.hir_exprs@.len() implies self.hir_wf_at(i) by {
                    assert(old(self).hir_wf_at(i));
                }
            }
        }
    }

    /// Closes the pending emission range: if any expression was added since
    /// emission last restarted, pushes the statement that marks that range
    /// as evaluated here, and restarts emission either way.
    pub fn emit_flush(&mut self, body: &mut Vec<Statement>)
        requires
            old(self).arena_wf(),
        ensures
            final(self).emit_from == final(self).expressions@.len(),
            final(self).expressions@ == old(self).expressions@,
            final(self).expr_types@ == old(self).expr_types@,
            final(self).locals@ == old(self).locals@,
            final(self).samplers@ == old(self).samplers@,
            final(self).hir_exprs@ == old(self).hir_exprs@,
            final(body)@ == spec_emit_flush(*old(self), old(body)@),
            final(self).arena_wf(),
            old(self).wf() ==> final(self).wf(),
    {
        let len = self.expressions.len();
        if self.emit_from < len {
            body.push(Statement::Emit { start: self.emit_from, end: len });
        }
        self.emit_from = len;
        proof {
            if old(self).wf() {
                assert forall|i: int| 0 <= i < self.hir_exprs@.len() implies self.hir_wf_at(i) by {
                    assert(old(self).hir_wf_at(i));
                }
            }
        }
    }

    /// The recorded type resolution of an expression, or the error that a
    /// resolution decision on an unrecorded expression reports.
    pub fn resolve_type(&self, expr: usize, meta: SourceMetadata) -> (r: Result<
        TypeResolution,
        ErrorKind,
    >)
        requires
            expr < self.expressions@.len(),
            self.arena_wf(),
        ensures
            r == match self.expr_types@[expr as int] {
                Some(t) => Ok::<TypeResolution, ErrorKind>(t),
                None => Err::<TypeResolution, ErrorKind>(ErrorKind::TypeResolutionFailed { meta }),
            },
    {
        match self.expr_types[expr] {
            Some(t) => Ok(t),
            None => Err(ErrorKind::TypeResolutionFailed { meta }),
        }
    }

    /// Applies the implicit widening conversion of `*value` to scalar kind
    /// `kind`: when the value's recorded kind is ranked below `kind`, a
    /// conversion expression is appended and `*value` becomes its handle;
    /// otherwise nothing changes.
    pub fn implicit_conversion(&mut self, types: &Vec<Type>, value: &mut usize, kind: ScalarKind)
        requires
            old(self).arena_wf(),
        ensures
            final(self).arena() == spec_implicit_conversion(
                old(self).arena(),
                types@,
                *old(value) as int,
                kind,
            ).0,
            *final(value) as int == spec_implicit_conversion(
                old(self).arena(),
                types@,
                *old(value) as int,
                kind,
            ).1,
            Self::same_but_arena(*old(self), *final(self)),
            final(self).arena_wf(),
            old(self).wf() ==> final(self).wf(),
    {
        let v = *value;
        if v < self.expressions.len() {
            let recorded = self.expr_types[v];
            if let Some(rt) = recorded {
                let widen = match (type_power(kind), rt_scalar_kind(rt, types)) {
                    (Some(tp), Some(sk)) => match type_power(sk) {
                        Some(sp) => tp > sp,
                        None => false,
                    },
                    _ => false,
                };
                if widen {
                    let parts = rt_scalar_or_vector(rt, types);
                    match parts {
                        Some((w, flattened)) => {
                            let retargeted = retarget_resolution(flattened, kind);
                            let h = self.add_expression(
                                Expression::As { expr: v, kind, convert: Some(w) },
                                Some(retargeted),
                            );
                            *value = h;
                        },
                        None => {
                            proof {
                                assert(false);
                            }
                        },
                    }
                }
            }
        }
    }

    /// Mutually converts two operands so that they agree in scalar kind:
    /// the lower-ranked operand is widened; two different kinds that are
    /// not both ranked are reported as incompatible.
    pub fn binary_implicit_conversion(
        &mut self,
        types: &Vec<Type>,
        left: &mut usize,
        right: &mut usize,
        meta: SourceMetadata,
    ) -> (r: Result<(), ErrorKind>)
        requires
            old(self).arena_wf(),
        ensures
            final(self).arena() == spec_binary_conversion(
                old(self).arena(),
                types@,
                *old(left) as int,
                *old(right) as int,
                meta,
            ).0,
            match spec_binary_conversion(
                old(self).arena(),
                types@,
                *old(left) as int,
                *old(right) as int,
                meta,
            ).1 {
                Ok(handles) => r is Ok && *final(left) == handles.0 && *final(right) == handles.1,
                Err(e) => r == Err::<(), ErrorKind>(e) && *final(left) == *old(left)
                    && *final(right) == *old(right),
            },
            Self::same_but_arena(*old(self), *final(self)),
            final(self).arena_wf(),
            old(self).wf() ==> final(self).wf(),
    {
        let kl = self.kind_at(types, *left);
        let kr = self.kind_at(types, *right);
        match (kl, kr) {
            (Some(kl), Some(kr)) => {
                if kl == kr {
                    Ok(())
                } else {
                    match (type_power(kl), type_power(kr)) {
                        (Some(pl), Some(pr)) => {
                            if pl < pr {
                                self.implicit_conversion(types, left, kr);
                            } else {
                                self.implicit_conversion(types, right, kl);
                            }
                            Ok(())
                        },
                        _ => Err(ErrorKind::IncompatibleOperands { meta }),
                    }
                }
            },
            _ => Ok(()),
        }
    }

    /// The scalar kind recorded for expression `v`, if any.
    pub fn kind_at(&self, types: &Vec<Type>, v: usize) -> (r: Option<ScalarKind>)
        requires
            self.arena_wf(),
        ensures
            r == spec_kind_at(self.arena(), types@, v as int),
    {
        if v < self.expr_types.len() {
            match self.expr_types[v] {
                Some(rt) => rt_scalar_kind(rt, types),
                None => None,
            }
        } else {
            None
        }
    }

    /// Lowers one untyped call-tree node to a typed expression handle.
    /// `lhs` asks for an addressable location rather than a loaded value.
    pub fn lower_expect(&mut self, types: &Vec<Type>, expr: usize, lhs: bool) -> (r: Result<
        (usize, SourceMetadata),
        ErrorKind,
    >)
        requires
            old(self).wf(),
            expr < old(self).hir_exprs@.len(),
        ensures
            final(self).wf(),
            Self::same_but_arena(*old(self), *final(self)),
            final(self).arena() == spec_lower(
                old(self).arena(),
                old(self).hir_exprs@,
                types@,
                expr as int,
                lhs,
            ).0,
            lower_result_matches(
                spec_lower(old(self).arena(), old(self).hir_exprs@, types@, expr as int, lhs).1,
                r,
            ),
            old(self).expressions@.len() <= final(self).expressions@.len(),
            r matches Ok(p) ==> p.0 < final(self).expressions@.len(),
        decreases expr,
    {
        proof {
            assert(old(self).hir_wf_at(expr as int));
        }
        let node = self.hir_exprs[expr];
        let meta = node.meta;
        match node.kind {
            HirExprKind::Value(e) => {
                if e < self.expressions.len() {
                    Ok((e, meta))
                } else {
                    Err(ErrorKind::InvalidHir { meta })
                }
            },
            HirExprKind::Variable(vr) => {
                if vr.expr < self.expressions.len() {
                    if lhs || !vr.load {
                        Ok((vr.expr, meta))
                    } else {
                        let pointee = match self.expr_types[vr.expr] {
                            Some(rt) => pointee_resolution(rt, types),
                            None => None,
                        };
                        let h = self.add_expression(Expression::Load { pointer: vr.expr }, pointee);
                        Ok((h, meta))
                    }
                } else {
                    Err(ErrorKind::InvalidHir { meta })
                }
            },
            HirExprKind::Swizzle { vector, size, pattern } => {
                let lowered = self.lower_expect(types, vector, false);
                match lowered {
                    Ok((vh, _)) => {
                        if vh < self.expr_types.len() {
                            let parts = match self.expr_types[vh] {
                                Some(rt) => rt_vector_parts(rt, types),
                                None => None,
                            };
                            match parts {
                                Some((_, kind, width)) => {
                                    let h = self.add_expression(
                                        Expression::Swizzle { size, vector: vh, pattern },
                                        Some(TypeResolution::Vector { size, kind, width }),
                                    );
                                    Ok((h, meta))
                                },
                                None => Err(ErrorKind::InvalidHir { meta }),
                            }
                        } else {
                            Err(ErrorKind::InvalidHir { meta })
                        }
                    },
                    Err(e) => Err(e),
                }
            },
        }
    }
}

/// Decides [`spec_pointee`] for one resolution.
pub(crate) fn pointee_resolution(rt: TypeResolution, types: &Vec<Type>) -> (r: Option<TypeResolution>)
    ensures
        r == spec_pointee(Some(rt), types@),
{
    match rt {
        TypeResolution::Handle(h) => {
            if h < types.len() {
                match types[h].inner {
                    TypeInner::Pointer { base } => Some(TypeResolution::Handle(base)),
                    _ => None,
                }
            } else {
                None
            }
        },
        TypeResolution::Pointer { base } => Some(TypeResolution::Handle(base)),
        _ => None,
    }
}

/// The width of a scalar- or vector-shaped resolution, with the resolution
/// flattened out of its handle; nothing for any other shape.
fn rt_scalar_or_vector(rt: TypeResolution, types: &Vec<Type>) -> (r: Option<(u8, TypeResolution)>)
    ensures
        match spec_rt_inner(rt, types@) {
            Some(TypeInner::Scalar { kind, width }) => r == Some(
                (width, TypeResolution::Scalar { kind, width }),
            ),
            Some(TypeInner::Vector { size, kind, width }) => r == Some(
                (width, TypeResolution::Vector { size, kind, width }),
            ),
            _ => r is None,
        },
{
    match rt {
        TypeResolution::Handle(h) => {
            if h < types.len() {
                match types[h].inner {
                    TypeInner::Scalar { kind, width } => Some(
                        (width, TypeResolution::Scalar { kind, width }),
                    ),
                    TypeInner::Vector { size, kind, width } => Some(
                        (width, TypeResolution::Vector { size, kind, width }),
                    ),
                    _ => None,
                }
            } else {
                None
            }
        },
        TypeResolution::Scalar { kind, width } => Some(
            (width, TypeResolution::Scalar { kind, width }),
        ),
        TypeResolution::Vector { size, kind, width } => Some(
            (width, TypeResolution::Vector { size, kind, width }),
        ),
        _ => None,
    }
}

/// Replaces the scalar kind of a flattened scalar or vector resolution.
fn retarget_resolution(rt: TypeResolution, kind: ScalarKind) -> (r: TypeResolution)
    ensures
        r == match rt {
            TypeResolution::Scalar { width, .. } => TypeResolution::Scalar { kind, width },
            TypeResolution::Vector { size, width, .. } => TypeResolution::Vector {
                size,
                kind,
                width,
            },
            _ => rt,
        },
{
    match rt {
        TypeResolution::Scalar { width, .. } => TypeResolution::Scalar { kind, width },
        TypeResolution::Vector { size, width, .. } => TypeResolution::Vector { size, kind, width },
        _ => rt,
    }
}

/// The statements a flush of the pending emission range appends to `body`.
pub open spec fn spec_emit_flush(ctx: Context, body: Seq<Statement>) -> Seq<Statement> {
    if ctx.emit_from < ctx.expressions@.len() {
        body.push(Statement::Emit { start: ctx.emit_from, end: ctx.expressions@.len() as usize })
    } else {
        body
    }
}

} // verus!
