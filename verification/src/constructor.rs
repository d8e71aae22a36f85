//! The type-constructor resolver: lowers `T(args...)` to a cast, a splat,
//! a swizzle-and-cast, a column-by-column matrix rebuild, or a positional
//! composition, depending on the target type's shape and the argument.

use vstd::prelude::*;

use crate::context::{Context, ExprArena, spec_implicit_conversion};
use crate::error::{ErrorKind, SourceMetadata};
use crate::ir::{Expression, identity_pattern, spec_identity_pattern};
use crate::program::Program;
use crate::types::{ScalarKind, Type, TypeInner, TypeResolution, VectorSize, spec_rt_inner};

verus! {

/// Whether a resolution stands for a vector shape.
pub open spec fn spec_rt_is_vector(rt: TypeResolution, types: Seq<Type>) -> bool {
    match spec_rt_inner(rt, types) {
        Some(TypeInner::Vector { .. }) => true,
        _ => false,
    }
}

/// Whether a resolution stands for a scalar shape.
pub open spec fn spec_rt_is_scalar(rt: TypeResolution, types: Seq<Type>) -> bool {
    match spec_rt_inner(rt, types) {
        Some(TypeInner::Scalar { .. }) => true,
        _ => false,
    }
}

/// Whether a resolution stands for a matrix shape.
pub open spec fn spec_rt_is_matrix(rt: TypeResolution, types: Seq<Type>) -> bool {
    match spec_rt_inner(rt, types) {
        Some(TypeInner::Matrix { .. }) => true,
        _ => false,
    }
}

/// Whether `e` is the composition of exactly `comps` into type `ty`.
pub open spec fn is_compose(e: Expression, ty: usize, comps: Seq<usize>) -> bool {
    match e {
        Expression::Compose { ty: t, components } => t == ty && components@ == comps,
        _ => false,
    }
}

/// Whether `post` is `prefix` with one composition of `comps` into type
/// `ty` appended, recorded as resolving to that type.
pub open spec fn arena_push_compose(
    prefix: ExprArena,
    post: ExprArena,
    ty: usize,
    comps: Seq<usize>,
) -> bool {
    &&& post.exprs.len() == prefix.exprs.len() + 1
    &&& post.exprs.subrange(0, prefix.exprs.len() as int) == prefix.exprs
    &&& is_compose(post.exprs.last(), ty, comps)
    &&& post.tys == prefix.tys.push(Some(TypeResolution::Handle(ty)))
}

/// The final composition a constructor lowering ends with.
pub struct ComposeDesc {
    pub ty: usize,
    pub components: Seq<usize>,
}

/// The outcome of lowering one constructor call, beside the arena it
/// leaves: a plain expression handle, a final composition still to be
/// appended to that arena, or an error.
pub enum CtorOut {
    Value(int),
    Composed(ComposeDesc),
    Fail(ErrorKind),
}

/// The arena after extracting and padding the first `n` columns of the
/// matrix expression `value`: for each column, one fixed-index access of
/// the column and one identity swizzle of it sized to the target row count.
pub open spec fn spec_matrix_cols(a: ExprArena, value: usize, rows: VectorSize, n: nat) -> ExprArena
    decreases n,
{
    if n == 0 {
        a
    } else {
        let prev = spec_matrix_cols(a, value, rows, (n - 1) as nat);
        let with_access = prev.push(
            Expression::AccessIndex { base: value, index: (n - 1) as u32 },
            None,
        );
        with_access.push(
            Expression::Swizzle {
                size: rows,
                vector: prev.exprs.len() as usize,
                pattern: spec_identity_pattern(),
            },
            None,
        )
    }
}

/// The arena and converted handles after implicitly converting every
/// argument, in order, to the target's element kind (when it has one).
pub open spec fn spec_convert_all(
    a: ExprArena,
    types: Seq<Type>,
    args: Seq<(usize, SourceMetadata)>,
    kind: Option<ScalarKind>,
) -> (ExprArena, Seq<usize>)
    decreases args.len(),
{
    if args.len() == 0 {
        (a, Seq::empty())
    } else {
        let prev = spec_convert_all(a, types, args.drop_last(), kind);
        match kind {
            Some(k) => {
                let conv = spec_implicit_conversion(prev.0, types, args.last().0 as int, k);
                (conv.0, prev.1.push(conv.1 as usize))
            },
            None => (prev.0, prev.1.push(args.last().0)),
        }
    }
}

/// What lowering the constructor call `T(args...)` does: the arena of
/// everything appended before any final composition, and the outcome.
pub open spec fn spec_lower_constructor(
    a: ExprArena,
    types: Seq<Type>,
    ty: int,
    args: Seq<(usize, SourceMetadata)>,
    meta: SourceMetadata,
) -> (ExprArena, CtorOut) {
    if args.len() == 1 {
        let arg0 = args[0].0;
        match a.tys[arg0 as int] {
            None => (a, CtorOut::Fail(ErrorKind::TypeResolutionFailed { meta: args[0].1 })),
            Some(rt0) => {
                let is_vec = spec_rt_is_vector(rt0, types);
                match types[ty].inner {
                    TypeInner::Vector { size, kind, width } => if !is_vec {
                        let conv = spec_implicit_conversion(a, types, arg0 as int, kind);
                        (
                            conv.0.push(
                                Expression::Splat { size, value: conv.1 as usize },
                                Some(TypeResolution::Handle(ty as usize)),
                            ),
                            CtorOut::Value(conv.0.exprs.len() as int),
                        )
                    } else {
                        let a1 = a.push(
                            Expression::Swizzle {
                                size,
                                vector: arg0,
                                pattern: spec_identity_pattern(),
                            },
                            None,
                        );
                        (
                            a1.push(
                                Expression::As {
                                    expr: a.exprs.len() as usize,
                                    kind,
                                    convert: Some(width),
                                },
                                Some(TypeResolution::Handle(ty as usize)),
                            ),
                            CtorOut::Value(a1.exprs.len() as int),
                        )
                    },
                    TypeInner::Scalar { kind, width } => if is_vec {
                        (a, CtorOut::Fail(ErrorKind::BadCast { meta }))
                    } else {
                        (
                            a.push(
                                Expression::As { expr: arg0, kind, convert: Some(width) },
                                Some(TypeResolution::Handle(ty as usize)),
                            ),
                            CtorOut::Value(a.exprs.len() as int),
                        )
                    },
                    TypeInner::Matrix { columns, rows, .. } => {
                        let conv = spec_implicit_conversion(a, types, arg0 as int, ScalarKind::Float);
                        let a1 = conv.0;
                        let value = conv.1 as usize;
                        if spec_rt_is_scalar(rt0, types) {
                            let a2 = a1.push(Expression::Splat { size: rows, value }, None);
                            let column = a1.exprs.len() as usize;
                            (
                                a2,
                                CtorOut::Composed(
                                    ComposeDesc {
                                        ty: ty as usize,
                                        components: Seq::new(
                                            columns.spec_count() as nat,
                                            |i: int| column,
                                        ),
                                    },
                                ),
                            )
                        } else if spec_rt_is_matrix(rt0, types) {
                            let cols = columns.spec_count() as nat;
                            let a2 = spec_matrix_cols(a1, value, rows, cols);
                            let base = a1.exprs.len();
                            (
                                a2,
                                CtorOut::Composed(
                                    ComposeDesc {
                                        ty: ty as usize,
                                        components: Seq::new(
                                            cols,
                                            |i: int| (base + 2 * i + 1) as usize,
                                        ),
                                    },
                                ),
                            )
                        } else {
                            (
                                a1,
                                CtorOut::Composed(
                                    ComposeDesc {
                                        ty: ty as usize,
                                        components: Seq::new(
                                            columns.spec_count() as nat,
                                            |i: int| value,
                                        ),
                                    },
                                ),
                            )
                        }
                    },
                    TypeInner::Struct { .. } => (
                        a,
                        CtorOut::Composed(
                            ComposeDesc {
                                ty: ty as usize,
                                components: Seq::<usize>::empty().push(arg0),
                            },
                        ),
                    ),
                    _ => (a, CtorOut::Fail(ErrorKind::BadCast { meta })),
                }
            },
        }
    } else {
        let converted = spec_convert_all(a, types, args, types[ty].inner.spec_scalar_kind());
        (
            converted.0,
            CtorOut::Composed(ComposeDesc { ty: ty as usize, components: converted.1 }),
        )
    }
}

/// Whether the final context arena and executable result of a constructor
/// lowering agree with the spec-level outcome: the outcome's arena is the
/// whole arena for plain results and errors, and lacks only the final
/// composition otherwise, whose handle is then returned.
pub open spec fn constructor_post(
    out: (ExprArena, CtorOut),
    post: ExprArena,
    r: Result<Option<usize>, ErrorKind>,
) -> bool {
    match out.1 {
        CtorOut::Value(h) => {
            &&& post == out.0
            &&& r matches Ok(p) && p matches Some(ph) && ph == h
        },
        CtorOut::Composed(d) => {
            &&& arena_push_compose(out.0, post, d.ty, d.components)
            &&& r matches Ok(p) && p matches Some(ph) && ph == out.0.exprs.len()
        },
        CtorOut::Fail(e) => {
            &&& post == out.0
            &&& r == Err::<Option<usize>, ErrorKind>(e)
        },
    }
}

impl Program {
    /// Lowers the type-constructor call `T(args...)`.
    ///
    /// With a single argument: a scalar target casts a non-vector argument
    /// and refuses a vector one; a vector target splats a non-vector
    /// argument after converting it to the element kind, and identity-
    /// swizzles then casts a vector one; a matrix target converts the
    /// argument to floating point, then splats a scalar across a column
    /// repeated per column, rebuilds a matrix argument column by column
    /// through identity swizzles sized to the target row count, and repeats
    /// any other argument per column; a struct target wraps the argument;
    /// every other target shape is a bad cast.  With any other argument
    /// count, every argument is implicitly converted to the target's
    /// element kind (when it has one) and all are composed positionally.
    #[verifier::rlimit(100)]
    pub fn lower_constructor(
        &self,
        ctx: &mut Context,
        ty: usize,
        args: &Vec<(usize, SourceMetadata)>,
        meta: SourceMetadata,
    ) -> (r: Result<Option<usize>, ErrorKind>)
        requires
            old(ctx).wf(),
            ty < self.module.types@.len(),
            forall|i: int|
                0 <= i < args@.len() ==> (#[trigger] args@[i]).0 < old(ctx).expressions@.len(),
        ensures
            final(ctx).wf(),
            Context::same_but_arena(*old(ctx), *final(ctx)),
            constructor_post(
                spec_lower_constructor(old(ctx).arena(), self.module.types@, ty as int, args@, meta),
                final(ctx).arena(),
                r,
            ),
    {
        let types = &self.module.types;
        if args.len() == 1 {
            let arg0 = args[0].0;
            let rt0 = match ctx.resolve_type(arg0, args[0].1) {
                Ok(rt) => rt,
                Err(e) => {
                    return Err(e);
                },
            };
            let is_vec = rt_is_vector(rt0, types);
            match &types[ty].inner {
                TypeInner::Vector { size, kind, width } => {
                    let size = *size;
                    let kind = *kind;
                    let width = *width;
                    if !is_vec {
                        let mut value = arg0;
                        ctx.implicit_conversion(types, &mut value, kind);
                        let h = ctx.add_expression(
                            Expression::Splat { size, value },
                            Some(TypeResolution::Handle(ty)),
                        );
                        Ok(Some(h))
                    } else {
                        let sw = ctx.add_expression(
                            Expression::Swizzle { size, vector: arg0, pattern: identity_pattern() },
                            None,
                        );
                        let h = ctx.add_expression(
                            Expression::As { expr: sw, kind, convert: Some(width) },
                            Some(TypeResolution::Handle(ty)),
                        );
                        Ok(Some(h))
                    }
                },
                TypeInner::Scalar { kind, width } => {
                    let kind = *kind;
                    let width = *width;
                    if is_vec {
                        Err(ErrorKind::BadCast { meta })
                    } else {
                        let h = ctx.add_expression(
                            Expression::As { expr: arg0, kind, convert: Some(width) },
                            Some(TypeResolution::Handle(ty)),
                        );
                        Ok(Some(h))
                    }
                },
                TypeInner::Matrix { columns, rows, .. } => {
                    let columns = *columns;
                    let rows = *rows;
                    let mut value = arg0;
                    ctx.implicit_conversion(types, &mut value, ScalarKind::Float);
                    let ghost a1 = ctx.arena();
                    if rt_is_scalar(rt0, types) {
                        let column = ctx.add_expression(Expression::Splat { size: rows, value }, None);
                        let cols = columns.count();
                        let mut components: Vec<usize> = Vec::new();
                        let mut n: u32 = 0;
                        while n < cols
                            invariant
                                n <= cols,
                                components@.len() == n,
                                forall|i: int| 0 <= i < n ==> components@[i] == column,
                            decreases cols - n,
                        {
                            components.push(column);
                            n = n + 1;
                        }
                        proof {
                            assert(components@ =~= Seq::new(
                                columns.spec_count() as nat,
                                |i: int| column,
                            ));
                        }
                        let ghost comps = components@;
                        let ghost prefix = ctx.arena();
                        let h = ctx.add_expression(
                            Expression::Compose { ty, components },
                            Some(TypeResolution::Handle(ty)),
                        );
                        proof {
                            assert(ctx.arena().exprs.subrange(0, prefix.exprs.len() as int)
                                =~= prefix.exprs);
                        }
                        Ok(Some(h))
                    } else if rt_is_matrix(rt0, types) {
                        let cols = columns.count();
                        let ghost base = a1.exprs.len();
                        let mut components: Vec<usize> = Vec::new();
                        let mut n: u32 = 0;
                        while n < cols
                            invariant
                                n <= cols,
                                ctx.wf(),
                                Context::same_but_arena(*old(ctx), *ctx),
                                ctx.arena() == spec_matrix_cols(a1, value, rows, n as nat),
                                ctx.expressions@.len() == base + 2 * n,
                                components@.len() == n,
                                forall|i: int|
                                    0 <= i < n ==> components@[i] == (base + 2 * i + 1) as usize,
                            decreases cols - n,
                        {
                            let vector = ctx.add_expression(
                                Expression::AccessIndex { base: value, index: n },
                                None,
                            );
                            let c = ctx.add_expression(
                                Expression::Swizzle {
                                    size: rows,
                                    vector,
                                    pattern: identity_pattern(),
                                },
                                None,
                            );
                            components.push(c);
                            n = n + 1;
                        }
                        proof {
                            assert(components@ =~= Seq::new(
                                columns.spec_count() as nat,
                                |i: int| (base + 2 * i + 1) as usize,
                            ));
                        }
                        let ghost prefix = ctx.arena();
                        let h = ctx.add_expression(
                            Expression::Compose { ty, components },
                            Some(TypeResolution::Handle(ty)),
                        );
                        proof {
                            assert(ctx.arena().exprs.subrange(0, prefix.exprs.len() as int)
                                =~= prefix.exprs);
                        }
                        Ok(Some(h))
                    } else {
                        let cols = columns.count();
                        let mut components: Vec<usize> = Vec::new();
                        let mut n: u32 = 0;
                        while n < cols
                            invariant
                                n <= cols,
                                components@.len() == n,
                                forall|i: int| 0 <= i < n ==> components@[i] == value,
                            decreases cols - n,
                        {
                            components.push(value);
                            n = n + 1;
                        }
                        proof {
                            assert(components@ =~= Seq::new(
                                columns.spec_count() as nat,
                                |i: int| value,
                            ));
                        }
                        let ghost prefix = ctx.arena();
                        let h = ctx.add_expression(
                            Expression::Compose { ty, components },
                            Some(TypeResolution::Handle(ty)),
                        );
                        proof {
                            assert(ctx.arena().exprs.subrange(0, prefix.exprs.len() as int)
                                =~= prefix.exprs);
                        }
                        Ok(Some(h))
                    }
                },
                TypeInner::Struct { .. } => {
                    let mut components: Vec<usize> = Vec::new();
                    components.push(arg0);
                    proof {
                        assert(components@ =~= Seq::<usize>::empty().push(arg0));
                    }
                    let ghost prefix = ctx.arena();
                    let h = ctx.add_expression(
                        Expression::Compose { ty, components },
                        Some(TypeResolution::Handle(ty)),
                    );
                    proof {
                        assert(ctx.arena().exprs.subrange(0, prefix.exprs.len() as int)
                            =~= prefix.exprs);
                    }
                    Ok(Some(h))
                },
                _ => Err(ErrorKind::BadCast { meta }),
            }
        } else {
            let kind = types[ty].inner.scalar_kind();
            let mut components: Vec<usize> = Vec::new();
            let mut i: usize = 0;
            proof {
                assert(args@.take(0) =~= Seq::<(usize, SourceMetadata)>::empty());
            }
            while i < args.len()
                invariant
                    i <= args@.len(),
                    ctx.wf(),
                    Context::same_but_arena(*old(ctx), *ctx),
                    kind == self.module.types@[ty as int].inner.spec_scalar_kind(),
                    ty < self.module.types@.len(),
                    types@ == self.module.types@,
                    forall|j: int|
                        0 <= j < args@.len() ==> (#[trigger] args@[j]).0
                            < old(ctx).expressions@.len(),
                    old(ctx).expressions@.len() <= ctx.expressions@.len(),
                    ({
                        let fold = spec_convert_all(
                            old(ctx).arena(),
                            self.module.types@,
                            args@.take(i as int),
                            kind,
                        );
                        ctx.arena() == fold.0 && components@ == fold.1
                    }),
                decreases args@.len() - i,
            {
                let mut arg = args[i].0;
                proof {
                    assert(args@.take(i as int + 1).drop_last() =~= args@.take(i as int));
                    assert(args@.take(i as int + 1).last() == args@[i as int]);
                }
                match kind {
                    Some(k) => {
                        ctx.implicit_conversion(types, &mut arg, k);
                    },
                    None => {},
                }
                components.push(arg);
                i = i + 1;
            }
            proof {
                assert(args@.take(args@.len() as int) =~= args@);
            }
            let ghost prefix = ctx.arena();
            let h = ctx.add_expression(
                Expression::Compose { ty, components },
                Some(TypeResolution::Handle(ty)),
            );
            proof {
                assert(ctx.arena().exprs.subrange(0, prefix.exprs.len() as int) =~= prefix.exprs);
            }
            Ok(Some(h))
        }
    }
}

/// Decides [`spec_rt_is_vector`].
fn rt_is_vector(rt: TypeResolution, types: &Vec<Type>) -> (r: bool)
    ensures
        r == spec_rt_is_vector(rt, types@),
{
    match rt {
        TypeResolution::Handle(h) => h < types.len() && matches!(
            types[h].inner,
            TypeInner::Vector { .. },
        ),
        TypeResolution::Vector { .. } => true,
        _ => false,
    }
}

/// Decides [`spec_rt_is_scalar`].
fn rt_is_scalar(rt: TypeResolution, types: &Vec<Type>) -> (r: bool)
    ensures
        r == spec_rt_is_scalar(rt, types@),
{
    match rt {
        TypeResolution::Handle(h) => h < types.len() && matches!(
            types[h].inner,
            TypeInner::Scalar { .. },
        ),
        TypeResolution::Scalar { .. } => true,
        _ => false,
    }
}

/// Decides [`spec_rt_is_matrix`].
fn rt_is_matrix(rt: TypeResolution, types: &Vec<Type>) -> (r: bool)
    ensures
        r == spec_rt_is_matrix(rt, types@),
{
    match rt {
        TypeResolution::Handle(h) => h < types.len() && matches!(
            types[h].inner,
            TypeInner::Matrix { .. },
        ),
        TypeResolution::Matrix { .. } => true,
        _ => false,
    }
}

} // verus!
