//! Lowering of user-defined function calls: name lookup, overload
//! resolution over the resolved argument types, argument binding with
//! proxy temporaries for non-addressable output arguments, emission of the
//! call statement, and the proxy write-backs after it.

use vstd::prelude::*;

use crate::builtins::{Builtin, builtin_from_name, call_result_matches, spec_builtin_of,
    spec_lower_builtin};
use crate::constructor::{constructor_post, spec_lower_constructor};
use crate::context::{
    Context, ExprArena, pointee_resolution, spec_implicit_conversion, spec_lower, spec_pointee,
};
use crate::hir::FunctionCallKind;
use crate::error::{ErrorKind, SourceMetadata};
use crate::hir::{HirExpr, ParameterQualifier};
use crate::ir::{Expression, LocalVariable, Statement};
use crate::overload::{
    OverloadChoice, OverloadOutcome, decls_wf, lemma_found_accepts, resolve_overload,
    spec_resolve_overload,
};
use crate::program::{FunctionDeclaration, Program};
use crate::types::{Type, TypeInner, TypeResolution, rt_vector_parts, spec_rt_vector};

verus! {

/// The first entry of the overload table with the given name, starting the
/// scan at `i`.
pub open spec fn spec_lookup_from(
    table: Seq<(String, Vec<FunctionDeclaration>)>,
    name: Seq<char>,
    i: nat,
) -> Option<int>
    decreases table.len() - i,
{
    if i >= table.len() {
        None
    } else if table[i as int].0@ == name {
        Some(i as int)
    } else {
        spec_lookup_from(table, name, i + 1)
    }
}

/// The entry of the overload table with the given name, if any.
pub open spec fn spec_lookup_name(
    table: Seq<(String, Vec<FunctionDeclaration>)>,
    name: Seq<char>,
) -> Option<int> {
    spec_lookup_from(table, name, 0)
}

/// The resolved types of the lowered arguments, in order, or the first
/// argument whose type is not on record.
pub open spec fn spec_resolve_args(
    a: ExprArena,
    args: Seq<(usize, SourceMetadata)>,
) -> Result<Seq<TypeResolution>, ErrorKind>
    decreases args.len(),
{
    if args.len() == 0 {
        Ok(Seq::empty())
    } else {
        match spec_resolve_args(a, args.drop_last()) {
            Err(e) => Err(e),
            Ok(list) => match a.tys[args.last().0 as int] {
                Some(rt) => Ok(list.push(rt)),
                None => Err(ErrorKind::TypeResolutionFailed { meta: args.last().1 }),
            },
        }
    }
}

/// Whether an expression is a lane permutation, the one value shape that
/// cannot be written through directly.
pub open spec fn is_swizzle(e: Expression) -> bool {
    match e {
        Expression::Swizzle { .. } => true,
        _ => false,
    }
}

/// Whether `s` is the call statement of `function` with exactly the given
/// argument handles and result expression.
pub open spec fn is_call_stmt(
    s: Statement,
    function: usize,
    args: Seq<usize>,
    result: Option<int>,
) -> bool {
    match s {
        Statement::Call { function: f, arguments, result: r } => {
            &&& f == function
            &&& arguments@ == args
            &&& match (r, result) {
                (Some(a), Some(b)) => a == b,
                (None, None) => true,
                _ => false,
            }
        },
        _ => false,
    }
}

/// The outcome of binding the first `k` call arguments to the resolved
/// declaration's parameters.
pub struct BindOut {
    pub arena: ExprArena,
    pub types: Seq<Type>,
    pub locals: Seq<LocalVariable>,
    /// The pre-call stores of proxy temporaries, in argument order.
    pub stores: Seq<Statement>,
    /// The actual argument handles the call receives.
    pub arguments: Seq<usize>,
    /// The pending write-backs: (raw target node, temporary's address).
    pub proxies: Seq<(usize, usize)>,
    pub error: Option<ErrorKind>,
}

/// What binding the first `k` arguments does: each raw argument is lowered
/// as a location when its qualifier requires write access and as a value
/// otherwise; a writable vector argument that lowered to a lane permutation
/// gets a fresh typed local, a pre-call store of its value, and a pending
/// write-back, and the call receives the local's address; any other
/// argument is implicitly converted to the parameter's scalar kind when
/// the parameter has one.
pub open spec fn spec_bind_args(
    a: ExprArena,
    types: Seq<Type>,
    locals: Seq<LocalVariable>,
    hir: Seq<HirExpr>,
    params: Seq<usize>,
    quals: Seq<ParameterQualifier>,
    raw: Seq<usize>,
    k: nat,
) -> BindOut
    decreases k,
{
    if k == 0 {
        BindOut {
            arena: a,
            types,
            locals,
            stores: Seq::empty(),
            arguments: Seq::empty(),
            proxies: Seq::empty(),
            error: None,
        }
    } else {
        let prev = spec_bind_args(a, types, locals, hir, params, quals, raw, (k - 1) as nat);
        if prev.error is Some {
            prev
        } else {
            let lhs = quals[k - 1].spec_is_lhs();
            let low = spec_lower(prev.arena, hir, prev.types, raw[k - 1] as int, lhs);
            match low.1 {
                Err(e) => BindOut {
                    arena: low.0,
                    types: prev.types,
                    locals: prev.locals,
                    stores: prev.stores,
                    arguments: prev.arguments,
                    proxies: prev.proxies,
                    error: Some(e),
                },
                Ok((h, m)) => {
                    let rtopt = if 0 <= h < low.0.tys.len() {
                        low.0.tys[h]
                    } else {
                        None
                    };
                    match rtopt {
                        None => BindOut {
                            arena: low.0,
                            types: prev.types,
                            locals: prev.locals,
                            stores: prev.stores,
                            arguments: prev.arguments,
                            proxies: prev.proxies,
                            error: Some(ErrorKind::TypeResolutionFailed { meta: m }),
                        },
                        Some(rt) => {
                            let vector = spec_rt_vector(rt, prev.types);
                            if lhs && vector is Some && is_swizzle(low.0.exprs[h]) {
                                let parts = vector.unwrap();
                                let tyh = prev.types.len() as usize;
                                let types1 = prev.types.push(
                                    Type {
                                        name: None,
                                        inner: TypeInner::Vector {
                                            size: parts.0,
                                            kind: parts.1,
                                            width: parts.2,
                                        },
                                    },
                                );
                                let tv = prev.locals.len() as usize;
                                let locals1 = prev.locals.push(
                                    LocalVariable { name: None, ty: tyh, init: None },
                                );
                                let temp = low.0.exprs.len() as usize;
                                let arena1 = low.0.push(
                                    Expression::LocalVariable(tv),
                                    Some(TypeResolution::Pointer { base: tyh }),
                                );
                                BindOut {
                                    arena: arena1,
                                    types: types1,
                                    locals: locals1,
                                    stores: prev.stores.push(
                                        Statement::Store { pointer: temp, value: h as usize },
                                    ),
                                    arguments: prev.arguments.push(temp),
                                    proxies: prev.proxies.push((raw[k - 1], temp)),
                                    error: None,
                                }
                            } else {
                                let kindo = prev.types[params[k - 1] as int].inner.spec_scalar_kind();
                                let conv = match kindo {
                                    Some(kk) => spec_implicit_conversion(low.0, prev.types, h, kk),
                                    None => (low.0, h),
                                };
                                BindOut {
                                    arena: conv.0,
                                    types: prev.types,
                                    locals: prev.locals,
                                    stores: prev.stores,
                                    arguments: prev.arguments.push(conv.1 as usize),
                                    proxies: prev.proxies,
                                    error: None,
                                }
                            }
                        },
                    }
                },
            }
        }
    }
}

/// The outcome of lowering the first `p` proxy write-backs.
pub struct WriteBackOut {
    pub arena: ExprArena,
    /// The write-back stores, in call order.
    pub stores: Seq<Statement>,
    pub error: Option<ErrorKind>,
}

/// What the proxy write-backs do: for each pending proxy in call order,
/// the original target is lowered again as a location, the temporary's
/// value is loaded, and a store of that value into the target is appended.
pub open spec fn spec_writebacks(
    a: ExprArena,
    hir: Seq<HirExpr>,
    types: Seq<Type>,
    proxies: Seq<(usize, usize)>,
    p: nat,
) -> WriteBackOut
    decreases p,
{
    if p == 0 {
        WriteBackOut { arena: a, stores: Seq::empty(), error: None }
    } else {
        let prev = spec_writebacks(a, hir, types, proxies, (p - 1) as nat);
        if prev.error is Some {
            prev
        } else {
            let pair = proxies[p - 1];
            let low = spec_lower(prev.arena, hir, types, pair.0 as int, true);
            match low.1 {
                Err(e) => WriteBackOut { arena: low.0, stores: prev.stores, error: Some(e) },
                Ok((th, _)) => {
                    let load = low.0.exprs.len() as usize;
                    let ptee = if pair.1 < low.0.tys.len() {
                        spec_pointee(low.0.tys[pair.1 as int], types)
                    } else {
                        None
                    };
                    WriteBackOut {
                        arena: low.0.push(Expression::Load { pointer: pair.1 }, ptee),
                        stores: prev.stores.push(
                            Statement::Store { pointer: th as usize, value: load },
                        ),
                        error: None,
                    }
                },
            }
        }
    }
}

/// The statements after closing the pending emission range that starts at
/// `emit_from`.
pub open spec fn spec_flush_at(emit_from: int, a: ExprArena, body: Seq<Statement>) -> Seq<
    Statement,
> {
    if emit_from < a.exprs.len() {
        body.push(Statement::Emit { start: emit_from as usize, end: a.exprs.len() as usize })
    } else {
        body
    }
}

/// The grouped lowering state a user-function call reads and writes.
pub struct CallCtxState {
    pub arena: ExprArena,
    pub types: Seq<Type>,
    pub locals: Seq<LocalVariable>,
    pub body: Seq<Statement>,
    pub emit_from: int,
}

/// The full contract of lowering one user-function call, from the state
/// `pre` to the state `post` with result `r`: an unregistered name or an
/// unresolvable argument changes nothing; the overload scan decides the
/// declaration; argument binding, the flush, the call statement, and the
/// proxy write-backs then shape the arena and body exactly.
pub open spec fn user_call_post(
    pre: CallCtxState,
    lookup: Seq<(String, Vec<FunctionDeclaration>)>,
    hir: Seq<HirExpr>,
    name: String,
    raw: Seq<usize>,
    args: Seq<(usize, SourceMetadata)>,
    meta: SourceMetadata,
    post: CallCtxState,
    r: Result<Option<usize>, ErrorKind>,
) -> bool {
    match spec_lookup_name(lookup, name@) {
        None => post == pre && r == Err::<Option<usize>, ErrorKind>(
            ErrorKind::UnknownFunction { name, meta },
        ),
        Some(di) => match spec_resolve_args(pre.arena, args) {
            Err(e) => post == pre && r == Err::<Option<usize>, ErrorKind>(e),
            Ok(argtys) => match spec_resolve_overload(lookup[di].1@, pre.types, argtys) {
                OverloadChoice::Ambiguous => post == pre && r == Err::<Option<usize>, ErrorKind>(
                    ErrorKind::AmbiguousFunction { name, meta },
                ),
                OverloadChoice::NoMatch => post == pre && r == Err::<Option<usize>, ErrorKind>(
                    ErrorKind::UnknownFunction { name, meta },
                ),
                OverloadChoice::Found(ci) => {
                    let decl = lookup[di].1@[ci];
                    let bind = spec_bind_args(
                        pre.arena,
                        pre.types,
                        pre.locals,
                        hir,
                        decl.parameters@,
                        decl.qualifiers@,
                        raw,
                        decl.parameters@.len(),
                    );
                    match bind.error {
                        Some(e) => {
                            &&& post.arena == bind.arena
                            &&& post.types == bind.types
                            &&& post.locals == bind.locals
                            &&& post.body == pre.body + bind.stores
                            &&& post.emit_from == pre.emit_from
                            &&& r == Err::<Option<usize>, ErrorKind>(e)
                        },
                        None => {
                            let body1 = spec_flush_at(
                                pre.emit_from,
                                bind.arena,
                                pre.body + bind.stores,
                            );
                            let arena2 = if decl.void {
                                bind.arena
                            } else {
                                bind.arena.push(Expression::Call(decl.handle), None)
                            };
                            let res_desc = if decl.void {
                                None
                            } else {
                                Some(bind.arena.exprs.len() as int)
                            };
                            let emit2 = arena2.exprs.len() as int;
                            let wb = spec_writebacks(
                                arena2,
                                hir,
                                bind.types,
                                bind.proxies,
                                bind.proxies.len(),
                            );
                            &&& post.types == bind.types
                            &&& post.locals == bind.locals
                            &&& post.arena == wb.arena
                            &&& post.body.len() >= body1.len() + 1
                            &&& post.body.subrange(0, body1.len() as int) == body1
                            &&& is_call_stmt(
                                post.body[body1.len() as int],
                                decl.handle,
                                bind.arguments,
                                res_desc,
                            )
                            &&& match wb.error {
                                Some(e) => {
                                    &&& post.body == post.body.subrange(
                                        0,
                                        body1.len() as int + 1,
                                    ) + wb.stores
                                    &&& post.emit_from == emit2
                                    &&& r == Err::<Option<usize>, ErrorKind>(e)
                                },
                                None => {
                                    &&& post.body == post.body.subrange(0, body1.len() as int + 1)
                                        + wb.stores + spec_trailing_emit(emit2, wb.arena)
                                    &&& post.emit_from == wb.arena.exprs.len()
                                    &&& match res_desc {
                                        Some(h) => r matches Ok(p) && p matches Some(ph) && ph == h,
                                        None => r == Ok::<Option<usize>, ErrorKind>(None),
                                    }
                                },
                            }
                        },
                    }
                },
            },
        },
    }
}

/// The final emission statement of a call lowering, when the write-backs
/// added any expression.
pub open spec fn spec_trailing_emit(emit_from: int, a: ExprArena) -> Seq<Statement> {
    if emit_from < a.exprs.len() {
        seq![Statement::Emit { start: emit_from as usize, end: a.exprs.len() as usize }]
    } else {
        Seq::empty()
    }
}




/// The arena and the lowered (handle, location) pairs after lowering every
/// raw call argument as a value, in order, or the first lowering failure.
pub open spec fn spec_lower_args(
    a: ExprArena,
    hir: Seq<HirExpr>,
    types: Seq<Type>,
    raw: Seq<usize>,
) -> (ExprArena, Result<Seq<(usize, SourceMetadata)>, ErrorKind>)
    decreases raw.len(),
{
    if raw.len() == 0 {
        (a, Ok(Seq::empty()))
    } else {
        let prev = spec_lower_args(a, hir, types, raw.drop_last());
        match prev.1 {
            Err(e) => prev,
            Ok(list) => {
                let low = spec_lower(prev.0, hir, types, raw.last() as int, false);
                match low.1 {
                    Err(e) => (low.0, Err(e)),
                    Ok((h, m)) => (low.0, Ok(list.push((h as usize, m)))),
                }
            },
        }
    }
}

/// An argument-lowering error over a prefix persists over every longer
/// prefix.
proof fn lemma_lower_args_error_stable(
    a: ExprArena,
    hir: Seq<HirExpr>,
    types: Seq<Type>,
    raw: Seq<usize>,
    i: nat,
    n: nat,
)
    requires
        i <= n <= raw.len(),
        spec_lower_args(a, hir, types, raw.take(i as int)).1 is Err,
    ensures
        spec_lower_args(a, hir, types, raw.take(n as int)) == spec_lower_args(
            a,
            hir,
            types,
            raw.take(i as int),
        ),
    decreases n - i,
{
    if i < n {
        lemma_lower_args_error_stable(a, hir, types, raw, i, (n - 1) as nat);
        assert(raw.take(n as int).drop_last() =~= raw.take(n as int - 1));
        assert(raw.take(n as int).last() == raw[n as int - 1]);
    }
}

/// An argument-resolution error over a prefix persists over every longer
/// prefix.
proof fn lemma_resolve_args_error_stable(
    a: ExprArena,
    args: Seq<(usize, SourceMetadata)>,
    i: nat,
    n: nat,
)
    requires
        i <= n <= args.len(),
        spec_resolve_args(a, args.take(i as int)) is Err,
    ensures
        spec_resolve_args(a, args.take(n as int)) == spec_resolve_args(a, args.take(i as int)),
    decreases n - i,
{
    if i < n {
        lemma_resolve_args_error_stable(a, args, i, (n - 1) as nat);
        assert(args.take(n as int).drop_last() =~= args.take(n as int - 1));
    }
}

/// A successful argument resolution yields one type per argument.
proof fn lemma_resolve_args_len(a: ExprArena, args: Seq<(usize, SourceMetadata)>)
    ensures
        match spec_resolve_args(a, args) {
            Ok(list) => list.len() == args.len(),
            Err(_) => true,
        },
    decreases args.len(),
{
    if args.len() > 0 {
        lemma_resolve_args_len(a, args.drop_last());
    }
}

/// An argument-binding error at step `k` persists to every longer prefix.
proof fn lemma_bind_error_stable(
    a: ExprArena,
    types: Seq<Type>,
    locals: Seq<LocalVariable>,
    hir: Seq<HirExpr>,
    params: Seq<usize>,
    quals: Seq<ParameterQualifier>,
    raw: Seq<usize>,
    k: nat,
    n: nat,
)
    requires
        k <= n,
        spec_bind_args(a, types, locals, hir, params, quals, raw, k).error is Some,
    ensures
        spec_bind_args(a, types, locals, hir, params, quals, raw, n) == spec_bind_args(
            a,
            types,
            locals,
            hir,
            params,
            quals,
            raw,
            k,
        ),
    decreases n - k,
{
    if k < n {
        lemma_bind_error_stable(a, types, locals, hir, params, quals, raw, k, (n - 1) as nat);
    }
}

/// A write-back error at step `p` persists to every longer prefix.
proof fn lemma_wb_error_stable(
    a: ExprArena,
    hir: Seq<HirExpr>,
    types: Seq<Type>,
    proxies: Seq<(usize, usize)>,
    p: nat,
    n: nat,
)
    requires
        p <= n,
        spec_writebacks(a, hir, types, proxies, p).error is Some,
    ensures
        spec_writebacks(a, hir, types, proxies, n) == spec_writebacks(a, hir, types, proxies, p),
    decreases n - p,
{
    if p < n {
        lemma_wb_error_stable(a, hir, types, proxies, p, (n - 1) as nat);
    }
}

/// Moving the scan start left of a hit keeps the hit when nothing before
/// it matches.
proof fn lemma_lookup_from_hit(
    table: Seq<(String, Vec<FunctionDeclaration>)>,
    name: Seq<char>,
    s: nat,
    i: nat,
)
    requires
        s <= i < table.len(),
        table[i as int].0@ == name,
        forall|j: int| s <= j < i ==> #[trigger] table[j].0@ != name,
    ensures
        spec_lookup_from(table, name, s) == Some(i as int),
    decreases i - s,
{
    if s < i {
        lemma_lookup_from_hit(table, name, s + 1, i);
    }
}

/// A scan over a range with no hit comes up empty.
proof fn lemma_lookup_from_miss(
    table: Seq<(String, Vec<FunctionDeclaration>)>,
    name: Seq<char>,
    s: nat,
)
    requires
        forall|j: int| s <= j < table.len() ==> #[trigger] table[j].0@ != name,
    ensures
        spec_lookup_from(table, name, s) is None,
    decreases table.len() - s,
{
    if s < table.len() {
        lemma_lookup_from_miss(table, name, s + 1);
    }
}

/// Copies a vector of handles.
fn copy_usizes(v: &Vec<usize>) -> (r: Vec<usize>)
    ensures
        r@ == v@,
{
    let mut r: Vec<usize> = Vec::new();
    let mut i: usize = 0;
    while i < v.len()
        invariant
            i <= v@.len(),
            r@ == v@.take(i as int),
        decreases v@.len() - i,
    {
        r.push(v[i]);
        proof {
            assert(v@.take(i as int + 1) =~= v@.take(i as int).push(v@[i as int]));
        }
        i = i + 1;
    }
    proof {
        assert(v@.take(v@.len() as int) =~= v@);
    }
    r
}

/// Copies a vector of parameter qualifiers.
fn copy_qualifiers(v: &Vec<ParameterQualifier>) -> (r: Vec<ParameterQualifier>)
    ensures
        r@ == v@,
{
    let mut r: Vec<ParameterQualifier> = Vec::new();
    let mut i: usize = 0;
    while i < v.len()
        invariant
            i <= v@.len(),
            r@ == v@.take(i as int),
        decreases v@.len() - i,
    {
        r.push(v[i]);
        proof {
            assert(v@.take(i as int + 1) =~= v@.take(i as int).push(v@[i as int]));
        }
        i = i + 1;
    }
    proof {
        assert(v@.take(v@.len() as int) =~= v@);
    }
    r
}

impl Program {
    /// Well-formedness of the overload table against the module's type
    /// arena.
    pub open spec fn overloads_wf(self) -> bool {
        forall|d: int|
            0 <= d < self.lookup_function@.len() ==> decls_wf(
                (#[trigger] self.lookup_function@[d]).1@,
                self.module.types@,
            )
    }



    /// Resolves one call of the untyped call tree: lowers every raw
    /// argument as a value, then routes the call by its kind — a type
    /// constructor, a recognized builtin (by the closed name table), or a
    /// user-declared function with overload resolution, argument binding
    /// and proxy write-backs.  The produced expression handle is returned;
    /// a void user function yields none.
    pub fn function_call(
        &mut self,
        ctx: &mut Context,
        body: &mut Vec<Statement>,
        fc: FunctionCallKind,
        raw_args: &Vec<usize>,
        meta: SourceMetadata,
    ) -> (r: Result<Option<usize>, ErrorKind>)
        requires
            old(ctx).wf(),
            old(self).overloads_wf(),
            forall|i: int|
                0 <= i < raw_args@.len() ==> (#[trigger] raw_args@[i])
                    < old(ctx).hir_exprs@.len(),
            fc matches FunctionCallKind::TypeConstructor(ty) ==> ty
                < old(self).module.types@.len(),
        ensures
            final(ctx).wf(),
            final(self).overloads_wf(),
            final(ctx).hir_exprs@ == old(ctx).hir_exprs@,
            final(self).lookup_function@ == old(self).lookup_function@,
            final(self).entry_points@ == old(self).entry_points@,
            final(self).entries@ == old(self).entries@,
            final(self).function_arg_use@ == old(self).function_arg_use@,
            final(self).entry_args@ == old(self).entry_args@,
            final(self).module.global_variables@ == old(self).module.global_variables@,
            final(self).module.functions@ == old(self).module.functions@,
            final(self).module.entry_points@ == old(self).module.entry_points@,
            final(self).early_fragment_tests == old(self).early_fragment_tests,
            final(self).workgroup_size == old(self).workgroup_size,
            ({
                let la = spec_lower_args(
                    old(ctx).arena(),
                    old(ctx).hir_exprs@,
                    old(self).module.types@,
                    raw_args@,
                );
                match la.1 {
                    Err(e) => {
                        &&& r == Err::<Option<usize>, ErrorKind>(e)
                        &&& final(ctx).arena() == la.0
                        &&& final(ctx).samplers@ == old(ctx).samplers@
                        &&& final(ctx).locals@ == old(ctx).locals@
                        &&& final(ctx).emit_from == old(ctx).emit_from
                        &&& final(body)@ == old(body)@
                        &&& final(self).module.types@ == old(self).module.types@
                    },
                    Ok(args) => match fc {
                        FunctionCallKind::TypeConstructor(ty) => {
                            &&& constructor_post(
                                spec_lower_constructor(
                                    la.0,
                                    old(self).module.types@,
                                    ty as int,
                                    args,
                                    meta,
                                ),
                                final(ctx).arena(),
                                r,
                            )
                            &&& final(ctx).samplers@ == old(ctx).samplers@
                            &&& final(ctx).locals@ == old(ctx).locals@
                            &&& final(ctx).emit_from == old(ctx).emit_from
                            &&& final(body)@ == old(body)@
                            &&& final(self).module.types@ == old(self).module.types@
                        },
                        FunctionCallKind::Function(name) => match spec_builtin_of(name@) {
                            Some(tag) => ({
                                let out = spec_lower_builtin(
                                    la.0,
                                    old(ctx).samplers@,
                                    old(self).module.types@,
                                    tag,
                                    name,
                                    args,
                                    meta,
                                );
                                &&& final(ctx).arena() == out.arena
                                &&& final(ctx).samplers@ == out.samplers
                                &&& call_result_matches(out.result, r)
                                &&& final(ctx).locals@ == old(ctx).locals@
                                &&& final(ctx).emit_from == old(ctx).emit_from
                                &&& final(body)@ == old(body)@
                                &&& final(self).module.types@ == old(self).module.types@
                            }),
                            None => user_call_post(
                                CallCtxState {
                                    arena: la.0,
                                    types: old(self).module.types@,
                                    locals: old(ctx).locals@,
                                    body: old(body)@,
                                    emit_from: old(ctx).emit_from as int,
                                },
                                old(self).lookup_function@,
                                old(ctx).hir_exprs@,
                                name,
                                raw_args@,
                                args,
                                meta,
                                CallCtxState {
                                    arena: final(ctx).arena(),
                                    types: final(self).module.types@,
                                    locals: final(ctx).locals@,
                                    body: final(body)@,
                                    emit_from: final(ctx).emit_from as int,
                                },
                                r,
                            ),
                        },
                    },
                }
            }),
    {
        let mut args: Vec<(usize, SourceMetadata)> = Vec::new();
        let mut i: usize = 0;
        proof {
            assert(raw_args@.take(0) =~= Seq::<usize>::empty());
        }
        while i < raw_args.len()
            invariant
                i <= raw_args@.len(),
                *self == *old(self),
                *body == *old(body),
                self.overloads_wf(),
                ctx.wf(),
                Context::same_but_arena(*old(ctx), *ctx),
                forall|j: int|
                    0 <= j < raw_args@.len() ==> (#[trigger] raw_args@[j])
                        < old(ctx).hir_exprs@.len(),
                args@.len() == i,
                forall|j: int|
                    0 <= j < args@.len() ==> (#[trigger] args@[j]).0 < ctx.expressions@.len(),
                ({
                    let la = spec_lower_args(
                        old(ctx).arena(),
                        old(ctx).hir_exprs@,
                        old(self).module.types@,
                        raw_args@.take(i as int),
                    );
                    la.1 == Ok::<Seq<(usize, SourceMetadata)>, ErrorKind>(args@) && ctx.arena()
                        == la.0
                }),
            decreases raw_args@.len() - i,
        {
            proof {
                assert(raw_args@.take(i as int + 1).drop_last() =~= raw_args@.take(i as int));
                assert(raw_args@.take(i as int + 1).last() == raw_args@[i as int]);
            }
            let lowered = ctx.lower_expect(&self.module.types, raw_args[i], false);
            match lowered {
                Ok(p) => {
                    args.push(p);
                },
                Err(e) => {
                    proof {
                        lemma_lower_args_error_stable(
                            old(ctx).arena(),
                            old(ctx).hir_exprs@,
                            old(self).module.types@,
                            raw_args@,
                            (i + 1) as nat,
                            raw_args@.len(),
                        );
                        assert(raw_args@.take(raw_args@.len() as int) =~= raw_args@);
                    }
                    return Err(e);
                },
            }
            i = i + 1;
        }
        proof {
            assert(raw_args@.take(raw_args@.len() as int) =~= raw_args@);
        }
        match fc {
            FunctionCallKind::TypeConstructor(ty) => self.lower_constructor(ctx, ty, &args, meta),
            FunctionCallKind::Function(name) => match builtin_from_name(&name) {
                Some(tag) => self.lower_builtin(ctx, body, tag, name, &args, meta),
                None => self.lower_user_call(ctx, body, name, raw_args, &args, meta),
            },
        }
    }

    /// Lowers a call to a user-declared function: the name is looked up,
    /// the argument types resolve the overload, arguments are bound with
    /// proxy temporaries where a writable vector argument is a lane
    /// permutation, the pending emission range is flushed, the call
    /// statement is appended with the result expression of a non-void
    /// callee, and the proxy write-backs are lowered after it in call
    /// order before emission restarts.
    #[verifier::rlimit(100)]
    pub fn lower_user_call(
        &mut self,
        ctx: &mut Context,
        body: &mut Vec<Statement>,
        name: String,
        raw_args: &Vec<usize>,
        args: &Vec<(usize, SourceMetadata)>,
        meta: SourceMetadata,
    ) -> (r: Result<Option<usize>, ErrorKind>)
        requires
            old(ctx).wf(),
            old(self).overloads_wf(),
            forall|i: int|
                0 <= i < args@.len() ==> (#[trigger] args@[i]).0 < old(ctx).expressions@.len(),
            forall|i: int|
                0 <= i < raw_args@.len() ==> (#[trigger] raw_args@[i])
                    < old(ctx).hir_exprs@.len(),
            raw_args@.len() == args@.len(),
        ensures
            final(ctx).wf(),
            final(self).overloads_wf(),
            final(ctx).samplers@ == old(ctx).samplers@,
            final(ctx).hir_exprs@ == old(ctx).hir_exprs@,
            final(self).lookup_function@ == old(self).lookup_function@,
            final(self).entry_points@ == old(self).entry_points@,
            final(self).entries@ == old(self).entries@,
            final(self).function_arg_use@ == old(self).function_arg_use@,
            final(self).entry_args@ == old(self).entry_args@,
            final(self).module.global_variables@ == old(self).module.global_variables@,
            final(self).module.functions@ == old(self).module.functions@,
            final(self).module.entry_points@ == old(self).module.entry_points@,
            final(self).early_fragment_tests == old(self).early_fragment_tests,
            final(self).workgroup_size == old(self).workgroup_size,
            user_call_post(
                CallCtxState {
                    arena: old(ctx).arena(),
                    types: old(self).module.types@,
                    locals: old(ctx).locals@,
                    body: old(body)@,
                    emit_from: old(ctx).emit_from as int,
                },
                old(self).lookup_function@,
                old(ctx).hir_exprs@,
                name,
                raw_args@,
                args@,
                meta,
                CallCtxState {
                    arena: final(ctx).arena(),
                    types: final(self).module.types@,
                    locals: final(ctx).locals@,
                    body: final(body)@,
                    emit_from: final(ctx).emit_from as int,
                },
                r,
            ),
    {
        let di = match self.lookup_name(&name) {
            Some(di) => di,
            None => {
                return Err(ErrorKind::UnknownFunction { name, meta });
            },
        };
        let mut argtys: Vec<TypeResolution> = Vec::new();
        let mut i: usize = 0;
        proof {
            assert(args@.take(0) =~= Seq::<(usize, SourceMetadata)>::empty());
        }
        while i < args.len()
            invariant
                i <= args@.len(),
                *self == *old(self),
                *ctx == *old(ctx),
                *body == *old(body),
                self.overloads_wf(),
                spec_lookup_name(old(self).lookup_function@, name@) == Some(di as int),
                di < old(self).lookup_function@.len(),
                ctx.wf(),
                forall|j: int|
                    0 <= j < args@.len() ==> (#[trigger] args@[j]).0 < ctx.expressions@.len(),
                spec_resolve_args(ctx.arena(), args@.take(i as int)) == Ok::<
                    Seq<TypeResolution>,
                    ErrorKind,
                >(argtys@),
            decreases args@.len() - i,
        {
            proof {
                assert(args@.take(i as int + 1).drop_last() =~= args@.take(i as int));
                assert(args@.take(i as int + 1).last() == args@[i as int]);
            }
            match ctx.resolve_type(args[i].0, args[i].1) {
                Ok(rt) => {
                    argtys.push(rt);
                },
                Err(e) => {
                    proof {
                        lemma_resolve_args_error_stable(
                            ctx.arena(),
                            args@,
                            (i + 1) as nat,
                            args@.len(),
                        );
                        assert(args@.take(args@.len() as int) =~= args@);
                    }
                    return Err(e);
                },
            }
            i = i + 1;
        }
        proof {
            assert(args@.take(args@.len() as int) =~= args@);
        }
        let ghost gargtys = argtys@;
        proof {
            assert(decls_wf(self.lookup_function@[di as int].1@, self.module.types@));
            lemma_resolve_args_len(ctx.arena(), args@);
            lemma_found_accepts(self.lookup_function@[di as int].1@, self.module.types@, gargtys);
        }
        let ci = match resolve_overload(&self.lookup_function[di].1, &self.module.types, &argtys) {
            OverloadOutcome::Found(ci) => ci,
            OverloadOutcome::Ambiguous => {
                return Err(ErrorKind::AmbiguousFunction { name, meta });
            },
            OverloadOutcome::NoMatch => {
                return Err(ErrorKind::UnknownFunction { name, meta });
            },
        };
        let decl = &self.lookup_function[di].1[ci];
        let parameters = copy_usizes(&decl.parameters);
        let qualifiers = copy_qualifiers(&decl.qualifiers);
        let function = decl.handle;
        let is_void = decl.void;
        proof {
            assert(decls_wf(self.lookup_function@[di as int].1@, self.module.types@));
        }
        if parameters.len() != args.len() {
            proof {
                assert(false);
            }
            return Err(ErrorKind::UnknownFunction { name, meta });
        }

        let ghost gdecl = old(self).lookup_function@[di as int].1@[ci as int];
        let mut arguments: Vec<usize> = Vec::new();
        let mut proxies: Vec<(usize, usize)> = Vec::new();
        let mut k: usize = 0;
        while k < parameters.len()
            invariant
                k <= parameters@.len(),
                spec_lookup_name(old(self).lookup_function@, name@) == Some(di as int),
                di < old(self).lookup_function@.len(),
                spec_resolve_args(old(ctx).arena(), args@) == Ok::<
                    Seq<TypeResolution>,
                    ErrorKind,
                >(gargtys),
                spec_resolve_overload(
                    old(self).lookup_function@[di as int].1@,
                    old(self).module.types@,
                    gargtys,
                ) == OverloadChoice::Found(ci as int),
                gdecl == old(self).lookup_function@[di as int].1@[ci as int],
                ctx.wf(),
                self.overloads_wf(),
                parameters@ == gdecl.parameters@,
                qualifiers@ == gdecl.qualifiers@,
                parameters@.len() == raw_args@.len(),
                qualifiers@.len() == parameters@.len(),
                forall|j: int|
                    0 <= j < parameters@.len() ==> (#[trigger] parameters@[j])
                        < old(self).module.types@.len(),
                forall|j: int|
                    0 <= j < raw_args@.len() ==> (#[trigger] raw_args@[j])
                        < old(ctx).hir_exprs@.len(),
                ctx.samplers@ == old(ctx).samplers@,
                ctx.hir_exprs@ == old(ctx).hir_exprs@,
                ctx.emit_from == old(ctx).emit_from,
                self.lookup_function@ == old(self).lookup_function@,
                self.entry_points@ == old(self).entry_points@,
                self.entries@ == old(self).entries@,
                self.function_arg_use@ == old(self).function_arg_use@,
                self.entry_args@ == old(self).entry_args@,
                self.module.global_variables@ == old(self).module.global_variables@,
                self.module.functions@ == old(self).module.functions@,
                self.module.entry_points@ == old(self).module.entry_points@,
                self.early_fragment_tests == old(self).early_fragment_tests,
                self.workgroup_size == old(self).workgroup_size,
                old(self).module.types@.len() <= self.module.types@.len(),
                old(ctx).expressions@.len() <= ctx.expressions@.len(),
                forall|j: int|
                    0 <= j < proxies@.len() ==> (#[trigger] proxies@[j]).0
                        < old(ctx).hir_exprs@.len() && proxies@[j].1 < ctx.expressions@.len(),
                ({
                    let bind = spec_bind_args(
                        old(ctx).arena(),
                        old(self).module.types@,
                        old(ctx).locals@,
                        old(ctx).hir_exprs@,
                        gdecl.parameters@,
                        gdecl.qualifiers@,
                        raw_args@,
                        k as nat,
                    );
                    &&& bind.error is None
                    &&& ctx.arena() == bind.arena
                    &&& self.module.types@ == bind.types
                    &&& ctx.locals@ == bind.locals
                    &&& body@ == old(body)@ + bind.stores
                    &&& arguments@ == bind.arguments
                    &&& proxies@ == bind.proxies
                }),
            decreases parameters@.len() - k,
        {
            let qual = qualifiers[k];
            let raw = raw_args[k];
            let lowered = ctx.lower_expect(&self.module.types, raw, qual.is_lhs());
            let (mut handle, m) = match lowered {
                Ok(p) => p,
                Err(e) => {
                    proof {
                        lemma_bind_error_stable(
                            old(ctx).arena(),
                            old(self).module.types@,
                            old(ctx).locals@,
                            old(ctx).hir_exprs@,
                            gdecl.parameters@,
                            gdecl.qualifiers@,
                            raw_args@,
                            (k + 1) as nat,
                            gdecl.parameters@.len(),
                        );
                    }
                    return Err(e);
                },
            };
            let rt = match ctx.resolve_type(handle, m) {
                Ok(rt) => rt,
                Err(e) => {
                    proof {
                        lemma_bind_error_stable(
                            old(ctx).arena(),
                            old(self).module.types@,
                            old(ctx).locals@,
                            old(ctx).hir_exprs@,
                            gdecl.parameters@,
                            gdecl.qualifiers@,
                            raw_args@,
                            (k + 1) as nat,
                            gdecl.parameters@.len(),
                        );
                    }
                    return Err(e);
                },
            };
            let vector = rt_vector_parts(rt, &self.module.types);
            let swz = matches!(ctx.expressions[handle], Expression::Swizzle { .. });
            let proxy = qual.is_lhs() && vector.is_some() && swz;
            if proxy {
                let parts = vector.unwrap();
                let tyh = self.module.types.len();
                self.module.types.push(
                    Type {
                        name: None,
                        inner: TypeInner::Vector { size: parts.0, kind: parts.1, width: parts.2 },
                    },
                );
                let tv = ctx.locals.len();
                let ghost cpre = *ctx;
                ctx.locals.push(LocalVariable { name: None, ty: tyh, init: None });
                proof {
                    assert forall|ii: int| 0 <= ii < ctx.hir_exprs@.len() implies ctx.hir_wf_at(
                        ii,
                    ) by {
                        assert(cpre.hir_wf_at(ii));
                    }
                    assert(ctx.wf());
                }
                let temp = ctx.add_expression(
                    Expression::LocalVariable(tv),
                    Some(TypeResolution::Pointer { base: tyh }),
                );
                body.push(Statement::Store { pointer: temp, value: handle });
                arguments.push(temp);
                proxies.push((raw, temp));
            } else {
                match self.module.types[parameters[k]].inner.scalar_kind() {
                    Some(kk) => {
                        ctx.implicit_conversion(&self.module.types, &mut handle, kk);
                    },
                    None => {},
                }
                arguments.push(handle);
            }
            k = k + 1;
        }
        let ghost bind = spec_bind_args(
            old(ctx).arena(),
            old(self).module.types@,
            old(ctx).locals@,
            old(ctx).hir_exprs@,
            gdecl.parameters@,
            gdecl.qualifiers@,
            raw_args@,
            gdecl.parameters@.len(),
        );
        ctx.emit_flush(body);
        let ghost body1 = body@;
        let result = if !is_void {
            Some(ctx.add_expression(Expression::Call(function), None))
        } else {
            None
        };
        let ghost res_desc = if gdecl.void {
            None::<int>
        } else {
            Some(bind.arena.exprs.len() as int)
        };
        body.push(Statement::Call { function, arguments, result });
        ctx.emit_start();
        let ghost arena2 = ctx.arena();
        let ghost body2 = body@;
        let ghost emit2 = ctx.emit_from as int;
        proof {
            assert(body2.subrange(0, body1.len() as int) =~= body1);
            assert(arena2.exprs =~= if gdecl.void {
                bind.arena.exprs
            } else {
                bind.arena.exprs.push(Expression::Call(gdecl.handle))
            });
            assert(arena2.tys =~= if gdecl.void {
                bind.arena.tys
            } else {
                bind.arena.tys.push(None)
            });
        }
        let mut p: usize = 0;
        while p < proxies.len()
            invariant
                p <= proxies@.len(),
                spec_lookup_name(old(self).lookup_function@, name@) == Some(di as int),
                di < old(self).lookup_function@.len(),
                spec_resolve_args(old(ctx).arena(), args@) == Ok::<
                    Seq<TypeResolution>,
                    ErrorKind,
                >(gargtys),
                spec_resolve_overload(
                    old(self).lookup_function@[di as int].1@,
                    old(self).module.types@,
                    gargtys,
                ) == OverloadChoice::Found(ci as int),
                gdecl == old(self).lookup_function@[di as int].1@[ci as int],
                bind == spec_bind_args(
                    old(ctx).arena(),
                    old(self).module.types@,
                    old(ctx).locals@,
                    old(ctx).hir_exprs@,
                    gdecl.parameters@,
                    gdecl.qualifiers@,
                    raw_args@,
                    gdecl.parameters@.len(),
                ),
                bind.error is None,
                body1 == spec_flush_at(
                    old(ctx).emit_from as int,
                    bind.arena,
                    old(body)@ + bind.stores,
                ),
                body2.len() == body1.len() + 1,
                body2.subrange(0, body1.len() as int) == body1,
                is_call_stmt(
                    body2[body1.len() as int],
                    gdecl.handle,
                    bind.arguments,
                    res_desc,
                ),
                res_desc == if gdecl.void {
                    None::<int>
                } else {
                    Some(bind.arena.exprs.len() as int)
                },
                arena2 == if gdecl.void {
                    bind.arena
                } else {
                    bind.arena.push(Expression::Call(gdecl.handle), None)
                },
                emit2 == arena2.exprs.len() as int,
                ctx.wf(),
                ctx.samplers@ == old(ctx).samplers@,
                ctx.hir_exprs@ == old(ctx).hir_exprs@,
                ctx.locals@ == bind.locals,
                ctx.emit_from == emit2,
                self.module.types@ == bind.types,
                self.lookup_function@ == old(self).lookup_function@,
                self.entry_points@ == old(self).entry_points@,
                self.entries@ == old(self).entries@,
                self.function_arg_use@ == old(self).function_arg_use@,
                self.entry_args@ == old(self).entry_args@,
                self.module.global_variables@ == old(self).module.global_variables@,
                self.module.functions@ == old(self).module.functions@,
                self.module.entry_points@ == old(self).module.entry_points@,
                self.early_fragment_tests == old(self).early_fragment_tests,
                self.workgroup_size == old(self).workgroup_size,
                self.overloads_wf(),
                proxies@ == bind.proxies,
                arena2.exprs.len() <= ctx.expressions@.len(),
                forall|j: int|
                    0 <= j < proxies@.len() ==> (#[trigger] proxies@[j]).0
                        < old(ctx).hir_exprs@.len() && proxies@[j].1 < arena2.exprs.len(),
                ({
                    let wb = spec_writebacks(
                        arena2,
                        old(ctx).hir_exprs@,
                        bind.types,
                        bind.proxies,
                        p as nat,
                    );
                    &&& wb.error is None
                    &&& ctx.arena() == wb.arena
                    &&& body@ == body2 + wb.stores
                }),
            decreases proxies@.len() - p,
        {
            let pair = proxies[p];
            let lowered = ctx.lower_expect(&self.module.types, pair.0, true);
            let th = match lowered {
                Ok(x) => x.0,
                Err(e) => {
                    proof {
                        lemma_wb_error_stable(
                            arena2,
                            old(ctx).hir_exprs@,
                            bind.types,
                            bind.proxies,
                            (p + 1) as nat,
                            bind.proxies.len(),
                        );
                        assert(body@.subrange(0, body1.len() as int) =~= body1);
                        assert(body@.subrange(0, body1.len() as int + 1) =~= body2);
                        assert(body@ =~= body@.subrange(0, body1.len() as int + 1)
                            + spec_writebacks(
                            arena2,
                            old(ctx).hir_exprs@,
                            bind.types,
                            bind.proxies,
                            (p + 1) as nat,
                        ).stores);
                        assert(body1 == spec_flush_at(
                            old(ctx).emit_from as int,
                            bind.arena,
                            old(body)@ + bind.stores,
                        ));
                    }
                    return Err(e);
                },
            };
            let ptee = match ctx.expr_types[pair.1] {
                Some(rt) => pointee_resolution(rt, &self.module.types),
                None => None,
            };
            let load = ctx.add_expression(Expression::Load { pointer: pair.1 }, ptee);
            body.push(Statement::Store { pointer: th, value: load });
            p = p + 1;
        }
        ctx.emit_flush(body);
        ctx.emit_start();
        proof {
            let wb = spec_writebacks(
                arena2,
                old(ctx).hir_exprs@,
                bind.types,
                bind.proxies,
                bind.proxies.len(),
            );
            assert(body@.subrange(0, body1.len() as int) =~= body1);
            assert(body@.subrange(0, body1.len() as int + 1) =~= body2);
            assert(body@ =~= body@.subrange(0, body1.len() as int + 1) + wb.stores
                + spec_trailing_emit(emit2, wb.arena));
            assert(body1 == spec_flush_at(
                old(ctx).emit_from as int,
                bind.arena,
                old(body)@ + bind.stores,
            ));
        }
        Ok(result)
    }

    /// The index of the overload-table entry with this name, if any.
    pub(crate) fn lookup_name(&self, name: &String) -> (r: Option<usize>)
        ensures
            match spec_lookup_name(self.lookup_function@, name@) {
                Some(i) => r matches Some(j) && j == i,
                None => r is None,
            },
            r matches Some(j) ==> j < self.lookup_function@.len(),
    {
        let mut i: usize = 0;
        while i < self.lookup_function.len()
            invariant
                i <= self.lookup_function@.len(),
                forall|j: int| 0 <= j < i ==> #[trigger] self.lookup_function@[j].0@ != name@,
            decreases self.lookup_function@.len() - i,
        {
            if self.lookup_function[i].0 == *name {
                proof {
                    lemma_lookup_from_hit(self.lookup_function@, name@, 0, i as nat);
                }
                return Some(i);
            }
            i = i + 1;
        }
        proof {
            lemma_lookup_from_miss(self.lookup_function@, name@, 0);
        }
        None
    }
}

} // verus!
