use glslfront::context::Context;
use glslfront::error::{ErrorKind, SourceMetadata};
use glslfront::hir::{FunctionCallKind, HirExpr, HirExprKind};
use glslfront::ir::{Expression, Statement, identity_pattern};
use glslfront::program::Program;
use glslfront::types::{ScalarKind, TypeResolution, VectorSize};

fn meta() -> SourceMetadata {
    SourceMetadata { start: 3, end: 7 }
}

fn new_ctx() -> Context {
    Context {
        expressions: vec![],
        expr_types: vec![],
        locals: vec![],
        samplers: vec![],
        hir_exprs: vec![],
        emit_from: 0,
    }
}

fn seed(ctx: &mut Context, rt: Option<TypeResolution>) -> usize {
    let h = ctx.expressions.len();
    ctx.expressions.push(Expression::FunctionArgument(h as u32));
    ctx.expr_types.push(rt);
    let raw = ctx.hir_exprs.len();
    ctx.hir_exprs.push(HirExpr { kind: HirExprKind::Value(h), meta: meta() });
    raw
}

#[test]
fn modulo_of_unrankable_kinds_is_incompatible() {
    let mut p = Program::new();
    let mut ctx = new_ctx();
    let mut body: Vec<Statement> = vec![];
    let a = seed(&mut ctx, Some(TypeResolution::Scalar { kind: ScalarKind::Bool, width: 1 }));
    let b = seed(&mut ctx, Some(TypeResolution::Scalar { kind: ScalarKind::Sint, width: 4 }));
    let r = p.function_call(
        &mut ctx,
        &mut body,
        FunctionCallKind::Function(String::from("mod")),
        &vec![a, b],
        meta(),
    );
    assert!(matches!(r, Err(ErrorKind::IncompatibleOperands { .. })));
}

#[test]
fn unresolved_control_type_fails_resolution() {
    let mut p = Program::new();
    let mut ctx = new_ctx();
    let mut body: Vec<Statement> = vec![];
    let a = seed(&mut ctx, Some(TypeResolution::Scalar { kind: ScalarKind::Float, width: 4 }));
    let b = seed(&mut ctx, Some(TypeResolution::Scalar { kind: ScalarKind::Float, width: 4 }));
    // the control argument has no recorded type
    let c = seed(&mut ctx, None);
    let r = p.function_call(
        &mut ctx,
        &mut body,
        FunctionCallKind::Function(String::from("mix")),
        &vec![a, b, c],
        meta(),
    );
    match r {
        Err(ErrorKind::TypeResolutionFailed { meta: m }) => {
            assert_eq!(m.start, 3);
            assert_eq!(m.end, 7);
        },
        _ => panic!("expected a resolution failure"),
    }
}

#[test]
fn lane_selection_over_a_scalar_is_invalid() {
    let mut p = Program::new();
    let mut ctx = new_ctx();
    let mut body: Vec<Statement> = vec![];
    let scalar = seed(&mut ctx, Some(TypeResolution::Scalar { kind: ScalarKind::Float, width: 4 }));
    let bad = ctx.hir_exprs.len();
    ctx.hir_exprs.push(HirExpr {
        kind: HirExprKind::Swizzle {
            vector: scalar,
            size: VectorSize::Bi,
            pattern: identity_pattern(),
        },
        meta: meta(),
    });
    let r = p.function_call(
        &mut ctx,
        &mut body,
        FunctionCallKind::Function(String::from("ceil")),
        &vec![bad],
        meta(),
    );
    assert!(matches!(r, Err(ErrorKind::InvalidHir { .. })));
}
