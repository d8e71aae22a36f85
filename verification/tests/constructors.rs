use glslfront::context::Context;
use glslfront::error::{ErrorKind, SourceMetadata};
use glslfront::hir::{FunctionCallKind, HirExpr, HirExprKind};
use glslfront::ir::{Expression, MathFunction, Statement, SwizzleComponent};
use glslfront::program::Program;
use glslfront::types::{ScalarKind, Type, TypeInner, TypeResolution, VectorSize};

fn meta() -> SourceMetadata {
    SourceMetadata { start: 0, end: 0 }
}

fn new_ctx() -> Context {
    Context {
        expressions: vec![],
        expr_types: vec![],
        locals: vec![],
        samplers: vec![],
        hir_exprs: vec![],
        emit_from: 0,
    }
}

/// Seeds one already-lowered value expression with a recorded type and
/// returns the raw call-tree handle that names it.
fn seed_value(ctx: &mut Context, rt: TypeResolution) -> usize {
    let h = ctx.expressions.len();
    ctx.expressions.push(Expression::FunctionArgument(h as u32));
    ctx.expr_types.push(Some(rt));
    let raw = ctx.hir_exprs.len();
    ctx.hir_exprs.push(HirExpr { kind: HirExprKind::Value(h), meta: meta() });
    raw
}

fn register_type(p: &mut Program, inner: TypeInner) -> usize {
    let h = p.module.types.len();
    p.module.types.push(Type { name: None, inner });
    h
}

#[test]
fn scalar_constructor_emits_one_cast() {
    let mut p = Program::new();
    let mut ctx = new_ctx();
    let mut body: Vec<Statement> = vec![];
    let ty = register_type(&mut p, TypeInner::Scalar { kind: ScalarKind::Sint, width: 4 });
    let raw = seed_value(&mut ctx, TypeResolution::Scalar { kind: ScalarKind::Float, width: 4 });
    let pre = ctx.expressions.len();
    let r = p
        .function_call(&mut ctx, &mut body, FunctionCallKind::TypeConstructor(ty), &vec![raw], meta())
        .unwrap();
    assert_eq!(ctx.expressions.len(), pre + 1);
    assert_eq!(r, Some(pre));
    match ctx.expressions[pre] {
        Expression::As { expr, kind, convert } => {
            assert_eq!(expr, 0);
            assert_eq!(kind, ScalarKind::Sint);
            assert_eq!(convert, Some(4));
        },
        _ => panic!("expected a cast expression"),
    }
}

#[test]
fn scalar_constructor_rejects_vector_argument() {
    let mut p = Program::new();
    let mut ctx = new_ctx();
    let mut body: Vec<Statement> = vec![];
    let ty = register_type(&mut p, TypeInner::Scalar { kind: ScalarKind::Float, width: 4 });
    let raw = seed_value(
        &mut ctx,
        TypeResolution::Vector { size: VectorSize::Bi, kind: ScalarKind::Float, width: 4 },
    );
    let r = p.function_call(&mut ctx, &mut body, FunctionCallKind::TypeConstructor(ty), &vec![raw], meta());
    assert!(matches!(r, Err(ErrorKind::BadCast { .. })));
}

#[test]
fn vector_constructor_converts_then_splats() {
    let mut p = Program::new();
    let mut ctx = new_ctx();
    let mut body: Vec<Statement> = vec![];
    let ty = register_type(
        &mut p,
        TypeInner::Vector { size: VectorSize::Tri, kind: ScalarKind::Float, width: 4 },
    );
    let raw = seed_value(&mut ctx, TypeResolution::Scalar { kind: ScalarKind::Sint, width: 4 });
    let pre = ctx.expressions.len();
    let r = p
        .function_call(&mut ctx, &mut body, FunctionCallKind::TypeConstructor(ty), &vec![raw], meta())
        .unwrap();
    // one widening conversion, then the splat
    assert_eq!(ctx.expressions.len(), pre + 2);
    assert!(matches!(
        ctx.expressions[pre],
        Expression::As { kind: ScalarKind::Float, convert: Some(4), .. }
    ));
    match ctx.expressions[pre + 1] {
        Expression::Splat { size, value } => {
            assert_eq!(size, VectorSize::Tri);
            assert_eq!(value, pre);
        },
        _ => panic!("expected a splat"),
    }
    assert_eq!(r, Some(pre + 1));
}

#[test]
fn matrix_constructor_rebuilds_columns_from_matrix() {
    let mut p = Program::new();
    let mut ctx = new_ctx();
    let mut body: Vec<Statement> = vec![];
    let ty = register_type(
        &mut p,
        TypeInner::Matrix { columns: VectorSize::Quad, rows: VectorSize::Quad, width: 4 },
    );
    let raw = seed_value(
        &mut ctx,
        TypeResolution::Matrix { columns: VectorSize::Tri, rows: VectorSize::Tri, width: 4 },
    );
    let pre = ctx.expressions.len();
    let r = p
        .function_call(&mut ctx, &mut body, FunctionCallKind::TypeConstructor(ty), &vec![raw], meta())
        .unwrap();
    // four column extractions, four pads, one composition
    assert_eq!(ctx.expressions.len(), pre + 9);
    for n in 0..4u32 {
        match ctx.expressions[pre + 2 * n as usize] {
            Expression::AccessIndex { base, index } => {
                assert_eq!(base, 0);
                assert_eq!(index, n);
            },
            _ => panic!("expected a column access"),
        }
        match ctx.expressions[pre + 2 * n as usize + 1] {
            Expression::Swizzle { size, vector, pattern } => {
                assert_eq!(size, VectorSize::Quad);
                assert_eq!(vector, pre + 2 * n as usize);
                assert_eq!(
                    pattern,
                    [
                        SwizzleComponent::X,
                        SwizzleComponent::Y,
                        SwizzleComponent::Z,
                        SwizzleComponent::W
                    ]
                );
            },
            _ => panic!("expected a column pad"),
        }
    }
    match &ctx.expressions[pre + 8] {
        Expression::Compose { ty: t, components } => {
            assert_eq!(*t, ty);
            assert_eq!(components, &vec![pre + 1, pre + 3, pre + 5, pre + 7]);
        },
        _ => panic!("expected a composition"),
    }
    assert_eq!(r, Some(pre + 8));
}

#[test]
fn matrix_constructor_splats_scalar_per_column() {
    let mut p = Program::new();
    let mut ctx = new_ctx();
    let mut body: Vec<Statement> = vec![];
    let ty = register_type(
        &mut p,
        TypeInner::Matrix { columns: VectorSize::Bi, rows: VectorSize::Bi, width: 4 },
    );
    let raw = seed_value(&mut ctx, TypeResolution::Scalar { kind: ScalarKind::Float, width: 4 });
    let pre = ctx.expressions.len();
    let r = p
        .function_call(&mut ctx, &mut body, FunctionCallKind::TypeConstructor(ty), &vec![raw], meta())
        .unwrap();
    // no conversion (already float), one splat column, one composition
    assert_eq!(ctx.expressions.len(), pre + 2);
    assert!(matches!(ctx.expressions[pre], Expression::Splat { size: VectorSize::Bi, value: 0 }));
    match &ctx.expressions[pre + 1] {
        Expression::Compose { components, .. } => assert_eq!(components, &vec![pre, pre]),
        _ => panic!("expected a composition"),
    }
    assert_eq!(r, Some(pre + 1));
}

#[test]
fn multi_argument_constructor_composes_with_conversion() {
    let mut p = Program::new();
    let mut ctx = new_ctx();
    let mut body: Vec<Statement> = vec![];
    let ty = register_type(
        &mut p,
        TypeInner::Vector { size: VectorSize::Bi, kind: ScalarKind::Float, width: 4 },
    );
    let a = seed_value(&mut ctx, TypeResolution::Scalar { kind: ScalarKind::Sint, width: 4 });
    let b = seed_value(&mut ctx, TypeResolution::Scalar { kind: ScalarKind::Float, width: 4 });
    let pre = ctx.expressions.len();
    let r = p
        .function_call(&mut ctx, &mut body, FunctionCallKind::TypeConstructor(ty), &vec![a, b], meta())
        .unwrap();
    // the first argument widens to float; the second passes through
    assert_eq!(ctx.expressions.len(), pre + 2);
    assert!(matches!(
        ctx.expressions[pre],
        Expression::As { expr: 0, kind: ScalarKind::Float, convert: Some(4) }
    ));
    match &ctx.expressions[pre + 1] {
        Expression::Compose { components, .. } => assert_eq!(components, &vec![pre, 1]),
        _ => panic!("expected a composition"),
    }
    assert_eq!(r, Some(pre + 1));
}

#[test]
fn mix_with_boolean_control_is_select() {
    let mut p = Program::new();
    let mut ctx = new_ctx();
    let mut body: Vec<Statement> = vec![];
    let a = seed_value(&mut ctx, TypeResolution::Scalar { kind: ScalarKind::Float, width: 4 });
    let b = seed_value(&mut ctx, TypeResolution::Scalar { kind: ScalarKind::Float, width: 4 });
    let c = seed_value(&mut ctx, TypeResolution::Scalar { kind: ScalarKind::Bool, width: 1 });
    let pre = ctx.expressions.len();
    let r = p
        .function_call(
            &mut ctx,
            &mut body,
            FunctionCallKind::Function(String::from("mix")),
            &vec![a, b, c],
            meta(),
        )
        .unwrap();
    match ctx.expressions[pre] {
        Expression::Select { condition, accept, reject } => {
            assert_eq!(condition, 2);
            assert_eq!(accept, 0);
            assert_eq!(reject, 1);
        },
        _ => panic!("expected a select"),
    }
    assert_eq!(r, Some(pre));
}

#[test]
fn mix_with_numeric_control_is_interpolation() {
    let mut p = Program::new();
    let mut ctx = new_ctx();
    let mut body: Vec<Statement> = vec![];
    let a = seed_value(&mut ctx, TypeResolution::Scalar { kind: ScalarKind::Float, width: 4 });
    let b = seed_value(&mut ctx, TypeResolution::Scalar { kind: ScalarKind::Float, width: 4 });
    let c = seed_value(&mut ctx, TypeResolution::Scalar { kind: ScalarKind::Float, width: 4 });
    let pre = ctx.expressions.len();
    let r = p
        .function_call(
            &mut ctx,
            &mut body,
            FunctionCallKind::Function(String::from("mix")),
            &vec![a, b, c],
            meta(),
        )
        .unwrap();
    assert!(matches!(
        ctx.expressions[pre],
        Expression::Math { fun: MathFunction::Mix, arg: 0, arg1: Some(1), arg2: Some(2) }
    ));
    assert_eq!(r, Some(pre));
}

#[test]
fn unary_builtin_arity_is_checked() {
    let mut p = Program::new();
    let mut ctx = new_ctx();
    let mut body: Vec<Statement> = vec![];
    let a = seed_value(&mut ctx, TypeResolution::Scalar { kind: ScalarKind::Float, width: 4 });
    let b = seed_value(&mut ctx, TypeResolution::Scalar { kind: ScalarKind::Float, width: 4 });
    let r = p.function_call(
        &mut ctx,
        &mut body,
        FunctionCallKind::Function(String::from("ceil")),
        &vec![a, b],
        meta(),
    );
    match r {
        Err(ErrorKind::WrongFunctionArgs { name, expected, got, .. }) => {
            assert_eq!(name, "ceil");
            assert_eq!(expected, 1);
            assert_eq!(got, 2);
        },
        _ => panic!("expected an arity error"),
    }
}

#[test]
fn atan_dispatches_on_arity() {
    let mut p = Program::new();
    let mut ctx = new_ctx();
    let mut body: Vec<Statement> = vec![];
    let a = seed_value(&mut ctx, TypeResolution::Scalar { kind: ScalarKind::Float, width: 4 });
    let b = seed_value(&mut ctx, TypeResolution::Scalar { kind: ScalarKind::Float, width: 4 });
    let one = p
        .function_call(
            &mut ctx,
            &mut body,
            FunctionCallKind::Function(String::from("atan")),
            &vec![a],
            meta(),
        )
        .unwrap()
        .unwrap();
    assert!(matches!(
        ctx.expressions[one],
        Expression::Math { fun: MathFunction::Atan, arg1: None, .. }
    ));
    let two = p
        .function_call(
            &mut ctx,
            &mut body,
            FunctionCallKind::Function(String::from("atan")),
            &vec![a, b],
            meta(),
        )
        .unwrap()
        .unwrap();
    assert!(matches!(
        ctx.expressions[two],
        Expression::Math { fun: MathFunction::Atan2, arg1: Some(1), .. }
    ));
    let three = p.function_call(
        &mut ctx,
        &mut body,
        FunctionCallKind::Function(String::from("atan")),
        &vec![a, b, b],
        meta(),
    );
    assert!(matches!(three, Err(ErrorKind::WrongFunctionArgs { expected: 2, got: 3, .. })));
}

#[test]
fn modulo_widens_the_narrower_operand() {
    let mut p = Program::new();
    let mut ctx = new_ctx();
    let mut body: Vec<Statement> = vec![];
    let a = seed_value(&mut ctx, TypeResolution::Scalar { kind: ScalarKind::Sint, width: 4 });
    let b = seed_value(&mut ctx, TypeResolution::Scalar { kind: ScalarKind::Float, width: 4 });
    let pre = ctx.expressions.len();
    let r = p
        .function_call(
            &mut ctx,
            &mut body,
            FunctionCallKind::Function(String::from("mod")),
            &vec![a, b],
            meta(),
        )
        .unwrap();
    // the integer operand is widened to float before the modulo
    assert!(matches!(
        ctx.expressions[pre],
        Expression::As { expr: 0, kind: ScalarKind::Float, convert: Some(4) }
    ));
    match ctx.expressions[pre + 1] {
        Expression::Binary { op: glslfront::ir::BinaryOperator::Modulo, left, right } => {
            assert_eq!(left, pre);
            assert_eq!(right, 1);
        },
        _ => panic!("expected a modulo"),
    }
    assert_eq!(r, Some(pre + 1));
}

#[test]
fn comparison_builtin_emits_elementwise_operator() {
    let mut p = Program::new();
    let mut ctx = new_ctx();
    let mut body: Vec<Statement> = vec![];
    let a = seed_value(
        &mut ctx,
        TypeResolution::Vector { size: VectorSize::Bi, kind: ScalarKind::Float, width: 4 },
    );
    let b = seed_value(
        &mut ctx,
        TypeResolution::Vector { size: VectorSize::Bi, kind: ScalarKind::Float, width: 4 },
    );
    let pre = ctx.expressions.len();
    let r = p
        .function_call(
            &mut ctx,
            &mut body,
            FunctionCallKind::Function(String::from("lessThan")),
            &vec![a, b],
            meta(),
        )
        .unwrap();
    assert!(matches!(
        ctx.expressions[pre],
        Expression::Binary { op: glslfront::ir::BinaryOperator::Less, left: 0, right: 1 }
    ));
    assert_eq!(r, Some(pre));
}

#[test]
fn relational_builtin_takes_one_argument() {
    let mut p = Program::new();
    let mut ctx = new_ctx();
    let mut body: Vec<Statement> = vec![];
    let a = seed_value(
        &mut ctx,
        TypeResolution::Vector { size: VectorSize::Tri, kind: ScalarKind::Bool, width: 1 },
    );
    let pre = ctx.expressions.len();
    let r = p
        .function_call(
            &mut ctx,
            &mut body,
            FunctionCallKind::Function(String::from("all")),
            &vec![a],
            meta(),
        )
        .unwrap();
    assert!(matches!(
        ctx.expressions[pre],
        Expression::Relational { fun: glslfront::ir::RelationalFunction::All, argument: 0 }
    ));
    assert_eq!(r, Some(pre));
}
