use glslfront::context::Context;
use glslfront::error::{ErrorKind, SourceMetadata};
use glslfront::hir::{FunctionCallKind, HirExpr, HirExprKind};
use glslfront::ir::{Expression, SampleLevel, Statement};
use glslfront::program::Program;
use glslfront::types::{ImageDimension, ScalarKind, TypeResolution, VectorSize};

fn meta() -> SourceMetadata {
    SourceMetadata { start: 0, end: 0 }
}

fn new_ctx() -> Context {
    Context {
        expressions: vec![],
        expr_types: vec![],
        locals: vec![],
        samplers: vec![],
        hir_exprs: vec![],
        emit_from: 0,
    }
}

fn seed_value(ctx: &mut Context, rt: TypeResolution) -> usize {
    let h = ctx.expressions.len();
    ctx.expressions.push(Expression::FunctionArgument(h as u32));
    ctx.expr_types.push(Some(rt));
    let raw = ctx.hir_exprs.len();
    ctx.hir_exprs.push(HirExpr { kind: HirExprKind::Value(h), meta: meta() });
    raw
}

fn call(
    p: &mut Program,
    ctx: &mut Context,
    body: &mut Vec<Statement>,
    name: &str,
    raw: &Vec<usize>,
) -> Result<Option<usize>, ErrorKind> {
    p.function_call(ctx, body, FunctionCallKind::Function(String::from(name)), raw, meta())
}

#[test]
fn sampler_pairing_returns_the_texture() {
    let mut p = Program::new();
    let mut ctx = new_ctx();
    let mut body: Vec<Statement> = vec![];
    let tex = seed_value(&mut ctx, TypeResolution::Image { dim: ImageDimension::D2, arrayed: false });
    let smp = seed_value(&mut ctx, TypeResolution::Sampler);
    let r = call(&mut p, &mut ctx, &mut body, "sampler2D", &vec![tex, smp]).unwrap();
    assert_eq!(r, Some(0));
    assert_eq!(ctx.samplers, vec![(0, 1)]);
}

#[test]
fn texture_without_pairing_is_an_error() {
    let mut p = Program::new();
    let mut ctx = new_ctx();
    let mut body: Vec<Statement> = vec![];
    let tex = seed_value(&mut ctx, TypeResolution::Image { dim: ImageDimension::D2, arrayed: false });
    let uv = seed_value(
        &mut ctx,
        TypeResolution::Vector { size: VectorSize::Bi, kind: ScalarKind::Float, width: 4 },
    );
    let r = call(&mut p, &mut ctx, &mut body, "texture", &vec![tex, uv]);
    assert!(matches!(r, Err(ErrorKind::BadSamplerCall { .. })));
}

#[test]
fn texture_with_pairing_samples_automatically() {
    let mut p = Program::new();
    let mut ctx = new_ctx();
    let mut body: Vec<Statement> = vec![];
    let tex = seed_value(&mut ctx, TypeResolution::Image { dim: ImageDimension::D2, arrayed: false });
    let smp = seed_value(&mut ctx, TypeResolution::Sampler);
    let uv = seed_value(
        &mut ctx,
        TypeResolution::Vector { size: VectorSize::Bi, kind: ScalarKind::Float, width: 4 },
    );
    call(&mut p, &mut ctx, &mut body, "sampler2D", &vec![tex, smp]).unwrap();
    let pre = ctx.expressions.len();
    let r = call(&mut p, &mut ctx, &mut body, "texture", &vec![tex, uv]).unwrap();
    match ctx.expressions[pre] {
        Expression::ImageSample { image, sampler, coordinate, level, array_index, .. } => {
            assert_eq!(image, 0);
            assert_eq!(sampler, 1);
            assert_eq!(coordinate, 2);
            assert_eq!(level, SampleLevel::Auto);
            assert_eq!(array_index, None);
        },
        _ => panic!("expected an image sample"),
    }
    assert_eq!(r, Some(pre));
}

#[test]
fn texture_lod_forces_the_level_to_four_byte_float() {
    let mut p = Program::new();
    let mut ctx = new_ctx();
    let mut body: Vec<Statement> = vec![];
    let tex = seed_value(&mut ctx, TypeResolution::Image { dim: ImageDimension::D2, arrayed: false });
    let smp = seed_value(&mut ctx, TypeResolution::Sampler);
    let uv = seed_value(
        &mut ctx,
        TypeResolution::Vector { size: VectorSize::Bi, kind: ScalarKind::Float, width: 4 },
    );
    let lod = seed_value(&mut ctx, TypeResolution::Scalar { kind: ScalarKind::Sint, width: 4 });
    call(&mut p, &mut ctx, &mut body, "sampler2D", &vec![tex, smp]).unwrap();
    let pre = ctx.expressions.len();
    let r = call(&mut p, &mut ctx, &mut body, "textureLod", &vec![tex, uv, lod]).unwrap();
    assert!(matches!(
        ctx.expressions[pre],
        Expression::As { expr: 3, kind: ScalarKind::Float, convert: Some(4) }
    ));
    match ctx.expressions[pre + 1] {
        Expression::ImageSample { level, .. } => assert_eq!(level, SampleLevel::Exact(pre)),
        _ => panic!("expected an image sample"),
    }
    assert_eq!(r, Some(pre + 1));
}

#[test]
fn texel_fetch_passes_flat_coordinates_through() {
    let mut p = Program::new();
    let mut ctx = new_ctx();
    let mut body: Vec<Statement> = vec![];
    let tex = seed_value(&mut ctx, TypeResolution::Image { dim: ImageDimension::D2, arrayed: false });
    let smp = seed_value(&mut ctx, TypeResolution::Sampler);
    let xy = seed_value(
        &mut ctx,
        TypeResolution::Vector { size: VectorSize::Bi, kind: ScalarKind::Sint, width: 4 },
    );
    let level = seed_value(&mut ctx, TypeResolution::Scalar { kind: ScalarKind::Sint, width: 4 });
    call(&mut p, &mut ctx, &mut body, "sampler2D", &vec![tex, smp]).unwrap();
    let pre = ctx.expressions.len();
    let r = call(&mut p, &mut ctx, &mut body, "texelFetch", &vec![tex, xy, level]).unwrap();
    match ctx.expressions[pre] {
        Expression::ImageLoad { image, coordinate, array_index, index } => {
            assert_eq!(image, 0);
            assert_eq!(coordinate, 2);
            assert_eq!(array_index, None);
            assert_eq!(index, Some(3));
        },
        _ => panic!("expected an image load"),
    }
    assert_eq!(r, Some(pre));
}

#[test]
fn texel_fetch_splits_arrayed_coordinates() {
    let mut p = Program::new();
    let mut ctx = new_ctx();
    let mut body: Vec<Statement> = vec![];
    let tex = seed_value(&mut ctx, TypeResolution::Image { dim: ImageDimension::D2, arrayed: true });
    let smp = seed_value(&mut ctx, TypeResolution::Sampler);
    let xyz = seed_value(
        &mut ctx,
        TypeResolution::Vector { size: VectorSize::Tri, kind: ScalarKind::Sint, width: 4 },
    );
    let level = seed_value(&mut ctx, TypeResolution::Scalar { kind: ScalarKind::Sint, width: 4 });
    call(&mut p, &mut ctx, &mut body, "sampler2D", &vec![tex, smp]).unwrap();
    let pre = ctx.expressions.len();
    let r = call(&mut p, &mut ctx, &mut body, "texelFetch", &vec![tex, xyz, level]).unwrap();
    // the first two lanes become the spatial coordinate
    match ctx.expressions[pre] {
        Expression::Swizzle { size, vector, .. } => {
            assert_eq!(size, VectorSize::Bi);
            assert_eq!(vector, 2);
        },
        _ => panic!("expected a coordinate truncation"),
    }
    // the third lane becomes the array index
    match ctx.expressions[pre + 1] {
        Expression::AccessIndex { base, index } => {
            assert_eq!(base, 2);
            assert_eq!(index, 2);
        },
        _ => panic!("expected an array-index extraction"),
    }
    match ctx.expressions[pre + 2] {
        Expression::ImageLoad { coordinate, array_index, index, .. } => {
            assert_eq!(coordinate, pre);
            assert_eq!(array_index, Some(pre + 1));
            assert_eq!(index, Some(3));
        },
        _ => panic!("expected an image load"),
    }
    assert_eq!(r, Some(pre + 2));
}

#[test]
fn texel_fetch_without_pairing_is_an_error() {
    let mut p = Program::new();
    let mut ctx = new_ctx();
    let mut body: Vec<Statement> = vec![];
    let tex = seed_value(&mut ctx, TypeResolution::Image { dim: ImageDimension::D2, arrayed: false });
    let xy = seed_value(
        &mut ctx,
        TypeResolution::Vector { size: VectorSize::Bi, kind: ScalarKind::Sint, width: 4 },
    );
    let level = seed_value(&mut ctx, TypeResolution::Scalar { kind: ScalarKind::Sint, width: 4 });
    let r = call(&mut p, &mut ctx, &mut body, "texelFetch", &vec![tex, xy, level]);
    assert!(matches!(r, Err(ErrorKind::BadSamplerCall { .. })));
}
