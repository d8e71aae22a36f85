use glslfront::context::Context;
use glslfront::error::{ErrorKind, SourceMetadata};
use glslfront::hir::{
    FunctionCallKind, HirExpr, HirExprKind, ParameterQualifier, VariableReference,
};
use glslfront::ir::{
    Expression, Function, FunctionResult, LocalVariable, Statement, identity_pattern,
};
use glslfront::program::Program;
use glslfront::types::{ScalarKind, Type, TypeInner, TypeResolution, VectorSize};

fn meta() -> SourceMetadata {
    SourceMetadata { start: 0, end: 0 }
}

fn new_ctx() -> Context {
    Context {
        expressions: vec![],
        expr_types: vec![],
        locals: vec![],
        samplers: vec![],
        hir_exprs: vec![],
        emit_from: 0,
    }
}

fn seed_value(ctx: &mut Context, rt: TypeResolution) -> usize {
    let h = ctx.expressions.len();
    ctx.expressions.push(Expression::FunctionArgument(h as u32));
    ctx.expr_types.push(Some(rt));
    let raw = ctx.hir_exprs.len();
    ctx.hir_exprs.push(HirExpr { kind: HirExprKind::Value(h), meta: meta() });
    raw
}

fn register_type(p: &mut Program, inner: TypeInner) -> usize {
    let h = p.module.types.len();
    p.module.types.push(Type { name: None, inner });
    h
}

fn empty_function(result: Option<usize>) -> Function {
    Function {
        name: None,
        arguments: vec![],
        local_variables: vec![],
        expressions: vec![],
        body: vec![],
        result: result.map(|ty| FunctionResult { ty, binding: None }),
    }
}

#[test]
fn exact_overload_wins_over_widening() {
    let mut p = Program::new();
    let t_float = register_type(&mut p, TypeInner::Scalar { kind: ScalarKind::Float, width: 4 });
    let t_int = register_type(&mut p, TypeInner::Scalar { kind: ScalarKind::Sint, width: 4 });
    let float_overload = p
        .add_function(
            empty_function(Some(t_float)),
            String::from("f"),
            vec![t_float],
            vec![ParameterQualifier::In],
            meta(),
        )
        .unwrap();
    let int_overload = p
        .add_function(
            empty_function(Some(t_int)),
            String::from("f"),
            vec![t_int],
            vec![ParameterQualifier::In],
            meta(),
        )
        .unwrap();
    assert_ne!(float_overload, int_overload);
    let mut ctx = new_ctx();
    let mut body: Vec<Statement> = vec![];
    let arg = seed_value(&mut ctx, TypeResolution::Scalar { kind: ScalarKind::Sint, width: 4 });
    let r = p
        .function_call(&mut ctx, &mut body, FunctionCallKind::Function(String::from("f")), &vec![arg], meta())
        .unwrap();
    // the call binds to the exact integer overload, not the reachable float one
    let call = body.iter().find_map(|s| match s {
        Statement::Call { function, arguments, result } => {
            Some((*function, arguments.clone(), *result))
        },
        _ => None,
    });
    let (function, arguments, result) = call.expect("a call statement");
    assert_eq!(function, int_overload);
    assert_eq!(arguments, vec![0]);
    assert_eq!(result, r);
    assert!(r.is_some());
}

#[test]
fn two_widening_candidates_are_ambiguous() {
    let mut p = Program::new();
    let t_float = register_type(&mut p, TypeInner::Scalar { kind: ScalarKind::Float, width: 4 });
    let t_double = register_type(&mut p, TypeInner::Scalar { kind: ScalarKind::Float, width: 8 });
    p.add_function(
        empty_function(None),
        String::from("h"),
        vec![t_float],
        vec![ParameterQualifier::In],
        meta(),
    )
    .unwrap();
    p.add_function(
        empty_function(None),
        String::from("h"),
        vec![t_double],
        vec![ParameterQualifier::In],
        meta(),
    )
    .unwrap();
    let mut ctx = new_ctx();
    let mut body: Vec<Statement> = vec![];
    let arg = seed_value(&mut ctx, TypeResolution::Scalar { kind: ScalarKind::Sint, width: 4 });
    let r = p.function_call(
        &mut ctx,
        &mut body,
        FunctionCallKind::Function(String::from("h")),
        &vec![arg],
        meta(),
    );
    match r {
        Err(ErrorKind::AmbiguousFunction { name, .. }) => assert_eq!(name, "h"),
        _ => panic!("expected an ambiguity error"),
    }
}

#[test]
fn unknown_function_is_reported() {
    let mut p = Program::new();
    let mut ctx = new_ctx();
    let mut body: Vec<Statement> = vec![];
    let arg = seed_value(&mut ctx, TypeResolution::Scalar { kind: ScalarKind::Float, width: 4 });
    let r = p.function_call(
        &mut ctx,
        &mut body,
        FunctionCallKind::Function(String::from("nosuch")),
        &vec![arg],
        meta(),
    );
    match r {
        Err(ErrorKind::UnknownFunction { name, .. }) => assert_eq!(name, "nosuch"),
        _ => panic!("expected an unknown-function error"),
    }
}

#[test]
fn no_viable_candidate_is_unknown() {
    let mut p = Program::new();
    let t_float = register_type(&mut p, TypeInner::Scalar { kind: ScalarKind::Float, width: 4 });
    p.add_function(
        empty_function(None),
        String::from("k"),
        vec![t_float],
        vec![ParameterQualifier::In],
        meta(),
    )
    .unwrap();
    let mut ctx = new_ctx();
    let mut body: Vec<Statement> = vec![];
    // a boolean argument has no conversion rank and reaches nothing
    let arg = seed_value(&mut ctx, TypeResolution::Scalar { kind: ScalarKind::Bool, width: 1 });
    let r = p.function_call(
        &mut ctx,
        &mut body,
        FunctionCallKind::Function(String::from("k")),
        &vec![arg],
        meta(),
    );
    assert!(matches!(r, Err(ErrorKind::UnknownFunction { .. })));
}

#[test]
fn swizzle_out_argument_goes_through_a_proxy() {
    let mut p = Program::new();
    let t_vec2 = register_type(
        &mut p,
        TypeInner::Vector { size: VectorSize::Bi, kind: ScalarKind::Float, width: 4 },
    );
    let callee = p
        .add_function(
            empty_function(None),
            String::from("g"),
            vec![t_vec2],
            vec![ParameterQualifier::Out],
            meta(),
        )
        .unwrap();
    let mut ctx = new_ctx();
    // the vector variable `v`, addressable through a pointer expression
    ctx.locals.push(LocalVariable { name: None, ty: t_vec2, init: None });
    let vptr = ctx.expressions.len();
    ctx.expressions.push(Expression::LocalVariable(0));
    ctx.expr_types.push(Some(TypeResolution::Pointer { base: t_vec2 }));
    let var_node = ctx.hir_exprs.len();
    ctx.hir_exprs.push(HirExpr {
        kind: HirExprKind::Variable(VariableReference { expr: vptr, load: true, mutable: true }),
        meta: meta(),
    });
    // the raw argument `v.xy`
    let swz_node = ctx.hir_exprs.len();
    ctx.hir_exprs.push(HirExpr {
        kind: HirExprKind::Swizzle {
            vector: var_node,
            size: VectorSize::Bi,
            pattern: identity_pattern(),
        },
        meta: meta(),
    });
    let mut body: Vec<Statement> = vec![];
    let pre_types = p.module.types.len();
    let r = p
        .function_call(
            &mut ctx,
            &mut body,
            FunctionCallKind::Function(String::from("g")),
            &vec![swz_node],
            meta(),
        )
        .unwrap();
    assert_eq!(r, None);
    // a fresh vector type and a fresh local back the proxy temporary
    assert_eq!(p.module.types.len(), pre_types + 1);
    assert_eq!(ctx.locals.len(), 2);
    // the pre-call store copies the swizzled value into the temporary
    let (temp, swizzled) = match body[0] {
        Statement::Store { pointer, value } => (pointer, value),
        _ => panic!("expected the pre-call store"),
    };
    assert!(matches!(ctx.expressions[temp], Expression::LocalVariable(1)));
    assert!(matches!(ctx.expressions[swizzled], Expression::Swizzle { .. }));
    // the call receives the temporary's address, not the vector's
    match &body[2] {
        Statement::Call { function, arguments, result } => {
            assert_eq!(*function, callee);
            assert_eq!(arguments, &vec![temp]);
            assert_eq!(*result, None);
        },
        _ => panic!("expected the call statement"),
    }
    // after the call the temporary's value is written back into the lanes
    let (target, written) = match body[3] {
        Statement::Store { pointer, value } => (pointer, value),
        _ => panic!("expected the write-back store"),
    };
    match ctx.expressions[written] {
        Expression::Load { pointer } => assert_eq!(pointer, temp),
        _ => panic!("expected a load of the temporary"),
    }
    match ctx.expressions[target] {
        Expression::Swizzle { vector, .. } => {
            match ctx.expressions[vector] {
                Expression::Load { pointer } => assert_eq!(pointer, vptr),
                _ => panic!("expected the original vector"),
            }
        },
        _ => panic!("expected the original swizzle target"),
    }
}

#[test]
fn prototype_then_definition_shares_the_handle() {
    let mut p = Program::new();
    let t_float = register_type(&mut p, TypeInner::Scalar { kind: ScalarKind::Float, width: 4 });
    p.add_prototype(
        empty_function(None),
        String::from("f"),
        vec![t_float],
        vec![ParameterQualifier::In],
        meta(),
    )
    .unwrap();
    assert!(!p.lookup_function[0].1[0].defined);
    let proto_handle = p.lookup_function[0].1[0].handle;
    let handle = p
        .add_function(
            empty_function(None),
            String::from("f"),
            vec![t_float],
            vec![ParameterQualifier::In],
            meta(),
        )
        .unwrap();
    assert_eq!(handle, proto_handle);
    assert!(p.lookup_function[0].1[0].defined);
    assert_eq!(p.lookup_function.len(), 1);
    assert_eq!(p.lookup_function[0].1.len(), 1);
}

#[test]
fn redefinition_is_an_error() {
    let mut p = Program::new();
    let t_float = register_type(&mut p, TypeInner::Scalar { kind: ScalarKind::Float, width: 4 });
    p.add_function(
        empty_function(None),
        String::from("f"),
        vec![t_float],
        vec![ParameterQualifier::In],
        meta(),
    )
    .unwrap();
    let r = p.add_function(
        empty_function(None),
        String::from("f"),
        vec![t_float],
        vec![ParameterQualifier::In],
        meta(),
    );
    assert!(matches!(r, Err(ErrorKind::FunctionAlreadyDefined { .. })));
}

#[test]
fn repeated_prototype_is_an_error() {
    let mut p = Program::new();
    let t_float = register_type(&mut p, TypeInner::Scalar { kind: ScalarKind::Float, width: 4 });
    p.add_prototype(
        empty_function(None),
        String::from("f"),
        vec![t_float],
        vec![ParameterQualifier::In],
        meta(),
    )
    .unwrap();
    let r = p.add_prototype(
        empty_function(None),
        String::from("f"),
        vec![t_float],
        vec![ParameterQualifier::In],
        meta(),
    );
    assert!(matches!(r, Err(ErrorKind::PrototypeAlreadyDefined { .. })));
}

#[test]
fn registered_bodies_end_in_a_return() {
    let mut p = Program::new();
    let t_float = register_type(&mut p, TypeInner::Scalar { kind: ScalarKind::Float, width: 4 });
    let handle = p
        .add_function(
            empty_function(None),
            String::from("f"),
            vec![t_float],
            vec![ParameterQualifier::In],
            meta(),
        )
        .unwrap();
    match p.module.functions[handle].body.last() {
        Some(Statement::Return { value: None }) => {},
        _ => panic!("expected a terminating return"),
    }
}
