use glslfront::ir::{Expression, Function, GlobalVariable, ShaderStage, Statement};
use glslfront::program::{EntryArg, EntryArgUse, PrologueStages, Program};
use glslfront::types::{Binding, ScalarKind, Type, TypeInner};

fn register_type(p: &mut Program, inner: TypeInner) -> usize {
    let h = p.module.types.len();
    p.module.types.push(Type { name: None, inner });
    h
}

fn empty_function() -> Function {
    Function {
        name: None,
        arguments: vec![],
        local_variables: vec![],
        expressions: vec![],
        body: vec![],
        result: None,
    }
}

fn fragment_only() -> PrologueStages {
    PrologueStages { vertex: false, fragment: true, compute: false }
}

/// A module with one helper that reads global `A` and writes global `B`,
/// called by the body of the fragment entry `main`.
fn reader_writer_program() -> Program {
    let mut p = Program::new();
    let t_float = register_type(&mut p, TypeInner::Scalar { kind: ScalarKind::Float, width: 4 });
    p.module.global_variables.push(GlobalVariable { name: Some(String::from("A")), ty: t_float });
    p.module.global_variables.push(GlobalVariable { name: Some(String::from("B")), ty: t_float });
    p.entry_args.push(EntryArg {
        name: Some(String::from("A")),
        binding: Binding::Location(0),
        handle: 0,
        prologue: fragment_only(),
    });
    p.entry_args.push(EntryArg {
        name: Some(String::from("B")),
        binding: Binding::Location(0),
        handle: 1,
        prologue: fragment_only(),
    });
    // the helper, with its usage recorded by earlier lowering
    p.module.functions.push(empty_function());
    p.function_arg_use.push(vec![
        EntryArgUse { read: true, write: false },
        EntryArgUse { read: false, write: true },
    ]);
    // the entry body calls the helper
    let mut entry_body = empty_function();
    entry_body.body.push(Statement::Call { function: 0, arguments: vec![], result: None });
    p.module.functions.push(entry_body);
    p.function_arg_use.push(vec![]);
    p.entries.push((String::from("main"), ShaderStage::Fragment, 1));
    p
}

#[test]
fn entry_synthesis_loads_inputs_and_returns_outputs() {
    let mut p = reader_writer_program();
    p.add_entry_points();
    assert_eq!(p.module.entry_points.len(), 1);
    let ep = &p.module.entry_points[0];
    assert_eq!(ep.name, "main");
    assert_eq!(ep.stage, ShaderStage::Fragment);
    assert!(ep.early_depth_test.is_none());
    assert_eq!(ep.workgroup_size, [0, 0, 0]);
    let f = &ep.function;
    // the read global becomes the one real parameter, with A's type
    assert_eq!(f.arguments.len(), 1);
    assert_eq!(f.arguments[0].ty, 0);
    assert_eq!(f.arguments[0].name.as_deref(), Some("A"));
    // the parameter is stored into the global before the call
    assert!(matches!(f.expressions[0], Expression::GlobalVariable(0)));
    assert!(matches!(f.expressions[1], Expression::FunctionArgument(0)));
    assert!(matches!(f.body[0], Statement::Store { pointer: 0, value: 1 }));
    // the underlying function is called with no arguments and no result
    match &f.body[1] {
        Statement::Call { function, arguments, result } => {
            assert_eq!(*function, 1);
            assert!(arguments.is_empty());
            assert!(result.is_none());
        },
        _ => panic!("expected the entry call"),
    }
    // the written global is loaded and wrapped into a one-member struct
    assert!(matches!(f.expressions[2], Expression::GlobalVariable(1)));
    assert!(matches!(f.expressions[3], Expression::Load { pointer: 2 }));
    let result = f.result.as_ref().expect("an output struct");
    match &p.module.types[result.ty].inner {
        TypeInner::Struct { members, span } => {
            assert_eq!(members.len(), 1);
            assert_eq!(members[0].ty, 0);
            assert_eq!(members[0].offset, 0);
            assert_eq!(members[0].name.as_deref(), Some("B"));
            assert_eq!(*span, 4);
        },
        _ => panic!("expected a struct result type"),
    }
    match &f.expressions[4] {
        Expression::Compose { ty, components } => {
            assert_eq!(*ty, result.ty);
            assert_eq!(components, &vec![3]);
        },
        _ => panic!("expected the output composition"),
    }
    match f.body.last() {
        Some(Statement::Return { value: Some(v) }) => assert_eq!(*v, 4),
        _ => panic!("expected a value return"),
    }
}

#[test]
fn usage_propagates_from_callee_to_caller() {
    let p = reader_writer_program();
    let mut fau = p.function_arg_use.clone();
    let stmt = Statement::Call { function: 0, arguments: vec![], result: None };
    p.check_call_global(1, &mut fau, &stmt);
    assert_eq!(fau[1].len(), 2);
    assert!(fau[1][0].read);
    assert!(fau[1][1].write);
    // the callee's own record is untouched
    assert!(fau[0][0].read && !fau[0][0].write);
}

#[test]
fn propagation_is_stable_once_closed() {
    let p = reader_writer_program();
    let mut fau = p.function_arg_use.clone();
    let stmt = Statement::Call { function: 0, arguments: vec![], result: None };
    p.check_call_global(1, &mut fau, &stmt);
    let stabilized = fau.clone();
    // running the pass again on the already-stabilized records changes nothing
    p.check_call_global(1, &mut fau, &stmt);
    assert_eq!(fau, stabilized);
}

#[test]
fn propagation_walks_nested_statements() {
    let p = reader_writer_program();
    let mut fau = p.function_arg_use.clone();
    let call = Statement::Call { function: 0, arguments: vec![], result: None };
    let stmt = Statement::If {
        condition: 0,
        accept: vec![Statement::Block(vec![call])],
        reject: vec![],
    };
    p.check_call_global(1, &mut fau, &stmt);
    assert_eq!(fau[1].len(), 2);
    assert!(fau[1][0].read);
    assert!(fau[1][1].write);
}

#[test]
fn early_depth_test_marks_fragment_entries_only() {
    let mut p = reader_writer_program();
    p.early_fragment_tests = true;
    p.add_entry_points();
    assert!(p.module.entry_points[0].early_depth_test.is_some());
}

#[test]
fn compute_entries_carry_the_workgroup_size() {
    let mut p = Program::new();
    p.module.functions.push(empty_function());
    p.function_arg_use.push(vec![]);
    p.entries.push((String::from("cs"), ShaderStage::Compute, 0));
    p.workgroup_size = [8, 4, 1];
    p.add_entry_points();
    let ep = &p.module.entry_points[0];
    assert_eq!(ep.workgroup_size, [8, 4, 1]);
    assert!(ep.early_depth_test.is_none());
    // no stage-interface arguments: the body is just the call and a return
    assert_eq!(ep.function.body.len(), 2);
    assert!(ep.function.result.is_none());
}
