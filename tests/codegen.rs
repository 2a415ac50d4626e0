use thrush::codegen::{CodegenError, Compiler, Instruction, NodeKind};
use thrush::ir::{FnLinkage, IrOp, IrParam, Operand};
use thrush::types::DataTypes;
use thrush::diagnostic::Diagnostic;
use thrush::error::{ThrushError, ThrushErrorKind};

fn var(name: &str, kind: DataTypes, value: Option<Instruction>) -> Instruction {
    Instruction::Var { name: name.to_string(), kind, value: value.map(Box::new), line: 1 }
}

fn refvar(name: &str, kind: DataTypes) -> Instruction {
    Instruction::RefVar { name: name.to_string(), line: 2, kind }
}

fn block(stmts: Vec<Instruction>) -> Instruction {
    Instruction::Block { stmts }
}

#[test]
fn uninitialized_i32_is_zeroed_loaded_and_printed() {
    let prog = vec![
        var("x", DataTypes::I32, None),
        Instruction::Print(vec![refvar("x", DataTypes::I32)]),
    ];
    let ops = Compiler::compile(&prog).unwrap();
    assert_eq!(
        ops,
        vec![
            IrOp::Alloca { cell: 0, kind: DataTypes::I32 },
            IrOp::Store { cell: 0, kind: DataTypes::I32, bits: 0, align: 4 },
            IrOp::Load { reg: 1, cell: 0, kind: DataTypes::I32, align: 4 },
            IrOp::DeclarePrintf,
            IrOp::CallPrintf { args: vec![Operand::Register(1)] },
        ]
    );
}

#[test]
fn uninitialized_float_is_zeroed() {
    let ops = Compiler::compile(&vec![var("f", DataTypes::F64, None)]).unwrap();
    assert_eq!(ops[1], IrOp::Store { cell: 0, kind: DataTypes::F64, bits: 0, align: 4 });
}

#[test]
fn initialized_integer_stores_its_literal() {
    let ops = Compiler::compile(&vec![var(
        "n",
        DataTypes::U8,
        Some(Instruction::Integer(DataTypes::U8, 7)),
    )])
    .unwrap();
    assert_eq!(ops[1], IrOp::Store { cell: 0, kind: DataTypes::U8, bits: 7, align: 4 });
}

#[test]
fn float_literal_keeps_its_bits() {
    let bits = 2.5f64.to_bits();
    let ops = Compiler::compile(&vec![var(
        "f",
        DataTypes::F64,
        Some(Instruction::Integer(DataTypes::F64, bits)),
    )])
    .unwrap();
    assert_eq!(ops[1], IrOp::Store { cell: 0, kind: DataTypes::F64, bits, align: 4 });
}

#[test]
fn empty_entry_wrapper_returns_success() {
    let ops =
        Compiler::compile(&vec![Instruction::EntryPoint { body: Box::new(block(vec![])) }])
            .unwrap();
    assert_eq!(
        ops,
        vec![IrOp::BeginEntry, IrOp::Return(Operand::Const(DataTypes::I32, 0))]
    );
}

#[test]
fn second_entry_wrapper_is_an_error() {
    let prog = vec![
        Instruction::EntryPoint { body: Box::new(block(vec![])) },
        Instruction::EntryPoint { body: Box::new(block(vec![])) },
    ];
    assert_eq!(Compiler::compile(&prog), Err(CodegenError::DuplicateEntry));
}

#[test]
fn print_support_is_declared_once() {
    let prog = vec![
        Instruction::Print(vec![Instruction::Integer(DataTypes::I32, 1)]),
        Instruction::Println(vec![Instruction::Integer(DataTypes::I64, 2)]),
        Instruction::Print(vec![]),
    ];
    let ops = Compiler::compile(&prog).unwrap();
    let declared = ops.iter().filter(|op| **op == IrOp::DeclarePrintf).count();
    assert_eq!(declared, 1);
    assert_eq!(ops[0], IrOp::DeclarePrintf);
    assert_eq!(ops[1], IrOp::CallPrintf { args: vec![Operand::Const(DataTypes::I32, 1)] });
    assert_eq!(ops[2], IrOp::CallPrintf { args: vec![Operand::Const(DataTypes::I64, 2)] });
}

#[test]
fn string_literal_argument_becomes_constant_global() {
    let prog = vec![Instruction::Println(vec![Instruction::String("hi".to_string())])];
    let ops = Compiler::compile(&prog).unwrap();
    assert_eq!(
        ops,
        vec![
            IrOp::DeclarePrintf,
            IrOp::ConstString { global: 0, text: "hi".to_string() },
            IrOp::CallPrintf { args: vec![Operand::Global(0)] },
        ]
    );
}

#[test]
fn string_binding_survives_its_block() {
    let prog = vec![
        block(vec![var("s", DataTypes::String, Some(Instruction::String("abc".to_string())))]),
        Instruction::Print(vec![refvar("s", DataTypes::String)]),
    ];
    let ops = Compiler::compile(&prog).unwrap();
    assert_eq!(
        ops[0],
        IrOp::GlobalString { global: 0, name: "s".to_string(), text: "abc".to_string() }
    );
    assert_eq!(ops[2], IrOp::CallPrintf { args: vec![Operand::Global(0)] });
}

#[test]
fn boolean_binding_survives_its_block() {
    let prog = vec![
        block(vec![block(vec![var("b", DataTypes::Bool, Some(Instruction::Boolean(true)))])]),
        Instruction::Print(vec![refvar("b", DataTypes::Bool)]),
    ];
    let ops = Compiler::compile(&prog).unwrap();
    assert_eq!(ops[0], IrOp::GlobalBool { global: 0, value: true });
    assert_eq!(ops[2], IrOp::CallPrintf { args: vec![Operand::Global(0)] });
}

#[test]
fn uninitialized_string_holds_a_nul() {
    let ops = Compiler::compile(&vec![var("s", DataTypes::String, None)]).unwrap();
    assert_eq!(
        ops,
        vec![IrOp::GlobalString { global: 0, name: "s".to_string(), text: "\0".to_string() }]
    );
}

#[test]
fn numeric_binding_dies_with_its_block() {
    let prog = vec![
        block(vec![var("n", DataTypes::I32, None)]),
        Instruction::Print(vec![refvar("n", DataTypes::I32)]),
    ];
    assert_eq!(
        Compiler::compile(&prog),
        Err(CodegenError::SymbolNotFound { name: "n".to_string(), line: 2 })
    );
}

#[test]
fn numeric_binding_is_visible_in_nested_block() {
    let prog = vec![block(vec![
        var("n", DataTypes::I64, None),
        block(vec![Instruction::Print(vec![refvar("n", DataTypes::I64)])]),
    ])];
    let ops = Compiler::compile(&prog).unwrap();
    assert_eq!(ops[4], IrOp::CallPrintf { args: vec![Operand::Register(1)] });
}

#[test]
fn inner_declaration_shadows_outer() {
    let prog = vec![block(vec![
        var("n", DataTypes::I32, None),
        block(vec![
            var("n", DataTypes::I32, Some(Instruction::Integer(DataTypes::I32, 5))),
            Instruction::Print(vec![refvar("n", DataTypes::I32)]),
        ]),
        Instruction::Print(vec![refvar("n", DataTypes::I32)]),
    ])];
    let ops = Compiler::compile(&prog).unwrap();
    assert_eq!(ops[7], IrOp::CallPrintf { args: vec![Operand::Register(3)] });
    assert_eq!(ops[8], IrOp::CallPrintf { args: vec![Operand::Register(1)] });
}

#[test]
fn unknown_reference_is_symbol_not_found() {
    let prog = vec![Instruction::Print(vec![refvar("ghost", DataTypes::String)])];
    assert_eq!(
        Compiler::compile(&prog),
        Err(CodegenError::SymbolNotFound { name: "ghost".to_string(), line: 2 })
    );
}

#[test]
fn private_function_without_return_type_gets_void_return() {
    let prog = vec![Instruction::Function {
        name: "f".to_string(),
        params: vec![Instruction::Param { name: "a".to_string(), kind: DataTypes::I32 }],
        body: Box::new(block(vec![])),
        return_kind: None,
        is_public: false,
    }];
    let ops = Compiler::compile(&prog).unwrap();
    assert_eq!(
        ops,
        vec![
            IrOp::BeginFunction {
                name: "f".to_string(),
                params: vec![IrParam { name: "a".to_string(), kind: DataTypes::I32 }],
                return_kind: None,
                linkage: FnLinkage::Private,
            },
            IrOp::ReturnVoid,
        ]
    );
}

#[test]
fn public_function_with_return_value() {
    let prog = vec![Instruction::Function {
        name: "g".to_string(),
        params: vec![],
        body: Box::new(block(vec![Instruction::Return(Box::new(Instruction::Integer(
            DataTypes::I64,
            9,
        )))])),
        return_kind: Some(DataTypes::I64),
        is_public: true,
    }];
    let ops = Compiler::compile(&prog).unwrap();
    assert_eq!(ops.len(), 2);
    assert!(matches!(ops[0], IrOp::BeginFunction { linkage: FnLinkage::External, .. }));
    assert_eq!(ops[1], IrOp::Return(Operand::Const(DataTypes::I64, 9)));
}

#[test]
fn function_with_non_parameter_is_unsupported() {
    let prog = vec![Instruction::Function {
        name: "h".to_string(),
        params: vec![Instruction::Null],
        body: Box::new(block(vec![])),
        return_kind: None,
        is_public: true,
    }];
    assert_eq!(Compiler::compile(&prog), Err(CodegenError::Unsupported(NodeKind::Null)));
}

#[test]
fn string_return_passes_constant_address() {
    let prog = vec![Instruction::Return(Box::new(Instruction::String("r".to_string())))];
    let ops = Compiler::compile(&prog).unwrap();
    assert_eq!(
        ops,
        vec![
            IrOp::ConstString { global: 0, text: "r".to_string() },
            IrOp::Return(Operand::Global(0)),
        ]
    );
}

#[test]
fn bare_statement_shapes_are_unsupported() {
    assert_eq!(
        Compiler::compile(&vec![Instruction::Null]),
        Err(CodegenError::Unsupported(NodeKind::Null))
    );
    assert_eq!(
        Compiler::compile(&vec![Instruction::Boolean(true)]),
        Err(CodegenError::Unsupported(NodeKind::Boolean))
    );
}

#[test]
fn boolean_without_initializer_is_unsupported() {
    assert_eq!(
        Compiler::compile(&vec![var("b", DataTypes::Bool, None)]),
        Err(CodegenError::Unsupported(NodeKind::Var))
    );
}

#[test]
fn mismatched_literal_is_unsupported() {
    let prog = vec![var("n", DataTypes::I32, Some(Instruction::Integer(DataTypes::F32, 0)))];
    assert_eq!(Compiler::compile(&prog), Err(CodegenError::Unsupported(NodeKind::Var)));
}

#[test]
fn step_by_step_lowering_matches_compile() {
    let mut c = Compiler::new();
    c.lower(&var("x", DataTypes::I16, None)).unwrap();
    c.lower(&Instruction::Println(vec![refvar("x", DataTypes::I16)])).unwrap();
    let ops = c.into_ops();
    assert_eq!(ops[4], IrOp::CallPrintf { args: vec![Operand::Register(1)] });
}

#[test]
fn unresolved_name_becomes_a_rendered_scope_failure() {
    let prog = vec![Instruction::Print(vec![refvar("y", DataTypes::I32)])];
    let err = Compiler::compile(&prog).unwrap_err().into_error();
    match &err {
        ThrushError::Scope(kind, title, help, _, line) => {
            assert!(matches!(kind, ThrushErrorKind::VariableNotDefined));
            assert_eq!(title, "Variable not defined");
            assert_eq!(help, "No variable named `y` is in scope here.");
            assert_eq!(*line, 2);
        }
        other => panic!("unexpected {:?}", other),
    }
    let d = Diagnostic::new("m".to_string(), vec!["a".to_string(), "print(y)".to_string(), "b".to_string()]);
    let r = d.report(err).unwrap();
    assert_eq!(r.source, "b");
}

#[test]
fn other_lowering_errors_are_compile_failures() {
    assert!(matches!(CodegenError::DuplicateEntry.into_error(), ThrushError::Compile(_)));
    assert!(matches!(
        CodegenError::Unsupported(NodeKind::MutVar).into_error(),
        ThrushError::Compile(_)
    ));
}

#[test]
fn failing_block_reports_first_error() {
    let prog = vec![block(vec![
        Instruction::Null,
        Instruction::Print(vec![refvar("z", DataTypes::I32)]),
    ])];
    assert_eq!(Compiler::compile(&prog), Err(CodegenError::Unsupported(NodeKind::Null)));
}

#[test]
fn entry_body_is_lowered_between_begin_and_return() {
    let prog = vec![Instruction::EntryPoint {
        body: Box::new(block(vec![Instruction::Print(vec![Instruction::Integer(
            DataTypes::I32,
            3,
        )])])),
    }];
    let ops = Compiler::compile(&prog).unwrap();
    assert_eq!(
        ops,
        vec![
            IrOp::BeginEntry,
            IrOp::DeclarePrintf,
            IrOp::CallPrintf { args: vec![Operand::Const(DataTypes::I32, 3)] },
            IrOp::Return(Operand::Const(DataTypes::I32, 0)),
        ]
    );
}
