use nuvc::ast::{
    Access, Node, Path, Program, ProgramArena, Type, TypeName, TypedName,
};
use nuvc::backend::{MaterializeError, NativeTypeDesc, TypeMaterializer};
use nuvc::ir::translate::{IrBuilder, IrBuilderContext};
use nuvc::ir::{
    FloatTy, IntTy, IrBlock, IrInstruction, IrNode, IrType, IrTypeIndex, Module, ModuleArena,
    UIntTy,
};

fn base(name: &str) -> TypeName {
    TypeName::from((Path::new(), name.to_string()))
}

fn function_node(access: Access, name: &str, return_type: &str) -> Node {
    Node::Function {
        access,
        name: name.to_string(),
        params: Vec::new(),
        return_type: base(return_type),
        statements: Vec::new(),
    }
}

fn program_with(nodes: Vec<Node>) -> Program {
    let mut pa = ProgramArena::new();
    for node in nodes {
        pa.node_arena.insert(node);
    }
    Program {
        path: Path::of("test"),
        file_name: "test.nuv".to_string(),
        imports: vec![Path::of("core")],
        program_arena: pa,
    }
}

fn the_function(module: &Module) -> &nuvc::ir::IrFunction {
    match module.module_arena.node_arena.get_at_slot(0).expect("one node expected").1 {
        IrNode::Function(irf) => irf,
        other => panic!("expected a function node, got {:?}", other),
    }
}

#[test]
fn width_tokens_classify_deterministically() {
    assert_eq!(IntTy::from("IntSize"), Some(IntTy::ISize));
    assert_eq!(IntTy::from("Int8"), Some(IntTy::I8));
    assert_eq!(IntTy::from("Int16"), Some(IntTy::I16));
    assert_eq!(IntTy::from("Int32"), Some(IntTy::I32));
    assert_eq!(IntTy::from("Int64"), Some(IntTy::I64));
    assert_eq!(IntTy::from("Int128"), Some(IntTy::I128));
    assert_eq!(IntTy::from("Int256"), None);
    assert_eq!(UIntTy::from("USize"), Some(UIntTy::USize));
    assert_eq!(UIntTy::from("UInt8"), Some(UIntTy::U8));
    assert_eq!(UIntTy::from("UInt16"), Some(UIntTy::U16));
    assert_eq!(UIntTy::from("UInt32"), Some(UIntTy::U32));
    assert_eq!(UIntTy::from("UInt64"), Some(UIntTy::U64));
    assert_eq!(UIntTy::from("UInt128"), Some(UIntTy::U128));
    assert_eq!(UIntTy::from("Int32"), None);
    assert_eq!(FloatTy::from("Float16"), Some(FloatTy::F16));
    assert_eq!(FloatTy::from("Float32"), Some(FloatTy::F32));
    assert_eq!(FloatTy::from("Float64"), Some(FloatTy::F64));
    assert_eq!(FloatTy::from("Float128"), Some(FloatTy::F128));
    assert_eq!(FloatTy::from("Void"), None);
}

#[test]
fn bit_widths() {
    assert_eq!(IntTy::ISize.bits(), 64);
    assert_eq!(IntTy::I8.bits(), 8);
    assert_eq!(IntTy::I128.bits(), 128);
    assert_eq!(UIntTy::USize.bits(), 64);
    assert_eq!(UIntTy::U16.bits(), 16);
    assert_eq!(FloatTy::F16.bits(), 16);
    assert_eq!(FloatTy::F128.bits(), 128);
}

#[test]
fn build_type_classifies_by_name_and_reuses_singletons() {
    let mut pa = ProgramArena::new();
    let t_int = pa.type_arena.insert(Type::Base(base("Int32")));
    let t_uint = pa.type_arena.insert(Type::Base(base("UInt64")));
    let t_float = pa.type_arena.insert(Type::Base(base("Float32")));
    let t_void = pa.type_arena.insert(Type::Base(base("Void")));
    let t_unknown = pa.type_arena.insert(Type::Base(base("Frob")));
    let t_row = pa.type_arena.insert(Type::Row(vec![TypedName {
        name: "field1".to_string(),
        typ: None,
    }]));
    let program = Program {
        path: Path::of("test"),
        file_name: "test.nuv".to_string(),
        imports: Vec::new(),
        program_arena: pa,
    };
    let builder = IrBuilder::new();
    let mut ctx = IrBuilderContext::new(&program);

    let r_int = builder.build_type(&mut ctx, t_int);
    let r_uint = builder.build_type(&mut ctx, t_uint);
    let r_float = builder.build_type(&mut ctx, t_float);
    assert_eq!(
        *ctx.module_arena.type_arena.get(r_int).unwrap(),
        IrType::Int(IntTy::I32)
    );
    assert_eq!(
        *ctx.module_arena.type_arena.get(r_uint).unwrap(),
        IrType::UInt(UIntTy::U64)
    );
    assert_eq!(
        *ctx.module_arena.type_arena.get(r_float).unwrap(),
        IrType::Float(FloatTy::F32)
    );

    // Void and every unresolvable shape resolve to the pre-inserted
    // singletons — the same index every time, never a fresh equivalent.
    let r_void = builder.build_type(&mut ctx, t_void);
    assert_eq!(r_void, ctx.void_index);
    let r_unknown_1 = builder.build_type(&mut ctx, t_unknown);
    let r_unknown_2 = builder.build_type(&mut ctx, t_unknown);
    let r_row = builder.build_type(&mut ctx, t_row);
    let stale = nuvc::ast::TypeIndex { slot: 99, generation: 0 };
    let r_stale = builder.build_type(&mut ctx, stale);
    assert_eq!(r_unknown_1, ctx.unknown_index);
    assert_eq!(r_unknown_2, ctx.unknown_index);
    assert_eq!(r_row, ctx.unknown_index);
    assert_eq!(r_stale, ctx.unknown_index);
    assert_eq!(
        *ctx.module_arena.type_arena.get(ctx.void_index).unwrap(),
        IrType::Void
    );
    assert_eq!(
        *ctx.module_arena.type_arena.get(ctx.unknown_index).unwrap(),
        IrType::Unknown
    );
    // The singletons sit where every session puts them: slots 0 and 1.
    assert_eq!(ctx.void_index.slot, 0);
    assert_eq!(ctx.unknown_index.slot, 1);
}

#[test]
fn build_typed_name_materializes_absent_annotation_as_void() {
    let program = program_with(Vec::new());
    let builder = IrBuilder::new();
    let mut ctx = IrBuilderContext::new(&program);
    let lowered = builder.build_typed_name(
        &mut ctx,
        TypedName { name: "x".to_string(), typ: None },
    );
    assert_eq!(lowered.name, "x");
    assert_eq!(lowered.typ, ctx.void_index);
}

#[test]
fn function_lowering_preserves_metadata() {
    let program = program_with(vec![function_node(Access::Public, "max2", "Int32")]);
    let module = IrBuilder::new().convert(program);
    assert_eq!(module.module_arena.node_arena.slot_len(), 1);
    let irf = the_function(&module);
    assert_eq!(irf.access, nuvc::ir::Access::Public);
    assert_eq!(irf.name, "max2");
    assert!(irf.type_params.is_empty());
    assert!(irf.blocks.is_empty());
    assert_eq!(*module.typ(irf.return_type), IrType::Int(IntTy::I32));
    // The return type materializes to a 32-bit integer native type.
    let rt = irf.return_type;
    let mut backend = TypeMaterializer::new();
    let h = backend.convert_type(&module, rt).expect("Int32 must materialize");
    assert_eq!(backend.natives[h.0], NativeTypeDesc::Integer(32));
}

#[test]
fn unhandled_declaration_kinds_are_skipped_without_a_trace() {
    let program = program_with(vec![
        Node::TypeAlias {
            access: Access::Internal,
            name: "Nat32".to_string(),
            value: nuvc::ast::TypeIndex { slot: 0, generation: 0 },
        },
        Node::Variable {
            access: Access::Internal,
            name: TypedName { name: "x".to_string(), typ: None },
            value: None,
        },
        Node::FunctionPrototype {
            name: "publicFunc".to_string(),
            params: Vec::new(),
            return_type: base("Void"),
        },
        Node::Struct {
            access: Access::Public,
            name: "CoolApi".to_string(),
            params: Vec::new(),
            children: Vec::new(),
        },
        Node::Interface {
            name: "CoolInterface".to_string(),
            params: Vec::new(),
            children: Vec::new(),
        },
        Node::Error,
        function_node(Access::Internal, "test", "Int32"),
    ]);
    let module = IrBuilder::new().convert(program);
    // Exactly one node: the function. The others are absent, not placeholders.
    assert_eq!(module.module_arena.node_arena.slot_len(), 1);
    let irf = the_function(&module);
    assert_eq!(irf.name, "test");
    assert_eq!(irf.access, nuvc::ir::Access::Internal);
}

#[test]
fn module_carries_path_name_and_imports() {
    let program = program_with(Vec::new());
    let module = IrBuilder::new().convert(program);
    assert_eq!(module.path, Path::of("test"));
    assert_eq!(module.name, "test.nuv");
    assert_eq!(module.imports, vec![Path::of("core")]);
    assert_eq!(module.module_arena.node_arena.slot_len(), 0);
    assert_eq!(module.module_arena.block_arena.slot_len(), 0);
    assert_eq!(module.module_arena.instruction_arena.slot_len(), 0);
    // The session's two singleton types and nothing else.
    assert_eq!(module.module_arena.type_arena.slot_len(), 2);
    assert_eq!(*module.module_arena.type_arena.get_at_slot(0).unwrap().1, IrType::Void);
    assert_eq!(*module.module_arena.type_arena.get_at_slot(1).unwrap().1, IrType::Unknown);
}

#[test]
fn unresolved_return_type_lowers_to_the_unknown_singleton() {
    let program = program_with(vec![function_node(Access::Public, "f", "Whatever")]);
    let module = IrBuilder::new().convert(program);
    let irf = the_function(&module);
    assert_eq!(irf.return_type, IrTypeIndex { slot: 1, generation: 0 });
    assert_eq!(*module.typ(irf.return_type), IrType::Unknown);
}

#[test]
fn end_to_end_max_function() {
    let mut pa = ProgramArena::new();
    let t_x = pa.type_arena.insert(Type::Base(base("Int32")));
    let t_y = pa.type_arena.insert(Type::Base(base("Int32")));
    pa.node_arena.insert(Node::Function {
        access: Access::Public,
        name: "max".to_string(),
        params: vec![
            TypedName { name: "x".to_string(), typ: Some(t_x) },
            TypedName { name: "y".to_string(), typ: Some(t_y) },
        ],
        return_type: base("Int32"),
        statements: Vec::new(),
    });
    let program = Program {
        path: Path::of("test"),
        file_name: "test.nuv".to_string(),
        imports: Vec::new(),
        program_arena: pa,
    };
    let module = IrBuilder::new().convert(program);
    assert_eq!(module.module_arena.node_arena.slot_len(), 1);
    let irf = the_function(&module);
    assert_eq!(irf.access, nuvc::ir::Access::Public);
    assert_eq!(irf.name, "max");
    let rt = irf.return_type;
    let mut backend = TypeMaterializer::new();
    let h = backend.convert_type(&module, rt).expect("Int32 must materialize");
    assert_eq!(backend.natives[h.0], NativeTypeDesc::Integer(32));
}

#[test]
fn materialization_is_idempotent_and_cached() {
    let program = program_with(vec![function_node(Access::Public, "f", "UInt16")]);
    let module = IrBuilder::new().convert(program);
    let rt = the_function(&module).return_type;
    let mut backend = TypeMaterializer::new();
    let h1 = backend.convert_type(&module, rt).unwrap();
    let natives_after_first = backend.natives.len();
    let h2 = backend.convert_type(&module, rt).unwrap();
    // Identical cached handle, and the construction work happened once.
    assert_eq!(h1, h2);
    assert_eq!(backend.natives.len(), natives_after_first);
    assert_eq!(backend.natives[h1.0], NativeTypeDesc::Integer(16));
}

#[test]
fn unsupported_types_fail_materialization_loudly() {
    let program = program_with(Vec::new());
    let module = IrBuilder::new().convert(program);
    let mut backend = TypeMaterializer::new();
    let void_index = IrTypeIndex { slot: 0, generation: 0 };
    let unknown_index = IrTypeIndex { slot: 1, generation: 0 };
    assert_eq!(
        backend.convert_type(&module, void_index),
        Err(MaterializeError::UnsupportedType)
    );
    assert_eq!(
        backend.convert_type(&module, unknown_index),
        Err(MaterializeError::UnsupportedType)
    );
}

#[test]
fn function_types_materialize_recursively() {
    let mut ma = ModuleArena::new();
    let t_bool = ma.type_arena.insert(IrType::Bool);
    let t_int = ma.type_arena.insert(IrType::Int(IntTy::I64));
    let t_float = ma.type_arena.insert(IrType::Float(FloatTy::F64));
    let t_fn = ma.type_arena.insert(IrType::Function(vec![t_int, t_float], t_bool));
    let module = Module {
        path: Path::of("m"),
        name: "m".to_string(),
        imports: Vec::new(),
        module_arena: ma,
    };
    let mut backend = TypeMaterializer::new();
    let h = backend.convert_type(&module, t_fn).expect("function type must materialize");
    match &backend.natives[h.0] {
        NativeTypeDesc::Function(params, ret) => {
            assert_eq!(params.len(), 2);
            assert_eq!(backend.natives[params[0].0], NativeTypeDesc::Integer(64));
            assert_eq!(backend.natives[params[1].0], NativeTypeDesc::Double);
            assert_eq!(backend.natives[ret.0], NativeTypeDesc::Integer(1));
        },
        other => panic!("expected a native function type, got {:?}", other),
    }
    // Half/Single/Quad shapes for the other widths.
    let mut ma2 = ModuleArena::new();
    let t16 = ma2.type_arena.insert(IrType::Float(FloatTy::F16));
    let t32 = ma2.type_arena.insert(IrType::Float(FloatTy::F32));
    let t128 = ma2.type_arena.insert(IrType::Float(FloatTy::F128));
    let module2 = Module {
        path: Path::of("m2"),
        name: "m2".to_string(),
        imports: Vec::new(),
        module_arena: ma2,
    };
    let mut backend2 = TypeMaterializer::new();
    let h16 = backend2.convert_type(&module2, t16).unwrap();
    let h32 = backend2.convert_type(&module2, t32).unwrap();
    let h128 = backend2.convert_type(&module2, t128).unwrap();
    assert_eq!(backend2.natives[h16.0], NativeTypeDesc::Half);
    assert_eq!(backend2.natives[h32.0], NativeTypeDesc::Single);
    assert_eq!(backend2.natives[h128.0], NativeTypeDesc::Quad);
}

#[test]
fn add_instruction_appends_to_the_block() {
    let mut ma = ModuleArena::new();
    let mut block = IrBlock::new();
    ma.add_instruction(&mut block, IrInstruction::NatLiteral(7));
    ma.add_instruction(&mut block, IrInstruction::BoolLiteral(true));
    assert_eq!(block.instructions.len(), 2);
    assert_eq!(
        *ma.instruction_arena.get(block.instructions[0]).unwrap(),
        IrInstruction::NatLiteral(7)
    );
    assert_eq!(
        *ma.instruction_arena.get(block.instructions[1]).unwrap(),
        IrInstruction::BoolLiteral(true)
    );
}

#[test]
fn functions_lower_in_declaration_order() {
    let program = program_with(vec![
        function_node(Access::Public, "first", "Int32"),
        Node::Struct {
            access: Access::Public,
            name: "Between".to_string(),
            params: Vec::new(),
            children: Vec::new(),
        },
        function_node(Access::Internal, "second", "Void"),
    ]);
    let module = IrBuilder::new().convert(program);
    assert_eq!(module.module_arena.node_arena.slot_len(), 2);
    let first = match module.module_arena.node_arena.get_at_slot(0).unwrap().1 {
        IrNode::Function(irf) => irf,
        other => panic!("expected a function node, got {:?}", other),
    };
    let second = match module.module_arena.node_arena.get_at_slot(1).unwrap().1 {
        IrNode::Function(irf) => irf,
        other => panic!("expected a function node, got {:?}", other),
    };
    assert_eq!(first.name, "first");
    assert_eq!(second.name, "second");
    // A Void return reuses the singleton at slot 0.
    assert_eq!(second.return_type, IrTypeIndex { slot: 0, generation: 0 });
    assert_eq!(*module.typ(second.return_type), IrType::Void);
}
