//! The lowering target: IR types, declarations, basic blocks and flat
//! instructions, each held in its own arena inside one `ModuleArena`.

use vstd::prelude::*;
use crate::arena::{Arena, ArenaIndex, inserted};
use crate::str_eq;

pub mod translate;

verus! {

/// Index into a module's type arena.
#[derive(Clone, Copy, PartialEq, Eq, Structural, Debug)]
pub struct IrTypeIndex {
    pub slot: usize,
    pub generation: u64,
}

/// Index into a module's declaration (node) arena.
#[derive(Clone, Copy, PartialEq, Eq, Structural, Debug)]
pub struct IrNodeIndex {
    pub slot: usize,
    pub generation: u64,
}

/// Index into a module's basic-block arena.
#[derive(Clone, Copy, PartialEq, Eq, Structural, Debug)]
pub struct IrBlockIndex {
    pub slot: usize,
    pub generation: u64,
}

/// Index into a module's instruction arena.
#[derive(Clone, Copy, PartialEq, Eq, Structural, Debug)]
pub struct IrInstructionIndex {
    pub slot: usize,
    pub generation: u64,
}

impl ArenaIndex for IrTypeIndex {
    open spec fn slot_of(self) -> nat {
        self.slot as nat
    }

    open spec fn gen_of(self) -> nat {
        self.generation as nat
    }

    fn make(slot: usize, generation: u64) -> (r: Self) {
        IrTypeIndex { slot, generation }
    }

    fn slot(self) -> (r: usize) {
        self.slot
    }

    fn generation(self) -> (r: u64) {
        self.generation
    }
}

impl ArenaIndex for IrNodeIndex {
    open spec fn slot_of(self) -> nat {
        self.slot as nat
    }

    open spec fn gen_of(self) -> nat {
        self.generation as nat
    }

    fn make(slot: usize, generation: u64) -> (r: Self) {
        IrNodeIndex { slot, generation }
    }

    fn slot(self) -> (r: usize) {
        self.slot
    }

    fn generation(self) -> (r: u64) {
        self.generation
    }
}

impl ArenaIndex for IrBlockIndex {
    open spec fn slot_of(self) -> nat {
        self.slot as nat
    }

    open spec fn gen_of(self) -> nat {
        self.generation as nat
    }

    fn make(slot: usize, generation: u64) -> (r: Self) {
        IrBlockIndex { slot, generation }
    }

    fn slot(self) -> (r: usize) {
        self.slot
    }

    fn generation(self) -> (r: u64) {
        self.generation
    }
}

impl ArenaIndex for IrInstructionIndex {
    open spec fn slot_of(self) -> nat {
        self.slot as nat
    }

    open spec fn gen_of(self) -> nat {
        self.generation as nat
    }

    fn make(slot: usize, generation: u64) -> (r: Self) {
        IrInstructionIndex { slot, generation }
    }

    fn slot(self) -> (r: usize) {
        self.slot
    }

    fn generation(self) -> (r: u64) {
        self.generation
    }
}

/// Visibility of an IR declaration; `Generated` marks nodes the compiler
/// made up itself.
#[derive(Clone, Copy, Debug, PartialEq, Eq, Structural)]
pub enum Access {
    Public,
    Internal,
    Generated,
}

/// How source-level visibility lowers: one to one.
pub open spec fn access_lowered(a: crate::ast::Access) -> Access {
    match a {
        crate::ast::Access::Public => Access::Public,
        crate::ast::Access::Internal => Access::Internal,
    }
}

impl Access {
    pub fn from(ast_access: crate::ast::Access) -> (r: Self)
        ensures
            r == access_lowered(ast_access),
    {
        match ast_access {
            crate::ast::Access::Public => Access::Public,
            crate::ast::Access::Internal => Access::Internal,
        }
    }
}

/// A fixed signed integer width; the pointer-sized variant currently
/// defaults to 64 bits.
#[derive(Clone, Copy, Debug, PartialEq, Eq, Structural)]
pub enum IntTy {
    ISize,
    I8,
    I16,
    I32,
    I64,
    I128,
}

/// The signed-integer width a width token names, if any.
pub open spec fn int_ty_of(s: Seq<char>) -> Option<IntTy> {
    if s == "IntSize"@ {
        Some(IntTy::ISize)
    } else if s == "Int8"@ {
        Some(IntTy::I8)
    } else if s == "Int16"@ {
        Some(IntTy::I16)
    } else if s == "Int32"@ {
        Some(IntTy::I32)
    } else if s == "Int64"@ {
        Some(IntTy::I64)
    } else if s == "Int128"@ {
        Some(IntTy::I128)
    } else {
        None
    }
}

/// The bit width of a signed integer type.
pub open spec fn int_bits(t: IntTy) -> u32 {
    match t {
        IntTy::ISize => 64,
        IntTy::I8 => 8,
        IntTy::I16 => 16,
        IntTy::I32 => 32,
        IntTy::I64 => 64,
        IntTy::I128 => 128,
    }
}

impl IntTy {
    pub fn from(name: &str) -> (r: Option<Self>)
        ensures
            r == int_ty_of(name@),
    {
        if str_eq(name, "IntSize") {
            Some(IntTy::ISize)
        } else if str_eq(name, "Int8") {
            Some(IntTy::I8)
        } else if str_eq(name, "Int16") {
            Some(IntTy::I16)
        } else if str_eq(name, "Int32") {
            Some(IntTy::I32)
        } else if str_eq(name, "Int64") {
            Some(IntTy::I64)
        } else if str_eq(name, "Int128") {
            Some(IntTy::I128)
        } else {
            None
        }
    }

    pub fn bits(&self) -> (r: u32)
        ensures
            r == int_bits(*self),
    {
        match self {
            IntTy::ISize => 64,
            IntTy::I8 => 8,
            IntTy::I16 => 16,
            IntTy::I32 => 32,
            IntTy::I64 => 64,
            IntTy::I128 => 128,
        }
    }
}

/// A fixed unsigned integer width; the pointer-sized variant currently
/// defaults to 64 bits.
#[derive(Clone, Copy, Debug, PartialEq, Eq, Structural)]
pub enum UIntTy {
    USize,
    U8,
    U16,
    U32,
    U64,
    U128,
}

/// The unsigned-integer width a width token names, if any.
pub open spec fn uint_ty_of(s: Seq<char>) -> Option<UIntTy> {
    if s == "USize"@ {
        Some(UIntTy::USize)
    } else if s == "UInt8"@ {
        Some(UIntTy::U8)
    } else if s == "UInt16"@ {
        Some(UIntTy::U16)
    } else if s == "UInt32"@ {
        Some(UIntTy::U32)
    } else if s == "UInt64"@ {
        Some(UIntTy::U64)
    } else if s == "UInt128"@ {
        Some(UIntTy::U128)
    } else {
        None
    }
}

/// The bit width of an unsigned integer type.
pub open spec fn uint_bits(t: UIntTy) -> u32 {
    match t {
        UIntTy::USize => 64,
        UIntTy::U8 => 8,
        UIntTy::U16 => 16,
        UIntTy::U32 => 32,
        UIntTy::U64 => 64,
        UIntTy::U128 => 128,
    }
}

impl UIntTy {
    pub fn from(name: &str) -> (r: Option<Self>)
        ensures
            r == uint_ty_of(name@),
    {
        if str_eq(name, "USize") {
            Some(UIntTy::USize)
        } else if str_eq(name, "UInt8") {
            Some(UIntTy::U8)
        } else if str_eq(name, "UInt16") {
            Some(UIntTy::U16)
        } else if str_eq(name, "UInt32") {
            Some(UIntTy::U32)
        } else if str_eq(name, "UInt64") {
            Some(UIntTy::U64)
        } else if str_eq(name, "UInt128") {
            Some(UIntTy::U128)
        } else {
            None
        }
    }

    pub fn bits(&self) -> (r: u32)
        ensures
            r == uint_bits(*self),
    {
        match self {
            UIntTy::USize => 64,
            UIntTy::U8 => 8,
            UIntTy::U16 => 16,
            UIntTy::U32 => 32,
            UIntTy::U64 => 64,
            UIntTy::U128 => 128,
        }
    }
}

/// A fixed floating-point width.
#[derive(Clone, Copy, Debug, PartialEq, Eq, Structural)]
pub enum FloatTy {
    F16,
    F32,
    F64,
    F128,
}

/// The floating-point width a width token names, if any.
pub open spec fn float_ty_of(s: Seq<char>) -> Option<FloatTy> {
    if s == "Float16"@ {
        Some(FloatTy::F16)
    } else if s == "Float32"@ {
        Some(FloatTy::F32)
    } else if s == "Float64"@ {
        Some(FloatTy::F64)
    } else if s == "Float128"@ {
        Some(FloatTy::F128)
    } else {
        None
    }
}

/// The bit width of a floating-point type.
pub open spec fn float_bits(t: FloatTy) -> u32 {
    match t {
        FloatTy::F16 => 16,
        FloatTy::F32 => 32,
        FloatTy::F64 => 64,
        FloatTy::F128 => 128,
    }
}

impl FloatTy {
    pub fn from(name: &str) -> (r: Option<Self>)
        ensures
            r == float_ty_of(name@),
    {
        if str_eq(name, "Float16") {
            Some(FloatTy::F16)
        } else if str_eq(name, "Float32") {
            Some(FloatTy::F32)
        } else if str_eq(name, "Float64") {
            Some(FloatTy::F64)
        } else if str_eq(name, "Float128") {
            Some(FloatTy::F128)
        } else {
            None
        }
    }

    pub fn bits(&self) -> (r: u32)
        ensures
            r == float_bits(*self),
    {
        match self {
            FloatTy::F16 => 16,
            FloatTy::F32 => 32,
            FloatTy::F64 => 64,
            FloatTy::F128 => 128,
        }
    }
}

/// A name paired with an IR type index.
#[derive(Clone, Debug, PartialEq)]
pub struct IrTypedName {
    pub typ: IrTypeIndex,
    pub name: String,
}

/// An IR type, resolved to a concrete machine representation or to one of
/// the two sentinels: `Void` for the absent type and `Unknown` for a type
/// whose resolution failed or is deferred.
#[derive(Clone, Debug, PartialEq)]
pub enum IrType {
    Bool,
    Int(IntTy),
    UInt(UIntTy),
    Float(FloatTy),
    Base(String),
    Refinement(String, IrTypeIndex, IrBlockIndex),
    Row(Vec<IrTypedName>),
    Reference(IrTypeIndex, bool),
    Optional(IrTypeIndex),
    Function(Vec<IrTypeIndex>, IrTypeIndex),
    Void,
    Unknown,
}

/// A lowered function: metadata, return type, and its basic blocks in
/// order, the first being the entry block.
#[derive(Clone, Debug, PartialEq)]
pub struct IrFunction {
    pub access: Access,
    pub name: String,
    pub type_params: Vec<IrTypedName>,
    pub return_type: IrTypeIndex,
    pub blocks: Vec<IrBlockIndex>,
}

/// An IR declaration. `Error` is the lowering-failure placeholder,
/// analogous to the source tree's `Error` node.
#[derive(Clone, Debug, PartialEq)]
pub enum IrNode {
    Function(IrFunction),
    Struct { nodes: Vec<IrNodeIndex> },
    Error,
}

/// An ordered list of instruction indices; the unit of control flow.
#[derive(Clone, Debug, PartialEq)]
pub struct IrBlock {
    pub instructions: Vec<IrInstructionIndex>,
}

impl IrBlock {
    pub fn new() -> (r: Self)
        ensures
            r.instructions@.len() == 0,
    {
        IrBlock { instructions: Vec::new() }
    }
}

/// A flat IR instruction.
#[derive(Clone, Debug, PartialEq)]
pub enum IrInstruction {
    Ref(String),
    NatLiteral(i64),
    BoolLiteral(bool),
    BinOp(IrInstructionIndex, crate::ast::BinOpType, IrInstructionIndex),
    FieldAccessor { aggregate: IrInstructionIndex, value: IrInstructionIndex },
    FunctionCall { function: IrInstructionIndex, args: Vec<IrInstructionIndex> },
    New { typ: IrTypeIndex, allocator: IrInstructionIndex },
    Dereference { pointer: IrInstructionIndex },
    Denull { optional: IrInstructionIndex },
    Borrow { value: IrInstructionIndex },
    Branch { condition: IrInstructionIndex, true_branch: IrBlockIndex, false_branch: IrBlockIndex },
    Return { value: IrInstructionIndex },
    Error,
}

/// The four arenas of one IR module: types, declarations, blocks and
/// instructions.
#[derive(Debug)]
pub struct ModuleArena {
    pub type_arena: Arena<IrType, IrTypeIndex>,
    pub node_arena: Arena<IrNode, IrNodeIndex>,
    pub block_arena: Arena<IrBlock, IrBlockIndex>,
    pub instruction_arena: Arena<IrInstruction, IrInstructionIndex>,
}

impl ModuleArena {
    pub open spec fn wf(self) -> bool {
        &&& self.type_arena.wf()
        &&& self.node_arena.wf()
        &&& self.block_arena.wf()
        &&& self.instruction_arena.wf()
    }

    pub fn new() -> (r: ModuleArena)
        ensures
            r.wf(),
            r.type_arena.slot_count() == 0,
            r.node_arena.slot_count() == 0,
            r.block_arena.slot_count() == 0,
            r.instruction_arena.slot_count() == 0,
    {
        ModuleArena {
            type_arena: Arena::new(),
            node_arena: Arena::new(),
            block_arena: Arena::new(),
            instruction_arena: Arena::new(),
        }
    }

    /// Store an instruction and append its index to the given block.
    pub fn add_instruction(&mut self, block: &mut IrBlock, ins: IrInstruction)
        requires
            old(self).instruction_arena.wf(),
        ensures
            final(self).instruction_arena.wf(),
            final(self).type_arena == old(self).type_arena,
            final(self).node_arena == old(self).node_arena,
            final(self).block_arena == old(self).block_arena,
            exists|i: IrInstructionIndex|
                inserted(old(self).instruction_arena, final(self).instruction_arena, i, ins)
                    && final(block).instructions@ == old(block).instructions@.push(i),
    {
        let index = self.instruction_arena.insert(ins);
        block.instructions.push(index);
    }
}

/// A lowered module: its path, its name (the source file name), its
/// imports, and the four IR arenas.
#[derive(Debug)]
pub struct Module {
    pub path: crate::ast::Path,
    pub name: String,
    pub imports: Vec<crate::ast::Path>,
    pub module_arena: ModuleArena,
}

impl Module {
    /// The IR type a valid index refers to. Callers that expect presence
    /// must pass a live index; there is no fallback here.
    pub fn typ(&self, index: IrTypeIndex) -> (r: &IrType)
        requires
            self.module_arena.type_arena.lives(index),
        ensures
            *r == self.module_arena.type_arena.value_of(index),
    {
        match self.module_arena.type_arena.get(index) {
            Some(t) => t,
            None => unreached(),
        }
    }
}

} // verus!
