//! The lowering pass: walks a program's declaration arena, resolves each
//! referenced type to an IR type, and rebuilds each function as IR nodes
//! inside a fresh `ModuleArena`.

use vstd::prelude::*;
use crate::arena::{Arena, ArenaIndex, inserted};
use crate::ast::{Node, NodeIndex, Program, Type, TypeIndex, TypeName, TypedName};
use crate::ir::{
    access_lowered, float_ty_of, int_ty_of, uint_ty_of, Access, FloatTy, IntTy, IrFunction,
    IrNode, IrNodeIndex, IrType, IrTypeIndex, IrTypedName, Module, ModuleArena, UIntTy,
};
use crate::str_eq;

verus! {

/// One lowering session: a read-only borrow of the source program, the
/// module arena under construction, and the two singleton type indices —
/// Void and Unknown — inserted before anything else so that every fallback
/// path can reuse them.
pub struct IrBuilderContext<'ctx> {
    pub program: &'ctx Program,
    pub module_arena: ModuleArena,
    pub void_index: IrTypeIndex,
    pub unknown_index: IrTypeIndex,
}

impl<'ctx> IrBuilderContext<'ctx> {
    /// The session's standing shape: the type arena is well formed and
    /// fully occupied, slot 0 holds the one Void, slot 1 the one Unknown,
    /// the two singleton indices point exactly there, and every later slot
    /// holds a primitive numeric type — so neither sentinel is ever
    /// duplicated.
    pub open spec fn wf(self) -> bool {
        &&& lowered_type_arena(self.module_arena.type_arena)
        &&& self.void_index.slot == 0 && self.void_index.generation == 0
        &&& self.unknown_index.slot == 1 && self.unknown_index.generation == 0
    }

    pub fn new(program: &'ctx Program) -> (r: IrBuilderContext<'ctx>)
        ensures
            r.program == program,
            r.wf(),
            r.module_arena.wf(),
            r.module_arena.type_arena.slot_count() == 2,
            r.module_arena.node_arena.slot_count() == 0,
            r.module_arena.block_arena.slot_count() == 0,
            r.module_arena.instruction_arena.slot_count() == 0,
    {
        let mut module_arena = ModuleArena::new();

        let void_index: IrTypeIndex = module_arena.type_arena.insert(IrType::Void);
        let unknown_index: IrTypeIndex = module_arena.type_arena.insert(IrType::Unknown);

        IrBuilderContext { program, module_arena, void_index, unknown_index }
    }
}

/// A lowered type arena as every session leaves it: well formed, fully
/// occupied, the Void singleton at slot 0, the Unknown singleton at slot 1,
/// and nothing but primitive numeric types after them — each sentinel
/// exists exactly once.
pub open spec fn lowered_type_arena(ta: Arena<IrType, IrTypeIndex>) -> bool {
    &&& ta.wf()
    &&& ta.dense()
    &&& ta.slot_count() >= 2
    &&& ta.gen_at(0) == 0 && ta.value_at(0) is Void
    &&& ta.gen_at(1) == 0 && ta.value_at(1) is Unknown
    &&& forall|s: int|
        2 <= s < ta.slot_count() ==> #[trigger] ta.value_at(s) is Int || ta.value_at(s) is UInt
            || ta.value_at(s) is Float
}

/// Law: the two sentinel types are unique per session. In a lowered type
/// arena, Void occurs at slot 0 and nowhere else, and Unknown occurs at
/// slot 1 and nowhere else — every fallback path reuses the same index
/// rather than inserting a fresh equivalent type.
pub proof fn lemma_singleton_uniqueness(ta: Arena<IrType, IrTypeIndex>)
    requires
        lowered_type_arena(ta),
    ensures
        forall|s: int|
            0 <= s < ta.slot_count() ==> ((#[trigger] ta.value_at(s)) is Void <==> s == 0),
        forall|s: int|
            0 <= s < ta.slot_count() ==> ((#[trigger] ta.value_at(s)) is Unknown <==> s == 1),
{
}

/// Inserting one more classified numeric type into a lowered type arena
/// keeps it lowered, and lands in the next fresh slot: a lowered arena has
/// no free slot to reuse.
proof fn lemma_classified_insert(
    pre: Arena<IrType, IrTypeIndex>,
    post: Arena<IrType, IrTypeIndex>,
    i: IrTypeIndex,
    t: IrType,
)
    requires
        lowered_type_arena(pre),
        inserted(pre, post, i, t),
        t is Int || t is UInt || t is Float,
        post.wf(),
    ensures
        lowered_type_arena(post),
        i.slot_of() == pre.slot_count(),
{
    assert(i.slot_of() == pre.slot_count()) by {
        if i.slot_of() < pre.slot_count() {
            assert(pre.free_at(i.slot_of() as int));
            assert(pre.occupied_at(i.slot_of() as int));
        }
    }
    assert forall|s: int| 0 <= s < post.slot_count() implies post.occupied_at(s) by {
        if s < pre.slot_count() {
            assert(post.slots@[s] == pre.slots@[s]);
            assert(pre.occupied_at(s));
        } else {
            assert(s == i.slot_of() as int);
        }
    }
    assert(post.slots@[0] == pre.slots@[0]);
    assert(post.slots@[1] == pre.slots@[1]);
    assert forall|s: int|
        2 <= s < post.slot_count() implies (#[trigger] post.value_at(s)) is Int || post.value_at(
        s,
    ) is UInt || post.value_at(s) is Float by {
        if s < pre.slot_count() {
            assert(post.slots@[s] == pre.slots@[s]);
            assert(pre.value_at(s) is Int || pre.value_at(s) is UInt || pre.value_at(s) is Float);
        } else {
            assert(s == i.slot_of() as int);
            assert(post.value_of(i) == t);
        }
    }
}

/// How one width token classifies, and what classifying it does to the
/// type arena: a recognized integer, unsigned or float token inserts a
/// fresh IR type; `Void` and anything unrecognized reuse the corresponding
/// singleton index and leave the arena untouched. First match wins, in the
/// order signed, unsigned, float, `Void`.
pub open spec fn base_lowering(
    pre: Arena<IrType, IrTypeIndex>,
    post: Arena<IrType, IrTypeIndex>,
    void_index: IrTypeIndex,
    unknown_index: IrTypeIndex,
    name: Seq<char>,
    r: IrTypeIndex,
) -> bool {
    match int_ty_of(name) {
        Some(it) => inserted(pre, post, r, IrType::Int(it)),
        None => match uint_ty_of(name) {
            Some(ut) => inserted(pre, post, r, IrType::UInt(ut)),
            None => match float_ty_of(name) {
                Some(ft) => inserted(pre, post, r, IrType::Float(ft)),
                None => if name == "Void"@ {
                    r == void_index && post == pre
                } else {
                    r == unknown_index && post == pre
                },
            },
        },
    }
}

/// How one AST type index lowers: a stale index or an unhandled shape
/// (refinement, row) resolves to the Unknown singleton without touching
/// the arena; a nominal reference classifies by name.
pub open spec fn type_lowering(
    program: Program,
    pre: Arena<IrType, IrTypeIndex>,
    post: Arena<IrType, IrTypeIndex>,
    void_index: IrTypeIndex,
    unknown_index: IrTypeIndex,
    ast_type: TypeIndex,
    r: IrTypeIndex,
) -> bool {
    let ta = program.program_arena.type_arena;
    if !ta.lives(ast_type) {
        r == unknown_index && post == pre
    } else {
        match ta.value_of(ast_type) {
            Type::Base(name) => base_lowering(pre, post, void_index, unknown_index, name.name@, r),
            _ => r == unknown_index && post == pre,
        }
    }
}

/// What lowering one source function yields: an IR function node carrying
/// the same access and name, no type parameters and no blocks yet, and a
/// return type classified from the source return type's name.
pub open spec fn function_lowering(
    pre: Arena<IrType, IrTypeIndex>,
    post: Arena<IrType, IrTypeIndex>,
    void_index: IrTypeIndex,
    unknown_index: IrTypeIndex,
    func: Node,
    r: IrNode,
) -> bool {
    match func {
        Node::Function { access, name, params: _, return_type, statements: _ } => {
            &&& r matches IrNode::Function(irf)
            &&& irf.access == access_lowered(access)
            &&& irf.name == name
            &&& irf.type_params@.len() == 0
            &&& irf.blocks@.len() == 0
            &&& base_lowering(pre, post, void_index, unknown_index, return_type.name@, irf.return_type)
        },
        _ => false,
    }
}

/// The slots of the first `n` declaration slots that hold `Function`
/// nodes, in slot order: the declarations the pass lowers, every other
/// kind being skipped.
pub open spec fn func_slots(na: Arena<Node, NodeIndex>, n: int) -> Seq<int>
    decreases n,
{
    if n <= 0 {
        Seq::empty()
    } else if na.occupied_at(n - 1) && na.value_at(n - 1) is Function {
        func_slots(na, n - 1).push(n - 1)
    } else {
        func_slots(na, n - 1)
    }
}

/// Where a classified return type points afterwards: at a live arena entry
/// holding exactly the classified IR type, or at the Void singleton
/// (slot 0) for the `Void` token, or at the Unknown singleton (slot 1) for
/// an unrecognized token.
pub open spec fn return_lowered(
    ta: Arena<IrType, IrTypeIndex>,
    rt: IrTypeIndex,
    name: Seq<char>,
) -> bool {
    match int_ty_of(name) {
        Some(it) => ta.lives(rt) && ta.value_of(rt) == IrType::Int(it),
        None => match uint_ty_of(name) {
            Some(ut) => ta.lives(rt) && ta.value_of(rt) == IrType::UInt(ut),
            None => match float_ty_of(name) {
                Some(ft) => ta.lives(rt) && ta.value_of(rt) == IrType::Float(ft),
                None => if name == "Void"@ {
                    rt.slot == 0 && rt.generation == 0
                } else {
                    rt.slot == 1 && rt.generation == 0
                },
            },
        },
    }
}

/// The `k`-th lowered node of the module mirrors the source function at
/// declaration slot `s`: same access, same name, empty type parameters and
/// blocks, return type classified from the source name.
pub open spec fn node_lowered(
    program: Program,
    mna: Arena<IrNode, IrNodeIndex>,
    ta: Arena<IrType, IrTypeIndex>,
    s: int,
    k: int,
) -> bool {
    &&& mna.occupied_at(k)
    &&& mna.gen_at(k) == 0
    &&& match program.program_arena.node_arena.value_at(s) {
        Node::Function { access, name, params: _, return_type, statements: _ } => {
            &&& mna.value_at(k) matches IrNode::Function(irf)
            &&& irf.access == access_lowered(access)
            &&& irf.name == name
            &&& irf.type_params@.len() == 0
            &&& irf.blocks@.len() == 0
            &&& return_lowered(ta, irf.return_type, return_type.name@)
        },
        _ => false,
    }
}

/// Everything one lowering session guarantees of its module: path, name
/// and imports taken from the program; block and instruction arenas still
/// empty; the type arena in lowered shape with its two singletons; and the
/// node arena holding exactly one lowered function per source `Function`
/// declaration, in declaration slot order — every other declaration kind
/// skipped without a trace.
pub open spec fn convert_post(program: Program, m: Module) -> bool {
    let na = program.program_arena.node_arena;
    let fs = func_slots(na, na.slot_count() as int);
    &&& m.path == program.path
    &&& m.name == program.file_name
    &&& m.imports == program.imports
    &&& m.module_arena.wf()
    &&& lowered_type_arena(m.module_arena.type_arena)
    &&& m.module_arena.block_arena.slot_count() == 0
    &&& m.module_arena.instruction_arena.slot_count() == 0
    &&& m.module_arena.node_arena.slot_count() == fs.len()
    &&& m.module_arena.node_arena.dense()
    &&& forall|k: int|
        0 <= k < fs.len() ==> node_lowered(
            program,
            m.module_arena.node_arena,
            m.module_arena.type_arena,
            #[trigger] fs[k],
            k,
        )
}

/// The lowering pass itself; one builder lowers one program into one
/// module.
pub struct IrBuilder {}

impl IrBuilder {
    pub fn new() -> (r: IrBuilder) {
        IrBuilder {  }
    }

    /// Lower a whole program: walk its declaration arena in slot order,
    /// lower each `Function` into the module's node arena, skip every
    /// other declaration kind, and wrap the result as a module named after
    /// the source file.
    pub fn convert(&self, program: Program) -> (m: Module)
        ensures
            convert_post(program, m),
    {
        let mut ctx = IrBuilderContext::new(&program);
        let n = program.program_arena.node_arena.slot_len();
        let ghost na = program.program_arena.node_arena;
        let mut s: usize = 0;
        while s < n
            invariant
                n as nat == na.slot_count(),
                na == program.program_arena.node_arena,
                0 <= s <= n,
                ctx.wf(),
                ctx.module_arena.wf(),
                ctx.module_arena.block_arena.slot_count() == 0,
                ctx.module_arena.instruction_arena.slot_count() == 0,
                ctx.module_arena.node_arena.dense(),
                ctx.module_arena.node_arena.slot_count() == func_slots(na, s as int).len(),
                forall|k: int|
                    0 <= k < func_slots(na, s as int).len() ==> node_lowered(
                        program,
                        ctx.module_arena.node_arena,
                        ctx.module_arena.type_arena,
                        #[trigger] func_slots(na, s as int)[k],
                        k,
                    ),
            decreases n - s,
        {
            let ghost fs_pre = func_slots(na, s as int);
            let ghost mna_pre = ctx.module_arena.node_arena;
            let ghost ta_pre = ctx.module_arena.type_arena;
            let node_opt = program.program_arena.node_arena.get_at_slot(s);
            match node_opt {
                Some((_index, node)) => {
                    match node {
                        Node::Function { .. } => {
                            let ir_node = self.build_function(&mut ctx, node);
                            let ghost ta_mid = ctx.module_arena.type_arena;
                            let ghost mna_mid = ctx.module_arena.node_arena;
                            let _idx = ctx.module_arena.node_arena.insert(ir_node);
                            proof {
                                let fs_post = func_slots(na, s as int + 1);
                                assert(fs_post =~= fs_pre.push(s as int));
                                let mna = ctx.module_arena.node_arena;
                                let ta = ctx.module_arena.type_arena;
                                assert(inserted(mna_mid, mna, _idx, ir_node));
                                assert(_idx.slot_of() == mna_mid.slot_count()) by {
                                    if _idx.slot_of() < mna_mid.slot_count() {
                                        assert(mna_mid.free_at(_idx.slot_of() as int));
                                        assert(mna_mid.occupied_at(_idx.slot_of() as int));
                                    }
                                }
                                assert forall|sl: int|
                                    0 <= sl < mna.slot_count() implies mna.occupied_at(sl) by {
                                    if sl < mna_mid.slot_count() {
                                        assert(mna.slots@[sl] == mna_mid.slots@[sl]);
                                        assert(mna_mid.occupied_at(sl));
                                    } else {
                                        assert(sl == _idx.slot_of() as int);
                                    }
                                }
                                assert forall|j: IrTypeIndex|
                                    ta_pre.lives(j) implies ta.lives(j) && #[trigger] ta.value_of(
                                    j,
                                ) == ta_pre.value_of(j) by {}
                                assert forall|k: int| 0 <= k < fs_post.len() implies node_lowered(
                                    program,
                                    mna,
                                    ta,
                                    #[trigger] fs_post[k],
                                    k,
                                ) by {
                                    if k < fs_pre.len() {
                                        assert(fs_post[k] == fs_pre[k]);
                                        assert(node_lowered(program, mna_pre, ta_pre, fs_pre[k], k));
                                        assert(mna.slots@[k] == mna_pre.slots@[k]);
                                        lemma_node_lowered_preserved(
                                            program,
                                            mna_pre,
                                            mna,
                                            ta_pre,
                                            ta,
                                            fs_pre[k],
                                            k,
                                        );
                                    } else {
                                        assert(k == fs_pre.len());
                                        assert(fs_post[k] == s as int);
                                        assert(mna.lives(_idx) && mna.value_of(_idx) == ir_node);
                                    }
                                }
                            }
                        },
                        _ => {
                            proof {
                                assert(func_slots(na, s as int + 1) =~= fs_pre);
                            }
                        },
                    }
                },
                None => {
                    proof {
                        assert(func_slots(na, s as int + 1) =~= fs_pre);
                    }
                },
            }
            s += 1;
        }
        proof {
            assert(s as int == na.slot_count() as int);
        }
        let module_arena = ctx.module_arena;
        Module {
            path: program.path,
            name: program.file_name,
            imports: program.imports,
            module_arena,
        }
    }

    /// Classify one nominal type name against, in order, the signed
    /// integer table, the unsigned table, the float table and the literal
    /// `Void`; the first match wins, and no match falls back to the
    /// Unknown singleton.
    fn lower_type_name(&self, ctx: &mut IrBuilderContext, name: &TypeName) -> (r: IrTypeIndex)
        requires
            old(ctx).wf(),
        ensures
            final(ctx).wf(),
            final(ctx).program == old(ctx).program,
            final(ctx).void_index == old(ctx).void_index,
            final(ctx).unknown_index == old(ctx).unknown_index,
            final(ctx).module_arena.node_arena == old(ctx).module_arena.node_arena,
            final(ctx).module_arena.block_arena == old(ctx).module_arena.block_arena,
            final(ctx).module_arena.instruction_arena == old(ctx).module_arena.instruction_arena,
            base_lowering(
                old(ctx).module_arena.type_arena,
                final(ctx).module_arena.type_arena,
                old(ctx).void_index,
                old(ctx).unknown_index,
                name.name@,
                r,
            ),
    {
        let token = name.name.as_str();
        match IntTy::from(token) {
            Some(int_type) => {
                let r = ctx.module_arena.type_arena.insert(IrType::Int(int_type));
                proof {
                    lemma_classified_insert(
                        old(ctx).module_arena.type_arena,
                        ctx.module_arena.type_arena,
                        r,
                        IrType::Int(int_type),
                    );
                }
                r
            },
            None => match UIntTy::from(token) {
                Some(uint_type) => {
                    let r = ctx.module_arena.type_arena.insert(IrType::UInt(uint_type));
                    proof {
                        lemma_classified_insert(
                            old(ctx).module_arena.type_arena,
                            ctx.module_arena.type_arena,
                            r,
                            IrType::UInt(uint_type),
                        );
                    }
                    r
                },
                None => match FloatTy::from(token) {
                    Some(float_type) => {
                        let r = ctx.module_arena.type_arena.insert(IrType::Float(float_type));
                        proof {
                            lemma_classified_insert(
                                old(ctx).module_arena.type_arena,
                                ctx.module_arena.type_arena,
                                r,
                                IrType::Float(float_type),
                            );
                        }
                        r
                    },
                    None => {
                        if str_eq("Void", token) {
                            ctx.void_index
                        } else {
                            ctx.unknown_index
                        }
                    },
                },
            },
        }
    }

    /// Resolve one AST type reference to an IR type index. A stale index
    /// resolves to the Unknown singleton rather than failing; refinement
    /// and row shapes are deferred and resolve to Unknown as well.
    pub fn build_type(&self, ctx: &mut IrBuilderContext, ast_type: TypeIndex) -> (r: IrTypeIndex)
        requires
            old(ctx).wf(),
        ensures
            final(ctx).wf(),
            final(ctx).program == old(ctx).program,
            final(ctx).void_index == old(ctx).void_index,
            final(ctx).unknown_index == old(ctx).unknown_index,
            final(ctx).module_arena.node_arena == old(ctx).module_arena.node_arena,
            final(ctx).module_arena.block_arena == old(ctx).module_arena.block_arena,
            final(ctx).module_arena.instruction_arena == old(ctx).module_arena.instruction_arena,
            type_lowering(
                *old(ctx).program,
                old(ctx).module_arena.type_arena,
                final(ctx).module_arena.type_arena,
                old(ctx).void_index,
                old(ctx).unknown_index,
                ast_type,
                r,
            ),
    {
        let program: &Program = ctx.program;
        match program.program_arena.type_arena.get(ast_type) {
            Some(t) => match t {
                Type::Base(name) => self.lower_type_name(ctx, name),
                Type::Refinement(_, _, _) => ctx.unknown_index,
                Type::Row(_) => ctx.unknown_index,
            },
            None => ctx.unknown_index,
        }
    }

    /// Lower one named-and-typed binding: an absent type annotation is
    /// materialized as the Void singleton, a present one resolves through
    /// the ordinary type lowering.
    pub fn build_typed_name(&self, ctx: &mut IrBuilderContext, ast_typed_name: TypedName) -> (r:
        IrTypedName)
        requires
            old(ctx).wf(),
        ensures
            final(ctx).wf(),
            final(ctx).program == old(ctx).program,
            final(ctx).void_index == old(ctx).void_index,
            final(ctx).unknown_index == old(ctx).unknown_index,
            final(ctx).module_arena.node_arena == old(ctx).module_arena.node_arena,
            final(ctx).module_arena.block_arena == old(ctx).module_arena.block_arena,
            final(ctx).module_arena.instruction_arena == old(ctx).module_arena.instruction_arena,
            r.name == ast_typed_name.name,
            match ast_typed_name.typ {
                None => r.typ == old(ctx).void_index && final(ctx).module_arena.type_arena == old(
                    ctx,
                ).module_arena.type_arena,
                Some(ti) => type_lowering(
                    *old(ctx).program,
                    old(ctx).module_arena.type_arena,
                    final(ctx).module_arena.type_arena,
                    old(ctx).void_index,
                    old(ctx).unknown_index,
                    ti,
                    r.typ,
                ),
            },
    {
        match ast_typed_name.typ {
            Some(ty) => IrTypedName {
                typ: self.build_type(ctx, ty),
                name: ast_typed_name.name,
            },
            None => IrTypedName { typ: ctx.void_index, name: ast_typed_name.name },
        }
    }

    /// Lower one source function declaration: copy access and name, leave
    /// type parameters and blocks empty for now, and classify the return
    /// type by name.
    pub fn build_function(&self, ctx: &mut IrBuilderContext, func: &Node) -> (r: IrNode)
        requires
            old(ctx).wf(),
            func is Function,
        ensures
            final(ctx).wf(),
            final(ctx).program == old(ctx).program,
            final(ctx).void_index == old(ctx).void_index,
            final(ctx).unknown_index == old(ctx).unknown_index,
            final(ctx).module_arena.node_arena == old(ctx).module_arena.node_arena,
            final(ctx).module_arena.block_arena == old(ctx).module_arena.block_arena,
            final(ctx).module_arena.instruction_arena == old(ctx).module_arena.instruction_arena,
            function_lowering(
                old(ctx).module_arena.type_arena,
                final(ctx).module_arena.type_arena,
                old(ctx).void_index,
                old(ctx).unknown_index,
                *func,
                r,
            ),
    {
        match func {
            Node::Function { access, name, params: _, return_type, statements: _ } => {
                let rt = self.lower_type_name(ctx, return_type);
                IrNode::Function(IrFunction {
                    access: Access::from(*access),
                    name: name.clone(),
                    type_params: Vec::new(),
                    return_type: rt,
                    blocks: Vec::new(),
                })
            },
            _ => unreached(),
        }
    }
}

/// An already lowered node stays lowered as the session goes on: later
/// insertions never disturb the module slots and type entries it rests on.
proof fn lemma_node_lowered_preserved(
    program: Program,
    mna_pre: Arena<IrNode, IrNodeIndex>,
    mna_post: Arena<IrNode, IrNodeIndex>,
    ta_pre: Arena<IrType, IrTypeIndex>,
    ta_post: Arena<IrType, IrTypeIndex>,
    s: int,
    k: int,
)
    requires
        node_lowered(program, mna_pre, ta_pre, s, k),
        0 <= k < mna_pre.slot_count(),
        mna_pre.slot_count() <= mna_post.slot_count(),
        mna_post.slots@[k] == mna_pre.slots@[k],
        forall|j: IrTypeIndex|
            ta_pre.lives(j) ==> ta_post.lives(j) && #[trigger] ta_post.value_of(j)
                == ta_pre.value_of(j),
    ensures
        node_lowered(program, mna_post, ta_post, s, k),
{
}

} // verus!

