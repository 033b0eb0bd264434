//! The type materializer a code generator draws on: it converts IR types
//! on demand into native machine type descriptions and caches the result
//! keyed by IR type index, so each type is constructed at most once per
//! backend instance.

use vstd::prelude::*;
use crate::arena::{Arena, ArenaIndex};
use crate::ir::{float_bits, int_bits, uint_bits, FloatTy, IrType, IrTypeIndex, Module};

verus! {

/// An opaque handle to one materialized native type, issued by one
/// materializer instance; equal handles mean the identical cached type.
#[derive(Clone, Copy, PartialEq, Eq, Structural, Debug)]
pub struct NativeTypeHandle(pub usize);

/// The shape of one materialized native type: an integer of an exact bit
/// width, one of the four hardware float widths, or a function type over
/// previously materialized parameter and return types.
#[derive(Clone, Debug, PartialEq)]
pub enum NativeTypeDesc {
    Integer(u32),
    Half,
    Single,
    Double,
    Quad,
    Function(Vec<NativeTypeHandle>, NativeTypeHandle),
}

/// The one materialization failure: an IR type shape the backend has no
/// native representation for yet. Mapping such a type to an arbitrary
/// native type would corrupt code generation, so the conversion fails
/// loudly instead.
#[derive(Clone, Copy, Debug, PartialEq, Eq, Structural)]
pub enum MaterializeError {
    UnsupportedType,
}

/// A type arena whose composite types only reach backwards: every
/// function type's parameter and return indices are live and sit at
/// strictly smaller slots. Every arena the lowering pass produces is of
/// this shape, and it is what makes materialization well founded.
pub open spec fn types_wf(ta: Arena<IrType, IrTypeIndex>) -> bool {
    forall|s: int|
        0 <= s < ta.slot_count() && #[trigger] ta.occupied_at(s) ==> match ta.value_at(s) {
            IrType::Function(params, ret) => {
                &&& forall|k: int|
                    0 <= k < params@.len() ==> (#[trigger] params@[k]).slot < s && ta.lives(
                        params@[k],
                    )
                &&& ret.slot < s && ta.lives(ret)
            },
            _ => true,
        }
}

/// Which native float shape each float width materializes to.
pub open spec fn float_desc(ft: FloatTy) -> NativeTypeDesc {
    match ft {
        FloatTy::F16 => NativeTypeDesc::Half,
        FloatTy::F32 => NativeTypeDesc::Single,
        FloatTy::F64 => NativeTypeDesc::Double,
        FloatTy::F128 => NativeTypeDesc::Quad,
    }
}

/// The handle `h` denotes, among the materialized descriptions, exactly
/// the native form of the IR type at index `i`: booleans as 1-bit
/// integers, integers by their bit width, floats by their hardware shape,
/// and function types built from handles that in turn denote their
/// parameter and return types.
pub open spec fn describes(
    natives: Seq<NativeTypeDesc>,
    h: NativeTypeHandle,
    ta: Arena<IrType, IrTypeIndex>,
    i: IrTypeIndex,
) -> bool
    decreases i.slot,
{
    &&& ta.lives(i)
    &&& h.0 < natives.len()
    &&& match ta.value_of(i) {
        IrType::Bool => natives[h.0 as int] == NativeTypeDesc::Integer(1),
        IrType::Int(it) => natives[h.0 as int] == NativeTypeDesc::Integer(int_bits(it)),
        IrType::UInt(ut) => natives[h.0 as int] == NativeTypeDesc::Integer(uint_bits(ut)),
        IrType::Float(ft) => natives[h.0 as int] == float_desc(ft),
        IrType::Function(params, ret) => {
            &&& natives[h.0 as int] matches NativeTypeDesc::Function(hps, hr)
            &&& hps@.len() == params@.len()
            &&& forall|k: int|
                0 <= k < params@.len() ==> (#[trigger] params@[k]).slot < i.slot && describes(
                    natives,
                    hps@[k],
                    ta,
                    params@[k],
                )
            &&& ret.slot < i.slot && describes(natives, hr, ta, ret)
        },
        _ => false,
    }
}

/// The IR type at index `i` has a native representation: a boolean,
/// integer or float shape, or a function type all of whose nested types
/// have one. Everything else — sentinels, nominal, refinement, row,
/// reference and optional types — is not materializable yet.
pub open spec fn supported(ta: Arena<IrType, IrTypeIndex>, i: IrTypeIndex) -> bool
    decreases i.slot,
{
    &&& ta.lives(i)
    &&& match ta.value_of(i) {
        IrType::Bool => true,
        IrType::Int(_) => true,
        IrType::UInt(_) => true,
        IrType::Float(_) => true,
        IrType::Function(params, ret) => {
            &&& forall|k: int|
                0 <= k < params@.len() ==> (#[trigger] params@[k]).slot < i.slot && supported(
                    ta,
                    params@[k],
                )
            &&& ret.slot < i.slot && supported(ta, ret)
        },
        _ => false,
    }
}

/// A denotation is never disturbed by materializing further types: it
/// survives any extension of the description store.
proof fn lemma_describes_monotone(
    natives1: Seq<NativeTypeDesc>,
    natives2: Seq<NativeTypeDesc>,
    h: NativeTypeHandle,
    ta: Arena<IrType, IrTypeIndex>,
    i: IrTypeIndex,
)
    requires
        describes(natives1, h, ta, i),
        natives1.len() <= natives2.len(),
        forall|n: int| 0 <= n < natives1.len() ==> natives2[n] == natives1[n],
    ensures
        describes(natives2, h, ta, i),
    decreases i.slot,
{
    match ta.value_of(i) {
        IrType::Function(params, ret) => {
            let (hps, hr) = match natives1[h.0 as int] {
                NativeTypeDesc::Function(hps, hr) => (hps, hr),
                _ => arbitrary(),
            };
            assert forall|k: int| 0 <= k < params@.len() implies describes(
                natives2,
                hps@[k],
                ta,
                (#[trigger] params@[k]),
            ) by {
                lemma_describes_monotone(natives1, natives2, hps@[k], ta, params@[k]);
            }
            lemma_describes_monotone(natives1, natives2, hr, ta, ret);
        },
        _ => {},
    }
}

/// Law: every type arena the lowering pass leaves behind is materializable
/// ground — it holds only sentinels and primitive numeric types, so its
/// composite-type indices (there are none) trivially reach backwards, and
/// the materializer's well-foundedness requirement is met.
pub proof fn lemma_lowered_types_wf(ta: Arena<IrType, IrTypeIndex>)
    requires
        crate::ir::translate::lowered_type_arena(ta),
    ensures
        types_wf(ta),
{
    assert forall|s: int|
        0 <= s < ta.slot_count() && #[trigger] ta.occupied_at(s) implies match ta.value_at(s) {
        IrType::Function(params, ret) => {
            &&& forall|k: int|
                0 <= k < params@.len() ==> (#[trigger] params@[k]).slot < s && ta.lives(params@[k])
            &&& ret.slot < s && ta.lives(ret)
        },
        _ => true,
    } by {
        if s >= 2 {
            assert(ta.value_at(s) is Int || ta.value_at(s) is UInt || ta.value_at(s) is Float);
        }
    }
}

/// The index that currently refers to slot `s` of a type arena.
pub open spec fn index_at(ta: Arena<IrType, IrTypeIndex>, s: int) -> IrTypeIndex {
    IrTypeIndex { slot: s as usize, generation: ta.gen_at(s) as u64 }
}

/// The memoizing type materializer: native type descriptions created so
/// far, and a cache keyed by IR type slot. One instance serves one module;
/// repointing a backend at another module requires a fresh instance, since
/// type indices are only meaningful relative to the module that issued
/// them.
pub struct TypeMaterializer {
    pub type_cache: Vec<Option<NativeTypeHandle>>,
    pub natives: Vec<NativeTypeDesc>,
}

impl TypeMaterializer {
    /// The cached handle for a type slot, if any.
    pub open spec fn cached(self, s: int) -> Option<NativeTypeHandle> {
        if 0 <= s < self.type_cache@.len() {
            self.type_cache@[s]
        } else {
            None
        }
    }

    /// Every cache entry denotes the native form of the type currently at
    /// its slot in the given module.
    pub open spec fn wf(self, m: Module) -> bool {
        forall|s: int|
            0 <= s < self.type_cache@.len() ==> match #[trigger] self.type_cache@[s] {
                Some(h) => m.module_arena.type_arena.occupied_at(s) && describes(
                    self.natives@,
                    h,
                    m.module_arena.type_arena,
                    index_at(m.module_arena.type_arena, s),
                ),
                None => true,
            }
    }

    pub fn new() -> (r: TypeMaterializer)
        ensures
            r.type_cache@.len() == 0,
            r.natives@.len() == 0,
            forall|m: Module| r.wf(m),
    {
        TypeMaterializer { type_cache: Vec::new(), natives: Vec::new() }
    }

    /// Materialize the IR type at `index`: on a cache hit, hand back the
    /// cached handle untouched and do no work at all; on a miss, build the
    /// native description — converting a function type's nested types
    /// recursively — then cache it under the index's slot. A type with no
    /// native representation fails with the explicit unsupported-type
    /// error and is never silently mapped to anything.
    pub fn convert_type(&mut self, module: &Module, index: IrTypeIndex) -> (r: Result<
        NativeTypeHandle,
        MaterializeError,
    >)
        requires
            module.module_arena.type_arena.lives(index),
            types_wf(module.module_arena.type_arena),
            old(self).wf(*module),
        ensures
            final(self).wf(*module),
            old(self).natives@.len() <= final(self).natives@.len(),
            forall|n: int|
                0 <= n < old(self).natives@.len() ==> final(self).natives@[n] == old(
                    self,
                ).natives@[n],
            old(self).type_cache@.len() <= final(self).type_cache@.len(),
            forall|s: int|
                (#[trigger] old(self).cached(s)) is Some ==> final(self).cached(s) == old(
                    self,
                ).cached(s),
            forall|s: int| index.slot < s ==> final(self).cached(s) == old(self).cached(s),
            match r {
                Ok(h) => describes(
                    final(self).natives@,
                    h,
                    module.module_arena.type_arena,
                    index,
                ) && final(self).cached(index.slot as int) == Some(h),
                Err(_) => !supported(module.module_arena.type_arena, index),
            },
            match old(self).cached(index.slot as int) {
                Some(h0) => r == Ok::<NativeTypeHandle, MaterializeError>(h0) && *final(self)
                    == *old(self),
                None => true,
            },
        decreases index.slot,
    {
        let ghost ta = module.module_arena.type_arena;
        let s = index.slot();
        if s < self.type_cache.len() {
            match self.type_cache[s] {
                Some(h) => {
                    proof {
                        assert(index == index_at(ta, s as int));
                    }
                    return Ok(h);
                },
                None => {},
            }
        }
        let t = module.typ(index);
        let ghost natives0 = self.natives@;
        let desc = match t {
            IrType::Bool => NativeTypeDesc::Integer(1),
            IrType::Int(it) => NativeTypeDesc::Integer(it.bits()),
            IrType::UInt(ut) => NativeTypeDesc::Integer(ut.bits()),
            IrType::Float(ft) => match ft {
                FloatTy::F16 => NativeTypeDesc::Half,
                FloatTy::F32 => NativeTypeDesc::Single,
                FloatTy::F64 => NativeTypeDesc::Double,
                FloatTy::F128 => NativeTypeDesc::Quad,
            },
            IrType::Function(params, ret) => {
                let mut hps: Vec<NativeTypeHandle> = Vec::new();
                let mut k: usize = 0;
                while k < params.len()
                    invariant
                        0 <= k <= params@.len(),
                        hps@.len() == k,
                        ta == module.module_arena.type_arena,
                        types_wf(ta),
                        ta.lives(index),
                        ta.value_of(index) == IrType::Function(*params, *ret),
                        self.wf(*module),
                        old(self).natives@.len() <= self.natives@.len(),
                        forall|n: int|
                            0 <= n < old(self).natives@.len() ==> self.natives@[n] == old(
                                self,
                            ).natives@[n],
                        old(self).type_cache@.len() <= self.type_cache@.len(),
                        forall|sl: int|
                            (#[trigger] old(self).cached(sl)) is Some ==> self.cached(sl) == old(
                                self,
                            ).cached(sl),
                        forall|sl: int|
                            index.slot < sl ==> self.cached(sl) == old(self).cached(sl),
                        self.cached(index.slot as int) is None,
                        forall|j: int|
                            0 <= j < k ==> describes(self.natives@, #[trigger] hps@[j], ta, params@[j]),
                    decreases params@.len() - k,
                {
                    let ghost natives_before = self.natives@;
                    let pk = params[k];
                    proof {
                        assert(ta.occupied_at(index.slot as int));
                        assert(ta.value_at(index.slot as int) == IrType::Function(*params, *ret));
                        assert(match ta.value_at(index.slot as int) {
                            IrType::Function(ps, _rt) => ps@[k as int].slot < index.slot
                                && ta.lives(ps@[k as int]),
                            _ => false,
                        });
                        assert(pk == params@[k as int]);
                        assert(pk.slot < index.slot && ta.lives(pk));
                    }
                    let hp = match self.convert_type(module, pk) {
                        Ok(h) => h,
                        Err(e) => {
                            proof {
                                assert(!supported(ta, params@[k as int]));
                                assert(!supported(ta, index)) by {
                                    if supported(ta, index) {
                                        assert(match ta.value_of(index) {
                                            IrType::Function(ps, _rt) => supported(
                                                ta,
                                                ps@[k as int],
                                            ),
                                            _ => true,
                                        });
                                    }
                                }
                            }
                            return Err(e);
                        },
                    };
                    hps.push(hp);
                    proof {
                        assert forall|j: int| 0 <= j < k + 1 implies describes(
                            self.natives@,
                            #[trigger] hps@[j],
                            ta,
                            params@[j],
                        ) by {
                            if j < k {
                                lemma_describes_monotone(
                                    natives_before,
                                    self.natives@,
                                    hps@[j],
                                    ta,
                                    params@[j],
                                );
                            }
                        }
                    }
                    k += 1;
                }
                let ghost natives_mid = self.natives@;
                proof {
                    assert(ta.occupied_at(index.slot as int));
                    assert(ta.value_at(index.slot as int) == IrType::Function(*params, *ret));
                    assert(ret.slot < index.slot && ta.lives(*ret));
                }
                let hr = match self.convert_type(module, *ret) {
                    Ok(h) => h,
                    Err(e) => {
                        proof {
                            assert(!supported(ta, *ret));
                            assert(!supported(ta, index)) by {
                                if supported(ta, index) {
                                    assert(match ta.value_of(index) {
                                        IrType::Function(_ps, rt) => supported(ta, rt),
                                        _ => true,
                                    });
                                }
                            }
                        }
                        return Err(e);
                    },
                };
                proof {
                    assert(self.cached(index.slot as int) is None);
                    assert forall|j: int| 0 <= j < hps@.len() implies describes(
                        self.natives@,
                        #[trigger] hps@[j],
                        ta,
                        params@[j],
                    ) by {
                        lemma_describes_monotone(natives_mid, self.natives@, hps@[j], ta, params@[j]);
                    }
                }
                NativeTypeDesc::Function(hps, hr)
            },
            _ => {
                return Err(MaterializeError::UnsupportedType);
            },
        };
        let ghost natives_pre_push = self.natives@;
        let ghost gdesc = desc;
        let h = NativeTypeHandle(self.natives.len());
        self.natives.push(desc);
        proof {
            assert forall|sl: int|
                0 <= sl < self.type_cache@.len() implies match #[trigger] self.type_cache@[sl] {
                Some(hc) => ta.occupied_at(sl) && describes(self.natives@, hc, ta, index_at(ta, sl)),
                None => true,
            } by {
                match self.type_cache@[sl] {
                    Some(hc) => {
                        lemma_describes_monotone(
                            natives_pre_push,
                            self.natives@,
                            hc,
                            ta,
                            index_at(ta, sl),
                        );
                    },
                    None => {},
                }
            }
            match ta.value_of(index) {
                IrType::Function(params, ret) => {
                    match gdesc {
                        NativeTypeDesc::Function(hps, hr) => {
                            assert forall|j: int| 0 <= j < params@.len() implies describes(
                                self.natives@,
                                hps@[j],
                                ta,
                                (#[trigger] params@[j]),
                            ) by {
                                lemma_describes_monotone(
                                    natives_pre_push,
                                    self.natives@,
                                    hps@[j],
                                    ta,
                                    params@[j],
                                );
                            }
                            lemma_describes_monotone(natives_pre_push, self.natives@, hr, ta, ret);
                        },
                        _ => {},
                    }
                },
                _ => {},
            }
            assert(describes(self.natives@, h, ta, index));
        }
        let ghost pre_grow = self.type_cache@;
        let ghost natives_done = self.natives@;
        while self.type_cache.len() <= s
            invariant
                self.wf(*module),
                ta == module.module_arena.type_arena,
                self.natives@ == natives_done,
                describes(self.natives@, h, ta, index),
                pre_grow.len() <= self.type_cache@.len(),
                forall|sl: int| 0 <= sl < pre_grow.len() ==> self.type_cache@[sl] == pre_grow[sl],
                forall|sl: int|
                    pre_grow.len() <= sl < self.type_cache@.len() ==> (#[trigger] self.type_cache@[sl]) is None,
            decreases s + 1 - self.type_cache@.len(),
        {
            self.type_cache.push(None);
        }
        proof {
            assert(self.type_cache@[s as int] is None);
        }
        self.type_cache.set(s, Some(h));
        proof {
            assert(index == index_at(ta, s as int));
            assert forall|sl: int|
                0 <= sl < self.type_cache@.len() implies match #[trigger] self.type_cache@[sl] {
                Some(hc) => ta.occupied_at(sl) && describes(self.natives@, hc, ta, index_at(ta, sl)),
                None => true,
            } by {}
        }
        Ok(h)
    }
}

} // verus!
