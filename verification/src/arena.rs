//! The arena index model: every tree and IR node is owned by a typed arena
//! and referred to only by a generation-checked index. An index is valid
//! only against the arena that issued it; each arena family uses its own
//! index type, so an index from one family cannot type-check against
//! another.

use vstd::prelude::*;

verus! {

/// A generation-checked handle into one arena family. Implementing types
/// carry a slot position and the generation under which the slot was
/// occupied when the index was issued.
pub trait ArenaIndex: Sized + Copy {
    /// The slot position this index points at.
    spec fn slot_of(self) -> nat;

    /// The generation this index was issued under.
    spec fn gen_of(self) -> nat;

    fn make(slot: usize, generation: u64) -> (r: Self)
        ensures
            r.slot_of() == slot as nat,
            r.gen_of() == generation as nat,
    ;

    fn slot(self) -> (r: usize)
        ensures
            r as nat == self.slot_of(),
    ;

    fn generation(self) -> (r: u64)
        ensures
            r as nat == self.gen_of(),
    ;
}

/// One storage slot of an arena: occupied by a value under some generation,
/// free and remembering the generation its next occupant will carry, or
/// retired because its generation counter is exhausted.
#[derive(Debug)]
pub enum Slot<T> {
    Occupied { generation: u64, value: T },
    Free { next_generation: u64 },
    Retired,
}

/// A growable container that owns all values of one element family and
/// issues stable, generation-checked indices instead of references.
/// Insertion never invalidates previously issued indices; only removal
/// does, by bumping the slot's generation.
#[derive(Debug)]
pub struct Arena<T, I> {
    pub slots: Vec<Slot<T>>,
    pub free: Vec<usize>,
    pub marker: core::marker::PhantomData<I>,
}

impl<T, I: ArenaIndex> Arena<T, I> {
    /// How many slots the arena has ever allocated (occupied or not).
    pub open spec fn slot_count(self) -> nat {
        self.slots@.len()
    }

    pub open spec fn occupied_at(self, s: int) -> bool {
        0 <= s < self.slots@.len() && self.slots@[s] is Occupied
    }

    pub open spec fn gen_at(self, s: int) -> nat {
        match self.slots@[s] {
            Slot::Occupied { generation, .. } => generation as nat,
            _ => arbitrary(),
        }
    }

    pub open spec fn value_at(self, s: int) -> T {
        match self.slots@[s] {
            Slot::Occupied { value, .. } => value,
            _ => arbitrary(),
        }
    }

    pub open spec fn free_at(self, s: int) -> bool {
        0 <= s < self.slots@.len() && self.slots@[s] is Free
    }

    pub open spec fn free_gen_at(self, s: int) -> nat {
        match self.slots@[s] {
            Slot::Free { next_generation } => next_generation as nat,
            _ => arbitrary(),
        }
    }

    /// The index is valid: its slot is occupied under the very generation
    /// the index carries.
    pub open spec fn lives(self, i: I) -> bool {
        self.occupied_at(i.slot_of() as int) && self.gen_at(i.slot_of() as int) == i.gen_of()
    }

    /// The value a valid index refers to.
    pub open spec fn value_of(self, i: I) -> T {
        self.value_at(i.slot_of() as int)
    }

    /// Every slot is occupied; true of any arena that has seen no removal.
    pub open spec fn dense(self) -> bool {
        forall|s: int| 0 <= s < self.slot_count() ==> self.occupied_at(s)
    }

    /// The free list names pairwise distinct free slots.
    pub open spec fn wf(self) -> bool {
        &&& forall|k: int|
            0 <= k < self.free@.len() ==> (#[trigger] self.free@[k]) < self.slots@.len()
                && self.slots@[self.free@[k] as int] is Free
        &&& forall|k1: int, k2: int|
            0 <= k1 < k2 < self.free@.len() ==> #[trigger] self.free@[k1]
                != #[trigger] self.free@[k2]
    }

    pub fn new() -> (r: Self)
        ensures
            r.wf(),
            r.slot_count() == 0,
    {
        Arena { slots: Vec::new(), free: Vec::new(), marker: core::marker::PhantomData }
    }

    /// Store a value and hand back a fresh, previously unissued index for it.
    /// Never fails and never disturbs a previously issued valid index.
    pub fn insert(&mut self, value: T) -> (i: I)
        requires
            old(self).wf(),
        ensures
            final(self).wf(),
            inserted(*old(self), *final(self), i, value),
    {
        match self.free.pop() {
            Some(s) => {
                proof {
                    assert(old(self).free@[old(self).free@.len() - 1] == s);
                }
                let ng = match &self.slots[s] {
                    Slot::Free { next_generation } => *next_generation,
                    _ => {
                        proof {
                            assert(false);
                        }
                        0
                    },
                };
                self.slots.set(s, Slot::Occupied { generation: ng, value });
                let i = I::make(s, ng);
                proof {
                    assert forall|k1: int, k2: int|
                        0 <= k1 < k2 < self.free@.len() implies #[trigger] self.free@[k1]
                        != #[trigger] self.free@[k2] by {
                        assert(old(self).free@[k1] != old(self).free@[k2]);
                    }
                    assert forall|k: int| 0 <= k < self.free@.len() implies (
                    #[trigger] self.free@[k]) < self.slots@.len() && self.slots@[self.free@[k] as int]
                        is Free by {
                        assert(old(self).free@[k] == self.free@[k]);
                        assert(old(self).free@[k] != s);
                    }
                }
                i
            },
            None => {
                let s = self.slots.len();
                self.slots.push(Slot::Occupied { generation: 0, value });
                I::make(s, 0)
            },
        }
    }

    /// Look a value up by index. Absence, never a panic, for an index whose
    /// generation no longer matches the slot's occupant or that was issued
    /// by a larger arena.
    pub fn get(&self, i: I) -> (r: Option<&T>)
        ensures
            match r {
                Some(v) => self.lives(i) && *v == self.value_of(i),
                None => !self.lives(i),
            },
    {
        let s = i.slot();
        if s < self.slots.len() {
            match &self.slots[s] {
                Slot::Occupied { generation, value } => {
                    if *generation == i.generation() {
                        Some(value)
                    } else {
                        None
                    }
                },
                _ => None,
            }
        } else {
            None
        }
    }

    /// Remove the value a valid index refers to, bumping the slot's
    /// generation so the index (and every older index of that slot) goes
    /// stale. A stale index removes nothing.
    pub fn remove(&mut self, i: I) -> (r: Option<T>)
        requires
            old(self).wf(),
        ensures
            final(self).wf(),
            !old(self).lives(i) ==> r is None && *final(self) == *old(self),
            old(self).lives(i) ==> r == Some(old(self).value_of(i)) && removed(
                *old(self),
                *final(self),
                i,
            ),
    {
        let s = i.slot();
        if s >= self.slots.len() {
            return None;
        }
        let hit = match &self.slots[s] {
            Slot::Occupied { generation, .. } => *generation == i.generation(),
            _ => false,
        };
        if !hit {
            return None;
        }
        let g = i.generation();
        let mut taken = if g < u64::MAX {
            Slot::Free { next_generation: g + 1 }
        } else {
            Slot::Retired
        };
        self.slots.set_and_swap(s, &mut taken);
        if g < u64::MAX {
            self.free.push(s);
        }
        proof {
            assert forall|k: int| 0 <= k < self.free@.len() implies (#[trigger] self.free@[k])
                < self.slots@.len() && self.slots@[self.free@[k] as int] is Free by {
                if k < old(self).free@.len() {
                    assert(old(self).free@[k] == self.free@[k]);
                    assert(old(self).slots@[self.free@[k] as int] is Free);
                }
            }
            assert forall|k1: int, k2: int| 0 <= k1 < k2 < self.free@.len() implies #[trigger] self
                .free@[k1] != #[trigger] self.free@[k2] by {
                if k2 < old(self).free@.len() {
                    assert(old(self).free@[k1] != old(self).free@[k2]);
                } else {
                    assert(self.free@[k2] == s);
                    assert(old(self).slots@[old(self).free@[k1] as int] is Free);
                }
            }
        }
        match taken {
            Slot::Occupied { value, .. } => Some(value),
            _ => {
                proof {
                    assert(false);
                }
                None
            },
        }
    }

    pub fn slot_len(&self) -> (r: usize)
        ensures
            r as nat == self.slot_count(),
    {
        self.slots.len()
    }

    /// Walk the arena by slot position: the occupant of slot `s`, together
    /// with the index that currently refers to it, or absence for a free,
    /// retired or out-of-range slot.
    pub fn get_at_slot(&self, s: usize) -> (r: Option<(I, &T)>)
        ensures
            match r {
                Some(p) => self.occupied_at(s as int) && p.0.slot_of() == s as nat && p.0.gen_of()
                    == self.gen_at(s as int) && *p.1 == self.value_at(s as int) && self.lives(p.0),
                None => !self.occupied_at(s as int),
            },
    {
        if s < self.slots.len() {
            match &self.slots[s] {
                Slot::Occupied { generation, value } => Some((I::make(s, *generation), value)),
                _ => None,
            }
        } else {
            None
        }
    }
}

/// What one insertion does: the new index is fresh (it was not valid
/// before), it now refers to the stored value, every index valid before is
/// still valid with its value unchanged, and no index other than the new
/// one became valid. A reused slot carries the generation the slot was
/// freed under; a brand-new slot starts at generation zero.
pub open spec fn inserted<T, I: ArenaIndex>(pre: Arena<T, I>, post: Arena<T, I>, i: I, value: T) -> bool {
    &&& !pre.lives(i)
    &&& post.lives(i)
    &&& post.value_of(i) == value
    &&& i.slot_of() < post.slot_count()
    &&& pre.slot_count() <= post.slot_count() <= pre.slot_count() + 1
    &&& (i.slot_of() < pre.slot_count() ==> post.slot_count() == pre.slot_count() && pre.free_at(
        i.slot_of() as int,
    ) && i.gen_of() == pre.free_gen_at(i.slot_of() as int))
    &&& (i.slot_of() == pre.slot_count() ==> post.slot_count() == pre.slot_count() + 1
        && i.gen_of() == 0)
    &&& forall|s: int|
        0 <= s < pre.slot_count() && s != i.slot_of() as int ==> post.slots@[s] == pre.slots@[s]
    &&& forall|j: I|
        pre.lives(j) ==> post.lives(j) && #[trigger] post.value_of(j) == pre.value_of(j)
    &&& forall|j: I|
        #[trigger] post.lives(j) ==> pre.lives(j) || (j.slot_of() == i.slot_of() && j.gen_of()
            == i.gen_of())
}

/// What removing a valid index does: the slot is vacated and, unless its
/// generation counter is exhausted, freed under the next generation; every
/// index of any other slot is untouched; no index of this slot stays valid.
pub open spec fn removed<T, I: ArenaIndex>(pre: Arena<T, I>, post: Arena<T, I>, i: I) -> bool {
    &&& pre.lives(i)
    &&& post.slot_count() == pre.slot_count()
    &&& !post.occupied_at(i.slot_of() as int)
    &&& (i.gen_of() < u64::MAX ==> post.free_at(i.slot_of() as int) && post.free_gen_at(
        i.slot_of() as int,
    ) == i.gen_of() + 1)
    &&& (i.gen_of() >= u64::MAX ==> !post.free_at(i.slot_of() as int))
    &&& forall|s: int|
        0 <= s < pre.slot_count() && s != i.slot_of() as int ==> post.slots@[s] == pre.slots@[s]
    &&& forall|j: I|
        pre.lives(j) && j.slot_of() != i.slot_of() ==> post.lives(j) && #[trigger] post.value_of(j)
            == pre.value_of(j)
    &&& forall|j: I| j.slot_of() == i.slot_of() ==> !(#[trigger] post.lives(j))
}

/// Law: a value just inserted is found again under the returned index, and
/// every index that was valid before the insertion still yields the value
/// it yielded before.
pub proof fn lemma_index_soundness<T, I: ArenaIndex>(pre: Arena<T, I>, post: Arena<T, I>, i: I, value: T)
    requires
        inserted(pre, post, i, value),
    ensures
        post.lives(i),
        post.value_of(i) == value,
        forall|j: I|
            pre.lives(j) ==> post.lives(j) && #[trigger] post.value_of(j) == pre.value_of(j),
{
}

/// Law: after a slot is vacated and filled again, the old index of that
/// slot is stale — it differs from the new index and no longer lives — while
/// the new index yields exactly the newly stored value.
pub proof fn lemma_stale_index_absence<T, I: ArenaIndex>(
    a0: Arena<T, I>,
    a1: Arena<T, I>,
    a2: Arena<T, I>,
    i1: I,
    i2: I,
    value: T,
)
    requires
        removed(a0, a1, i1),
        inserted(a1, a2, i2, value),
    ensures
        a2.lives(i2),
        a2.value_of(i2) == value,
        !a2.lives(i1),
        i1.slot_of() != i2.slot_of() || i1.gen_of() != i2.gen_of(),
{
    assert(!a1.lives(i1));
    if i1.slot_of() == i2.slot_of() && i1.gen_of() == i2.gen_of() {
        assert(i2.slot_of() < a1.slot_count());
        assert(a1.free_at(i2.slot_of() as int));
        assert(i1.gen_of() < u64::MAX);
        assert(i2.gen_of() == i1.gen_of() + 1);
        assert(false);
    }
}

} // verus!
