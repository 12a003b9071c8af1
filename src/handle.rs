//! Opaque integer handles for natively owned objects.
//!
//! Every object handed to the host lives in one slot of a registry and is
//! named by a positive `i64` that packs the slot's index with the slot's
//! generation. Closing a handle frees its slot for reuse and advances the
//! slot's generation, so the closed handle is rejected from then on. The
//! value `0` never names an object.
use vstd::prelude::*;
use vstd::arithmetic::div_mod::lemma_fundamental_div_mod_converse;

verus! {

/// A handle is `generation * SLOT_SPAN + index + 1`.
pub const SLOT_SPAN: i64 = 0x1_0000_0000;

/// The most slots one registry holds.
pub const MAX_SLOTS: usize = 0xffff_fffe;

/// A slot whose generation reaches this value is never reused.
pub const GENERATION_LIMIT: u32 = 0x7fff_fffe;

/// The slot index that handle `h` names.
pub open spec fn slot_of(h: int) -> int {
    h % (SLOT_SPAN as int) - 1
}

/// The generation that handle `h` names.
pub open spec fn generation_of(h: int) -> int {
    h / (SLOT_SPAN as int)
}

/// The handle of slot `index` in generation `generation`.
pub open spec fn handle_of(generation: int, index: int) -> int {
    generation * (SLOT_SPAN as int) + index + 1
}

proof fn lemma_handle_parts(generation: int, index: int)
    requires
        0 <= generation <= GENERATION_LIMIT,
        0 <= index < MAX_SLOTS,
    ensures
        slot_of(handle_of(generation, index)) == index,
        generation_of(handle_of(generation, index)) == generation,
        0 < handle_of(generation, index) <= i64::MAX,
{
    lemma_fundamental_div_mod_converse(
        handle_of(generation, index),
        SLOT_SPAN as int,
        generation,
        index + 1,
    );
}

proof fn lemma_handle_from_parts(h: int)
    requires
        h > 0,
    ensures
        h == handle_of(generation_of(h), slot_of(h)),
        generation_of(h) >= 0,
        -1 <= slot_of(h) < SLOT_SPAN - 1,
{
}

struct Slot<T> {
    generation: u32,
    value: Option<T>,
}

/// Owns the objects behind handles.
pub struct HandleRegistry<T> {
    slots: Vec<Slot<T>>,
}

impl<T> View for HandleRegistry<T> {
    /// The live handles and the object behind each.
    type V = Map<i64, T>;

    closed spec fn view(&self) -> Map<i64, T> {
        Map::new(|h: i64| self.live(h as int), |h: i64| self.slots@[slot_of(h as int)].value->Some_0)
    }
}

impl<T> HandleRegistry<T> {
    spec fn live(&self, h: int) -> bool {
        &&& h > 0
        &&& 0 <= slot_of(h) < self.slots@.len()
        &&& self.slots@[slot_of(h)].value is Some
        &&& self.slots@[slot_of(h)].generation == generation_of(h)
    }

    /// Each slot's generation and whether it is occupied.
    pub closed spec fn layout(&self) -> Seq<(u32, bool)> {
        self.slots@.map_values(|s: Slot<T>| (s.generation, s.value is Some))
    }

    /// `h` was closed (or belongs to a generation that has passed): it will
    /// never name an object again.
    pub closed spec fn is_retired(&self, h: i64) -> bool {
        let s = slot_of(h as int);
        &&& h > 0
        &&& 0 <= s < self.slots@.len()
        &&& (self.slots@[s].generation > generation_of(h as int) || (self.slots@[s].generation
            >= GENERATION_LIMIT && self.slots@[s].value is None))
    }

    /// Whether `open` can issue another handle: a free slot can be reused,
    /// or a new slot can be added.
    pub closed spec fn has_room(&self) -> bool {
        ||| self.slots@.len() < MAX_SLOTS
        ||| exists|i: int|
            0 <= i < self.slots@.len() && i < MAX_SLOTS && (#[trigger] self.slots@[i]).value is None
                && self.slots@[i].generation < GENERATION_LIMIT
    }

    /// Handle `0` never names an object, so every operation on it finds
    /// nothing and returns its sentinel.
    pub proof fn lemma_zero_handle_never_live(&self)
        ensures
            !self@.contains_key(0),
    {
    }

    /// A retired handle names nothing; since `open` never issues a retired
    /// handle and every operation keeps retired handles retired, it never
    /// names anything again.
    pub proof fn lemma_retired_handle_never_live(&self, h: i64)
        requires
            self.is_retired(h),
        ensures
            !self@.contains_key(h),
    {
    }

    /// An empty registry.
    pub fn new() -> (r: Self)
        ensures
            r@ == Map::<i64, T>::empty(),
            r.has_room(),
    {
        let r = HandleRegistry { slots: Vec::new() };
        assert(r@ =~= Map::<i64, T>::empty());
        r
    }

    /// The index of the slot behind live handle `h`.
    fn locate(&self, h: i64) -> (r: Option<usize>)
        ensures
            r is Some <==> self@.contains_key(h),
            r is Some ==> r->Some_0 == slot_of(h as int),
    {
        if h <= 0 {
            return None;
        }
        proof {
            lemma_handle_from_parts(h as int);
        }
        let index = h % SLOT_SPAN - 1;
        if index < 0 || index as u64 >= self.slots.len() as u64 {
            return None;
        }
        let slot = &self.slots[index as usize];
        if slot.value.is_some() && slot.generation as i64 == h / SLOT_SPAN {
            Some(index as usize)
        } else {
            None
        }
    }

    /// Takes ownership of `value` and returns a fresh positive handle for
    /// it, reusing a free slot where there is one; returns `0` and drops
    /// `value` only when the registry has no room left.
    pub fn open(&mut self, value: T) -> (r: i64)
        ensures
            r == 0 <==> !old(self).has_room(),
            r == 0 ==> final(self)@ == old(self)@ && final(self).layout() == old(self).layout(),
            r != 0 ==> {
                &&& r > 0
                &&& !old(self)@.contains_key(r)
                &&& !old(self).is_retired(r)
                &&& final(self)@ == old(self)@.insert(r, value)
            },
            forall|k: i64| old(self).is_retired(k) ==> #[trigger] final(self).is_retired(k),
    {
        let ghost before = *self;
        let mut i: usize = 0;
        while i < self.slots.len() && i < MAX_SLOTS
            invariant
                *self == before,
                before == *old(self),
                i <= self.slots@.len(),
                i <= MAX_SLOTS,
                forall|j: int|
                    0 <= j < i ==> !((#[trigger] self.slots@[j]).value is None
                        && self.slots@[j].generation < GENERATION_LIMIT),
            decreases self.slots@.len() - i,
        {
            if self.slots[i].value.is_none() && self.slots[i].generation < GENERATION_LIMIT {
                let generation = self.slots[i].generation;
                proof {
                    assert(before.slots@[i as int].value is None);
                    assert(before.has_room());
                    lemma_handle_parts(generation as int, i as int);
                }
                let h = generation as i64 * SLOT_SPAN + i as i64 + 1;
                self.slots.set(i, Slot { generation, value: Some(value) });
                proof {
                    assert forall|k: i64| #![auto] self.live(k as int) == (before.live(k as int) || k
                        == h) by {
                        if k > 0 {
                            lemma_handle_from_parts(k as int);
                        }
                    }
                    assert(self@ =~= before@.insert(h, value));
                    assert(h as int == handle_of(generation as int, i as int));
                    assert(!before.is_retired(h));
                    assert(!before@.contains_key(h));
                    assert forall|k: i64| before.is_retired(k) implies #[trigger] self.is_retired(
                        k,
                    ) by {
                        assert(self.slots@[slot_of(k as int)].generation == before.slots@[slot_of(
                            k as int,
                        )].generation);
                    }
                }
                return h;
            }
            i += 1;
        }
        if self.slots.len() >= MAX_SLOTS {
            proof {
                assert forall|j: int|
                    0 <= j < self.slots@.len() && j < MAX_SLOTS implies !((
                    #[trigger] self.slots@[j]).value is None && self.slots@[j].generation
                    < GENERATION_LIMIT) by {
                    assert(j < i);
                }
            }
            return 0;
        }
        let index = self.slots.len();
        proof {
            lemma_handle_parts(0, index as int);
        }
        self.slots.push(Slot { generation: 0, value: Some(value) });
        let h = index as i64 + 1;
        proof {
            assert forall|k: i64| #![auto] self.live(k as int) == (before.live(k as int) || k == h) by {
                if k > 0 {
                    lemma_handle_from_parts(k as int);
                }
            }
            assert(self@ =~= before@.insert(h, value));
        }
        h
    }

    /// Whether `h` names a live object.
    pub fn is_open(&self, h: i64) -> (r: bool)
        ensures
            r == self@.contains_key(h),
    {
        self.locate(h).is_some()
    }

    /// The object behind `h`, or `None` when `h` is `0`, closed or never
    /// issued.
    pub fn get(&self, h: i64) -> (r: Option<&T>)
        ensures
            r is Some <==> self@.contains_key(h),
            r is Some ==> *r->Some_0 == self@[h],
    {
        match self.locate(h) {
            None => None,
            Some(index) => self.slots[index].value.as_ref(),
        }
    }

    /// Exclusive access to the object behind `h`, or `None` when `h` names
    /// no live object; what the caller leaves there stays behind `h`.
    pub fn get_mut(&mut self, h: i64) -> (r: Option<&mut T>)
        ensures
            r is Some <==> old(self)@.contains_key(h),
            r is None ==> final(self)@ == old(self)@,
            r is Some ==> *r.unwrap() == old(self)@[h] && final(self)@ =~= old(self)@.insert(
                h,
                *final(r.unwrap()),
            ),
            final(self).layout() =~= old(self).layout(),
    {
        match self.locate(h) {
            None => None,
            Some(index) => self.slots[index].value.as_mut(),
        }
    }

    /// Reclaims the object behind `h` and hands it back, retiring `h`;
    /// `None` when `h` names no live object, in which case nothing changes.
    pub fn close(&mut self, h: i64) -> (r: Option<T>)
        ensures
            r == (if old(self)@.contains_key(h) { Some(old(self)@[h]) } else { None::<T> }),
            final(self)@ == old(self)@.remove(h),
            old(self)@.contains_key(h) ==> final(self).is_retired(h),
            !old(self)@.contains_key(h) ==> final(self).layout() == old(self).layout(),
            forall|k: i64| old(self).is_retired(k) ==> #[trigger] final(self).is_retired(k),
    {
        let ghost before = *self;
        match self.locate(h) {
            None => {
                assert(self@ =~= before@.remove(h));
                None
            },
            Some(index) => {
                let generation = self.slots[index].generation;
                let next = if generation < GENERATION_LIMIT {
                    generation + 1
                } else {
                    generation
                };
                let taken = self.slots[index].value.take();
                self.slots.set(index, Slot { generation: next, value: None });
                proof {
                    assert forall|k: i64| #![auto] self.live(k as int) == (before.live(k as int) && k
                        != h) by {
                        if k > 0 {
                            lemma_handle_from_parts(k as int);
                        }
                    }
                    assert(self@ =~= before@.remove(h));
                    assert(slot_of(h as int) == index);
                    assert(before.slots@[index as int].generation == generation_of(h as int));
                    assert(self.slots@[index as int].generation > before.slots@[index as int].generation
                        || self.slots@[index as int].generation >= GENERATION_LIMIT);
                    assert(self.slots@[index as int].value is None);
                    assert(self.is_retired(h));
                }
                taken
            },
        }
    }
}

/// Closing a handle a second time is harmless: once `close` has removed `h`,
/// a second `close` of `h` finds nothing and leaves the registry as it is.
pub proof fn lemma_second_close_is_noop<T>(before: Map<i64, T>, after: Map<i64, T>, h: i64)
    requires
        after == before.remove(h),
    ensures
        !after.contains_key(h),
        after.remove(h) == after,
{
    assert(after.remove(h) =~= after);
}

} // verus!
