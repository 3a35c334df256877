//! Slot pools for particles.
//!
//! A particle system keeps its particles in parallel arrays and addresses
//! them by slot. This module owns the bookkeeping: which slots are alive, in
//! what order they were emitted, which are free, and how the pool grows. What
//! a slot holds (position, velocity, colour, remaining life) is numeric data
//! of the presentation layer, which sizes its arrays by `capacity` and fills
//! the slots that `emit` hands out.

use std::collections::hash_map::Entry;
use std::collections::HashMap;
use std::collections::VecDeque;
use vstd::prelude::*;

verus! {

/// Number of slots of a new pool.
pub const DEFAULT_CAPACITY: usize = 8;

/// Whether particle positions are relative to their system or to the world.
#[derive(Clone, Copy, Debug, PartialEq, Eq, Structural)]
pub enum TransformSpace {
    Local,
    World,
}

/// A start value for a particle attribute: one fixed value, or a range to
/// sample from.
#[derive(Clone, Copy, Debug)]
pub enum ValueGetter<T> {
    Single(T),
    Range(T, T),
}

impl<T: Copy> ValueGetter<T> {
    /// The largest value this getter can hand out: the fixed value, or the
    /// upper end of the range.
    pub open spec fn upper(self) -> T {
        match self {
            ValueGetter::Single(v) => v,
            ValueGetter::Range(_, high) => high,
        }
    }

    /// The largest value this getter can hand out.
    pub fn max(&self) -> (m: T)
        ensures
            m == self.upper(),
    {
        match *self {
            ValueGetter::Single(v) => v,
            ValueGetter::Range(_v1, v2) => v2,
        }
    }
}

/// Whether the particle in `slot` is marked as having run out of life.
/// Slots beyond the marks are taken as alive.
pub open spec fn slot_expired(expired: Seq<bool>, slot: usize) -> bool {
    slot < expired.len() && expired[slot as int]
}

/// The test "this slot's particle lives on".
pub open spec fn lives_on(expired: Seq<bool>) -> spec_fn(usize) -> bool {
    |slot: usize| !slot_expired(expired, slot)
}

/// The test "this slot's particle has run out of life".
pub open spec fn runs_out(expired: Seq<bool>) -> spec_fn(usize) -> bool {
    |slot: usize| slot_expired(expired, slot)
}

/// The number of particles that `emit(amount)` creates.
pub open spec fn emit_count(amount: i32) -> nat {
    if amount > 0 {
        amount as nat
    } else {
        0
    }
}

/// The mathematical content of a particle system's pool.
#[verifier::ext_equal]
pub struct Pool {
    /// The slots of the live particles, oldest first.
    pub active: Seq<usize>,
    /// The free slots, in the order in which they will be reused.
    pub available: Seq<usize>,
    /// The number of slots.
    pub capacity: nat,
    pub transform_space: TransformSpace,
}

impl Pool {
    /// Every slot below `capacity` is either alive or free, once.
    pub open spec fn wf(self) -> bool {
        let all = self.active + self.available;
        &&& all.len() == self.capacity
        &&& all.no_duplicates()
        &&& forall|i: int| 0 <= i < all.len() ==> #[trigger] all[i] < self.capacity
    }

    /// A new pool: `DEFAULT_CAPACITY` slots, all free, to be used in rising
    /// order.
    pub open spec fn fresh() -> Pool {
        Pool {
            active: Seq::empty(),
            available: Seq::new(DEFAULT_CAPACITY as nat, |i: int| i as usize),
            capacity: DEFAULT_CAPACITY as nat,
            transform_space: TransformSpace::World,
        }
    }

    /// The pool with `additional` new slots, free and queued behind the
    /// slots that were free before.
    pub open spec fn grown(self, additional: nat) -> Pool {
        Pool {
            available: self.available + Seq::new(additional, |i: int| (self.capacity + i) as usize),
            capacity: self.capacity + additional,
            ..self
        }
    }

    /// How many slots are missing for `n` new particles.
    pub open spec fn deficit(self, n: nat) -> nat {
        if n > self.available.len() {
            (n - self.available.len()) as nat
        } else {
            0
        }
    }

    /// The slots that `n` new particles go to: the free slots in queue order,
    /// then new slots.
    pub open spec fn handed_out(self, n: nat) -> Seq<usize> {
        self.grown(self.deficit(n)).available.take(n as int)
    }

    /// The pool after `n` particles were emitted: it grew by exactly the
    /// number of missing slots, and the slots handed out are alive, youngest
    /// last.
    pub open spec fn emitted(self, n: nat) -> Pool {
        let grown = self.grown(self.deficit(n));
        Pool {
            active: grown.active + grown.available.take(n as int),
            available: grown.available.skip(n as int),
            ..grown
        }
    }

    /// The pool after the particles marked in `expired` died: they left the
    /// live ones, which keep their order, and their slots queue up behind the
    /// free ones in the order in which they were alive.
    pub open spec fn updated(self, expired: Seq<bool>) -> Pool {
        Pool {
            active: self.active.filter(lives_on(expired)),
            available: self.available + self.active.filter(runs_out(expired)),
            ..self
        }
    }
}

/// Filtering one element more keeps or drops just that element.
proof fn filter_step(s: Seq<usize>, pred: spec_fn(usize) -> bool, i: int)
    requires
        0 <= i < s.len(),
    ensures
        s.take(i + 1).filter(pred) == if pred(s[i]) {
            s.take(i).filter(pred).push(s[i])
        } else {
            s.take(i).filter(pred)
        },
{
    reveal(Seq::filter);
    assert(s.take(i + 1).drop_last() =~= s.take(i));
}

/// What a filter keeps comes from the sequence, and passes the test; a
/// sequence without duplicates stays so; and a test and its opposite split
/// the sequence.
proof fn filter_facts(s: Seq<usize>, pred: spec_fn(usize) -> bool, other: spec_fn(usize) -> bool)
    requires
        forall|x: usize| #[trigger] other(x) == !pred(x),
    ensures
        forall|i: int| 0 <= i < s.filter(pred).len() ==> s.contains(#[trigger] s.filter(pred)[i]),
        forall|i: int| 0 <= i < s.filter(pred).len() ==> pred(#[trigger] s.filter(pred)[i]),
        s.no_duplicates() ==> s.filter(pred).no_duplicates(),
        s.filter(pred).len() + s.filter(other).len() == s.len(),
    decreases s.len(),
{
    reveal(Seq::filter);
    if s.len() > 0 {
        let front = s.drop_last();
        filter_facts(front, pred, other);
        assert forall|i: int| 0 <= i < s.filter(pred).len() implies s.contains(
            #[trigger] s.filter(pred)[i],
        ) by {
            if i < front.filter(pred).len() {
                let x = front.filter(pred)[i];
                assert(front.contains(x));
                let k = choose|k: int| 0 <= k < front.len() && front[k] == x;
                assert(s[k] == x);
            } else {
                assert(s[s.len() - 1] == s.last());
            }
        }
        if s.no_duplicates() {
            assert(front.no_duplicates());
            if pred(s.last()) {
                assert forall|i: int| 0 <= i < front.filter(pred).len() implies front.filter(pred)[i]
                    != s.last() by {
                    let x = front.filter(pred)[i];
                    assert(front.contains(x));
                    let k = choose|k: int| 0 <= k < front.len() && front[k] == x;
                    assert(s[k] == x);
                }
            }
        }
    }
}

/// Splitting the live slots into those that live on and those that run out
/// keeps a pool well formed.
proof fn updated_is_wf(pool: Pool, expired: Seq<bool>)
    requires
        pool.wf(),
    ensures
        pool.updated(expired).wf(),
{
    let keep = lives_on(expired);
    let drop = runs_out(expired);
    let kept = pool.active.filter(keep);
    let gone = pool.active.filter(drop);
    let before = pool.active + pool.available;
    let after = kept + (pool.available + gone);
    filter_facts(pool.active, keep, drop);
    filter_facts(pool.active, drop, keep);
    assert(pool.active.no_duplicates()) by {
        assert forall|i: int, j: int| 0 <= i < j < pool.active.len() implies pool.active[i]
            != pool.active[j] by {
            assert(before[i] == pool.active[i] && before[j] == pool.active[j]);
        }
    }
    // Where each slot of the new order sat in the old order.
    assert forall|i: int| 0 <= i < after.len() implies before.contains(#[trigger] after[i]) by {
        if i < kept.len() {
            assert(pool.active.contains(kept[i]));
            let k = choose|k: int| 0 <= k < pool.active.len() && pool.active[k] == kept[i];
            assert(before[k] == after[i]);
        } else if i < kept.len() + pool.available.len() {
            assert(before[pool.active.len() + (i - kept.len())] == after[i]);
        } else {
            let x = gone[i - kept.len() - pool.available.len()];
            assert(pool.active.contains(x));
            let k = choose|k: int| 0 <= k < pool.active.len() && pool.active[k] == x;
            assert(before[k] == after[i]);
        }
    }
    assert forall|i: int| 0 <= i < after.len() implies #[trigger] after[i] < pool.capacity by {
        assert(before.contains(after[i]));
    }
    assert forall|i: int, j: int| 0 <= i < j < after.len() implies after[i] != after[j] by {
        let a = kept.len() as int;
        let b = a + pool.available.len();
        if after[i] == after[j] {
            let x = after[i];
            if j < a {
            } else if i >= b {
            } else if i >= a && j < b {
                assert(before[pool.active.len() + (i - a)] == before[pool.active.len() + (j - a)]);
            } else if i < a && j >= b {
                assert(keep(kept[i]));
                assert(drop(gone[j - b]));
            } else if i < a {
                assert(pool.active.contains(kept[i]));
                let k = choose|k: int| 0 <= k < pool.active.len() && pool.active[k] == x;
                assert(before[k] == before[pool.active.len() + (j - a)]);
            } else {
                assert(pool.active.contains(gone[j - b]));
                let k = choose|k: int| 0 <= k < pool.active.len() && pool.active[k] == x;
                assert(before[k] == before[pool.active.len() + (i - a)]);
            }
        }
    }
    assert(pool.updated(expired).active + pool.updated(expired).available =~= after);
}

/// Growing a well-formed pool keeps it well formed.
proof fn grown_is_wf(pool: Pool, additional: nat)
    requires
        pool.wf(),
        pool.capacity + additional <= usize::MAX,
    ensures
        pool.grown(additional).wf(),
{
    let before = pool.active + pool.available;
    let grown = pool.grown(additional);
    let after = grown.active + grown.available;
    assert forall|i: int| 0 <= i < after.len() implies (#[trigger] after[i] < grown.capacity && (i
        < before.len() ==> after[i] == before[i]) && (i >= before.len() ==> after[i] == i)) by {
        if i < pool.active.len() {
            assert(after[i] == pool.active[i]);
            assert(before[i] == pool.active[i]);
        } else if i < before.len() {
            assert(after[i] == pool.available[i - pool.active.len()]);
            assert(before[i] == pool.available[i - pool.active.len()]);
        } else {
            assert(after[i] == grown.available[i - pool.active.len()]);
            assert(after[i] == (pool.capacity + (i - before.len())) as usize);
        }
    }
    assert forall|i: int, j: int| 0 <= i < j < after.len() implies after[i] != after[j] by {
        if j < before.len() {
            assert(before[i] != before[j]);
        } else if i < before.len() {
            assert(before[i] < pool.capacity);
        }
    }
}

/// Emitting from a well-formed pool keeps it well formed.
pub proof fn emitted_is_wf(pool: Pool, n: nat)
    requires
        pool.wf(),
        pool.capacity + pool.deficit(n) <= usize::MAX,
    ensures
        pool.emitted(n).wf(),
        pool.emitted(n).active.len() == pool.active.len() + n,
        pool.emitted(n).available.len() + n == pool.available.len() + pool.deficit(n),
        pool.emitted(n).capacity == pool.capacity + pool.deficit(n),
{
    let grown = pool.grown(pool.deficit(n));
    grown_is_wf(pool, pool.deficit(n));
    let emitted = pool.emitted(n);
    assert(emitted.active + emitted.available =~= grown.active + grown.available);
}

/// A new pool that emits `n` particles has exactly `n` live ones. Up to
/// `DEFAULT_CAPACITY` they come out of the free slots, which shrink by `n`;
/// beyond that the pool grows by exactly what is missing and no slot is left
/// free.
pub proof fn fresh_pool_emits(n: nat)
    requires
        n <= usize::MAX,
    ensures
        Pool::fresh().wf(),
        Pool::fresh().emitted(n).wf(),
        Pool::fresh().emitted(n).active.len() == n,
        n <= DEFAULT_CAPACITY ==> Pool::fresh().emitted(n).available.len() == DEFAULT_CAPACITY - n
            && Pool::fresh().emitted(n).capacity == DEFAULT_CAPACITY,
        n > DEFAULT_CAPACITY ==> Pool::fresh().emitted(n).available.len() == 0 && Pool::fresh().emitted(
            n,
        ).capacity == n,
        forall|k: int| 0 <= k < n ==> #[trigger] Pool::fresh().emitted(n).active[k] == k,
{
    let fresh = Pool::fresh();
    assert(fresh.active + fresh.available =~= fresh.available);
    emitted_is_wf(fresh, n);
}

/// A filter keeps everything when every element passes, and nothing when
/// none does.
proof fn filter_all_or_none(s: Seq<usize>, pred: spec_fn(usize) -> bool)
    ensures
        (forall|i: int| 0 <= i < s.len() ==> pred(#[trigger] s[i])) ==> s.filter(pred) == s,
        (forall|i: int| 0 <= i < s.len() ==> !pred(#[trigger] s[i])) ==> s.filter(pred)
            == Seq::<usize>::empty(),
    decreases s.len(),
{
    reveal(Seq::filter);
    if s.len() > 0 {
        filter_all_or_none(s.drop_last(), pred);
        assert(s.drop_last().push(s.last()) =~= s);
        if forall|i: int| 0 <= i < s.len() ==> pred(#[trigger] s[i]) {
            assert(pred(s[s.len() - 1]));
            assert forall|i: int| 0 <= i < s.drop_last().len() implies pred(
                #[trigger] s.drop_last()[i],
            ) by {
                assert(pred(s[i]));
            }
        }
        if forall|i: int| 0 <= i < s.len() ==> !pred(#[trigger] s[i]) {
            assert(!pred(s[s.len() - 1]));
            assert forall|i: int| 0 <= i < s.drop_last().len() implies !pred(
                #[trigger] s.drop_last()[i],
            ) by {
                assert(!pred(s[i]));
            }
        }
    } else {
        assert(s.filter(pred) =~= s);
    }
}

/// When every live particle has run out of life, an update leaves none alive
/// and all their slots free again, behind the slots that were free before.
pub proof fn all_expired_frees_all(pool: Pool, expired: Seq<bool>)
    requires
        forall|i: int| 0 <= i < pool.active.len() ==> slot_expired(expired, #[trigger] pool.active[i]),
    ensures
        pool.updated(expired).active == Seq::<usize>::empty(),
        pool.updated(expired).available == pool.available + pool.active,
{
    filter_all_or_none(pool.active, lives_on(expired));
    filter_all_or_none(pool.active, runs_out(expired));
}

/// Once every particle that a new pool emitted has run out of life, no
/// particle is alive and every slot of the pool is free again.
pub proof fn fresh_pool_recovers(n: nat, expired: Seq<bool>)
    requires
        n <= usize::MAX,
        forall|slot: usize| slot < n ==> slot_expired(expired, slot),
    ensures
        Pool::fresh().emitted(n).updated(expired).active.len() == 0,
        Pool::fresh().emitted(n).updated(expired).available.len() == Pool::fresh().emitted(n).capacity,
        Pool::fresh().emitted(n).updated(expired).capacity == Pool::fresh().emitted(n).capacity,
        Pool::fresh().emitted(n).updated(expired).wf(),
{
    let emitted = Pool::fresh().emitted(n);
    fresh_pool_emits(n);
    assert forall|i: int| 0 <= i < emitted.active.len() implies slot_expired(
        expired,
        #[trigger] emitted.active[i],
    ) by {
        assert(emitted.active[i] == i);
    }
    all_expired_frees_all(emitted, expired);
    updated_is_wf(emitted, expired);
}

/// When no live particle has run out of life, an update changes nothing.
pub proof fn none_expired_keeps_all(pool: Pool, expired: Seq<bool>)
    requires
        forall|i: int| 0 <= i < pool.active.len() ==> !slot_expired(expired, #[trigger] pool.active[i]),
    ensures
        pool.updated(expired) == pool,
{
    filter_all_or_none(pool.active, lives_on(expired));
    filter_all_or_none(pool.active, runs_out(expired));
    assert(pool.updated(expired).available =~= pool.available);
}

/// The slot pool of one particle system: the live slots in emission order,
/// the free slots in reuse order, and the number of slots.
pub struct ParticleSystem {
    particle_indexes: VecDeque<usize>,
    available_indexes: VecDeque<usize>,
    capacity: usize,
    transform_space: TransformSpace,
}

impl View for ParticleSystem {
    type V = Pool;

    closed spec fn view(&self) -> Pool {
        Pool {
            active: self.particle_indexes@,
            available: self.available_indexes@,
            capacity: self.capacity as nat,
            transform_space: self.transform_space,
        }
    }
}

impl ParticleSystem {
    /// Every pool is well formed, always.
    #[verifier::type_invariant]
    spec fn well_formed(&self) -> bool {
        self@.wf()
    }

    /// A new pool with `DEFAULT_CAPACITY` free slots.
    pub fn new() -> (system: ParticleSystem)
        ensures
            system@ == Pool::fresh(),
            system@.wf(),
    {
        let mut available_indexes: VecDeque<usize> = VecDeque::with_capacity(DEFAULT_CAPACITY);
        let mut i: usize = 0;
        while i < DEFAULT_CAPACITY
            invariant
                i <= DEFAULT_CAPACITY,
                available_indexes@ == Seq::new(i as nat, |k: int| k as usize),
            decreases DEFAULT_CAPACITY - i,
        {
            available_indexes.push_back(i);
            i += 1;
        }
        let particle_indexes: VecDeque<usize> = VecDeque::with_capacity(DEFAULT_CAPACITY);
        proof {
            // Nothing is alive, so the free slots are all the slots.
            assert(particle_indexes@ + available_indexes@ =~= available_indexes@);
        }
        ParticleSystem {
            particle_indexes,
            available_indexes,
            capacity: DEFAULT_CAPACITY,
            transform_space: TransformSpace::World,
        }
    }

    /// A pool without slots, to stand in while a pool is taken apart.
    fn hollow() -> (system: ParticleSystem)
        ensures
            system@.capacity == 0,
    {
        let particle_indexes: VecDeque<usize> = VecDeque::new();
        let available_indexes: VecDeque<usize> = VecDeque::new();
        ParticleSystem {
            particle_indexes,
            available_indexes,
            capacity: 0,
            transform_space: TransformSpace::World,
        }
    }

    /// The number of slots. The parallel arrays of the presentation layer
    /// have this length.
    pub fn capacity(&self) -> (n: usize)
        ensures
            n == self@.capacity,
    {
        self.capacity
    }

    /// The number of live particles.
    pub fn active_len(&self) -> (n: usize)
        ensures
            n == self@.active.len(),
    {
        self.particle_indexes.len()
    }

    /// The number of free slots.
    pub fn available_len(&self) -> (n: usize)
        ensures
            n == self@.available.len(),
    {
        self.available_indexes.len()
    }

    /// The slot of the `i`-th live particle, oldest first.
    pub fn active_slot(&self, i: usize) -> (slot: usize)
        requires
            i < self@.active.len(),
        ensures
            slot == self@.active[i as int],
            slot < self@.capacity,
    {
        proof {
            use_type_invariant(self);
            assert((self@.active + self@.available)[i as int] == self@.active[i as int]);
        }
        self.particle_indexes[i]
    }

    /// Whether particle positions are relative to the system or to the
    /// world.
    pub fn transform_space(&self) -> (space: TransformSpace)
        ensures
            space == self@.transform_space,
    {
        self.transform_space
    }

    /// Says whether particle positions are relative to the system or to the
    /// world.
    pub fn set_transform_space(&mut self, space: TransformSpace)
        ensures
            final(self)@ == (Pool { transform_space: space, ..old(self)@ }),
    {
        proof {
            use_type_invariant(&*self);
        }
        self.transform_space = space;
    }

    /// Takes over the settings of `other`. The particles stay as they are.
    pub fn copy_settings(&mut self, other: &ParticleSystem)
        ensures
            final(self)@ == (Pool { transform_space: other@.transform_space, ..old(self)@ }),
    {
        proof {
            use_type_invariant(&*self);
        }
        self.transform_space = other.transform_space;
    }

    /// Emits `amount` particles: takes that many free slots in queue order,
    /// growing the pool by exactly the number that is missing, and makes them
    /// alive. Returns the slots, in order, for the caller to fill. A count of
    /// zero or less emits nothing.
    pub fn emit(&mut self, amount: i32) -> (slots: Vec<usize>)
        requires
            old(self)@.capacity + old(self)@.deficit(emit_count(amount)) <= usize::MAX,
        ensures
            final(self)@ == old(self)@.emitted(emit_count(amount)),
            slots@ == old(self)@.handed_out(emit_count(amount)),
            old(self)@.wf() && final(self)@.wf(),
    {
        proof {
            use_type_invariant(&*self);
            emitted_is_wf(self@, emit_count(amount));
        }
        let n: usize = if amount > 0 {
            amount as usize
        } else {
            0
        };
        let mut taken = ParticleSystem::hollow();
        std::mem::swap(self, &mut taken);
        let ParticleSystem { particle_indexes, available_indexes, capacity, transform_space } = taken;
        let mut particle_indexes = particle_indexes;
        let mut available_indexes = available_indexes;
        let mut capacity = capacity;
        let slots = take_slots(
            &mut particle_indexes,
            &mut available_indexes,
            &mut capacity,
            transform_space,
            n,
        );
        *self = ParticleSystem { particle_indexes, available_indexes, capacity, transform_space };
        slots
    }

    /// Retires the particles that ran out of life. `expired[slot]` says
    /// whether the particle in `slot` did; slots beyond the marks live on.
    /// The particles that are left keep their order, and the slots of the
    /// others become free, in the order in which they were alive.
    pub fn update(&mut self, expired: &Vec<bool>)
        ensures
            final(self)@ == old(self)@.updated(expired@),
            old(self)@.wf() && final(self)@.wf(),
    {
        proof {
            use_type_invariant(&*self);
            updated_is_wf(self@, expired@);
        }
        let mut taken = ParticleSystem::hollow();
        std::mem::swap(self, &mut taken);
        let ParticleSystem { particle_indexes, available_indexes, capacity, transform_space } = taken;
        let mut particle_indexes = particle_indexes;
        let mut available_indexes = available_indexes;
        retire(&mut particle_indexes, &mut available_indexes, capacity, transform_space, expired);
        *self = ParticleSystem { particle_indexes, available_indexes, capacity, transform_space };
    }
}

/// The pool made of these parts.
spec fn pool_of(
    active: Seq<usize>,
    available: Seq<usize>,
    capacity: usize,
    transform_space: TransformSpace,
) -> Pool {
    Pool { active, available, capacity: capacity as nat, transform_space }
}

/// Queues `additional` new slots, numbered from `first` on, behind the free
/// ones.
fn grow(available_indexes: &mut VecDeque<usize>, first: usize, additional: usize)
    requires
        first + additional <= usize::MAX,
    ensures
        final(available_indexes)@ == old(available_indexes)@ + Seq::new(
            additional as nat,
            |k: int| (first + k) as usize,
        ),
{
    available_indexes.reserve(additional);
    let mut i: usize = 0;
    while i < additional
        invariant
            i <= additional,
            first + additional <= usize::MAX,
            available_indexes@ == old(available_indexes)@ + Seq::new(
                i as nat,
                |k: int| (first + k) as usize,
            ),
        decreases additional - i,
    {
        available_indexes.push_back(first + i);
        i += 1;
        assert(available_indexes@ =~= old(available_indexes)@ + Seq::new(
            i as nat,
            |k: int| (first + k) as usize,
        ));
    }
}

/// Moves `n` slots from the free ones to the live ones, after growing the
/// pool by what is missing, and returns them.
fn take_slots(
    active: &mut VecDeque<usize>,
    available: &mut VecDeque<usize>,
    capacity: &mut usize,
    transform_space: TransformSpace,
    n: usize,
) -> (slots: Vec<usize>)
    requires
        *old(capacity) + pool_of(old(active)@, old(available)@, *old(capacity), transform_space).deficit(
            n as nat,
        ) <= usize::MAX,
    ensures
        pool_of(final(active)@, final(available)@, *final(capacity), transform_space) == pool_of(
            old(active)@,
            old(available)@,
            *old(capacity),
            transform_space,
        ).emitted(n as nat),
        slots@ == pool_of(old(active)@, old(available)@, *old(capacity), transform_space).handed_out(
            n as nat,
        ),
{
    let ghost before = pool_of(active@, available@, *capacity, transform_space);
    let deficit: usize = if n > available.len() {
        n - available.len()
    } else {
        0
    };
    let ghost grown = before.grown(deficit as nat);
    grow(available, *capacity, deficit);
    *capacity = *capacity + deficit;
    let mut slots: Vec<usize> = Vec::new();
    let mut k: usize = 0;
    while k < n
        invariant
            k <= n <= grown.available.len(),
            active@ == grown.active + grown.available.take(k as int),
            available@ == grown.available.skip(k as int),
            slots@ == grown.available.take(k as int),
        decreases n - k,
    {
        let index_option = available.pop_front();
        match index_option {
            Some(index) => {
                active.push_back(index);
                slots.push(index);
            },
            None => {},
        }
        k += 1;
        assert(grown.available.take(k as int) =~= grown.available.take(k - 1).push(
            grown.available[k - 1],
        ));
    }
    slots
}

/// Moves the slots of the expired particles from the live ones to the free
/// ones.
fn retire(
    active: &mut VecDeque<usize>,
    available: &mut VecDeque<usize>,
    capacity: usize,
    transform_space: TransformSpace,
    expired: &Vec<bool>,
)
    ensures
        pool_of(final(active)@, final(available)@, capacity, transform_space) == pool_of(
            old(active)@,
            old(available)@,
            capacity,
            transform_space,
        ).updated(expired@),
{
    let ghost before = pool_of(active@, available@, capacity, transform_space);
    let n = active.len();
    let mut i: usize = 0;
    while i < n
        invariant
            i <= n == before.active.len(),
            active@ == before.active.skip(i as int) + before.active.take(i as int).filter(
                lives_on(expired@),
            ),
            available@ == before.available + before.active.take(i as int).filter(
                runs_out(expired@),
            ),
        decreases n - i,
    {
        proof {
            filter_step(before.active, lives_on(expired@), i as int);
            filter_step(before.active, runs_out(expired@), i as int);
            filter_facts(before.active.take(i as int), lives_on(expired@), runs_out(expired@));
        }
        let slot_option = active.pop_front();
        match slot_option {
            Some(slot) => {
                if slot < expired.len() && expired[slot] {
                    available.push_back(slot);
                } else {
                    active.push_back(slot);
                }
            },
            None => {},
        }
        i += 1;
        assert(active@ =~= before.active.skip(i as int) + before.active.take(i as int).filter(
            lives_on(expired@),
        ));
        assert(available@ =~= before.available + before.active.take(i as int).filter(
            runs_out(expired@),
        ));
    }
}

/// The mathematical content of a collection of particle systems.
#[verifier::ext_equal]
pub struct Pools {
    /// The pools by handle.
    pub systems: Map<u32, Pool>,
    /// The handle that was given out last; 0 before the first.
    pub last_identifier: u32,
}

impl Pools {
    /// No handle is 0 or ahead of the counter.
    pub open spec fn wf(self) -> bool {
        forall|id: u32| #[trigger] self.systems.contains_key(id) ==> 1 <= id <= self.last_identifier
    }
}

/// A collection in which at most the pool of one known handle changed is as
/// well formed as it was.
pub proof fn changed_pool_keeps_wf(before: Pools, after: Pools, identifier: u32)
    requires
        after.last_identifier == before.last_identifier,
        after.systems == before.systems || (before.systems.contains_key(identifier) && exists|pool: Pool|
            after.systems == #[trigger] before.systems.insert(identifier, pool)),
    ensures
        before.wf() ==> after.wf(),
{
}

/// All particle systems of a game, by handle. Handles count up from 1 and
/// are never reused.
pub struct ParticleSystemCollection {
    particle_systems: HashMap<u32, ParticleSystem>,
    last_identifier: u32,
}

impl View for ParticleSystemCollection {
    type V = Pools;

    closed spec fn view(&self) -> Pools {
        Pools {
            systems: Map::new(
                |id: u32| self.particle_systems@.contains_key(id),
                |id: u32| self.particle_systems@[id]@,
            ),
            last_identifier: self.last_identifier,
        }
    }
}

impl ParticleSystemCollection {
    /// An empty collection.
    pub fn new() -> (collection: ParticleSystemCollection)
        ensures
            collection@.systems == Map::<u32, Pool>::empty(),
            collection@.last_identifier == 0,
            collection@.wf(),
    {
        ParticleSystemCollection { particle_systems: HashMap::new(), last_identifier: 0 }
    }

    /// Takes a system in and returns its handle, the next number after the
    /// last handle. In a well-formed collection that handle is new.
    pub fn add_system(&mut self, system: ParticleSystem) -> (identifier: u32)
        requires
            old(self)@.last_identifier < u32::MAX,
        ensures
            identifier == old(self)@.last_identifier + 1,
            final(self)@.last_identifier == identifier,
            final(self)@.systems == old(self)@.systems.insert(identifier, system@),
            old(self)@.wf() ==> !old(self)@.systems.contains_key(identifier) && final(self)@.wf(),
    {
        broadcast use vstd::std_specs::hash::group_hash_axioms;

        self.last_identifier += 1;
        self.particle_systems.insert(self.last_identifier, system);
        self.last_identifier
    }

    /// Whether `identifier` is the handle of a system.
    pub fn contains(&self, identifier: u32) -> (known: bool)
        ensures
            known == self@.systems.contains_key(identifier),
    {
        broadcast use vstd::std_specs::hash::group_hash_axioms;

        self.particle_systems.contains_key(&identifier)
    }

    /// The system with handle `identifier`, if there is one.
    pub fn get(&self, identifier: u32) -> (found: Option<&ParticleSystem>)
        ensures
            match found {
                Some(system) => self@.systems.contains_key(identifier) && system@
                    == self@.systems[identifier],
                None => !self@.systems.contains_key(identifier),
            },
    {
        broadcast use vstd::std_specs::hash::group_hash_axioms;

        self.particle_systems.get(&identifier)
    }

    /// The system with handle `identifier`, to work on in place, if there is
    /// one.
    pub fn get_mut(&mut self, identifier: u32) -> (found: Option<&mut ParticleSystem>)
        ensures
            match found {
                Some(system) => {
                    &&& old(self)@.systems.contains_key(identifier)
                    &&& system@ == old(self)@.systems[identifier]
                    &&& final(self)@.systems == old(self)@.systems.insert(identifier, final(system)@)
                },
                None => !old(self)@.systems.contains_key(identifier) && final(self)@.systems
                    == old(self)@.systems,
            },
            final(self)@.last_identifier == old(self)@.last_identifier,
    {
        broadcast use vstd::std_specs::hash::group_hash_axioms;

        match self.particle_systems.entry(identifier) {
            Entry::Occupied(occupied) => Some(occupied.into_mut()),
            Entry::Vacant(_vacant) => None,
        }
    }

    /// Emits `amount` particles in the system with handle
    /// `system_identifier` and returns the slots to fill, or `None` if there
    /// is no such system.
    pub fn emit(&mut self, system_identifier: u32, amount: i32) -> (slots: Option<Vec<usize>>)
        requires
            old(self)@.systems.contains_key(system_identifier) ==> old(
                self,
            )@.systems[system_identifier].capacity + old(self)@.systems[system_identifier].deficit(
                emit_count(amount),
            ) <= usize::MAX,
        ensures
            match slots {
                Some(handed) => {
                    &&& old(self)@.systems.contains_key(system_identifier)
                    &&& handed@ == old(self)@.systems[system_identifier].handed_out(emit_count(amount))
                    &&& final(self)@.systems == old(self)@.systems.insert(
                        system_identifier,
                        old(self)@.systems[system_identifier].emitted(emit_count(amount)),
                    )
                },
                None => !old(self)@.systems.contains_key(system_identifier) && final(self)@
                    == old(self)@,
            },
            final(self)@.last_identifier == old(self)@.last_identifier,
            old(self)@.wf() ==> final(self)@.wf(),
    {
        let slots = match self.get_mut(system_identifier) {
            Some(system) => Some(system.emit(amount)),
            None => None,
        };
        proof {
            changed_pool_keeps_wf(old(self)@, self@, system_identifier);
        }
        slots
    }

    /// Retires the expired particles of the system with handle
    /// `system_identifier`. Returns whether there is such a system.
    pub fn update(&mut self, system_identifier: u32, expired: &Vec<bool>) -> (known: bool)
        ensures
            known == old(self)@.systems.contains_key(system_identifier),
            known ==> final(self)@.systems == old(self)@.systems.insert(
                system_identifier,
                old(self)@.systems[system_identifier].updated(expired@),
            ),
            !known ==> final(self)@ == old(self)@,
            final(self)@.last_identifier == old(self)@.last_identifier,
            old(self)@.wf() ==> final(self)@.wf(),
    {
        let known = match self.get_mut(system_identifier) {
            Some(system) => {
                system.update(expired);
                true
            },
            None => false,
        };
        proof {
            changed_pool_keeps_wf(old(self)@, self@, system_identifier);
        }
        known
    }

    /// The handle that was given out last; every handle from 1 up to it may
    /// name a system.
    pub fn last_identifier(&self) -> (identifier: u32)
        ensures
            identifier == self@.last_identifier,
    {
        self.last_identifier
    }
}

} // verus!
