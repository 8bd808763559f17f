//! A single-producer / single-consumer ring buffer with monotonic wrapping
//! counters: `head` counts reads, `tail` counts writes, and a counter maps
//! to its slot through a bitmask, since the slot count is a power of two.
//!
//! A full ring rejects a push with a typed error instead of overwriting
//! unread data, and the queued payloads always come back in FIFO order.
use vstd::prelude::*;
use vstd::arithmetic::power2::{pow2, lemma_pow2_adds, lemma_pow2_pos, lemma2_to64, lemma2_to64_rest};
use vstd::arithmetic::div_mod::{lemma_mod_mod, lemma_mod_multiples_basic, lemma_mod_equivalence, lemma_mod_bound};
use vstd::bits::{low_bits_mask, lemma_u64_low_bits_mask_is_mod};
use crate::core_types::{BackpressureError, RingId};

verus! {

/// `usize::MAX + 1`: the modulus of the wrapping counters.
pub open spec fn counter_modulus() -> int {
    usize::MAX as int + 1
}

/// A slot count of `2^k` with `k < 32` divides the counter modulus.
proof fn lemma_capacity_divides_modulus(k: nat)
    requires
        k < 32,
    ensures
        counter_modulus() % (pow2(k) as int) == 0,
        pow2(k) > 0,
{
    lemma_pow2_pos(k);
    lemma2_to64();
    lemma2_to64_rest();
    if usize::MAX == 0xffff_ffff {
        lemma_pow2_adds(k, (32 - k) as nat);
        lemma_pow2_pos((32 - k) as nat);
        assert(pow2(k + (32 - k) as nat) == pow2(32));
        lemma_mod_multiples_basic(pow2((32 - k) as nat) as int, pow2(k) as int);
        assert(pow2((32 - k) as nat) * pow2(k) == pow2(k) * pow2((32 - k) as nat)) by (nonlinear_arith);
    } else {
        assert(usize::MAX == 0xffff_ffff_ffff_ffff);
        lemma_pow2_adds(k, (64 - k) as nat);
        lemma_pow2_pos((64 - k) as nat);
        assert(pow2(k + (64 - k) as nat) == pow2(64));
        lemma_mod_multiples_basic(pow2((64 - k) as nat) as int, pow2(k) as int);
        assert(pow2((64 - k) as nat) * pow2(k) == pow2(k) * pow2((64 - k) as nat)) by (nonlinear_arith);
    }
}

/// Masking a value with `2^k - 1` gives its remainder modulo `2^k`.
pub proof fn lemma_mask_is_mod(x: usize, k: nat)
    requires
        k < 64,
        pow2(k) <= usize::MAX,
    ensures
        pow2(k) > 0,
        x & ((pow2(k) - 1) as usize) == x % (pow2(k) as usize),
{
    lemma_pow2_pos(k);
    let m: usize = (pow2(k) - 1) as usize;
    assert((x as u64) & (m as u64) == (x & m) as u64) by (bit_vector);
    lemma_u64_low_bits_mask_is_mod(x as u64, k);
    assert(low_bits_mask(k) == pow2(k) - 1);
}

/// `2^k` for `k < 32` fits in a `usize`.
proof fn lemma_small_pow2_fits(k: nat)
    requires
        k < 32,
    ensures
        pow2(k) <= usize::MAX,
{
    lemma2_to64();
    vstd::arithmetic::power2::lemma_pow2_strictly_increases(k, 32);
}

/// A wrapping counter taken modulo the capacity agrees with the
/// unwrapped sum, because the capacity divides the counter modulus.
proof fn lemma_wrapped_slot(base: int, offset: int, cap: int, k: nat)
    requires
        k < 32,
        cap == pow2(k),
        0 <= base < counter_modulus(),
        0 <= offset,
    ensures
        ((base + offset) % counter_modulus()) % cap == (base + offset) % cap,
{
    lemma_capacity_divides_modulus(k);
    let q = counter_modulus() / cap;
    assert(counter_modulus() == cap * q) by {
        vstd::arithmetic::div_mod::lemma_fundamental_div_mod(counter_modulus(), cap);
    }
    assert(q > 0) by (nonlinear_arith)
        requires counter_modulus() == cap * q, cap > 0, counter_modulus() > 0;
    lemma_mod_mod(base + offset, cap, q);
}

/// Two offsets closer than the capacity land in different slots.
proof fn lemma_distinct_slots(base: int, a: int, b: int, cap: int)
    requires
        cap > 0,
        0 <= a < b,
        b - a < cap,
    ensures
        (base + a) % cap != (base + b) % cap,
{
    lemma_mod_equivalence(base + b, base + a, cap);
    assert((b - a) % cap == b - a) by {
        vstd::arithmetic::div_mod::lemma_small_mod((b - a) as nat, cap as nat);
    }
    assert((base + b) - (base + a) == b - a);
}

/// The queue after offering `x` to a ring of `cap` slots holding `q`:
/// appended when there is room, unchanged when full.
pub open spec fn ring_after_push<T>(q: Seq<T>, cap: nat, x: T) -> Seq<T> {
    if q.len() < cap {
        q.push(x)
    } else {
        q
    }
}

/// The payload taken and the queue left by one pop from `q`.
pub open spec fn ring_after_pop<T>(q: Seq<T>) -> (Option<T>, Seq<T>) {
    if q.len() == 0 {
        (None, q)
    } else {
        (Some(q[0]), q.drop_first())
    }
}

/// The queue after offering every payload of `xs`, in order.
pub open spec fn ring_after_push_all<T>(q: Seq<T>, cap: nat, xs: Seq<T>) -> Seq<T>
    decreases xs.len(),
{
    if xs.len() == 0 {
        q
    } else {
        ring_after_push_all(ring_after_push(q, cap, xs[0]), cap, xs.drop_first())
    }
}

/// The payloads returned by `n` consecutive pops from `q`, in the order
/// they come out (`None` results are not listed).
pub open spec fn ring_pop_n<T>(q: Seq<T>, n: nat) -> Seq<T>
    decreases n,
{
    if n == 0 {
        Seq::empty()
    } else {
        match ring_after_pop(q).0 {
            Some(x) => seq![x] + ring_pop_n(ring_after_pop(q).1, (n - 1) as nat),
            None => Seq::empty(),
        }
    }
}

/// Pushing into a ring with room for every payload appends them all.
proof fn lemma_push_all_appends<T>(q: Seq<T>, cap: nat, xs: Seq<T>)
    requires
        q.len() + xs.len() <= cap,
    ensures
        ring_after_push_all(q, cap, xs) == q + xs,
    decreases xs.len(),
{
    if xs.len() > 0 {
        lemma_push_all_appends(q.push(xs[0]), cap, xs.drop_first());
        assert(q.push(xs[0]) + xs.drop_first() =~= q + xs);
    } else {
        assert(q + xs =~= q);
    }
}

/// Popping `q.len()` times returns exactly `q`.
proof fn lemma_pop_n_drains<T>(q: Seq<T>)
    ensures
        ring_pop_n(q, q.len()) == q,
    decreases q.len(),
{
    if q.len() > 0 {
        lemma_pop_n_drains(q.drop_first());
        assert(seq![q[0]] + q.drop_first() =~= q);
    }
}

/// FIFO: payloads pushed into a ring with room for all of them come back
/// out, after the ones already queued, in the order they were pushed and
/// unchanged.
pub proof fn law_ring_is_fifo<T>(q: Seq<T>, cap: nat, xs: Seq<T>)
    requires
        q.len() + xs.len() <= cap,
    ensures
        ring_pop_n(ring_after_push_all(q, cap, xs), q.len() + xs.len()) == q + xs,
{
    lemma_push_all_appends(q, cap, xs);
    lemma_pop_n_drains(q + xs);
}

/// A push into a full ring changes nothing: no queued payload is
/// overwritten or dropped, and the next pop still returns the oldest one.
pub proof fn law_full_ring_push_preserves_contents<T>(q: Seq<T>, cap: nat, x: T)
    requires
        q.len() >= cap,
    ensures
        ring_after_push(q, cap, x) == q,
        ring_after_pop(ring_after_push(q, cap, x)) == ring_after_pop(q),
{
}

/// A single payload pushed into an empty ring comes straight back, and the
/// ring is empty again afterwards.
pub proof fn law_ring_round_trip<T>(cap: nat, x: T)
    requires
        cap > 0,
    ensures
        ring_after_pop(ring_after_push(Seq::<T>::empty(), cap, x)) == (Some(x), Seq::<T>::empty()),
{
    assert(Seq::<T>::empty().push(x).drop_first() =~= Seq::<T>::empty());
}

/// One operation on a ring: offer a payload, or take the oldest one.
pub enum RingOp<T> {
    /// Offer the payload.
    Push(T),
    /// Take the oldest payload.
    Pop,
}

/// Running `ops` in order on a ring of `cap` slots holding `q`: the
/// payloads the pops returned, in order, and the queue left at the end.
pub open spec fn ring_run<T>(q: Seq<T>, cap: nat, ops: Seq<RingOp<T>>) -> (Seq<T>, Seq<T>)
    decreases ops.len(),
{
    if ops.len() == 0 {
        (Seq::empty(), q)
    } else {
        match ops[0] {
            RingOp::Push(x) => ring_run(ring_after_push(q, cap, x), cap, ops.drop_first()),
            RingOp::Pop => {
                let (r, rest) = ring_after_pop(q);
                let (out, fin) = ring_run(rest, cap, ops.drop_first());
                match r {
                    Some(x) => (seq![x] + out, fin),
                    None => (out, fin),
                }
            },
        }
    }
}

/// The payloads of `ops` that the ring accepted, in the order offered.
pub open spec fn ring_accepted<T>(q: Seq<T>, cap: nat, ops: Seq<RingOp<T>>) -> Seq<T>
    decreases ops.len(),
{
    if ops.len() == 0 {
        Seq::empty()
    } else {
        match ops[0] {
            RingOp::Push(x) => if q.len() < cap {
                seq![x] + ring_accepted(q.push(x), cap, ops.drop_first())
            } else {
                ring_accepted(q, cap, ops.drop_first())
            },
            RingOp::Pop => ring_accepted(ring_after_pop(q).1, cap, ops.drop_first()),
        }
    }
}

/// FIFO under any interleaving of pushes and pops: what was queued, then
/// every accepted payload in the order pushed, is exactly what the pops
/// returned followed by what is still queued. Nothing is lost, duplicated
/// or reordered, and the queue never exceeds the capacity.
pub proof fn law_ring_is_fifo_under_interleaving<T>(q: Seq<T>, cap: nat, ops: Seq<RingOp<T>>)
    requires
        q.len() <= cap,
    ensures
        q + ring_accepted(q, cap, ops) == ring_run(q, cap, ops).0 + ring_run(q, cap, ops).1,
        ring_run(q, cap, ops).1.len() <= cap,
    decreases ops.len(),
{
    if ops.len() > 0 {
        let rest = ops.drop_first();
        match ops[0] {
            RingOp::Push(x) => {
                if q.len() < cap {
                    law_ring_is_fifo_under_interleaving(q.push(x), cap, rest);
                    assert(q + (seq![x] + ring_accepted(q.push(x), cap, rest))
                        =~= q.push(x) + ring_accepted(q.push(x), cap, rest));
                } else {
                    law_ring_is_fifo_under_interleaving(q, cap, rest);
                }
            },
            RingOp::Pop => {
                law_ring_is_fifo_under_interleaving(ring_after_pop(q).1, cap, rest);
                if q.len() > 0 {
                    let (out, fin) = ring_run(q.drop_first(), cap, rest);
                    let acc = ring_accepted(q.drop_first(), cap, rest);
                    assert(q + acc =~= seq![q[0]] + (q.drop_first() + acc));
                    assert(seq![q[0]] + (out + fin) =~= (seq![q[0]] + out) + fin);
                } else {
                    assert(q + ring_accepted(q, cap, rest) =~= ring_accepted(q, cap, rest));
                }
            },
        }
    } else {
        assert(q + Seq::<T>::empty() =~= q);
        assert(Seq::<T>::empty() + q =~= q);
    }
}

/// A bounded FIFO queue of `T` stored in `2^k` slots.
pub struct SpscRing<T> {
    /// Slot storage; a slot is `None` only before its first write.
    slots: Vec<Option<T>>,
    /// Read counter: the number of pops, wrapping at `usize::MAX + 1`.
    head: usize,
    /// Write counter: the number of pushes, wrapping at `usize::MAX + 1`.
    tail: usize,
    /// Which ring of the bus this is, reported in backpressure errors.
    id: RingId,
    /// The slot count is `2^log2`.
    log2: Ghost<nat>,
    /// The queued payloads, oldest first.
    items: Ghost<Seq<T>>,
}

impl<T: Copy> SpscRing<T> {
    /// The queued payloads, oldest first.
    pub closed spec fn view(&self) -> Seq<T> {
        self.items@
    }

    /// Number of slots.
    pub closed spec fn capacity(&self) -> nat {
        self.slots@.len()
    }

    /// Which ring this is.
    pub closed spec fn ring_id(&self) -> RingId {
        self.id
    }

    /// Slot holding the `i`-th queued payload.
    closed spec fn slot_of(&self, i: int) -> int {
        (self.head as int + i) % (self.slots@.len() as int)
    }

    /// The ring's internal invariant.
    pub closed spec fn wf(&self) -> bool {
        &&& self.log2@ < 32
        &&& self.slots@.len() == pow2(self.log2@)
        &&& vstd::wrapping::usize_specs::wrapping_sub(self.tail, self.head) as int == self.items@.len()
        &&& self.items@.len() <= self.slots@.len()
        &&& forall|i: int| 0 <= i < self.items@.len() ==>
                #[trigger] self.slots@[self.slot_of(i)] == Some(self.items@[i])
    }

    /// An empty ring of `2^log2` slots (`log2 < 32`), tagged with `id`.
    pub fn new(log2: u32, id: RingId) -> (r: Self)
        requires
            log2 < 32,
        ensures
            r.wf(),
            r@ == Seq::<T>::empty(),
            r.capacity() == pow2(log2 as nat),
            r.ring_id() == id,
    {
        proof {
            lemma_small_pow2_fits(log2 as nat);
            lemma_mask_is_mod(0, log2 as nat);
        }
        let cap: usize = 1usize << log2;
        assert(cap == pow2(log2 as nat)) by {
            assert((1usize << log2) as u64 == (1u64 << (log2 as u64))) by (bit_vector)
                requires log2 < 32;
            vstd::bits::lemma_u64_shl_is_mul(1, log2 as u64);
        }
        let mut slots: Vec<Option<T>> = Vec::new();
        let mut n: usize = 0;
        while n < cap
            invariant
                n <= cap,
                slots@.len() == n,
            decreases cap - n,
        {
            slots.push(None);
            n = n + 1;
        }
        SpscRing { slots, head: 0, tail: 0, id, log2: Ghost(log2 as nat), items: Ghost(Seq::empty()) }
    }

    /// Number of slots.
    pub fn slot_count(&self) -> (n: usize)
        requires
            self.wf(),
        ensures
            n == self.capacity(),
    {
        self.slots.len()
    }

    /// Appends `value` unless the ring is full. A full ring is left exactly
    /// as it was and the error names the ring and its capacity.
    pub fn push(&mut self, value: T) -> (r: Result<(), BackpressureError>)
        requires
            old(self).wf(),
        ensures
            final(self).wf(),
            final(self).capacity() == old(self).capacity(),
            final(self).ring_id() == old(self).ring_id(),
            final(self)@ == ring_after_push(old(self)@, old(self).capacity(), value),
            r is Ok <==> old(self)@.len() < old(self).capacity(),
            r is Err ==> r == Err::<(), BackpressureError>(
                BackpressureError { ring: old(self).ring_id(), capacity: old(self).capacity() as usize },
            ),
    {
        let slots_len = self.slots.len();
        let current_tail = self.tail;
        let current_head = self.head;
        if current_tail.wrapping_sub(current_head) >= slots_len {
            return Err(BackpressureError { ring: self.id, capacity: slots_len });
        }
        let ghost k = self.log2@;
        let ghost cap = slots_len as int;
        let ghost len = self.items@.len() as int;
        proof {
            lemma_small_pow2_fits(k);
            lemma_mask_is_mod(current_tail, k);
            // The tail counter is the head counter advanced by the queue length.
            assert(current_tail as int == (current_head as int + len) % counter_modulus()) by {
                vstd::arithmetic::div_mod::lemma_small_mod(current_tail as nat, counter_modulus() as nat);
                if current_tail >= current_head {
                } else {
                    assert(current_head as int + len == current_tail as int + counter_modulus());
                    vstd::arithmetic::div_mod::lemma_mod_add_multiples_vanish(current_tail as int, counter_modulus());
                }
            }
            lemma_wrapped_slot(current_head as int, len, cap, k);
        }
        let index: usize = current_tail & (slots_len - 1);
        assert(index as int == self.slot_of(len));
        let ghost old_self = *self;
        self.slots.set(index, Some(value));
        self.tail = current_tail.wrapping_add(1);
        self.items = Ghost(self.items@.push(value));
        proof {
            assert forall|i: int| 0 <= i < self.items@.len() implies
                #[trigger] self.slots@[self.slot_of(i)] == Some(self.items@[i]) by {
                if i < len {
                    lemma_distinct_slots(current_head as int, i, len, cap);
                    assert(old_self.slots@[old_self.slot_of(i)] == Some(old_self.items@[i]));
                }
            }
        }
        Ok(())
    }

    /// Removes and returns the oldest payload, or `None` when empty (and
    /// then the ring is unchanged).
    pub fn pop(&mut self) -> (r: Option<T>)
        requires
            old(self).wf(),
        ensures
            final(self).wf(),
            final(self).capacity() == old(self).capacity(),
            final(self).ring_id() == old(self).ring_id(),
            (r, final(self)@) == ring_after_pop(old(self)@),
    {
        let slots_len = self.slots.len();
        let current_head = self.head;
        let current_tail = self.tail;
        if current_head == current_tail {
            return None;
        }
        let ghost k = self.log2@;
        let ghost cap = slots_len as int;
        proof {
            lemma_small_pow2_fits(k);
            lemma_mask_is_mod(current_head, k);
        }
        let index: usize = current_head & (slots_len - 1);
        assert(index as int == self.slot_of(0));
        let slot = self.slots[index];
        assert(slot == Some(self.items@[0]));
        let value = match slot {
            Some(v) => v,
            None => { return None; }
        };
        let ghost old_self = *self;
        self.head = current_head.wrapping_add(1);
        self.items = Ghost(self.items@.drop_first());
        proof {
            assert forall|i: int| 0 <= i < self.items@.len() implies
                #[trigger] self.slots@[self.slot_of(i)] == Some(self.items@[i]) by {
                assert(old_self.slots@[old_self.slot_of(i + 1)] == Some(old_self.items@[i + 1]));
                if current_head == usize::MAX {
                    // The read counter wrapped to zero; the capacity divides
                    // the modulus, so the slot is unchanged.
                    assert(self.head == 0);
                    lemma_wrapped_slot(current_head as int, 1 + i, cap, k);
                    assert(current_head as int + 1 + i == counter_modulus() + i);
                    vstd::arithmetic::div_mod::lemma_mod_add_multiples_vanish(i, counter_modulus());
                    vstd::arithmetic::div_mod::lemma_small_mod(i as nat, counter_modulus() as nat);
                } else {
                    assert(self.head as int == current_head as int + 1);
                }
            }
        }
        Some(value)
    }
}

} // verus!
