//! Laws relating several `RingBuffer` operations, stated and proved over the
//! model that the operations' own contracts use.

use vstd::prelude::*;
use crate::ring_buffer::BufferModel;

verus! {

/// The model after pushing each value of `values` in order.
pub open spec fn pushed_all<T>(s: BufferModel<T>, values: Seq<T>) -> BufferModel<T>
    decreases values.len(),
{
    if values.len() == 0 {
        s
    } else {
        pushed_all(s.pushed(values[0]), values.drop_first())
    }
}

/// The model after popping `k` times.
pub open spec fn popped_times<T>(s: BufferModel<T>, k: int) -> BufferModel<T>
    decreases k,
{
    if k <= 0 {
        s
    } else {
        popped_times(s, k - 1).popped()
    }
}

/// Pushing a sequence that fits between the write cursor and the end of the
/// wrap leaves the read cursor alone, lays the values out contiguously from
/// the old write cursor, advances the write cursor past them (wrapping), and
/// touches no other slot.
pub proof fn lemma_pushed_all_in_place<T>(s: BufferModel<T>, values: Seq<T>)
    requires
        s.wf(),
        s.write + values.len() <= s.cap(),
    ensures
        pushed_all(s, values).wf(),
        pushed_all(s, values).cap() == s.cap(),
        pushed_all(s, values).read == s.read,
        pushed_all(s, values).write == (s.write + values.len()) % s.cap(),
        forall|i: int|
            s.write <= i < s.write + values.len() ==> #[trigger] pushed_all(s, values).storage[i]
                == values[i - s.write],
        forall|i: int|
            (0 <= i < s.write || s.write + values.len() <= i < s.cap())
                ==> #[trigger] pushed_all(s, values).storage[i] == s.storage[i],
    decreases values.len(),
{
    let t = pushed_all(s, values);
    if values.len() == 0 {
        vstd::arithmetic::div_mod::lemma_small_mod(s.write as nat, s.cap() as nat);
    } else {
        let s1 = s.pushed(values[0]);
        if s.write + 1 < s.cap() {
            vstd::arithmetic::div_mod::lemma_small_mod((s.write + 1) as nat, s.cap() as nat);
        } else {
            vstd::arithmetic::div_mod::lemma_mod_self_0(s.cap());
        }
        lemma_pushed_all_in_place(s1, values.drop_first());
        assert((s.write + values.len()) % s.cap() == (s1.write + values.drop_first().len())
            % s.cap());
    }
}

/// Popping `k` times moves the read cursor forward by `k`, modulo the
/// capacity, and changes nothing else.
pub proof fn lemma_popped_times_reads_forward<T>(s: BufferModel<T>, k: int)
    requires
        s.wf(),
        0 <= k,
    ensures
        popped_times(s, k).wf(),
        popped_times(s, k).storage == s.storage,
        popped_times(s, k).write == s.write,
        popped_times(s, k).read == (s.read + k) % s.cap(),
    decreases k,
{
    let n = s.cap();
    if k == 0 {
        vstd::arithmetic::div_mod::lemma_small_mod(s.read as nat, n as nat);
    } else {
        lemma_popped_times_reads_forward(s, k - 1);
        vstd::arithmetic::div_mod::lemma_mod_bound(s.read + k - 1, n);
        vstd::arithmetic::div_mod::lemma_mod_bound(s.read + k, n);
        vstd::arithmetic::div_mod::lemma_add_mod_noop(s.read + k - 1, 1, n);
        if n == 1 {
            vstd::arithmetic::div_mod::lemma_mod_bound((s.read + k - 1) % n + 1, n);
        } else {
            vstd::arithmetic::div_mod::lemma_small_mod(1nat, n as nat);
        }
    }
}

/// First-in first-out: start from a fresh buffer, push at most capacity-many
/// values, then pop once for each; the pop after `j` earlier pops returns the
/// value pushed `j`-th.
pub proof fn lemma_fifo<T>(capacity: int, zero: T, values: Seq<T>)
    requires
        capacity >= 1,
        values.len() <= capacity,
    ensures
        forall|j: int|
            0 <= j < values.len() ==> #[trigger] popped_times(
                pushed_all(BufferModel::fresh(capacity, zero), values),
                j,
            ).front() == values[j],
{
    let s = BufferModel::fresh(capacity, zero);
    let t = pushed_all(s, values);
    lemma_pushed_all_in_place(s, values);
    assert forall|j: int| 0 <= j < values.len() implies #[trigger] popped_times(t, j).front()
        == values[j] by {
        lemma_popped_times_reads_forward(t, j);
        vstd::arithmetic::div_mod::lemma_small_mod(j as nat, capacity as nat);
    }
}

/// Wrap equivalence: reading `offset` and `offset + capacity` slots past the
/// read cursor lands on the same slot, so `get` cannot tell them apart.
pub proof fn lemma_get_wrap_equivalence<T>(s: BufferModel<T>, offset: int)
    requires
        s.wf(),
        0 <= offset,
    ensures
        s.at_offset(offset) == s.at_offset(offset + s.cap()),
{
    vstd::arithmetic::div_mod::lemma_mod_add_multiples_vanish(s.read + offset, s.cap());
}

/// A fresh (or freshly reset) buffer reads as empty: occupancy 0, both
/// cursors at the start, and every in-range offset holds the zero value.
pub proof fn lemma_fresh_reads_zero<T>(capacity: int, zero: T)
    requires
        capacity >= 1,
    ensures
        BufferModel::fresh(capacity, zero).wf(),
        BufferModel::fresh(capacity, zero).occupancy() == 0,
        BufferModel::fresh(capacity, zero).read == 0,
        BufferModel::fresh(capacity, zero).write == 0,
        forall|i: int|
            0 <= i < capacity ==> #[trigger] BufferModel::fresh(capacity, zero).at_offset(i)
                == zero,
{
    let s = BufferModel::fresh(capacity, zero);
    vstd::arithmetic::div_mod::lemma_mod_self_0(capacity);
    assert forall|i: int| 0 <= i < capacity implies #[trigger] s.at_offset(i) == zero by {
        vstd::arithmetic::div_mod::lemma_small_mod(i as nat, capacity as nat);
    }
}

} // verus!
