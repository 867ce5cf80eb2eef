//! A generic, fixed-capacity circular buffer with two independent cursors.
//!
//! The buffer supports a streaming discipline (sequential `push`/`pop` with
//! wrap-around cursors) and a delay-line discipline (in-place `put` at the
//! write cursor, offset-relative `get` that advances nothing) over the same
//! storage. All positional arithmetic is modulo the fixed capacity.

use vstd::prelude::*;

verus! {

/// An element a `RingBuffer` can store: copyable, with a known zero value
/// that fresh storage is filled with.
pub trait Element: Copy {
    /// The zero (default) value, as contracts speak of it.
    spec fn zero() -> Self;

    /// Produce the zero value.
    fn zero_value() -> (r: Self)
        ensures
            r == Self::zero(),
    ;
}

impl Element for i8 {
    open spec fn zero() -> i8 {
        0
    }

    fn zero_value() -> i8 {
        0
    }
}

impl Element for i16 {
    open spec fn zero() -> i16 {
        0
    }

    fn zero_value() -> i16 {
        0
    }
}

impl Element for i32 {
    open spec fn zero() -> i32 {
        0
    }

    fn zero_value() -> i32 {
        0
    }
}

impl Element for i64 {
    open spec fn zero() -> i64 {
        0
    }

    fn zero_value() -> i64 {
        0
    }
}

impl Element for u8 {
    open spec fn zero() -> u8 {
        0
    }

    fn zero_value() -> u8 {
        0
    }
}

impl Element for u16 {
    open spec fn zero() -> u16 {
        0
    }

    fn zero_value() -> u16 {
        0
    }
}

impl Element for u32 {
    open spec fn zero() -> u32 {
        0
    }

    fn zero_value() -> u32 {
        0
    }
}

impl Element for u64 {
    open spec fn zero() -> u64 {
        0
    }

    fn zero_value() -> u64 {
        0
    }
}

impl Element for usize {
    open spec fn zero() -> usize {
        0
    }

    fn zero_value() -> usize {
        0
    }
}

/// The mathematical state of a ring buffer: the stored slots and the two
/// cursors. Every executable operation is specified as a transformation of
/// this model.
pub ghost struct BufferModel<T> {
    /// The stored slots, in storage order.
    pub storage: Seq<T>,
    /// Index of the next slot a sequential read consumes.
    pub read: int,
    /// Index of the next slot a sequential write fills.
    pub write: int,
}

impl<T> BufferModel<T> {
    /// The fixed capacity: the number of storage slots.
    pub open spec fn cap(self) -> int {
        self.storage.len() as int
    }

    /// Both cursors lie inside the (non-empty) storage.
    pub open spec fn wf(self) -> bool {
        &&& self.cap() >= 1
        &&& 0 <= self.read < self.cap()
        &&& 0 <= self.write < self.cap()
    }

    /// The state of a freshly constructed or reset buffer of capacity `n`:
    /// every slot holds `zero` and both cursors are at the start.
    pub open spec fn fresh(n: int, zero: T) -> BufferModel<T> {
        BufferModel { storage: Seq::new(n as nat, |i: int| zero), read: 0, write: 0 }
    }

    /// Occupancy: how many slots a sequential reader is behind the writer,
    /// modulo the capacity. Note that a buffer filled over a full turn of the
    /// write cursor is indistinguishable from an empty one: both cursors
    /// coincide and the occupancy reads 0.
    pub open spec fn occupancy(self) -> int {
        (self.write - self.read + self.cap()) % self.cap()
    }

    /// The slot the read cursor rests on: what `peek` and the next `pop` return.
    pub open spec fn front(self) -> T {
        self.storage[self.read]
    }

    /// The slot `offset` places past the read cursor, wrapping around.
    pub open spec fn at_offset(self, offset: int) -> T {
        self.storage[(self.read + offset) % self.cap()]
    }

    /// The state after a `push`: the pushed value sits where the write cursor
    /// was, and the write cursor has advanced one slot, wrapping around.
    pub open spec fn pushed(self, value: T) -> BufferModel<T> {
        BufferModel {
            storage: self.storage.update(self.write, value),
            read: self.read,
            write: (self.write + 1) % self.cap(),
        }
    }

    /// The state after a `pop`: only the read cursor has moved, one slot
    /// forward with wrap-around.
    pub open spec fn popped(self) -> BufferModel<T> {
        BufferModel { storage: self.storage, read: (self.read + 1) % self.cap(), write: self.write }
    }

    /// The state after a `put`: the value sits where the write cursor is and
    /// neither cursor has moved.
    pub open spec fn written(self, value: T) -> BufferModel<T> {
        BufferModel {
            storage: self.storage.update(self.write, value),
            read: self.read,
            write: self.write,
        }
    }
}

/// Fixed-capacity circular storage with independent read and write cursors,
/// both kept modulo the capacity.
pub struct RingBuffer<T> {
    buffer: Vec<T>,
    read_index: usize,
    write_index: usize,
}

impl<T> View for RingBuffer<T> {
    type V = BufferModel<T>;

    closed spec fn view(&self) -> BufferModel<T> {
        BufferModel {
            storage: self.buffer@,
            read: self.read_index as int,
            write: self.write_index as int,
        }
    }
}

impl<T: Element> RingBuffer<T> {
    /// Allocate `length` slots, all holding the zero value, with both cursors
    /// at the start. A capacity of zero would make every modular index
    /// undefined, so callers must ask for at least one slot.
    pub fn new(length: usize) -> (result: Self)
        requires
            length >= 1,
        ensures
            result@ == BufferModel::fresh(length as int, T::zero()),
            result@.wf(),
    {
        let mut buffer: Vec<T> = Vec::new();
        for k in 0..length
            invariant
                buffer@.len() == k,
                forall|i: int| 0 <= i < k ==> buffer@[i] == T::zero(),
        {
            buffer.push(T::zero_value());
        }
        proof {
            assert(buffer@ =~= Seq::new(length as nat, |i: int| T::zero()));
        }
        RingBuffer { buffer, read_index: 0, write_index: 0 }
    }

    /// Zero every slot and return both cursors to the start; the capacity is
    /// unchanged.
    pub fn reset(&mut self)
        requires
            old(self)@.wf(),
        ensures
            final(self)@ == BufferModel::fresh(old(self)@.cap(), T::zero()),
            final(self)@.wf(),
    {
        let n = self.buffer.len();
        for k in 0..n
            invariant
                self.buffer@.len() == n,
                self.read_index == old(self).read_index,
                self.write_index == old(self).write_index,
                forall|i: int| 0 <= i < k ==> self.buffer@[i] == T::zero(),
        {
            self.buffer[k] = T::zero_value();
        }
        self.read_index = 0;
        self.write_index = 0;
        proof {
            assert(self.buffer@ =~= Seq::new(old(self)@.cap() as nat, |i: int| T::zero()));
        }
    }

    /// Write `value` at the write cursor without advancing any cursor: the
    /// delay-line way of producing the current sample before deciding whether
    /// to move on.
    pub fn put(&mut self, value: T)
        requires
            old(self)@.wf(),
        ensures
            final(self)@ == old(self)@.written(value),
            final(self)@.wf(),
    {
        self.buffer[self.write_index] = value;
    }

    /// Read the slot under the read cursor without advancing it: a
    /// non-destructive look at the value the next `pop` returns.
    pub fn peek(&self) -> (result: T)
        requires
            self@.wf(),
        ensures
            result == self@.front(),
    {
        self.buffer[self.read_index]
    }

    /// Read the slot `offset` places past the read cursor, wrapping around,
    /// advancing nothing. The offset may exceed the capacity; it is taken
    /// modulo the capacity, so a delay line can ask for "so many samples ago"
    /// without bookkeeping.
    pub fn get(&self, offset: usize) -> (result: T)
        requires
            self@.wf(),
        ensures
            result == self@.at_offset(offset as int),
    {
        let n = self.buffer.len();
        let rotation = offset % n;
        let index = if rotation < n - self.read_index {
            self.read_index + rotation
        } else {
            rotation - (n - self.read_index)
        };
        proof {
            lemma_wrapped_index(self.read_index as int, offset as int, n as int);
        }
        self.buffer[index]
    }

    /// Write `value` at the write cursor, then advance the write cursor one
    /// slot, wrapping around. No occupancy check: writing over un-popped data
    /// is the caller's affair, and the intended behaviour of a delay line.
    pub fn push(&mut self, value: T)
        requires
            old(self)@.wf(),
        ensures
            final(self)@ == old(self)@.pushed(value),
            final(self)@.wf(),
    {
        let n = self.buffer.len();
        self.buffer[self.write_index] = value;
        self.write_index = (self.write_index + 1) % n;
    }

    /// Return the slot under the read cursor, then advance the read cursor one
    /// slot, wrapping around. No occupancy check: popping past the write
    /// cursor returns whatever the slot holds.
    pub fn pop(&mut self) -> (result: T)
        requires
            old(self)@.wf(),
        ensures
            result == old(self)@.front(),
            final(self)@ == old(self)@.popped(),
            final(self)@.wf(),
    {
        let n = self.buffer.len();
        let value = self.buffer[self.read_index];
        self.read_index = (self.read_index + 1) % n;
        value
    }

    /// The current position of the read cursor.
    pub fn get_read_index(&self) -> (result: usize)
        ensures
            result == self@.read,
    {
        self.read_index
    }

    /// Place the read cursor at `index`, taken modulo the capacity. Nothing
    /// else changes; no validation beyond the wrap, so the cursors can be put
    /// in any relative configuration.
    pub fn set_read_index(&mut self, index: usize)
        requires
            old(self)@.wf(),
        ensures
            final(self)@.storage == old(self)@.storage,
            final(self)@.read == (index as int) % old(self)@.cap(),
            final(self)@.write == old(self)@.write,
            final(self)@.wf(),
    {
        self.read_index = index % self.buffer.len();
    }

    /// The current position of the write cursor.
    pub fn get_write_index(&self) -> (result: usize)
        ensures
            result == self@.write,
    {
        self.write_index
    }

    /// Place the write cursor at `index`, taken modulo the capacity. Nothing
    /// else changes.
    pub fn set_write_index(&mut self, index: usize)
        requires
            old(self)@.wf(),
        ensures
            final(self)@.storage == old(self)@.storage,
            final(self)@.read == old(self)@.read,
            final(self)@.write == (index as int) % old(self)@.cap(),
            final(self)@.wf(),
    {
        self.write_index = index % self.buffer.len();
    }

    /// Occupancy: the modular distance from the read cursor to the write
    /// cursor. A full buffer (both cursors equal after a whole turn of
    /// pushes) reads 0, the same as an empty one.
    pub fn len(&self) -> (result: usize)
        requires
            self@.wf(),
        ensures
            result == self@.occupancy(),
    {
        let n = self.buffer.len();
        let result = if self.write_index >= self.read_index {
            self.write_index - self.read_index
        } else {
            n - self.read_index + self.write_index
        };
        proof {
            lemma_occupancy_form(self.read_index as int, self.write_index as int, n as int);
        }
        result
    }

    /// The fixed capacity, constant for the buffer's lifetime.
    pub fn capacity(&self) -> (result: usize)
        ensures
            result == self@.cap(),
    {
        self.buffer.len()
    }
}

/// `(read + offset) % n` can be computed from `offset % n` alone: first wrap
/// the offset, then wrap the single overstep past the end of storage.
proof fn lemma_wrapped_index(read: int, offset: int, n: int)
    requires
        n >= 1,
        0 <= read < n,
        0 <= offset,
    ensures
        (read + offset) % n == if offset % n < n - read {
            read + offset % n
        } else {
            offset % n - (n - read)
        },
{
    let rotation = offset % n;
    vstd::arithmetic::div_mod::lemma_mod_bound(offset, n);
    vstd::arithmetic::div_mod::lemma_add_mod_noop(read, offset, n);
    vstd::arithmetic::div_mod::lemma_mod_twice(read, n);
    vstd::arithmetic::div_mod::lemma_small_mod(read as nat, n as nat);
    assert((read + offset) % n == (read + rotation) % n);
    if rotation < n - read {
        vstd::arithmetic::div_mod::lemma_small_mod((read + rotation) as nat, n as nat);
    } else {
        vstd::arithmetic::div_mod::lemma_mod_sub_multiples_vanish(read + rotation, n);
        vstd::arithmetic::div_mod::lemma_small_mod((read + rotation - n) as nat, n as nat);
    }
}

/// The occupancy `(write - read + n) % n` needs no modulo: it is the plain
/// difference when the writer is ahead, and the wrapped difference otherwise.
proof fn lemma_occupancy_form(read: int, write: int, n: int)
    requires
        n >= 1,
        0 <= read < n,
        0 <= write < n,
    ensures
        (write - read + n) % n == if write >= read {
            write - read
        } else {
            n - read + write
        },
{
    if write >= read {
        vstd::arithmetic::div_mod::lemma_mod_sub_multiples_vanish(write - read + n, n);
        vstd::arithmetic::div_mod::lemma_small_mod((write - read) as nat, n as nat);
    } else {
        vstd::arithmetic::div_mod::lemma_small_mod((write - read + n) as nat, n as nat);
    }
}

} // verus!
