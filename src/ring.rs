//! Fixed-length ring buffers with wrap-safe indexing.

use vstd::prelude::*;

verus! {

/// The index `i` wrapped into `[0, len)` (Euclidean remainder).
pub open spec fn wrapped(i: int, len: nat) -> int {
    i % (len as int)
}

/// Wrap a signed index into `[0, len)`; negative indices count back from the end.
pub fn wrap_index(i: i64, len: usize) -> (r: usize)
    requires
        len > 0,
    ensures
        r < len,
        r as int == wrapped(i as int, len as nat),
{
    let l = len as u64;
    if i >= 0 {
        let r = (i as u64) % l;
        proof {
            assert(r as int == (i as int) % (l as int));
        }
        r as usize
    } else {
        let back = ((-(i + 1)) as u64) % l;
        let r = l - 1 - back;
        proof {
            let li = l as int;
            let k = (-(i as int + 1)) / li;
            vstd::arithmetic::div_mod::lemma_fundamental_div_mod(-(i as int + 1), li);
            assert(i as int == -(k + 1) * li + r as int) by (nonlinear_arith)
                requires
                    -(i as int + 1) == li * k + back as int,
                    r as int == li - 1 - back as int,
            ;
            vstd::arithmetic::div_mod::lemma_fundamental_div_mod_converse(
                i as int,
                li,
                -(k + 1),
                r as int,
            );
        }
        r as usize
    }
}

/// A fixed-length circular buffer with one cursor.
///
/// The length is chosen at construction and never changes; the cursor always
/// stays in `[0, len)`.
pub struct RingBuffer<T> {
    cells: Vec<T>,
    cursor: usize,
}

impl<T: Copy> RingBuffer<T> {
    /// The stored values, oldest slot first in memory order.
    pub closed spec fn cells(&self) -> Seq<T> {
        self.cells@
    }

    /// The slot the cursor points at.
    pub closed spec fn cursor(&self) -> nat {
        self.cursor as nat
    }

    /// Well-formed: non-empty, cursor inside the buffer.
    pub open spec fn wf(&self) -> bool {
        self.cells().len() > 0 && self.cursor() < self.cells().len()
    }

    /// A buffer of `len` copies of `fill`, cursor at slot zero.
    pub fn new(len: usize, fill: T) -> (r: Self)
        requires
            len > 0,
        ensures
            r.wf(),
            r.cells() == Seq::new(len as nat, |_i: int| fill),
            r.cursor() == 0,
    {
        let mut cells: Vec<T> = Vec::with_capacity(len);
        let mut k: usize = 0;
        while k < len
            invariant
                k <= len,
                cells@ == Seq::new(k as nat, |_i: int| fill),
            decreases len - k,
        {
            cells.push(fill);
            k += 1;
        }
        RingBuffer { cells, cursor: 0 }
    }

    /// Number of slots.
    pub fn len(&self) -> (r: usize)
        requires
            self.wf(),
        ensures
            r as nat == self.cells().len(),
            r > 0,
    {
        self.cells.len()
    }

    /// The cursor position.
    pub fn position(&self) -> (r: usize)
        requires
            self.wf(),
        ensures
            r as nat == self.cursor(),
    {
        self.cursor
    }

    /// The value under the cursor.
    pub fn current(&self) -> (r: T)
        requires
            self.wf(),
        ensures
            r == self.cells()[self.cursor() as int],
    {
        self.cells[self.cursor]
    }

    /// The value at a signed index, wrapped into the buffer.
    pub fn get_wrapped(&self, i: i64) -> (r: T)
        requires
            self.wf(),
        ensures
            r == self.cells()[wrapped(i as int, self.cells().len())],
    {
        let k = wrap_index(i, self.cells.len());
        self.cells[k]
    }

    /// The four neighbours `base - 1 .. base + 2`, each wrapped into the
    /// buffer: the support of a cubic interpolation around `base`.
    pub fn window4(&self, base: i64) -> (r: (T, T, T, T))
        requires
            self.wf(),
            i64::MIN < base < i64::MAX - 1,
        ensures
            r.0 == self.cells()[wrapped(base - 1, self.cells().len())],
            r.1 == self.cells()[wrapped(base as int, self.cells().len())],
            r.2 == self.cells()[wrapped(base + 1, self.cells().len())],
            r.3 == self.cells()[wrapped(base + 2, self.cells().len())],
    {
        (
            self.get_wrapped(base - 1),
            self.get_wrapped(base),
            self.get_wrapped(base + 1),
            self.get_wrapped(base + 2),
        )
    }

    /// Overwrite the value under the cursor; the cursor stays.
    pub fn write_current(&mut self, value: T)
        requires
            old(self).wf(),
        ensures
            final(self).wf(),
            final(self).cells() == old(self).cells().update(old(self).cursor() as int, value),
            final(self).cursor() == old(self).cursor(),
    {
        let c = self.cursor;
        self.cells.set(c, value);
    }

    /// Move the cursor one slot forward, wrapping at the end.
    pub fn advance(&mut self)
        requires
            old(self).wf(),
        ensures
            final(self).wf(),
            final(self).cells() == old(self).cells(),
            final(self).cursor() == (old(self).cursor() + 1) % old(self).cells().len(),
    {
        let n = self.cells.len();
        proof {
            let next = self.cursor as int + 1;
            if next < n {
                vstd::arithmetic::div_mod::lemma_small_mod(next as nat, n as nat);
            } else {
                vstd::arithmetic::div_mod::lemma_mod_self_0(n as int);
            }
        }
        self.cursor = if self.cursor + 1 == n {
            0
        } else {
            self.cursor + 1
        };
    }

    /// Hand back the value under the cursor, store `value` in its place and
    /// advance: a delay of exactly `len` pushes.
    pub fn exchange(&mut self, value: T) -> (r: T)
        requires
            old(self).wf(),
        ensures
            final(self).wf(),
            r == old(self).cells()[old(self).cursor() as int],
            final(self).cells() == old(self).cells().update(old(self).cursor() as int, value),
            final(self).cursor() == (old(self).cursor() + 1) % old(self).cells().len(),
    {
        let delayed = self.current();
        self.write_current(value);
        self.advance();
        delayed
    }
}

/// The cells and cursor after `exchange` is called with each of `inputs`, in order.
pub open spec fn exchange_all<T>(cells: Seq<T>, cursor: nat, inputs: Seq<T>) -> (Seq<T>, nat)
    decreases inputs.len(),
{
    if inputs.len() == 0 {
        (cells, cursor)
    } else {
        let (c, k) = exchange_all(cells, cursor, inputs.drop_last());
        (c.update(k as int, inputs.last()), (k + 1) % cells.len())
    }
}

proof fn lemma_mod_below_twice(x: int, n: int)
    requires
        0 < n,
        0 <= x < 2 * n,
    ensures
        x % n == if x < n {
            x
        } else {
            x - n
        },
{
    if x < n {
        vstd::arithmetic::div_mod::lemma_small_mod(x as nat, n as nat);
    } else {
        vstd::arithmetic::div_mod::lemma_fundamental_div_mod_converse(x, n, 1, x - n);
    }
}

proof fn lemma_exchange_prefix<T>(cells: Seq<T>, cursor: nat, inputs: Seq<T>)
    requires
        cells.len() > 0,
        cursor < cells.len(),
        inputs.len() <= cells.len(),
    ensures
        exchange_all(cells, cursor, inputs).0.len() == cells.len(),
        exchange_all(cells, cursor, inputs).1 == (cursor + inputs.len()) % cells.len(),
        forall|i: int|
            0 <= i < inputs.len() ==> #[trigger] exchange_all(cells, cursor, inputs).0[(cursor + i)
                % cells.len() as int] == inputs[i],
    decreases inputs.len(),
{
    let n = cells.len() as int;
    if inputs.len() == 0 {
        lemma_mod_below_twice(cursor as int, n);
    } else {
        let init = inputs.drop_last();
        let m = init.len() as int;
        lemma_exchange_prefix(cells, cursor, init);
        let (c, k) = exchange_all(cells, cursor, init);
        lemma_mod_below_twice(cursor + m, n);
        lemma_mod_below_twice(cursor + m + 1, n);
        lemma_mod_below_twice((k + 1) as int, n);
        assert forall|i: int| 0 <= i < inputs.len() implies #[trigger] exchange_all(
            cells,
            cursor,
            inputs,
        ).0[(cursor + i) % n] == inputs[i] by {
            lemma_mod_below_twice(cursor + i, n);
            if i < m {
                assert(c[(cursor + i) % n] == init[i]);
            }
        }
    }
}

/// A ring used through `exchange` is a delay line of exactly its length:
/// after `len` exchanges the cursor is back where it started and each slot
/// holds the input that the next round of exchanges hands back, in order.
pub proof fn lemma_delay_line<T>(cells: Seq<T>, cursor: nat, inputs: Seq<T>)
    requires
        cells.len() > 0,
        cursor < cells.len(),
        inputs.len() == cells.len(),
    ensures
        exchange_all(cells, cursor, inputs).1 == cursor,
        forall|i: int|
            0 <= i < inputs.len() ==> #[trigger] exchange_all(cells, cursor, inputs).0[(cursor + i)
                % cells.len() as int] == inputs[i],
{
    lemma_exchange_prefix(cells, cursor, inputs);
    lemma_mod_below_twice((cursor + inputs.len()) as int, cells.len() as int);
}

} // verus!
