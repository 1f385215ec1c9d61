//! Cyclic selector: a fixed, non-empty list of values with a circular
//! current index, stepped by `next`/`prev` and read by `get`.

use vstd::prelude::*;
use vstd::arithmetic::div_mod::{lemma_small_mod, lemma_mod_multiples_vanish};

verus! {

/// Circular index over a fixed list of values.
///
/// The list is fixed at construction; only the index moves, and it always
/// stays inside `[0, len)`.
pub struct Cycle<T> {
    pub values: Vec<T>,
    pub index: usize,
}

impl<T: Copy> Cycle<T> {
    /// Well-formed: non-empty list, index in range.
    pub open spec fn wf(&self) -> bool {
        self.values@.len() > 0 && self.index < self.values@.len()
    }

    /// The fixed list of values.
    pub open spec fn spec_values(&self) -> Seq<T> {
        self.values@
    }

    /// The current index.
    pub open spec fn spec_index(&self) -> int {
        self.index as int
    }

    pub fn new(values: Vec<T>) -> (c: Cycle<T>)
        requires
            values@.len() > 0,
        ensures
            c.wf(),
            c.spec_values() == values@,
            c.spec_index() == 0,
    {
        Cycle { values, index: 0 }
    }

    /// Step forward, wrapping at the end of the list.
    pub fn next(&mut self)
        requires
            old(self).wf(),
        ensures
            final(self).wf(),
            final(self).spec_values() == old(self).spec_values(),
            final(self).spec_index() == (old(self).spec_index() + 1) % old(self).spec_values().len() as int,
    {
        let len = self.values.len();
        self.index = (self.index + 1) % len;
    }

    /// Step backward, wrapping at the start of the list.
    pub fn prev(&mut self)
        requires
            old(self).wf(),
        ensures
            final(self).wf(),
            final(self).spec_values() == old(self).spec_values(),
            final(self).spec_index()
                == (old(self).spec_index() + old(self).spec_values().len() - 1) % old(self).spec_values().len() as int,
    {
        let len = self.values.len();
        proof {
            if self.index == 0 {
                lemma_mod_multiples_vanish(1, len - 1, len as int);
                lemma_small_mod((len - 1) as nat, len as nat);
            } else {
                lemma_small_mod((self.index - 1) as nat, len as nat);
                lemma_mod_multiples_vanish(1, self.index - 1, len as int);
            }
        }
        if self.index == 0 {
            self.index = len - 1;
        } else {
            self.index = self.index - 1;
        }
    }

    /// Read the value under the current index, by copy.
    pub fn get(&self) -> (v: T)
        requires
            self.wf(),
        ensures
            v == self.spec_values()[self.spec_index()],
    {
        self.values[self.index]
    }
}

/// Law of the selector: one forward step followed by one backward step (or
/// the other way round) restores the index, from any starting index of any
/// non-empty list.  Together with `next`/`prev` keeping the list unchanged,
/// the value `get` returns after the two steps is the value it returned
/// before them.
pub proof fn lemma_cycle_next_prev(i: int, len: int)
    requires
        0 <= i < len,
    ensures
        ((i + 1) % len + len - 1) % len == i,
        ((i + len - 1) % len + 1) % len == i,
{
    assert ((i + 1) % len == if i + 1 == len { 0int } else { i + 1 }) by {
        if i + 1 == len {
            lemma_mod_multiples_vanish(1, 0, len);
            lemma_small_mod(0, len as nat);
        } else {
            lemma_small_mod((i + 1) as nat, len as nat);
        }
    };
    assert ((i + len - 1) % len == if i == 0 { len - 1 } else { i - 1 }) by {
        if i == 0 {
            lemma_mod_multiples_vanish(1, len - 1, len);
            lemma_small_mod((len - 1) as nat, len as nat);
        } else {
            lemma_mod_multiples_vanish(1, i - 1, len);
            lemma_small_mod((i - 1) as nat, len as nat);
        }
    };
    if i + 1 == len {
        assert ((0 + len - 1) % len == len - 1) by {
            lemma_small_mod((len - 1) as nat, len as nat);
        };
    } else {
        assert ((i + 1 + len - 1) % len == i) by {
            lemma_mod_multiples_vanish(1, i, len);
            lemma_small_mod(i as nat, len as nat);
        };
    }
    if i == 0 {
        assert ((len - 1 + 1) % len == 0) by {
            lemma_mod_multiples_vanish(1, 0, len);
            lemma_small_mod(0, len as nat);
        };
    } else {
        assert ((i - 1 + 1) % len == i) by {
            lemma_small_mod(i as nat, len as nat);
        };
    }
}

} // verus!
