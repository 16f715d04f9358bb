//! A growable, indexable array with stack discipline: elements are
//! pushed and popped at the tail, and the backing buffer doubles in
//! capacity whenever it fills up.

use crate::render::lemma_rendered_items_push;
use crate::render::Render;
use crate::render::rendered_items;
use crate::render::rendered_list;
use vstd::prelude::*;

verus! {

/// Capacity after one growth step: a zero-capacity buffer grows to one
/// slot, any other buffer doubles.
pub open spec fn grown_capacity(cap: nat) -> nat {
    if cap == 0 {
        1
    } else {
        2 * cap
    }
}

/// A growable array. The buffer is a slab of `capacity` slots; the live
/// elements occupy slots `[0, length)` and every other slot is vacant.
pub struct Array<T> {
    buf: Vec<Option<T>>,
    len: usize,
}

impl<T> View for Array<T> {
    type V = Seq<T>;

    /// The live elements, in slot order.
    closed spec fn view(&self) -> Seq<T> {
        Seq::new(self.len as nat, |i: int| self.buf@[i]->0)
    }
}

impl<T> Array<T> {
    /// Total element slots currently backed by allocated storage.
    pub closed spec fn capacity(&self) -> nat {
        self.buf@.len()
    }

    /// Well-formedness: live elements fill exactly the slots `[0, length)`,
    /// and every slot outside that range is vacant.
    pub closed spec fn wf(&self) -> bool {
        &&& self.len <= self.buf@.len()
        &&& forall|i: int| 0 <= i < self.len ==> self.buf@[i] is Some
        &&& forall|i: int| self.len <= i < self.buf@.len() ==> self.buf@[i] is None
    }

    /// Creates an empty array with no allocation. Zero-sized element
    /// types are rejected: the slab layout arithmetic is not defined for
    /// them, so constructing such an array is a contract violation.
    pub fn new() -> (r: Self)
        requires
            vstd::layout::size_of::<T>() != 0,
        ensures
            r.wf(),
            r@ == Seq::<T>::empty(),
            r.capacity() == 0,
    {
        let r = Array { buf: Vec::new(), len: 0 };
        proof {
            assert(r@ =~= Seq::<T>::empty());
        }
        r
    }

    /// Grows the buffer by one doubling step, moving every slot into the
    /// new storage; the live elements and their order are preserved.
    fn grow(&mut self)
        requires
            old(self).wf(),
            old(self).capacity() < usize::MAX / 2,
        ensures
            final(self).wf(),
            final(self)@ == old(self)@,
            final(self).capacity() == grown_capacity(old(self).capacity()),
    {
        let old_cap = self.buf.len();
        let new_cap: usize = if old_cap == 0 {
            1
        } else {
            old_cap * 2
        };
        let mut new_buf: Vec<Option<T>> = Vec::with_capacity(new_cap);
        let mut i: usize = 0;
        while i < self.buf.len()
            invariant
                i <= self.buf@.len(),
                self.len == old(self).len,
                self.buf@.len() == old(self).buf@.len(),
                new_buf@.len() == i,
                forall|j: int| 0 <= j < i ==> new_buf@[j] == old(self).buf@[j],
                forall|j: int| i <= j < self.buf@.len() ==> self.buf@[j] == old(self).buf@[j],
            decreases self.buf@.len() - i,
        {
            let mut slot: Option<T> = None;
            self.buf.set_and_swap(i, &mut slot);
            new_buf.push(slot);
            i = i + 1;
        }
        while new_buf.len() < new_cap
            invariant
                old(self).buf@.len() <= new_buf@.len() <= new_cap,
                forall|j: int| 0 <= j < old(self).buf@.len() ==> new_buf@[j] == old(self).buf@[j],
                forall|j: int| old(self).buf@.len() <= j < new_buf@.len() ==> new_buf@[j] is None,
            decreases new_cap - new_buf@.len(),
        {
            new_buf.push(None);
        }
        self.buf = new_buf;
        proof {
            assert(self@ =~= old(self)@);
        }
    }

    /// Appends `value` at the tail, growing first when the buffer is
    /// full. The live elements gain `value` at the end; nothing else
    /// moves, whether or not an internal reallocation took place.
    pub fn push(&mut self, value: T)
        requires
            old(self).wf(),
            old(self).capacity() < usize::MAX / 2,
        ensures
            final(self).wf(),
            final(self)@ == old(self)@.push(value),
            final(self).capacity() == if old(self)@.len() < old(self).capacity() {
                old(self).capacity()
            } else {
                grown_capacity(old(self).capacity())
            },
    {
        if self.len == self.buf.len() {
            self.grow();
        }
        self.buf.set(self.len, Some(value));
        self.len = self.len + 1;
        proof {
            assert(self@ =~= old(self)@.push(value));
        }
    }

    /// Removes and returns the most recently pushed element, or nothing
    /// when the array is empty. Capacity is unchanged either way.
    pub fn pop(&mut self) -> (r: Option<T>)
        requires
            old(self).wf(),
        ensures
            final(self).wf(),
            final(self).capacity() == old(self).capacity(),
            match r {
                Some(v) => old(self)@.len() > 0 && v == old(self)@.last()
                    && final(self)@ == old(self)@.drop_last(),
                None => old(self)@.len() == 0 && final(self)@ == old(self)@,
            },
    {
        if self.len == 0 {
            None
        } else {
            let i = self.len - 1;
            let mut slot: Option<T> = None;
            self.buf.set_and_swap(i, &mut slot);
            self.len = i;
            proof {
                assert(self@ =~= old(self)@.drop_last());
            }
            slot
        }
    }

    /// Reads the most recently pushed element without removing it: a
    /// borrow into the still-owned buffer, valid until the next mutating
    /// call. Returns nothing when the array is empty.
    pub fn peek(&self) -> (r: Option<&T>)
        requires
            self.wf(),
        ensures
            match r {
                Some(v) => self@.len() > 0 && *v == self@.last(),
                None => self@.len() == 0,
            },
    {
        if self.len == 0 {
            None
        } else {
            match &self.buf[self.len - 1] {
                Some(v) => Some(v),
                None => unreached(),
            }
        }
    }

    /// The number of live elements: exactly the count of pushes minus
    /// the count of successful pops so far.
    pub fn len(&self) -> (n: usize)
        ensures
            n == self@.len(),
    {
        self.len
    }

    /// Builds an array directly from an ordered list of initial values,
    /// equivalent to constructing empty and pushing each value in order.
    pub fn from_values(values: Vec<T>) -> (r: Self)
        requires
            vstd::layout::size_of::<T>() != 0,
            values@.len() <= usize::MAX / 4,
        ensures
            r.wf(),
            r@ == values@,
    {
        let ghost all = values@;
        let mut values = values;
        let mut r = Array::new();
        while values.len() > 0
            invariant
                vstd::layout::size_of::<T>() != 0,
                all.len() <= usize::MAX / 4,
                r.wf(),
                r@ + values@ == all,
                r.capacity() <= 2 * r@.len() + 1,
            decreases values@.len(),
        {
            let v = values.remove(0);
            let ghost taken = r@;
            let ghost rest = values@;
            r.push(v);
            proof {
                assert(taken.push(v) + rest =~= taken + (seq![v] + rest));
                assert(r@ + values@ =~= all);
            }
        }
        proof {
            assert(r@ =~= all);
        }
        r
    }
}

impl<T: Render> Array<T> {
    /// Renders the live elements as `[e0,e1,...]`, in index order, with
    /// no leading or trailing comma. Read-only: no element is removed or
    /// changed by rendering.
    pub fn debug_string(&self) -> (r: String)
        requires
            self.wf(),
        ensures
            r@ == rendered_list(self@),
    {
        let mut out = String::new();
        out.append("[");
        proof {
            reveal_strlit("[");
            assert(out@ =~= seq!['['] + rendered_items(self@.take(0)));
        }
        let mut i: usize = 0;
        while i < self.len
            invariant
                self.wf(),
                i <= self.len,
                out@ == seq!['['] + rendered_items(self@.take(i as int)),
            decreases self.len - i,
        {
            if i > 0 {
                out.append(",");
            }
            let elem: &T = match &self.buf[i] {
                Some(v) => v,
                None => unreached(),
            };
            elem.render_into(&mut out);
            proof {
                reveal_strlit(",");
                lemma_rendered_items_push(self@.take(i as int), self@[i as int]);
                assert(self@.take(i + 1) =~= self@.take(i as int).push(self@[i as int]));
                assert(out@ =~= seq!['['] + rendered_items(self@.take(i + 1)));
            }
            i = i + 1;
        }
        out.append("]");
        proof {
            reveal_strlit("]");
            assert(self@.take(self.len as int) =~= self@);
            assert(out@ =~= rendered_list(self@));
        }
        out
    }
}

} // verus!
