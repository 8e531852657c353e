//! A ring buffer of fixed length with a moving head.

use vstd::arithmetic::div_mod::{lemma_add_mod_noop, lemma_mod_add_multiples_vanish, lemma_small_mod};
use vstd::pervasive::cloned;
use vstd::prelude::*;

verus! {

/// The storage position that lies `offset` places after `head` in a ring
/// of `len` places.
pub open spec fn ring_position(head: int, offset: int, len: int) -> int {
    (head + offset) % len
}

/// The storage position `offset` places after `head`, computed without overflow.
fn position_after(head: usize, offset: usize, len: usize) -> (position: usize)
    requires
        head < len,
    ensures
        position == ring_position(head as int, offset as int, len as int),
        position < len,
{
    let step: usize = offset % len;
    let room: usize = len - head;
    proof {
        lemma_add_mod_noop(head as int, offset as int, len as int);
        lemma_small_mod(head as nat, len as nat);
        if step < room {
            lemma_small_mod((head + step) as nat, len as nat);
        } else {
            lemma_mod_add_multiples_vanish(head + step - len, len as int);
            lemma_small_mod((head + step - len) as nat, len as nat);
        }
    }
    if step < room {
        head + step
    } else {
        step - room
    }
}

/// The storage position `back` places before the one after `head`,
/// computed without overflow.
fn position_before(head: usize, back: usize, len: usize) -> (position: usize)
    requires
        head < len,
        1 <= back <= len,
    ensures
        position == ring_position(head as int, len - back, len as int),
        position < len,
{
    proof {
        if head >= back {
            lemma_mod_add_multiples_vanish(head - back, len as int);
            lemma_small_mod((head - back) as nat, len as nat);
        } else {
            lemma_small_mod((head + len - back) as nat, len as nat);
        }
    }
    if head >= back {
        head - back
    } else {
        head + (len - back)
    }
}

/// A ring buffer whose length is fixed when it is made.
///
/// The head marks the current element; `advance` moves it one place on,
/// wrapping at the end.
pub struct CircularVec<T: Clone + Sized> {
    contents: Vec<T>,
    head: usize,
    len: usize,
}

impl<T: Clone + Sized + Default> CircularVec<T> {
    /// Create a new circular vec with the fixed length `len`.
    /// The default value for the type is used to fill the vec.
    pub fn with_len(len: usize) -> (ring: Self)
        ensures
            ring.wf(),
            ring.slots().len() == len,
            ring.head_position() == 0,
            exists|default: T|
                call_ensures(T::default, (), default) && forall|i: int|
                    0 <= i < len ==> cloned(default, #[trigger] ring.slots()[i]),
    {
        Self::with_len_and_default(len, T::default())
    }
}

impl<T: Clone + Sized> CircularVec<T> {
    /// The elements in storage order.
    pub closed spec fn slots(&self) -> Seq<T> {
        self.contents@
    }

    /// The storage position of the head.
    pub closed spec fn head_position(&self) -> int {
        self.head as int
    }

    /// The recorded length matches the storage, and the head lies inside it.
    pub closed spec fn wf(&self) -> bool {
        &&& self.contents@.len() == self.len
        &&& self.len > 0 ==> self.head < self.len
        &&& self.len == 0 ==> self.head == 0
    }

    /// The element `offset` places after the head.
    pub open spec fn spec_get(&self, offset: int) -> T
        recommends
            self.slots().len() > 0,
    {
        self.slots()[ring_position(self.head_position(), offset, self.slots().len() as int)]
    }

    /// The elements from the head on, wrapping at the end.
    pub open spec fn forward(&self) -> Seq<T> {
        Seq::new(self.slots().len(), |i: int| self.spec_get(i))
    }

    /// The elements in reverse: from the one just before the head back to
    /// the head itself, wrapping at the start.
    pub open spec fn backward(&self) -> Seq<T> {
        Seq::new(self.slots().len(), |i: int| self.spec_get(self.slots().len() - i - 1))
    }

    /// In a well-formed ring the head lies inside the storage.
    pub proof fn lemma_head_in_range(&self)
        requires
            self.wf(),
            self.slots().len() > 0,
        ensures
            0 <= self.head_position() < self.slots().len(),
            self.spec_get(0) == self.slots()[self.head_position()],
    {
        lemma_small_mod(self.head as nat, self.len as nat);
    }

    /// Create a new circular vec with the fixed length `len`.
    /// The provided `default` value is used to populate the vec.
    pub fn with_len_and_default(len: usize, default: T) -> (ring: Self)
        ensures
            ring.wf(),
            ring.slots().len() == len,
            ring.head_position() == 0,
            forall|i: int| 0 <= i < len ==> cloned(default, #[trigger] ring.slots()[i]),
    {
        Self { contents: vec![default; len], head: 0, len }
    }

    /// Maximum number of elements in the vec.
    /// This is a fixed value.
    pub fn len(&self) -> (len: usize)
        requires
            self.wf(),
        ensures
            len == self.slots().len(),
    {
        self.len
    }

    /// Mutable reference to the head element.
    pub fn head_mut(&mut self) -> (element: &mut T)
        requires
            old(self).wf(),
            old(self).slots().len() > 0,
        ensures
            *element == old(self).spec_get(0),
            final(self).wf(),
            final(self).head_position() == old(self).head_position(),
            final(self).slots() == old(self).slots().update(
                old(self).head_position(),
                *final(element),
            ),
    {
        proof {
            self.lemma_head_in_range();
        }
        &mut self.contents[self.head]
    }

    /// Immutable reference to the head element.
    pub fn head(&self) -> (element: &T)
        requires
            self.wf(),
            self.slots().len() > 0,
        ensures
            *element == self.spec_get(0),
    {
        proof {
            self.lemma_head_in_range();
        }
        &self.contents[self.head]
    }

    /// Get a mutable reference to the element `index` places after the head.
    pub fn get_mut(&mut self, index: usize) -> (element: &mut T)
        requires
            old(self).wf(),
            old(self).slots().len() > 0,
        ensures
            *element == old(self).spec_get(index as int),
            final(self).wf(),
            final(self).head_position() == old(self).head_position(),
            final(self).slots() == old(self).slots().update(
                ring_position(
                    old(self).head_position(),
                    index as int,
                    old(self).slots().len() as int,
                ),
                *final(element),
            ),
    {
        let position: usize = position_after(self.head, index, self.len);
        &mut self.contents[position]
    }

    /// Get an immutable reference to the element `index` places after the head.
    pub fn get(&self, index: usize) -> (element: &T)
        requires
            self.wf(),
            self.slots().len() > 0,
        ensures
            *element == self.spec_get(index as int),
    {
        let position: usize = position_after(self.head, index, self.len);
        &self.contents[position]
    }

    /// Advance the head forward by one place, wrapping at the end.
    pub fn advance(&mut self)
        requires
            old(self).wf(),
            old(self).slots().len() > 0,
        ensures
            final(self).wf(),
            final(self).slots() == old(self).slots(),
            final(self).head_position() == ring_position(
                old(self).head_position(),
                1,
                old(self).slots().len() as int,
            ),
    {
        self.head = position_after(self.head, 1, self.len);
    }

    /// Replace the value at the head and return the one that was there.
    pub fn replace(&mut self, new_value: T) -> (previous: T)
        requires
            old(self).wf(),
            old(self).slots().len() > 0,
        ensures
            final(self).wf(),
            previous == old(self).spec_get(0),
            final(self).head_position() == old(self).head_position(),
            final(self).slots() == old(self).slots().update(old(self).head_position(), new_value),
            final(self).spec_get(0) == new_value,
    {
        proof {
            self.lemma_head_in_range();
        }
        let mut value = new_value;
        self.contents.set_and_swap(self.head, &mut value);
        proof {
            self.lemma_head_in_range();
        }
        value
    }

    /// Cursor that runs forward starting at the `head`, inclusive.
    pub fn iter(&self) -> (iter: CircularVecIter<'_, T>)
        requires
            self.wf(),
        ensures
            iter.wf(),
            iter.items() == self.forward(),
            iter.position() == 0,
    {
        CircularVecIter { vec: self, direction: Direction::Forward, index: 0 }
    }

    /// Cursor that runs in reverse: it starts just before the `head` and
    /// ends at the `head`.
    pub fn iter_rev(&self) -> (iter: CircularVecIter<'_, T>)
        requires
            self.wf(),
        ensures
            iter.wf(),
            iter.items() == self.backward(),
            iter.position() == 0,
    {
        CircularVecIter { vec: self, direction: Direction::Reverse, index: 0 }
    }
}

/// The way a cursor walks the ring.
enum Direction {
    Forward,
    Reverse,
}

/// A cursor over all elements of a ring, starting at its head.
pub struct CircularVecIter<'vec, T: Clone + Sized> {
    vec: &'vec CircularVec<T>,
    direction: Direction,
    index: usize,
}

impl<'vec, T: Clone + Sized> CircularVecIter<'vec, T> {
    /// All elements in the order in which the cursor produces them.
    pub closed spec fn items(&self) -> Seq<T> {
        match self.direction {
            Direction::Forward => self.vec.forward(),
            Direction::Reverse => self.vec.backward(),
        }
    }

    /// How many elements the cursor has produced.
    pub closed spec fn position(&self) -> int {
        self.index as int
    }

    /// The cursor walks a well-formed ring and has not run past its end.
    pub closed spec fn wf(&self) -> bool {
        &&& self.vec.wf()
        &&& self.index <= self.vec.len
    }

    /// The next element, or `None` once every element has been produced.
    pub fn next(&mut self) -> (item: Option<&'vec T>)
        requires
            old(self).wf(),
        ensures
            final(self).wf(),
            final(self).items() == old(self).items(),
            old(self).position() < old(self).items().len() ==> {
                &&& final(self).position() == old(self).position() + 1
                &&& item.is_some()
                &&& *item.unwrap() == old(self).items()[old(self).position()]
            },
            old(self).position() >= old(self).items().len() ==> {
                &&& final(self).position() == old(self).position()
                &&& item.is_none()
            },
    {
        let len: usize = self.vec.len;
        if self.index == len {
            None
        } else {
            let iter_head: usize = match self.direction {
                Direction::Forward => position_after(self.vec.head, self.index, len),
                Direction::Reverse => position_before(self.vec.head, self.index + 1, len),
            };
            let item = &self.vec.contents[iter_head];
            self.index += 1;
            Some(item)
        }
    }
}

} // verus!
