//! The read-write cursor.

use vstd::prelude::*;
use crate::cursor::Cursor;
use crate::position::{
    element_at, head_before, in_bounds, is_valid, next_position, prev_position, slot_after,
    lemma_splice_nothing, slot_before, spliced, tail_from,
};

verus! {

/// A position over an exclusive borrow of a vector.
///
/// The fields are public so that a contract can speak of the vector that the
/// lender gets back when the borrow ends: every method leaves that hand-over
/// in place, and says so.
#[derive(Debug)]
pub struct CursorMut<'a, T: 'a> {
    pub index: usize,
    pub vec: &'a mut Vec<T>,
}

impl<'a, T> CursorMut<'a, T> {
    /// The elements of the borrowed vector.
    pub open spec fn elements(&self) -> Seq<T> {
        self.vec@
    }

    /// The raw position: an index of `elements()`, or its length at the ghost.
    pub open spec fn position(&self) -> nat {
        self.index as nat
    }

    /// The position is valid or the ghost.
    pub open spec fn wf(&self) -> bool {
        in_bounds(self.elements().len(), self.position())
    }

    /// A cursor over `vec` that starts at `index`.
    pub fn new(vec: &'a mut Vec<T>, index: usize) -> (cursor: Self)
        requires
            index <= old(vec)@.len(),
        ensures
            cursor.wf(),
            cursor.elements() == old(vec)@,
            cursor.position() == index,
            *final(cursor.vec) == *final(vec),
    {
        CursorMut { index, vec }
    }

    /// Tells whether the position is valid.
    fn check_current(&self) -> (valid: Option<()>)
        ensures
            valid.is_some() <==> is_valid(self.elements().len(), self.position()),
            self.elements().len() <= usize::MAX,
    {
        if self.index < self.vec.len() {
            Some(())
        } else {
            None
        }
    }

    /// The position as an index, if it is valid.
    pub fn index(&self) -> (index: Option<usize>)
        ensures
            index == if is_valid(self.elements().len(), self.position()) {
                Some(self.position() as usize)
            } else {
                None
            },
    {
        match self.check_current() {
            Some(_) => Some(self.index),
            None => None,
        }
    }

    /// Steps forward: from the ghost to the front, from the last element to
    /// the ghost.
    pub fn move_next(&mut self)
        requires
            old(self).wf(),
        ensures
            final(self).wf(),
            *final(final(self).vec) == *final(old(self).vec),
            final(self).elements() == old(self).elements(),
            final(self).position() == next_position(
                old(self).elements().len(),
                old(self).position(),
            ),
    {
        match self.check_current() {
            None => {
                self.index = 0;
            },
            Some(_) => {
                self.index += 1;
            },
        }
    }

    /// Steps backward: from the front to the ghost, from the ghost to the
    /// last element.
    pub fn move_prev(&mut self)
        requires
            old(self).wf(),
        ensures
            final(self).wf(),
            *final(final(self).vec) == *final(old(self).vec),
            final(self).elements() == old(self).elements(),
            final(self).position() == prev_position(
                old(self).elements().len(),
                old(self).position(),
            ),
    {
        if self.index > 0 {
            self.index -= 1;
        } else {
            self.index = self.vec.len();
        }
    }

    /// The current element, if the position is valid. What the caller writes
    /// through the reference is what the cursor then holds at that position.
    pub fn current(&mut self) -> (item: Option<&mut T>)
        ensures
            old(self).wf() ==> final(self).wf(),
            final(self).position() == old(self).position(),
            *final(final(self).vec) == *final(old(self).vec),
            match item {
                Some(r) => {
                    &&& is_valid(old(self).elements().len(), old(self).position())
                    &&& *r == old(self).elements()[old(self).position() as int]
                    &&& final(self).elements() == old(self).elements().update(
                        old(self).position() as int,
                        *final(r),
                    )
                },
                None => {
                    &&& !is_valid(old(self).elements().len(), old(self).position())
                    &&& final(self).elements() == old(self).elements()
                },
            },
    {
        match self.check_current() {
            Some(_) => Some(&mut self.vec[self.index]),
            None => None,
        }
    }

    /// The element one step forward, if that step lands on one. What the
    /// caller writes through the reference is what the cursor then holds there.
    pub fn peek_next(&mut self) -> (item: Option<&mut T>)
        requires
            old(self).wf(),
        ensures
            final(self).wf(),
            final(self).position() == old(self).position(),
            *final(final(self).vec) == *final(old(self).vec),
            match item {
                Some(r) => {
                    let next = next_position(old(self).elements().len(), old(self).position());
                    &&& is_valid(old(self).elements().len(), next)
                    &&& *r == old(self).elements()[next as int]
                    &&& final(self).elements() == old(self).elements().update(
                        next as int,
                        *final(r),
                    )
                },
                None => {
                    &&& !is_valid(
                        old(self).elements().len(),
                        next_position(old(self).elements().len(), old(self).position()),
                    )
                    &&& final(self).elements() == old(self).elements()
                },
            },
    {
        let next_index: usize = match self.check_current() {
            None => 0,
            Some(_) => self.index + 1,
        };
        if next_index < self.vec.len() {
            Some(&mut self.vec[next_index])
        } else {
            None
        }
    }

    /// The element one step backward, if that step lands on one. What the
    /// caller writes through the reference is what the cursor then holds there.
    pub fn peek_prev(&mut self) -> (item: Option<&mut T>)
        requires
            old(self).wf(),
        ensures
            final(self).wf(),
            final(self).position() == old(self).position(),
            *final(final(self).vec) == *final(old(self).vec),
            match item {
                Some(r) => {
                    let prev = prev_position(old(self).elements().len(), old(self).position());
                    &&& is_valid(old(self).elements().len(), prev)
                    &&& *r == old(self).elements()[prev as int]
                    &&& final(self).elements() == old(self).elements().update(
                        prev as int,
                        *final(r),
                    )
                },
                None => {
                    &&& !is_valid(
                        old(self).elements().len(),
                        prev_position(old(self).elements().len(), old(self).position()),
                    )
                    &&& final(self).elements() == old(self).elements()
                },
            },
    {
        if self.index > 0 {
            Some(&mut self.vec[self.index - 1])
        } else {
            None
        }
    }

    /// A read-only cursor over the same elements at the same position.
    pub fn as_cursor<'cm>(&'cm self) -> (cursor: Cursor<'cm, T>)
        requires
            self.wf(),
        ensures
            cursor.wf(),
            cursor.elements() == self.elements(),
            cursor.position() == self.position(),
    {
        Cursor::new(&*self.vec, self.index)
    }

    /// Places `item` right after the current element, or at the front when
    /// the cursor is at the ghost. The cursor stays where it was: on the same
    /// element, or at the ghost.
    pub fn insert_after(&mut self, item: T)
        requires
            old(self).wf(),
        ensures
            final(self).wf(),
            *final(final(self).vec) == *final(old(self).vec),
            final(self).elements() == old(self).elements().insert(
                slot_after(old(self).elements().len(), old(self).position()) as int,
                item,
            ),
            final(self).position() == if is_valid(
                old(self).elements().len(),
                old(self).position(),
            ) {
                old(self).position()
            } else {
                old(self).elements().len() + 1
            },
    {
        let (next_index, need_reset): (usize, bool) = match self.check_current() {
            None => (0, true),
            Some(_) => (self.index + 1, false),
        };
        self.vec.insert(next_index, item);
        if need_reset {
            self.index = self.vec.len()
        }
    }

    /// Places `item` at the slot one below the cursor's, or at the front when
    /// the cursor's slot is 0. The cursor moves one slot up, so it still points
    /// at the same element, or at the ghost.
    pub fn insert_before(&mut self, item: T)
        requires
            old(self).wf(),
        ensures
            final(self).wf(),
            *final(final(self).vec) == *final(old(self).vec),
            final(self).elements() == old(self).elements().insert(
                slot_before(old(self).position()) as int,
                item,
            ),
            final(self).position() == old(self).position() + 1,
    {
        let prev_index: usize = if self.index > 0 {
            self.index - 1
        } else {
            0
        };
        self.vec.insert(prev_index, item);
        proof {
            assert(self.vec@.len() == self.vec.len());
        }
        self.index += 1;
    }

    /// Takes the current element out, if the position is valid. The position
    /// keeps its number, so it then denotes what followed the element, or the
    /// ghost.
    pub fn remove_current(&mut self) -> (item: Option<T>)
        requires
            old(self).wf(),
        ensures
            final(self).wf(),
            *final(final(self).vec) == *final(old(self).vec),
            final(self).position() == old(self).position(),
            item == element_at(old(self).elements(), old(self).position()),
            final(self).elements() == if is_valid(
                old(self).elements().len(),
                old(self).position(),
            ) {
                old(self).elements().remove(old(self).position() as int)
            } else {
                old(self).elements()
            },
    {
        match self.check_current() {
            Some(_) => Some(self.vec.remove(self.index)),
            None => None,
        }
    }

    /// Places all of `items`, in order, right after the current element, or
    /// at the front when the cursor is at the ghost. The cursor stays where it
    /// was: on the same element, or at the ghost.
    pub fn splice_after(&mut self, items: Vec<T>)
        requires
            old(self).wf(),
        ensures
            final(self).wf(),
            *final(final(self).vec) == *final(old(self).vec),
            final(self).elements() == spliced(
                old(self).elements(),
                slot_after(old(self).elements().len(), old(self).position()),
                items@,
            ),
            final(self).position() == if is_valid(
                old(self).elements().len(),
                old(self).position(),
            ) {
                old(self).position()
            } else {
                old(self).elements().len() + items@.len()
            },
            items@.len() == 0 ==> final(self).elements() == old(self).elements()
                && final(self).position() == old(self).position(),
    {
        if items.is_empty() {
            proof {
                lemma_splice_nothing(self.vec@, slot_after(self.vec@.len(), self.index as nat));
            }
            return ;
        }
        let (next_index, need_reset): (usize, bool) = match self.check_current() {
            None => (0, true),
            Some(_) => (self.index + 1, false),
        };
        self.splice_at(next_index, items);
        if need_reset {
            self.index = self.vec.len()
        }
    }

    /// Places all of `items`, in order, at the cursor's slot. The cursor moves
    /// up by their number with what it pointed at.
    pub fn splice_before(&mut self, items: Vec<T>)
        requires
            old(self).wf(),
        ensures
            final(self).wf(),
            *final(final(self).vec) == *final(old(self).vec),
            final(self).elements() == spliced(
                old(self).elements(),
                old(self).position(),
                items@,
            ),
            final(self).position() == old(self).position() + items@.len(),
            items@.len() == 0 ==> final(self).elements() == old(self).elements()
                && final(self).position() == old(self).position(),
    {
        if items.is_empty() {
            proof {
                lemma_splice_nothing(self.vec@, self.index as nat);
            }
            return ;
        }
        let splice_len: usize = items.len();
        let current_index: usize = self.index;
        self.splice_at(current_index, items);
        proof {
            assert(self.vec@.len() == self.vec.len());
        }
        self.index += splice_len;
    }

    /// Places all of `items` at slot `at` and leaves the position alone.
    fn splice_at(&mut self, at: usize, items: Vec<T>)
        requires
            at <= old(self).elements().len(),
        ensures
            *final(final(self).vec) == *final(old(self).vec),
            final(self).index == old(self).index,
            final(self).elements() == spliced(old(self).elements(), at as nat, items@),
            final(self).elements().len() == old(self).elements().len() + items@.len(),
    {
        let mut items = items;
        let mut tail = self.vec.split_off(at);
        self.vec.append(&mut items);
        self.vec.append(&mut tail);
    }

    /// Takes out and returns everything after the current element, or
    /// everything when the cursor is at the ghost. The cursor stays where it
    /// was: on the same element, now the last, or at the ghost.
    pub fn split_after(&mut self) -> (tail: Vec<T>)
        requires
            old(self).wf(),
        ensures
            final(self).wf(),
            *final(final(self).vec) == *final(old(self).vec),
            tail@ == tail_from(
                old(self).elements(),
                slot_after(old(self).elements().len(), old(self).position()),
            ),
            final(self).elements() == head_before(
                old(self).elements(),
                slot_after(old(self).elements().len(), old(self).position()),
            ),
            final(self).position() == if is_valid(
                old(self).elements().len(),
                old(self).position(),
            ) {
                old(self).position()
            } else {
                0
            },
    {
        let (next_index, need_reset): (usize, bool) = match self.check_current() {
            None => (0, true),
            Some(_) => (self.index + 1, false),
        };
        let result = self.vec.split_off(next_index);
        if need_reset {
            self.index = self.vec.len()
        }
        result
    }

    /// Returns everything before the cursor's slot and keeps the rest. The
    /// cursor ends at the front, on what it pointed at, or at the ghost of an
    /// empty vector.
    pub fn split_before(&mut self) -> (head: Vec<T>)
        requires
            old(self).wf(),
        ensures
            final(self).wf(),
            *final(final(self).vec) == *final(old(self).vec),
            head@ == head_before(old(self).elements(), old(self).position()),
            final(self).elements() == tail_from(old(self).elements(), old(self).position()),
            final(self).position() == 0,
    {
        let mut result = self.vec.split_off(self.index);
        self.index = 0;
        std::mem::swap(self.vec, &mut result);
        result
    }
}

} // verus!
