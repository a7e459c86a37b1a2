//! The read-only cursor.

use vstd::prelude::*;
use crate::position::{element_at, in_bounds, is_valid, next_position, prev_position};

verus! {

/// A position over a shared borrow of a vector.
#[derive(Debug)]
pub struct Cursor<'a, T: 'a> {
    index: usize,
    vec: &'a Vec<T>,
}

impl<'a, T> Cursor<'a, T> {
    /// The elements of the borrowed vector.
    pub closed spec fn elements(&self) -> Seq<T> {
        self.vec@
    }

    /// The raw position: an index of `elements()`, or its length at the ghost.
    pub closed spec fn position(&self) -> nat {
        self.index as nat
    }

    /// The position is valid or the ghost.
    pub open spec fn wf(&self) -> bool {
        in_bounds(self.elements().len(), self.position())
    }

    /// A cursor over `vec` that starts at `index`.
    pub fn new(vec: &'a Vec<T>, index: usize) -> (cursor: Self)
        requires
            index <= vec@.len(),
        ensures
            cursor.wf(),
            cursor.elements() == vec@,
            cursor.position() == index,
    {
        Cursor { index, vec }
    }

    /// Tells whether the position is valid.
    fn check_current(&self) -> (valid: Option<()>)
        ensures
            valid.is_some() <==> is_valid(self.elements().len(), self.position()),
            self.elements().len() <= usize::MAX,
    {
        if self.index < self.vec.len() {
            Some(())
        } else {
            None
        }
    }

    /// The position as an index, if it is valid.
    pub fn index(&self) -> (index: Option<usize>)
        ensures
            index == if is_valid(self.elements().len(), self.position()) {
                Some(self.position() as usize)
            } else {
                None
            },
    {
        match self.check_current() {
            Some(_) => Some(self.index),
            None => None,
        }
    }

    /// Steps forward: from the ghost to the front, from the last element to
    /// the ghost.
    pub fn move_next(&mut self)
        requires
            old(self).wf(),
        ensures
            final(self).wf(),
            final(self).elements() == old(self).elements(),
            final(self).position() == next_position(
                old(self).elements().len(),
                old(self).position(),
            ),
    {
        match self.check_current() {
            None => {
                self.index = 0;
            },
            Some(_) => {
                self.index += 1;
            },
        }
    }

    /// Steps backward: from the front to the ghost, from the ghost to the
    /// last element.
    pub fn move_prev(&mut self)
        requires
            old(self).wf(),
        ensures
            final(self).wf(),
            final(self).elements() == old(self).elements(),
            final(self).position() == prev_position(
                old(self).elements().len(),
                old(self).position(),
            ),
    {
        if self.index > 0 {
            self.index -= 1;
        } else {
            self.index = self.vec.len();
        }
    }

    /// The current element, if the position is valid.
    pub fn current(&self) -> (item: Option<&'a T>)
        ensures
            match item {
                Some(r) => Some(*r),
                None => None,
            } == element_at(self.elements(), self.position()),
    {
        match self.check_current() {
            Some(_) => Some(&self.vec[self.index]),
            None => None,
        }
    }

    /// The element one step forward, if that step lands on one.
    pub fn peek_next(&self) -> (item: Option<&'a T>)
        requires
            self.wf(),
        ensures
            match item {
                Some(r) => Some(*r),
                None => None,
            } == element_at(
                self.elements(),
                next_position(self.elements().len(), self.position()),
            ),
    {
        let next_index: usize = match self.check_current() {
            None => 0,
            Some(_) => self.index + 1,
        };
        if next_index < self.vec.len() {
            Some(&self.vec[next_index])
        } else {
            None
        }
    }

    /// The element one step backward, if that step lands on one. The cursor
    /// itself stays as it is.
    pub fn peek_prev(&mut self) -> (item: Option<&'a T>)
        requires
            old(self).wf(),
        ensures
            final(self).wf(),
            *final(self) == *old(self),
            match item {
                Some(r) => Some(*r),
                None => None,
            } == element_at(
                old(self).elements(),
                prev_position(old(self).elements().len(), old(self).position()),
            ),
    {
        if self.index > 0 {
            Some(&self.vec[self.index - 1])
        } else {
            None
        }
    }
}

} // verus!
