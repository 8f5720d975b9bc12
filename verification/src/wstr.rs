//! Reading a wide string: 16-bit units up to a terminating zero.

use vstd::prelude::*;
use crate::units::{lemma_run_end_bounds, run_end, NUL};

verus! {

/// The units of `buffer` from index `i` up to the first zero unit, or up to
/// the end of `buffer` if none follows.
pub open spec fn units_before_nul(buffer: Seq<u16>, i: int) -> Seq<u16> {
    buffer.subrange(i, run_end(buffer, i, |w: u16| w != NUL))
}

/// The units before the first zero unit hold no zero unit, and the unit
/// after them, if there is one, is a zero unit.
pub proof fn lemma_units_before_nul(buffer: Seq<u16>, i: int)
    requires
        0 <= i <= buffer.len(),
    ensures
        units_before_nul(buffer, i).len() <= buffer.len() - i,
        !units_before_nul(buffer, i).contains(NUL),
        i + units_before_nul(buffer, i).len() < buffer.len() ==> buffer[i + units_before_nul(
            buffer,
            i,
        ).len()] == NUL,
{
    lemma_run_end_bounds(buffer, i, |w: u16| w != NUL);
}

/// A cursor over the units of a wide string.
///
/// The string ends at the first zero unit of the buffer; a buffer that
/// holds no zero unit ends the string where it ends itself. The cursor never
/// moves past the end of the string.
pub struct WStrUnits<'a> {
    lpwstr: &'a [u16],
    index: usize,
}

impl<'a> View for WStrUnits<'a> {
    type V = Seq<u16>;

    /// The units that the cursor has not passed yet.
    open spec fn view(&self) -> Seq<u16> {
        units_before_nul(self.buffer(), self.position())
    }
}

impl<'a> WStrUnits<'a> {
    /// The buffer that holds the string.
    pub closed spec fn buffer(&self) -> Seq<u16> {
        self.lpwstr@
    }

    /// The number of units that the cursor has passed.
    pub closed spec fn position(&self) -> int {
        self.index as int
    }

    #[verifier::type_invariant]
    spec fn inside(&self) -> bool {
        self.index <= self.lpwstr@.len()
    }

    /// A cursor at the start of the string that `lpwstr` holds.
    pub fn new(lpwstr: &'a [u16]) -> (units: Self)
        ensures
            units.buffer() == lpwstr@,
            units.position() == 0,
    {
        Self { lpwstr, index: 0 }
    }

    /// The unit under the cursor, if the string has not ended.
    pub fn peek(&self) -> (unit: Option<u16>)
        ensures
            unit == if self@.len() > 0 {
                Some(self@[0])
            } else {
                None
            },
            unit != Some(NUL),
            unit is Some ==> self.position() < self.buffer().len(),
    {
        proof {
            use_type_invariant(self);
            lemma_run_end_bounds(self.lpwstr@, self.index as int, |w: u16| w != NUL);
        }
        if self.index < self.lpwstr.len() && self.lpwstr[self.index] != NUL {
            Some(self.lpwstr[self.index])
        } else {
            None
        }
    }

    /// Moves the cursor on while `predicate` accepts the unit under it, and
    /// returns the number of units passed.
    pub fn advance_while<P: Fn(u16) -> bool>(&mut self, predicate: P) -> (counter: usize)
        requires
            forall|w: u16| w != NUL ==> predicate.requires((w,)),
        ensures
            final(self).buffer() == old(self).buffer(),
            final(self).position() == old(self).position() + counter,
            counter <= old(self)@.len(),
            final(self)@ == old(self)@.skip(counter as int),
            forall|k: int|
                0 <= k < counter ==> predicate.ensures((#[trigger] old(self)@[k],), true),
            counter < old(self)@.len() ==> predicate.ensures((old(self)@[counter as int],), false),
    {
        let mut counter: usize = 0;
        proof {
            use_type_invariant(&*self);
            assert(self.lpwstr.len() == self.lpwstr@.len());
            lemma_units_before_nul(self.buffer(), self.position());
        }
        loop
            invariant
                old(self)@.len() <= usize::MAX,
                self.buffer() == old(self).buffer(),
                self.position() == old(self).position() + counter,
                counter <= old(self)@.len(),
                self@ == old(self)@.skip(counter as int),
                forall|w: u16| w != NUL ==> predicate.requires((w,)),
                forall|k: int|
                    0 <= k < counter ==> predicate.ensures((#[trigger] old(self)@[k],), true),
            ensures
                self.buffer() == old(self).buffer(),
                self.position() == old(self).position() + counter,
                counter <= old(self)@.len(),
                self@ == old(self)@.skip(counter as int),
                forall|k: int|
                    0 <= k < counter ==> predicate.ensures((#[trigger] old(self)@[k],), true),
                counter < old(self)@.len() ==> predicate.ensures(
                    (old(self)@[counter as int],),
                    false,
                ),
            decreases self.buffer().len() - self.position(),
        {
            match self.peek() {
                None => {
                    break ;
                },
                Some(w) => {
                    if !predicate(w) {
                        break ;
                    }
                    counter += 1;
                    self.next();
                },
            }
        }
        counter
    }

    /// The unit under the cursor, which then moves past it. At the end of
    /// the string the cursor stays where it is.
    pub fn next(&mut self) -> (unit: Option<u16>)
        ensures
            unit == if old(self)@.len() > 0 {
                Some(old(self)@[0])
            } else {
                None
            },
            unit != Some(NUL),
            final(self).buffer() == old(self).buffer(),
            final(self).position() == old(self).position() + if unit is Some {
                1int
            } else {
                0int
            },
            final(self)@ == if unit is Some {
                old(self)@.skip(1)
            } else {
                old(self)@
            },
    {
        proof {
            use_type_invariant(&*self);
            assert(self.lpwstr.len() == self.lpwstr@.len());
            lemma_run_end_bounds(self.lpwstr@, self.index as int, |w: u16| w != NUL);
        }
        let next = self.peek();
        if next.is_some() {
            self.index += 1;
        }
        next
    }
}

} // verus!
