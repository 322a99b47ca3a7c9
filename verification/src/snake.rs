//! The snake: an ordered body history, a heading, and the per-tick movement
//! and growth rules.

use vstd::prelude::*;

use crate::direction::Direction;

verus! {

/// A snake on the grid.
///
/// `body` lists the segments from oldest (tail) to newest (head), so its last
/// element is always `head_pos`. `grow` is a one-shot flag: the next call of
/// [`Snake::walk`] lengthens the body instead of sliding it, and clears the
/// flag.
pub struct Snake {
    pub body: Vec<(u16, u16)>,
    pub direction: Direction,
    pub next_direction: Direction,
    pub head_pos: (u16, u16),
    pub alive: bool,
    pub grow: bool,
}

impl Snake {
    /// Well-formedness: the body is never empty and its most recent segment
    /// is the head.
    pub open spec fn wf(self) -> bool {
        self.body@.len() > 0 && self.body@.last() == self.head_pos
    }

    /// x coordinate one step ahead of the head, along the current heading.
    pub open spec fn next_x(self) -> int {
        self.head_pos.0 + self.direction.dx()
    }

    /// y coordinate one step ahead of the head, along the current heading.
    pub open spec fn next_y(self) -> int {
        self.head_pos.1 + self.direction.dy()
    }

    /// The position one step ahead is representable in grid coordinates:
    /// no underflow below zero and no overflow above `u16::MAX`.
    pub open spec fn next_pos_in_range(self) -> bool {
        0 <= self.next_x() <= u16::MAX && 0 <= self.next_y() <= u16::MAX
    }

    /// The position one step ahead coincides with a body segment other than
    /// the oldest one.
    ///
    /// The oldest segment is exempt because it is about to be vacated by the
    /// same tick's slide. Deliberately, the exemption also holds on a growth
    /// tick, when that segment is in fact retained: running onto the tail
    /// cell of a snake that is about to grow does not count as death.
    pub open spec fn hits_self(self) -> bool {
        exists|i: int|
            1 <= i < self.body@.len() && self.body@[i].0 == self.next_x() && self.body@[i].1
                == self.next_y()
    }

    /// The state of a snake as [`Snake::new`] returns it: a single segment at
    /// `pos`, heading right, alive, with no growth pending.
    pub open spec fn is_spawn(self, pos: (u16, u16)) -> bool {
        &&& self.body@ == seq![pos]
        &&& self.direction == Direction::Right
        &&& self.next_direction == Direction::Right
        &&& self.head_pos == pos
        &&& self.alive == true
        &&& self.grow == false
    }

    /// A fresh snake: one segment at `pos`, heading right.
    pub fn new(pos: (u16, u16)) -> (s: Snake)
        ensures
            s.is_spawn(pos),
            s.wf(),
    {
        let s = Snake {
            body: vec![(pos.0, pos.1)],
            direction: Direction::Right,
            next_direction: Direction::Right,
            head_pos: (pos.0, pos.1),
            alive: true,
            grow: false,
        };
        proof {
            assert(s.body@ =~= seq![pos]);
        }
        s
    }

    /// The position one step ahead of the head along the current heading.
    ///
    /// The caller must have ruled out coordinate underflow and overflow: a
    /// move outside the representable range indicates a bypassed boundary
    /// check, not an ordinary game-over.
    pub fn next_pos(&self) -> (r: (u16, u16))
        requires
            self.next_pos_in_range(),
        ensures
            r.0 == self.next_x(),
            r.1 == self.next_y(),
    {
        let (dx, dy) = self.direction.value();

        let x = (self.head_pos.0 as i32 + dx) as u16;
        let y = (self.head_pos.1 as i32 + dy) as u16;

        (x, y)
    }

    /// Advance the head one step along the current heading.
    ///
    /// When growth is pending the new head is appended and every old segment
    /// is kept, so the body lengthens by exactly one; otherwise the oldest
    /// segment is removed and the new head appended, a left rotation that
    /// keeps the length invariant. Either way the one-shot growth flag ends
    /// up cleared.
    pub fn walk(&mut self)
        requires
            old(self).wf(),
            old(self).next_pos_in_range(),
        ensures
            final(self).wf(),
            final(self).head_pos.0 == old(self).next_x(),
            final(self).head_pos.1 == old(self).next_y(),
            final(self).direction == old(self).direction,
            final(self).next_direction == old(self).next_direction,
            final(self).alive == old(self).alive,
            final(self).grow == false,
            old(self).grow ==> final(self).body@ == old(self).body@.push(final(self).head_pos),
            old(self).grow ==> final(self).body@.len() == old(self).body@.len() + 1,
            !old(self).grow ==> final(self).body@ == old(self).body@.subrange(
                1,
                old(self).body@.len() as int,
            ).push(final(self).head_pos),
            !old(self).grow ==> final(self).body@.len() == old(self).body@.len(),
    {
        self.head_pos = self.next_pos();

        if self.grow {
            self.grow = false;
            self.body.push(self.head_pos);
        } else {
            let ghost before = self.body@;
            self.body.remove(0);
            self.body.push(self.head_pos);
            proof {
                assert(self.body@ =~= before.subrange(1, before.len() as int).push(
                    self.head_pos,
                ));
            }
        }
    }

    /// Mark one pending growth unit; the next [`Snake::walk`] consumes it.
    pub fn eat(&mut self)
        ensures
            *final(self) == (Snake { grow: true, ..*old(self) }),
    {
        self.grow = true;
    }

    /// True iff the position one step ahead coincides with a body segment
    /// other than the oldest one.
    pub fn self_collision(&self) -> (r: bool)
        requires
            self.next_pos_in_range(),
        ensures
            r == self.hits_self(),
    {
        let next_pos = self.next_pos();

        let mut i: usize = 1;
        while i < self.body.len()
            invariant
                1 <= i,
                next_pos.0 == self.next_x(),
                next_pos.1 == self.next_y(),
                forall|j: int|
                    1 <= j < i ==> !(self.body@[j].0 == self.next_x() && self.body@[j].1
                        == self.next_y()),
            decreases self.body@.len() - i,
        {
            if next_pos.0 == self.body[i].0 && next_pos.1 == self.body[i].1 {
                return true;
            }
            i = i + 1;
        }

        false
    }
}

} // verus!
