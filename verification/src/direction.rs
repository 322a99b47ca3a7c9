//! The four axis-aligned headings and the legality relation between them.

use vstd::prelude::*;

verus! {

/// One of the four axis-aligned headings of the snake.
#[derive(Clone, Copy, Debug, PartialEq, Eq, Structural)]
pub enum Direction {
    Up,
    Down,
    Left,
    Right,
}

impl Direction {
    /// Horizontal component of the unit displacement of this heading.
    pub open spec fn dx(self) -> int {
        match self {
            Direction::Up => 0,
            Direction::Down => 0,
            Direction::Left => -1,
            Direction::Right => 1,
        }
    }

    /// Vertical component of the unit displacement of this heading.
    /// The y axis grows downward, so `Up` decreases y.
    pub open spec fn dy(self) -> int {
        match self {
            Direction::Up => -1,
            Direction::Down => 1,
            Direction::Left => 0,
            Direction::Right => 0,
        }
    }

    /// True of the two headings that move along the y axis.
    pub open spec fn vertical(self) -> bool {
        self == Direction::Up || self == Direction::Down
    }

    /// The heading that points the opposite way.
    pub open spec fn opposite(self) -> Direction {
        match self {
            Direction::Up => Direction::Down,
            Direction::Down => Direction::Up,
            Direction::Left => Direction::Right,
            Direction::Right => Direction::Left,
        }
    }

    /// The legality relation on heading changes: from `self`, exactly the two
    /// headings orthogonal to it may be taken next. A same-axis candidate,
    /// the current heading itself included, is rejected.
    pub open spec fn legal_next(self, candidate: Direction) -> bool {
        self.vertical() != candidate.vertical()
    }

    /// The unit displacement of this heading as `(dx, dy)`.
    pub fn value(&self) -> (r: (i32, i32))
        ensures
            r.0 == self.dx(),
            r.1 == self.dy(),
    {
        match self {
            Direction::Up => (0, -1),
            Direction::Down => (0, 1),
            Direction::Left => (-1, 0),
            Direction::Right => (1, 0),
        }
    }

    /// The two headings that may legally follow `self`, in a fixed order.
    /// The parameter is accepted and ignored: the legal-next set depends on
    /// the receiver alone.
    pub fn get_valid_direction(&self, _current: Direction) -> (r: Vec<Direction>)
        ensures
            self.vertical() ==> r@ == seq![Direction::Left, Direction::Right],
            !self.vertical() ==> r@ == seq![Direction::Up, Direction::Down],
            r@.len() == 2,
            forall|d: Direction| self.legal_next(d) <==> (r@[0] == d || r@[1] == d),
    {
        match self {
            Direction::Up | Direction::Down => vec![Direction::Left, Direction::Right],
            Direction::Left | Direction::Right => vec![Direction::Up, Direction::Down],
        }
    }

    /// True iff `direction` may legally follow `self`.
    pub fn is_valid_direction(&self, direction: Direction) -> (r: bool)
        ensures
            r == self.legal_next(direction),
    {
        let valid = self.get_valid_direction(*self);
        valid[0] == direction || valid[1] == direction
    }
}

/// The legality relation admits, from any heading, exactly the two headings
/// of the other axis: it is symmetric, invariant within each axis pair, and
/// rejects both the current heading itself and its direct reversal.
pub proof fn lemma_legal_next_orthogonal(c: Direction, d: Direction)
    ensures
        c.legal_next(d) <==> c.vertical() != d.vertical(),
        c.legal_next(d) == d.legal_next(c),
        c.legal_next(d) == c.opposite().legal_next(d),
        !c.legal_next(c),
        !c.legal_next(c.opposite()),
{
}

} // verus!
