//! Headings, the keys that select them, and the rule that turns the snake.

use vstd::prelude::*;

verus! {

/// The key that turns the snake upwards.
pub const KEY_UP: char = 'w';

/// The key that turns the snake to the left.
pub const KEY_LEFT: char = 'a';

/// The key that turns the snake downwards.
pub const KEY_DOWN: char = 's';

/// The key that turns the snake to the right.
pub const KEY_RIGHT: char = 'd';

/// One of the four headings on the grid.
#[derive(Clone, Copy, Debug, PartialEq, Eq, Structural)]
pub enum Direction {
    Up,
    Down,
    Left,
    Right,
}

impl Direction {
    /// The heading that points the other way.
    pub open spec fn spec_opposite(self) -> Direction {
        match self {
            Direction::Up => Direction::Down,
            Direction::Down => Direction::Up,
            Direction::Left => Direction::Right,
            Direction::Right => Direction::Left,
        }
    }

    /// The heading that points the other way.
    #[verifier::when_used_as_spec(spec_opposite)]
    pub fn opposite(self) -> (d: Direction)
        ensures
            d == self.spec_opposite(),
    {
        match self {
            Direction::Up => Direction::Down,
            Direction::Down => Direction::Up,
            Direction::Left => Direction::Right,
            Direction::Right => Direction::Left,
        }
    }

    /// Whether `self` and `other` point in exactly opposite ways.
    pub open spec fn spec_is_opposite_of(self, other: Direction) -> bool {
        self == other.spec_opposite()
    }

    /// Whether `self` and `other` point in exactly opposite ways.
    #[verifier::when_used_as_spec(spec_is_opposite_of)]
    pub fn is_opposite_of(self, other: Direction) -> (b: bool)
        ensures
            b == self.spec_is_opposite_of(other),
    {
        self == other.opposite()
    }

    /// The heading that a key asks for, if it is one of the four movement keys.
    pub open spec fn spec_from_key(key: char) -> Option<Direction> {
        if key == KEY_UP {
            Some(Direction::Up)
        } else if key == KEY_LEFT {
            Some(Direction::Left)
        } else if key == KEY_DOWN {
            Some(Direction::Down)
        } else if key == KEY_RIGHT {
            Some(Direction::Right)
        } else {
            None
        }
    }

    /// The heading that a key asks for, if it is one of the four movement keys.
    #[verifier::when_used_as_spec(spec_from_key)]
    pub fn from_key(key: char) -> (d: Option<Direction>)
        ensures
            d == Direction::spec_from_key(key),
    {
        if key == KEY_UP {
            Some(Direction::Up)
        } else if key == KEY_LEFT {
            Some(Direction::Left)
        } else if key == KEY_DOWN {
            Some(Direction::Down)
        } else if key == KEY_RIGHT {
            Some(Direction::Right)
        } else {
            None
        }
    }

    /// The heading after the last observed key has been taken into account:
    /// the heading the key asks for, unless there is no key, the key is no
    /// movement key, or it asks for a reversal on the spot; then `self`.
    pub open spec fn spec_resolve(self, key: Option<char>) -> Direction {
        match key {
            Some(c) => match Direction::spec_from_key(c) {
                Some(wanted) => if wanted == self.spec_opposite() {
                    self
                } else {
                    wanted
                },
                None => self,
            },
            None => self,
        }
    }

    /// Applies the last observed key to the current heading.
    #[verifier::when_used_as_spec(spec_resolve)]
    pub fn resolve(self, key: Option<char>) -> (d: Direction)
        ensures
            d == self.spec_resolve(key),
            d != self.spec_opposite(),
            key is None ==> d == self,
    {
        match key {
            Some(c) => match Direction::from_key(c) {
                Some(wanted) => if wanted.is_opposite_of(self) {
                    self
                } else {
                    wanted
                },
                None => self,
            },
            None => self,
        }
    }

    /// The cell one unit away from `cell` along this heading. The first
    /// coordinate of a cell is its column, the second its row: `Up` and `Down`
    /// change the row, `Left` and `Right` the column. Nothing stops the snake
    /// at an edge, so a coordinate at an end of the `u16` range wraps around
    /// to the other end.
    pub open spec fn spec_displace(self, cell: (u16, u16)) -> (u16, u16) {
        match self {
            Direction::Up => (cell.0, cell.1.wrapping_sub(1)),
            Direction::Down => (cell.0, cell.1.wrapping_add(1)),
            Direction::Left => (cell.0.wrapping_sub(1), cell.1),
            Direction::Right => (cell.0.wrapping_add(1), cell.1),
        }
    }

    /// The cell one unit away from `cell` along this heading.
    #[verifier::when_used_as_spec(spec_displace)]
    pub fn displace(self, cell: (u16, u16)) -> (moved: (u16, u16))
        ensures
            moved == self.spec_displace(cell),
            self == Direction::Up && cell.1 > 0 ==> moved == (cell.0, (cell.1 - 1) as u16),
            self == Direction::Down && cell.1 < u16::MAX ==> moved == (cell.0, (cell.1 + 1) as u16),
            self == Direction::Left && cell.0 > 0 ==> moved == ((cell.0 - 1) as u16, cell.1),
            self == Direction::Right && cell.0 < u16::MAX ==> moved == ((cell.0 + 1) as u16, cell.1),
    {
        match self {
            Direction::Up => (cell.0, cell.1.wrapping_sub(1)),
            Direction::Down => (cell.0, cell.1.wrapping_add(1)),
            Direction::Left => (cell.0.wrapping_sub(1), cell.1),
            Direction::Right => (cell.0.wrapping_add(1), cell.1),
        }
    }
}

impl Direction {
    /// The heading after a run of observed keys, each applied in turn to the
    /// heading the one before it left.
    pub open spec fn resolve_all(self, keys: Seq<Option<char>>) -> Direction
        decreases keys.len(),
    {
        if keys.len() == 0 {
            self
        } else {
            self.resolve_all(keys.drop_last()).spec_resolve(keys.last())
        }
    }
}

/// Turning round twice gives the heading one started with, and no heading is
/// its own opposite.
pub proof fn lemma_opposite_is_involution(d: Direction)
    ensures
        d.opposite().opposite() == d,
        d.opposite() != d,
{
}

/// No key makes the snake reverse on the spot: whatever was observed, the
/// heading after resolution is not the opposite of the heading before it.
pub proof fn lemma_resolve_never_reverses(d: Direction, key: Option<char>)
    ensures
        d.resolve(key) != d.opposite(),
        d.resolve(key) == d || Direction::from_key(key->0) == Some(d.resolve(key)),
{
}

/// Without a key, and with a key that is no movement key, the heading stays.
pub proof fn lemma_resolve_keeps_heading(d: Direction, key: Option<char>)
    requires
        key is None || Direction::from_key(key->0) is None,
    ensures
        d.resolve(key) == d,
{
}

/// A key that stays observed turns the snake once: applying it again to the
/// heading it produced changes nothing.
pub proof fn lemma_resolve_is_idempotent(d: Direction, key: Option<char>)
    ensures
        d.resolve(key).resolve(key) == d.resolve(key),
{
}

/// Along any run of observed keys, no single resolution reverses the heading
/// that the keys before it had left.
pub proof fn lemma_run_never_reverses(d: Direction, keys: Seq<Option<char>>, i: int)
    requires
        0 <= i < keys.len(),
    ensures
        d.resolve_all(keys.take(i + 1)) == d.resolve_all(keys.take(i)).resolve(keys[i]),
        d.resolve_all(keys.take(i + 1)) != d.resolve_all(keys.take(i)).opposite(),
{
    assert(keys.take(i + 1).drop_last() == keys.take(i));
    assert(keys.take(i + 1).last() == keys[i]);
}

} // verus!
