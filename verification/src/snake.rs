//! The snake: its cells from tail to head, and its heading.

use vstd::prelude::*;
use crate::direction::Direction;

verus! {

/// The snake. `segments` lists the cells it covers from the tail (first) to
/// the head (last); the first coordinate of a cell is its column, the second
/// its row.
#[derive(Debug)]
pub struct Snake {
    pub segments: Vec<(u16, u16)>,
    pub direction: Direction,
}

/// The mathematical value of a [`Snake`].
#[verifier::ext_equal]
pub struct SnakeView {
    pub segments: Seq<(u16, u16)>,
    pub direction: Direction,
}

impl SnakeView {
    /// A snake always has a head.
    pub open spec fn wf(self) -> bool {
        self.segments.len() >= 1
    }

    /// The cell of the head.
    pub open spec fn head(self) -> (u16, u16) {
        self.segments.last()
    }

    /// The snake every game starts with: three cells in the top row, heading
    /// right.
    pub open spec fn initial() -> SnakeView {
        SnakeView {
            segments: seq![(0u16, 0u16), (1u16, 0u16), (2u16, 0u16)],
            direction: Direction::Right,
        }
    }
}

impl View for Snake {
    type V = SnakeView;

    open spec fn view(&self) -> SnakeView {
        SnakeView { segments: self.segments@, direction: self.direction }
    }
}

impl Snake {
    /// A snake always has a head.
    pub open spec fn wf(&self) -> bool {
        self@.wf()
    }

    /// The snake every game starts with.
    pub fn new() -> (snake: Snake)
        ensures
            snake@ == SnakeView::initial(),
            snake.wf(),
    {
        let mut segments: Vec<(u16, u16)> = Vec::new();
        segments.push((0, 0));
        segments.push((1, 0));
        segments.push((2, 0));
        Snake { segments, direction: Direction::Right }
    }

    /// The cell of the head.
    pub fn head(&self) -> (cell: (u16, u16))
        requires
            self.wf(),
        ensures
            cell == self@.head(),
    {
        self.segments[self.segments.len() - 1]
    }
}

} // verus!
