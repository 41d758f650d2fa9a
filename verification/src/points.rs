//! The point process: in which order the cells of a category's domain are
//! visited, and what is done in each.
//!
//! The domain is cut into a grid of cells. Each cell is measured: the density
//! field at its center times its area is the number of points to expect in
//! it. A cell whose expectation is not above zero is empty: nothing is drawn
//! for it and no point falls in it. For any other cell a count is drawn around
//! the expectation, and that many points are scattered in the cell.
//!
//! Measuring, drawing and scattering are done by the caller, which holds the
//! field and the generator. The walk in this module says what is due next, so
//! that the generator is used in one fixed order.

use vstd::prelude::*;

verus! {

/// The number of cells along each side of the grid that points are drawn on.
pub const POINT_GRID_RESOLUTION: u32 = 100;

/// The number of cells of the grid.
pub const POINT_GRID_CELLS: u32 = POINT_GRID_RESOLUTION * POINT_GRID_RESOLUTION;

/// The cell that the point process visits at `step`, as column and row of the
/// grid: the columns one after the other, each from its first row to its last.
pub open spec fn cell_at_step(step: int) -> (int, int) {
    (step / POINT_GRID_RESOLUTION as int, step % POINT_GRID_RESOLUTION as int)
}

/// The cell visited at `step`, or `None` once every cell has been visited.
pub fn cell_at(step: u32) -> (cell: Option<(u32, u32)>)
    ensures
        cell is Some <==> step < POINT_GRID_CELLS,
        cell matches Some(c) ==> {
            &&& (c.0 as int, c.1 as int) == cell_at_step(step as int)
            &&& c.0 < POINT_GRID_RESOLUTION
            &&& c.1 < POINT_GRID_RESOLUTION
            &&& step == c.0 * POINT_GRID_RESOLUTION + c.1
        },
{
    if step < POINT_GRID_CELLS {
        Some((step / POINT_GRID_RESOLUTION, step % POINT_GRID_RESOLUTION))
    } else {
        None
    }
}

/// What is due next in the point process.
#[derive(Clone, Copy, Debug, PartialEq, Eq, Structural)]
pub enum Work {
    /// Measure the cell in column `x` and row `y`, and where its expectation
    /// is above zero, draw its count.
    Measure { x: u32, y: u32 },
    /// Scatter one point in the cell in column `x` and row `y`.
    Scatter { x: u32, y: u32 },
    /// Every cell has been visited.
    Done,
}

/// What the caller has done.
#[derive(Clone, Copy, Debug, PartialEq, Eq, Structural)]
pub enum Event {
    /// The cell was measured and its expectation is not above zero. Nothing
    /// was drawn.
    Empty,
    /// The cell was measured and this count was drawn for it.
    Count(usize),
    /// One point was scattered.
    Scattered,
}

/// Where the point process stands.
#[derive(Clone, Copy, Debug, PartialEq, Eq, Structural)]
pub struct PointWalk {
    /// The number of cells that are done with.
    pub step: u32,
    /// The number of points that are still to be scattered in the cell at
    /// hand; zero while the cell is still to be measured.
    pub pending: usize,
}

impl PointWalk {
    /// The walk is within the grid.
    pub open spec fn wf(self) -> bool {
        &&& self.step <= POINT_GRID_CELLS
        &&& self.step == POINT_GRID_CELLS ==> self.pending == 0
    }

    /// What is due next, as a value.
    pub open spec fn due(self) -> Work {
        if self.step >= POINT_GRID_CELLS {
            Work::Done
        } else if self.pending > 0 {
            Work::Scatter {
                x: cell_at_step(self.step as int).0 as u32,
                y: cell_at_step(self.step as int).1 as u32,
            }
        } else {
            Work::Measure {
                x: cell_at_step(self.step as int).0 as u32,
                y: cell_at_step(self.step as int).1 as u32,
            }
        }
    }

    /// The walk with the cell at hand done with.
    pub open spec fn onward(self) -> PointWalk {
        PointWalk { step: (self.step + 1) as u32, pending: 0 }
    }

    /// The walk after `event`. An event that does not answer what was due
    /// leaves the walk where it is.
    pub open spec fn after(self, event: Event) -> PointWalk {
        match (self.due(), event) {
            (Work::Measure { .. }, Event::Empty) => self.onward(),
            (Work::Measure { .. }, Event::Count(count)) => if count == 0 {
                self.onward()
            } else {
                PointWalk { step: self.step, pending: count }
            },
            (Work::Scatter { .. }, Event::Scattered) => if self.pending == 1 {
                self.onward()
            } else {
                PointWalk { step: self.step, pending: (self.pending - 1) as usize }
            },
            _ => self,
        }
    }

    /// The walk after `count` points have been scattered one after the other.
    pub open spec fn after_scattering(self, count: nat) -> PointWalk
        decreases count,
    {
        if count == 0 {
            self
        } else {
            self.after(Event::Scattered).after_scattering((count - 1) as nat)
        }
    }

    /// Begins the walk at the first cell.
    pub fn new() -> (walk: PointWalk)
        ensures
            walk == (PointWalk { step: 0, pending: 0 }),
            walk.wf(),
    {
        PointWalk { step: 0, pending: 0 }
    }

    /// What is due next.
    pub fn work(&self) -> (work: Work)
        ensures
            work == self.due(),
    {
        match cell_at(self.step) {
            None => Work::Done,
            Some((x, y)) => if self.pending > 0 {
                Work::Scatter { x, y }
            } else {
                Work::Measure { x, y }
            },
        }
    }

    /// Takes in what the caller has done and says what is due next.
    pub fn advance(&mut self, event: Event) -> (work: Work)
        ensures
            *final(self) == old(self).after(event),
            old(self).wf() ==> final(self).wf(),
            work == final(self).due(),
    {
        match (self.work(), event) {
            (Work::Measure { .. }, Event::Empty) => {
                self.step = self.step + 1;
                self.pending = 0;
            },
            (Work::Measure { .. }, Event::Count(count)) => {
                if count == 0 {
                    self.step = self.step + 1;
                    self.pending = 0;
                } else {
                    self.pending = count;
                }
            },
            (Work::Scatter { .. }, Event::Scattered) => {
                if self.pending == 1 {
                    self.step = self.step + 1;
                    self.pending = 0;
                } else {
                    self.pending = self.pending - 1;
                }
            },
            _ => {},
        }
        self.work()
    }
}

/// A cell that is measured as empty gets no points: once the walk has taken
/// in that the cell at hand is empty, it is done with the cell, and what is
/// due next is to measure the cell after it, or nothing where it was the
/// last. It never asks for a point to be scattered.
pub proof fn lemma_empty_cell_gets_no_points(walk: PointWalk)
    requires
        walk.wf(),
        walk.due() is Measure,
    ensures
        walk.after(Event::Empty).step == walk.step + 1,
        walk.after(Event::Empty).pending == 0,
        !(walk.after(Event::Empty).due() is Scatter),
        walk.after(Event::Empty).wf(),
{
}

/// A cell gets as many points as were counted for it: after a count of
/// `count`, the walk asks `count` times for a point to be scattered in the
/// cell at hand, and is done with the cell after that.
pub proof fn lemma_counted_cell_gets_its_points(walk: PointWalk, count: usize)
    requires
        walk.wf(),
        walk.due() is Measure,
    ensures
        forall|scattered: nat|
            scattered < count ==> #[trigger] walk.after(Event::Count(count)).after_scattering(
                scattered,
            ).due() == (Work::Scatter {
                x: cell_at_step(walk.step as int).0 as u32,
                y: cell_at_step(walk.step as int).1 as u32,
            }),
        walk.after(Event::Count(count)).after_scattering(count as nat) == walk.onward(),
{
    if count > 0 {
        let counted = walk.after(Event::Count(count));
        assert forall|scattered: nat| scattered <= count implies #[trigger] counted.after_scattering(
            scattered,
        ) == (if scattered == count {
            walk.onward()
        } else {
            PointWalk { step: walk.step, pending: (count - scattered) as usize }
        }) by {
            lemma_scattering(counted, scattered);
        }
    }
}

/// Scattering `count` of the points that are pending leaves the rest pending,
/// and with the last of them the cell is done with.
proof fn lemma_scattering(walk: PointWalk, count: nat)
    requires
        walk.step < POINT_GRID_CELLS,
        count <= walk.pending,
    ensures
        walk.after_scattering(count) == (if count == walk.pending && count > 0 {
            walk.onward()
        } else {
            PointWalk { step: walk.step, pending: (walk.pending - count) as usize }
        }),
    decreases count,
{
    if count > 0 {
        let next = walk.after(Event::Scattered);
        if walk.pending > 1 {
            lemma_scattering(next, (count - 1) as nat);
        } else {
            assert(next.after_scattering(0) == next);
        }
    }
}

} // verus!
