use vstd::prelude::*;
use crate::grid::{Grid, Position};

verus! {

/// The exhausted-board condition: no unoccupied cell remains for food.
#[derive(Clone, Copy, Debug, PartialEq, Eq, Structural)]
pub enum PlaceError {
    Exhausted,
}

/// Chooses the cell for a fresh piece of food.
pub struct FoodPlacer;

/// Relies on `rand::Rng::gen_range` over `rand::thread_rng`: for the
/// nonempty range `0..n` the drawn value lies in that range. The draw is
/// random, so nothing more is promised of it.
#[verifier::external_body]
fn random_below(n: usize) -> (r: usize)
    requires
        0 < n,
    ensures
        r < n,
{
    let mut rng = rand::thread_rng();
    rand::Rng::gen_range(&mut rng, 0..n)
}

/// Whether `p` occurs in `list`.
fn position_in(list: &Vec<Position>, p: Position) -> (r: bool)
    ensures
        r == list@.contains(p),
{
    let mut i: usize = 0;
    let mut found = false;
    while i < list.len()
        invariant
            i <= list@.len(),
            found == exists|j: int| 0 <= j < i && list@[j] == p,
        decreases list@.len() - i,
    {
        if list[i] == p {
            found = true;
            proof {
                assert(list@[i as int] == p);
            }
        }
        i = i + 1;
    }
    found
}

impl FoodPlacer {
    /// Picks a cell of `grid` not listed in `occupied`, uniformly at random
    /// among the free cells; reports `Exhausted` exactly when every cell of
    /// the grid is taken. The candidate set is rebuilt from scratch on every
    /// call, since occupancy changes every tick.
    pub fn place(grid: &Grid, occupied: &Vec<Position>) -> (r: Result<Position, PlaceError>)
        requires
            grid.wf(),
        ensures
            match r {
                Ok(p) => grid.contains(p) && !occupied@.contains(p),
                Err(e) => e == PlaceError::Exhausted
                    && forall|p: Position| grid.contains(p) ==> occupied@.contains(p),
            },
    {
        let mut free: Vec<Position> = Vec::new();
        let mut x: i32 = 0;
        while x < grid.width
            invariant
                grid.wf(),
                0 <= x <= grid.width,
                forall|k: int| 0 <= k < free@.len() ==>
                    grid.contains(#[trigger] free@[k]) && !occupied@.contains(free@[k]),
                forall|p: Position| #[trigger] grid.contains(p) && p.x < x
                    && !occupied@.contains(p) ==> free@.contains(p),
            decreases grid.width - x,
        {
            let mut y: i32 = 0;
            while y < grid.height
                invariant
                    grid.wf(),
                    0 <= x < grid.width,
                    0 <= y <= grid.height,
                    forall|k: int| 0 <= k < free@.len() ==>
                        grid.contains(#[trigger] free@[k]) && !occupied@.contains(free@[k]),
                    forall|p: Position| #[trigger] grid.contains(p)
                        && (p.x < x || (p.x == x && p.y < y))
                        && !occupied@.contains(p) ==> free@.contains(p),
                decreases grid.height - y,
            {
                let cell = Position { x, y };
                if !position_in(occupied, cell) {
                    let ghost prior = free@;
                    free.push(cell);
                    proof {
                        assert(free@[prior.len() as int] == cell);
                        assert forall|p: Position| prior.contains(p) implies free@.contains(p) by {
                            let j = choose|j: int| 0 <= j < prior.len() && prior[j] == p;
                            assert(free@[j] == p);
                        }
                        assert(free@.contains(cell));
                    }
                }
                y = y + 1;
            }
            x = x + 1;
        }
        if free.len() > 0 {
            let idx = random_below(free.len());
            let p = free[idx];
            proof {
                assert(grid.contains(free@[idx as int]));
            }
            Ok(p)
        } else {
            proof {
                assert forall|p: Position| grid.contains(p) implies occupied@.contains(p) by {
                    if !occupied@.contains(p) {
                        assert(free@.contains(p));
                    }
                }
            }
            Err(PlaceError::Exhausted)
        }
    }
}

} // verus!
