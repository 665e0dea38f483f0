use vstd::prelude::*;
use crate::grid::Position;

verus! {

/// The head's travel direction. One may not turn straight into the exact
/// reverse of the current direction; that rule lives in the game itself.
#[derive(Clone, Copy, Debug, PartialEq, Eq, Structural)]
pub enum Direction {
    Up,
    Down,
    Left,
    Right,
}

impl Direction {
    /// The 180-degree reverse of this direction.
    pub open spec fn opposite_spec(self) -> Direction {
        match self {
            Direction::Up => Direction::Down,
            Direction::Down => Direction::Up,
            Direction::Left => Direction::Right,
            Direction::Right => Direction::Left,
        }
    }

    pub fn opposite(self) -> (r: Direction)
        ensures
            r == self.opposite_spec(),
    {
        match self {
            Direction::Up => Direction::Down,
            Direction::Down => Direction::Up,
            Direction::Left => Direction::Right,
            Direction::Right => Direction::Left,
        }
    }
}

/// Horizontal component of a direction's unit step.
pub open spec fn dx(d: Direction) -> int {
    match d {
        Direction::Left => -1,
        Direction::Right => 1,
        Direction::Up => 0,
        Direction::Down => 0,
    }
}

/// Vertical component of a direction's unit step.
pub open spec fn dy(d: Direction) -> int {
    match d {
        Direction::Up => 1,
        Direction::Down => -1,
        Direction::Left => 0,
        Direction::Right => 0,
    }
}

/// The cell one step from `p` along `d`.
pub open spec fn step_spec(d: Direction, p: Position) -> Position {
    Position { x: (p.x + dx(d)) as i32, y: (p.y + dy(d)) as i32 }
}

pub fn step(d: Direction, p: Position) -> (r: Position)
    requires
        i32::MIN < p.x < i32::MAX,
        i32::MIN < p.y < i32::MAX,
    ensures
        r == step_spec(d, p),
        r.x == p.x + dx(d),
        r.y == p.y + dy(d),
{
    match d {
        Direction::Up => Position { x: p.x, y: p.y + 1 },
        Direction::Down => Position { x: p.x, y: p.y - 1 },
        Direction::Left => Position { x: p.x - 1, y: p.y },
        Direction::Right => Position { x: p.x + 1, y: p.y },
    }
}

/// The head's cell after `n` straight steps along `d` from `p`. One tick
/// of a running, collision-free round realizes exactly one such step.
pub open spec fn run(d: Direction, p: Position, n: nat) -> Position
    decreases n,
{
    if n == 0 {
        p
    } else {
        step_spec(d, run(d, p, (n - 1) as nat))
    }
}

/// Law: an uninterrupted run of `n` steps in one direction lands exactly
/// `n` unit vectors from the starting cell, as long as the endpoint fits
/// the coordinate type.
pub proof fn lemma_straight_run(d: Direction, p: Position, n: nat)
    requires
        i32::MIN <= p.x + n * dx(d) <= i32::MAX,
        i32::MIN <= p.y + n * dy(d) <= i32::MAX,
    ensures
        run(d, p, n).x == p.x + n * dx(d),
        run(d, p, n).y == p.y + n * dy(d),
    decreases n,
{
    if n > 0 {
        assert(-1 <= dx(d) <= 1);
        assert(-1 <= dy(d) <= 1);
        assert(n * dx(d) == (n - 1) * dx(d) + dx(d)) by (nonlinear_arith);
        assert(n * dy(d) == (n - 1) * dy(d) + dy(d)) by (nonlinear_arith);
        assert(i32::MIN <= p.x + (n - 1) * dx(d) <= i32::MAX) by (nonlinear_arith)
            requires
                1 <= n,
                -1 <= dx(d) <= 1,
                i32::MIN <= p.x <= i32::MAX,
                i32::MIN <= p.x + n * dx(d) <= i32::MAX,
        ;
        assert(i32::MIN <= p.y + (n - 1) * dy(d) <= i32::MAX) by (nonlinear_arith)
            requires
                1 <= n,
                -1 <= dy(d) <= 1,
                i32::MIN <= p.y <= i32::MAX,
                i32::MIN <= p.y + n * dy(d) <= i32::MAX,
        ;
        lemma_straight_run(d, p, (n - 1) as nat);
    } else {
        assert(n * dx(d) == 0) by (nonlinear_arith)
            requires
                n == 0,
        ;
        assert(n * dy(d) == 0) by (nonlinear_arith)
            requires
                n == 0,
        ;
    }
}

} // verus!
