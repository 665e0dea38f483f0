use vstd::prelude::*;
use crate::chain::Chain;
use crate::direction::{step, step_spec, Direction};
use crate::food::FoodPlacer;
use crate::grid::{Grid, Position};

verus! {

/// Side of the standard playing field.
pub const ARENA_WIDTH: i32 = 10;

/// Height of the standard playing field.
pub const ARENA_HEIGHT: i32 = 10;

/// Whether a round is still running.
#[derive(Clone, Copy, Debug, PartialEq, Eq, Structural)]
pub enum SimulationState {
    Playing,
    GameOver,
}

/// Why a round ended.
#[derive(Clone, Copy, Debug, PartialEq, Eq, Structural)]
pub enum GameOverReason {
    Wall,
    SelfCollision,
    BoardFull,
}

/// What one tick did, for the host to re-render.
#[derive(Clone, Copy, Debug, PartialEq, Eq, Structural)]
pub enum TickOutcome {
    /// The round was already over; nothing changed.
    Idle,
    /// The head advanced one cell; the body followed.
    Moved,
    /// The head advanced onto the food; the chain grew and fresh food
    /// was placed.
    Ate,
    /// The round ended this tick, for the given reason.
    Ended(GameOverReason),
}

/// The whole simulation core: field, head, body chain, food and the round's
/// state. Everything advances one grid step per `tick`.
pub struct Game {
    pub grid: Grid,
    pub head: Position,
    pub direction: Direction,
    pub chain: Chain,
    pub food: Position,
    pub state: SimulationState,
}

impl Game {
    /// The cells the snake occupies: the head, then the body in order.
    pub open spec fn occupied(self) -> Seq<Position> {
        seq![self.head] + self.chain.positions()
    }

    /// The cell the head would enter on the next tick.
    pub open spec fn candidate(self) -> Position {
        step_spec(self.direction, self.head)
    }

    /// The head's cell at cold start: the centre of the field.
    pub open spec fn spawn_head(grid: Grid) -> Position {
        Position { x: (grid.width as int / 2) as i32, y: (grid.height as int / 2) as i32 }
    }

    /// The first body segment's cell at cold start: one cell behind the
    /// head along the initial direction, which is up.
    pub open spec fn spawn_body(grid: Grid) -> Position {
        Position { x: (grid.width as int / 2) as i32, y: (grid.height as int / 2 - 1) as i32 }
    }

    /// Everything a game keeps true between ticks: the field is at least
    /// two cells wide and tall, head and body sit on the field, the chain's
    /// arena is intact and holds at least one segment, and while the round
    /// runs the food sits on a cell no part of the snake occupies.
    pub open spec fn wf(self) -> bool {
        &&& self.grid.wf()
        &&& 2 <= self.grid.width
        &&& 2 <= self.grid.height
        &&& self.grid.contains(self.head)
        &&& forall|i: int| 0 <= i < self.chain.positions().len() ==>
            self.grid.contains(#[trigger] self.chain.positions()[i])
        &&& self.chain.wf()
        &&& 1 <= self.chain.positions().len()
        &&& (self.state == SimulationState::Playing ==> {
            &&& self.grid.contains(self.food)
            &&& self.food != self.head
            &&& !self.chain.positions().contains(self.food)
        })
    }

    /// A cold-start game on a field of the given bounds: head at the
    /// centre, facing up, one body segment one cell behind the head, food
    /// on a random free cell.
    pub fn with_grid(width: i32, height: i32) -> (g: Game)
        requires
            2 <= width,
            2 <= height,
        ensures
            g.wf(),
            g.grid.width == width,
            g.grid.height == height,
            g.state == SimulationState::Playing,
            g.direction == Direction::Up,
            g.head == Game::spawn_head(g.grid),
            g.chain.positions() == seq![Game::spawn_body(g.grid)],
    {
        let grid = Grid::new(width, height);
        let head = Position { x: width / 2, y: height / 2 };
        let body = Position { x: head.x, y: head.y - 1 };
        let mut chain = Chain::new();
        let _id: usize = chain.append_segment(body);
        let mut occ: Vec<Position> = Vec::new();
        occ.push(head);
        occ.push(body);
        let food = match FoodPlacer::place(&grid, &occ) {
            Ok(p) => p,
            Err(_) => {
                proof {
                    let witness = Position { x: 0, y: (grid.height as int / 2) as i32 };
                    assert(grid.contains(witness));
                    assert(occ@.contains(witness));
                    assert(occ@[0] != witness && occ@[1] != witness);
                    assert(false);
                }
                vstd::pervasive::unreached()
            },
        };
        let g = Game { grid, head, direction: Direction::Up, chain, food, state: SimulationState::Playing };
        proof {
            assert(g.chain.positions() =~= seq![Game::spawn_body(grid)]);
            assert(g.occupied() =~= occ@);
            assert(occ@[0] == head);
            assert(occ@[1] == body);
            assert(g.chain.positions()[0] == body);
            assert(g.food != g.head);
            assert forall|i: int| 0 <= i < g.chain.positions().len()
                implies g.chain.positions()[i] != g.food by {
                assert(occ@[i + 1] == g.chain.positions()[i]);
            }
            assert forall|i: int| 0 <= i < g.chain.positions().len()
                implies g.grid.contains(#[trigger] g.chain.positions()[i]) by {
                assert(g.chain.positions()[i] == body);
            }
        }
        g
    }

    /// A cold-start game on the standard ten-by-ten field.
    pub fn new() -> (g: Game)
        ensures
            g.wf(),
            g.grid.width == ARENA_WIDTH,
            g.grid.height == ARENA_HEIGHT,
            g.state == SimulationState::Playing,
            g.direction == Direction::Up,
            g.head == Game::spawn_head(g.grid),
            g.chain.positions() == seq![Game::spawn_body(g.grid)],
    {
        Game::with_grid(ARENA_WIDTH, ARENA_HEIGHT)
    }

    /// A game assembled from explicit parts, for a host that restores a
    /// known configuration.
    pub fn from_parts(
        width: i32,
        height: i32,
        head: Position,
        direction: Direction,
        body: Vec<Position>,
        food: Position,
    ) -> (g: Game)
        requires
            2 <= width,
            2 <= height,
            0 <= head.x < width && 0 <= head.y < height,
            forall|i: int| 0 <= i < body@.len() ==>
                0 <= (#[trigger] body@[i]).x < width && 0 <= body@[i].y < height,
            1 <= body@.len(),
            0 <= food.x < width && 0 <= food.y < height,
            food != head,
            !body@.contains(food),
        ensures
            g.wf(),
            g.grid.width == width,
            g.grid.height == height,
            g.head == head,
            g.direction == direction,
            g.chain.positions() == body@,
            g.food == food,
            g.state == SimulationState::Playing,
    {
        let grid = Grid::new(width, height);
        let mut chain = Chain::new();
        let mut i: usize = 0;
        while i < body.len()
            invariant
                i <= body@.len(),
                chain.wf(),
                chain.positions() =~= body@.subrange(0, i as int),
            decreases body@.len() - i,
        {
            let _id: usize = chain.append_segment(body[i]);
            proof {
                assert(chain.positions() =~= body@.subrange(0, i + 1));
            }
            i = i + 1;
        }
        proof {
            assert(chain.positions() =~= body@);
        }
        Game { grid, head, direction, chain, food, state: SimulationState::Playing }
    }

    /// The snake's cells as the food placer must see them: the head first,
    /// then the body in order.
    fn occupied_vec(&self) -> (v: Vec<Position>)
        ensures
            v@ == self.occupied(),
    {
        let mut v: Vec<Position> = Vec::new();
        v.push(self.head);
        let mut body = self.chain.segment_positions();
        v.append(&mut body);
        proof {
            assert(v@ =~= self.occupied());
        }
        v
    }

    /// Queues a direction change. A request for the exact reverse of the
    /// current direction is ignored silently: it is a routine input race,
    /// not an error. Nothing else changes.
    pub fn set_direction(&mut self, d: Direction)
        requires
            old(self).wf(),
        ensures
            final(self).wf(),
            final(self).direction == (if d == old(self).direction.opposite_spec() {
                old(self).direction
            } else {
                d
            }),
            final(self).grid == old(self).grid,
            final(self).head == old(self).head,
            final(self).chain == old(self).chain,
            final(self).food == old(self).food,
            final(self).state == old(self).state,
    {
        let reverse = self.direction.opposite();
        if !(d == reverse) {
            self.direction = d;
        }
    }

    /// Advances the simulation one step. In a running round the head moves
    /// one cell along the current direction; leaving the field or biting a
    /// body segment ends the round on the spot, with nothing moved; eating
    /// food grows the chain by one segment and places fresh food, and a
    /// board with no free cell left ends the round as well.
    pub fn tick(&mut self) -> (out: TickOutcome)
        requires
            old(self).wf(),
        ensures
            final(self).wf(),
            final(self).grid == old(self).grid,
            final(self).direction == old(self).direction,
            match out {
                TickOutcome::Idle => {
                    &&& old(self).state == SimulationState::GameOver
                    &&& *final(self) == *old(self)
                },
                TickOutcome::Moved => {
                    &&& old(self).state == SimulationState::Playing
                    &&& old(self).grid.contains(old(self).candidate())
                    &&& !old(self).chain.positions().contains(old(self).candidate())
                    &&& old(self).candidate() != old(self).food
                    &&& final(self).state == SimulationState::Playing
                    &&& final(self).head == old(self).candidate()
                    &&& final(self).chain.positions()
                        == seq![old(self).head] + old(self).chain.positions().drop_last()
                    &&& final(self).food == old(self).food
                },
                TickOutcome::Ate => {
                    &&& old(self).state == SimulationState::Playing
                    &&& old(self).grid.contains(old(self).candidate())
                    &&& !old(self).chain.positions().contains(old(self).candidate())
                    &&& old(self).candidate() == old(self).food
                    &&& final(self).state == SimulationState::Playing
                    &&& final(self).head == old(self).candidate()
                    &&& final(self).chain.positions()
                        == seq![old(self).head] + old(self).chain.positions()
                    &&& final(self).grid.contains(final(self).food)
                    &&& final(self).food != final(self).head
                    &&& !final(self).chain.positions().contains(final(self).food)
                },
                TickOutcome::Ended(reason) => {
                    &&& old(self).state == SimulationState::Playing
                    &&& final(self).state == SimulationState::GameOver
                    &&& match reason {
                        GameOverReason::Wall => {
                            &&& !old(self).grid.contains(old(self).candidate())
                            &&& *final(self) == (Game {
                                state: SimulationState::GameOver,
                                ..*old(self)
                            })
                        },
                        GameOverReason::SelfCollision => {
                            &&& old(self).grid.contains(old(self).candidate())
                            &&& old(self).chain.positions().contains(old(self).candidate())
                            &&& *final(self) == (Game {
                                state: SimulationState::GameOver,
                                ..*old(self)
                            })
                        },
                        GameOverReason::BoardFull => {
                            &&& old(self).grid.contains(old(self).candidate())
                            &&& !old(self).chain.positions().contains(old(self).candidate())
                            &&& old(self).candidate() == old(self).food
                            &&& final(self).head == old(self).candidate()
                            &&& final(self).chain.positions()
                                == seq![old(self).head] + old(self).chain.positions()
                            &&& final(self).food == old(self).food
                            &&& forall|p: Position| final(self).grid.contains(p)
                                ==> final(self).occupied().contains(p)
                        },
                    }
                },
            },
    {
        match self.state {
            SimulationState::GameOver => {
                return TickOutcome::Idle;
            },
            SimulationState::Playing => {},
        }
        let cand = step(self.direction, self.head);
        if !self.grid.in_bounds(cand) {
            self.state = SimulationState::GameOver;
            return TickOutcome::Ended(GameOverReason::Wall);
        }
        if self.chain.contains_position(cand) {
            self.state = SimulationState::GameOver;
            return TickOutcome::Ended(GameOverReason::SelfCollision);
        }
        let ate = cand == self.food;
        let ghost prior = self.chain.positions();
        if ate {
            self.chain.grow_at(cand);
        }
        let vacated = self.head;
        self.chain.propagate_follow(vacated);
        self.head = cand;
        proof {
            if ate {
                assert(self.chain.positions() =~= seq![old(self).head] + prior);
            } else {
                assert(self.chain.positions() =~= seq![old(self).head] + prior.drop_last());
            }
            assert forall|i: int| 0 <= i < self.chain.positions().len()
                implies self.grid.contains(#[trigger] self.chain.positions()[i]) by {
                if i > 0 {
                    assert(self.chain.positions()[i] == prior[i - 1]);
                }
            }
        }
        if ate {
            let occ = self.occupied_vec();
            match FoodPlacer::place(&self.grid, &occ) {
                Ok(p) => {
                    self.food = p;
                    proof {
                        assert(occ@[0] == self.head);
                        assert forall|i: int| 0 <= i < self.chain.positions().len()
                            implies self.chain.positions()[i] != p by {
                            assert(occ@[i + 1] == self.chain.positions()[i]);
                        }
                    }
                    TickOutcome::Ate
                },
                Err(_) => {
                    self.state = SimulationState::GameOver;
                    TickOutcome::Ended(GameOverReason::BoardFull)
                },
            }
        } else {
            proof {
                assert forall|i: int| 0 <= i < self.chain.positions().len()
                    implies self.chain.positions()[i] != self.food by {
                    if i > 0 {
                        assert(self.chain.positions()[i] == prior[i - 1]);
                        assert(prior[i - 1] != old(self).food);
                    }
                }
            }
            TickOutcome::Moved
        }
    }

    /// Tears the round down and rebuilds the cold-start state on the same
    /// field, as one atomic operation.
    pub fn reset(&mut self)
        requires
            old(self).wf(),
        ensures
            final(self).wf(),
            final(self).grid == old(self).grid,
            final(self).state == SimulationState::Playing,
            final(self).direction == Direction::Up,
            final(self).head == Game::spawn_head(old(self).grid),
            final(self).chain.positions() == seq![Game::spawn_body(old(self).grid)],
    {
        let width = self.grid.width;
        let height = self.grid.height;
        *self = Game::with_grid(width, height);
    }

    /// The head's current cell.
    pub fn head_position(&self) -> (p: Position)
        ensures
            p == self.head,
    {
        self.head
    }

    /// The body segments' cells in order, nearest the head first.
    pub fn segment_positions(&self) -> (v: Vec<Position>)
        ensures
            v@ == self.chain.positions(),
    {
        self.chain.segment_positions()
    }

    /// The food's current cell.
    pub fn food_position(&self) -> (p: Position)
        ensures
            p == self.food,
    {
        self.food
    }

    /// The round's state.
    pub fn state(&self) -> (s: SimulationState)
        ensures
            s == self.state,
    {
        self.state
    }

    /// The direction the head will take at the next tick.
    pub fn direction(&self) -> (d: Direction)
        ensures
            d == self.direction,
    {
        self.direction
    }
}

} // verus!
