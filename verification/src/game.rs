//! The Game-of-Life engine: owns a board and advances it one generation
//! per call, applying the birth/survival/death rule to every cell.
//!
//! A generation step is two-phase: every cell's next state is computed
//! against the pre-step board (phase one builds a delta of the cells that
//! change), and the delta is committed in one pass afterwards, so no cell's
//! transition can observe another cell's already-updated state.

use vstd::prelude::*;

use crate::cell::CellState;
use crate::grid::Grid;
use crate::grid::OutOfBoundsError;
use crate::grid::delta_state;
use crate::grid::in_range;
use crate::grid::spec_neighbors;

verus! {

/// The Game-of-Life transition rule: a live cell survives with two or
/// three live neighbors and dies otherwise; a dead cell is born with
/// exactly three live neighbors and stays dead otherwise.
pub open spec fn next_state(s: CellState, live: int) -> CellState {
    match s {
        CellState::Alive => if 2 <= live <= 3 {
            CellState::Alive
        } else {
            CellState::Dead
        },
        CellState::Dead => if live == 3 {
            CellState::Alive
        } else {
            CellState::Dead
        },
    }
}

/// The number of live cells on board `g` among the first `n` coordinates of
/// `ns`; a coordinate with no resolvable cell is skipped.
pub open spec fn count_alive_upto(g: Grid, ns: Seq<(usize, usize)>, n: int) -> int
    decreases n,
{
    if n <= 0 {
        0
    } else {
        count_alive_upto(g, ns, n - 1) + if in_range(g.spec_size(), ns[n - 1]) && g.spec_state_at(
            ns[n - 1].0 as int,
            ns[n - 1].1 as int,
        ) == CellState::Alive {
            1int
        } else {
            0int
        }
    }
}

/// The number of live neighbors of `p` on board `g`, over the eight
/// toroidally wrapped Moore neighbors.
#[verifier::opaque]
pub open spec fn live_neighbors(g: Grid, p: (usize, usize)) -> int {
    count_alive_upto(g, spec_neighbors(g.spec_size(), p), 8)
}

/// The state cell `(x, y)` holds after one generation step of board `g`.
pub open spec fn step_state_at(g: Grid, x: int, y: int) -> CellState {
    next_state(g.spec_state_at(x, y), live_neighbors(g, (x as usize, y as usize)))
}

/// The delta entry the rule records for `p` given `live` live neighbors:
/// the next state when it differs from the current one, nothing otherwise
/// (and nothing for a coordinate with no resolvable cell).
pub open spec fn spec_play(g: Grid, p: (usize, usize), live: int) -> Option<CellState> {
    if !in_range(g.spec_size(), p) {
        None
    } else {
        let cur = g.spec_state_at(p.0 as int, p.1 as int);
        let nxt = next_state(cur, live);
        if nxt == cur {
            None
        } else {
            Some(nxt)
        }
    }
}

/// Law: the transition rule, clause by clause. Any cell with exactly three
/// live neighbors is alive after the step; a live cell with two live
/// neighbors survives; a live cell with fewer than two or more than three
/// live neighbors dies; a dead cell whose live-neighbor count is not three
/// stays dead.
pub proof fn lemma_step_follows_rule(g: Grid, x: int, y: int)
    ensures
        live_neighbors(g, (x as usize, y as usize)) == 3 ==> step_state_at(g, x, y)
            == CellState::Alive,
        g.spec_state_at(x, y) == CellState::Alive && live_neighbors(g, (x as usize, y as usize))
            == 2 ==> step_state_at(g, x, y) == CellState::Alive,
        g.spec_state_at(x, y) == CellState::Alive && (live_neighbors(g, (x as usize, y as usize))
            < 2 || live_neighbors(g, (x as usize, y as usize)) > 3) ==> step_state_at(g, x, y)
            == CellState::Dead,
        g.spec_state_at(x, y) == CellState::Dead && live_neighbors(g, (x as usize, y as usize))
            != 3 ==> step_state_at(g, x, y) == CellState::Dead,
{
}

/// Boards that agree on size and on every in-range cell state count the
/// same number of live cells along any list of coordinates.
proof fn lemma_count_alive_congruent(g1: Grid, g2: Grid, ns: Seq<(usize, usize)>, n: int)
    requires
        g1.spec_size() == g2.spec_size(),
        forall|a: int, b: int|
            0 <= a < g1.spec_size().0 && 0 <= b < g1.spec_size().1 ==> g1.spec_state_at(a, b)
                == g2.spec_state_at(a, b),
        n <= ns.len(),
    ensures
        count_alive_upto(g1, ns, n) == count_alive_upto(g2, ns, n),
    decreases n,
{
    if n > 0 {
        lemma_count_alive_congruent(g1, g2, ns, n - 1);
        if in_range(g1.spec_size(), ns[n - 1]) {
            assert(g1.spec_state_at(ns[n - 1].0 as int, ns[n - 1].1 as int) == g2.spec_state_at(
                ns[n - 1].0 as int,
                ns[n - 1].1 as int,
            ));
        }
    }
}

/// Law: the generation step is deterministic. Two boards of equal size
/// whose cell states agree everywhere in range step every in-range cell to
/// the same state; repeated runs from the same seed therefore produce the
/// same boards.
pub proof fn lemma_step_deterministic(g1: Grid, g2: Grid, x: int, y: int)
    requires
        g1.spec_size() == g2.spec_size(),
        forall|a: int, b: int|
            0 <= a < g1.spec_size().0 && 0 <= b < g1.spec_size().1 ==> g1.spec_state_at(a, b)
                == g2.spec_state_at(a, b),
        0 <= x < g1.spec_size().0,
        0 <= y < g1.spec_size().1,
    ensures
        step_state_at(g1, x, y) == step_state_at(g2, x, y),
{
    reveal(live_neighbors);
    reveal(spec_neighbors);
    let p = (x as usize, y as usize);
    assert(spec_neighbors(g1.spec_size(), p).len() == 8);
    lemma_count_alive_congruent(g1, g2, spec_neighbors(g1.spec_size(), p), 8);
    assert(g1.spec_state_at(x, y) == g2.spec_state_at(x, y));
}

/// One cell's evaluation extends the generation delta correctly: if the
/// delta built so far turns the pre-step board into the stepped board on
/// every already-visited coordinate and leaves the rest unchanged, the same
/// holds after recording cell `(i, j)`'s transition, with `(i, j)` visited.
proof fn lemma_delta_step(
    g: Grid,
    delta0: Seq<((usize, usize), CellState)>,
    delta1: Seq<((usize, usize), CellState)>,
    i: int,
    j: int,
)
    requires
        0 <= i < g.spec_size().0,
        0 <= j < g.spec_size().1,
        forall|x: int, y: int|
            0 <= x < g.spec_size().0 && 0 <= y < g.spec_size().1 ==> delta_state(
                delta0,
                (x as usize, y as usize),
                g.spec_state_at(x, y),
            ) == (if x < i || (x == i && y < j) {
                step_state_at(g, x, y)
            } else {
                g.spec_state_at(x, y)
            }),
        delta1 == (match spec_play(
            g,
            (i as usize, j as usize),
            live_neighbors(g, (i as usize, j as usize)),
        ) {
            Some(s) => delta0.push(((i as usize, j as usize), s)),
            None => delta0,
        }),
    ensures
        forall|x: int, y: int|
            0 <= x < g.spec_size().0 && 0 <= y < g.spec_size().1 ==> delta_state(
                delta1,
                (x as usize, y as usize),
                g.spec_state_at(x, y),
            ) == (if x < i || (x == i && y < j + 1) {
                step_state_at(g, x, y)
            } else {
                g.spec_state_at(x, y)
            }),
{
    if delta1.len() > delta0.len() {
        assert(delta1.drop_last() =~= delta0);
    }
    assert forall|x: int, y: int|
        0 <= x < g.spec_size().0 && 0 <= y < g.spec_size().1 implies delta_state(
        delta1,
        (x as usize, y as usize),
        g.spec_state_at(x, y),
    ) == (if x < i || (x == i && y < j + 1) {
        step_state_at(g, x, y)
    } else {
        g.spec_state_at(x, y)
    }) by {
        let p = (x as usize, y as usize);
        assert(delta_state(delta0, p, g.spec_state_at(x, y)) == (if x < i || (x == i && y < j) {
            step_state_at(g, x, y)
        } else {
            g.spec_state_at(x, y)
        }));
    }
}

/// The seed pattern of the default game: a Gosper glider gun, as
/// coordinate-to-state updates over an all-dead board.
pub open spec fn gosper_glider_gun_seed() -> Seq<((usize, usize), CellState)> {
    seq![
        ((20usize, 27usize), CellState::Alive),
        ((20usize, 28usize), CellState::Alive),
        ((21usize, 27usize), CellState::Alive),
        ((21usize, 28usize), CellState::Alive),
        ((30usize, 27usize), CellState::Alive),
        ((30usize, 28usize), CellState::Alive),
        ((30usize, 29usize), CellState::Alive),
        ((31usize, 26usize), CellState::Alive),
        ((31usize, 30usize), CellState::Alive),
        ((32usize, 25usize), CellState::Alive),
        ((32usize, 31usize), CellState::Alive),
        ((33usize, 25usize), CellState::Alive),
        ((33usize, 31usize), CellState::Alive),
        ((34usize, 28usize), CellState::Alive),
        ((35usize, 26usize), CellState::Alive),
        ((35usize, 30usize), CellState::Alive),
        ((36usize, 27usize), CellState::Alive),
        ((36usize, 28usize), CellState::Alive),
        ((36usize, 29usize), CellState::Alive),
        ((37usize, 28usize), CellState::Alive),
        ((40usize, 25usize), CellState::Alive),
        ((40usize, 26usize), CellState::Alive),
        ((40usize, 27usize), CellState::Alive),
        ((41usize, 25usize), CellState::Alive),
        ((41usize, 26usize), CellState::Alive),
        ((41usize, 27usize), CellState::Alive),
        ((42usize, 24usize), CellState::Alive),
        ((42usize, 28usize), CellState::Alive),
        ((44usize, 23usize), CellState::Alive),
        ((44usize, 24usize), CellState::Alive),
        ((44usize, 28usize), CellState::Alive),
        ((44usize, 29usize), CellState::Alive),
        ((54usize, 25usize), CellState::Alive),
        ((54usize, 26usize), CellState::Alive),
        ((55usize, 25usize), CellState::Alive),
        ((55usize, 26usize), CellState::Alive),
    ]
}

/// A running Game of Life: the current board plus the number of
/// generations stepped so far.
pub struct GameOfLife {
    evolution: u32,
    pub cell_grid: Grid,
}

impl GameOfLife {
    /// The number of generations stepped so far.
    pub closed spec fn spec_evolution(self) -> u32 {
        self.evolution
    }

    /// The board the game currently owns.
    pub closed spec fn spec_grid(self) -> Grid {
        self.cell_grid
    }

    /// Builds a game at generation zero over the given board.
    pub fn new(cell_grid: Grid) -> (r: Self)
        ensures
            r.spec_grid() == cell_grid,
            r.spec_evolution() == 0,
    {
        Self { evolution: 0, cell_grid }
    }

    /// The default game: a 100 by 200 board, dead everywhere except for a
    /// Gosper glider gun, at generation zero.
    pub fn default() -> (r: Self)
        ensures
            r.spec_grid().wf(),
            r.spec_grid().spec_size() == (100usize, 200usize),
            r.spec_evolution() == 0,
            forall|x: int, y: int|
                0 <= x < 100 && 0 <= y < 200 ==> r.spec_grid().spec_state_at(x, y) == delta_state(
                    gosper_glider_gun_seed(),
                    (x as usize, y as usize),
                    CellState::Dead,
                ),
    {
        let grid_x: usize = 100;
        let grid_y: usize = 200;
        let mut default_grid = Grid::new((grid_x, grid_y));

        let mut seed: Vec<((usize, usize), CellState)> = Vec::new();
        seed.push(((20, 27), CellState::Alive));
        seed.push(((20, 28), CellState::Alive));
        seed.push(((21, 27), CellState::Alive));
        seed.push(((21, 28), CellState::Alive));
        seed.push(((30, 27), CellState::Alive));
        seed.push(((30, 28), CellState::Alive));
        seed.push(((30, 29), CellState::Alive));
        seed.push(((31, 26), CellState::Alive));
        seed.push(((31, 30), CellState::Alive));
        seed.push(((32, 25), CellState::Alive));
        seed.push(((32, 31), CellState::Alive));
        seed.push(((33, 25), CellState::Alive));
        seed.push(((33, 31), CellState::Alive));
        seed.push(((34, 28), CellState::Alive));
        seed.push(((35, 26), CellState::Alive));
        seed.push(((35, 30), CellState::Alive));
        seed.push(((36, 27), CellState::Alive));
        seed.push(((36, 28), CellState::Alive));
        seed.push(((36, 29), CellState::Alive));
        seed.push(((37, 28), CellState::Alive));
        seed.push(((40, 25), CellState::Alive));
        seed.push(((40, 26), CellState::Alive));
        seed.push(((40, 27), CellState::Alive));
        seed.push(((41, 25), CellState::Alive));
        seed.push(((41, 26), CellState::Alive));
        seed.push(((41, 27), CellState::Alive));
        seed.push(((42, 24), CellState::Alive));
        seed.push(((42, 28), CellState::Alive));
        seed.push(((44, 23), CellState::Alive));
        seed.push(((44, 24), CellState::Alive));
        seed.push(((44, 28), CellState::Alive));
        seed.push(((44, 29), CellState::Alive));
        seed.push(((54, 25), CellState::Alive));
        seed.push(((54, 26), CellState::Alive));
        seed.push(((55, 25), CellState::Alive));
        seed.push(((55, 26), CellState::Alive));
        proof {
            assert(seed@ =~= gosper_glider_gun_seed());
        }

        default_grid.update(seed);

        Self { evolution: 0, cell_grid: default_grid }
    }

    /// Advances the board by one generation and increments the generation
    /// counter. Every cell's next state is computed from the pre-step
    /// board; on a well-formed board the step always succeeds.
    pub fn update(&mut self) -> (r: Result<(), OutOfBoundsError>)
        requires
            old(self).spec_grid().wf(),
            old(self).spec_evolution() < u32::MAX,
        ensures
            r is Ok,
            final(self).spec_grid().wf(),
            final(self).spec_grid().spec_size() == old(self).spec_grid().spec_size(),
            final(self).spec_evolution() == old(self).spec_evolution() + 1,
            forall|x: int, y: int|
                0 <= x < old(self).spec_grid().spec_size().0 && 0 <= y < old(
                    self,
                ).spec_grid().spec_size().1 ==> final(self).spec_grid().spec_state_at(x, y)
                    == step_state_at(old(self).spec_grid(), x, y),
    {
        self.evolution = self.evolution + 1;

        let ghost g0 = self.cell_grid;
        let mut delta: Vec<((usize, usize), CellState)> = Vec::new();

        let board_size: (usize, usize) = *self.cell_grid.get_size();
        let w: usize = board_size.0;
        let h: usize = board_size.1;

        let mut i: usize = 0;
        while i < w
            invariant
                self.cell_grid == g0,
                g0.wf(),
                self.spec_evolution() == old(self).spec_evolution() + 1,
                w == g0.spec_size().0,
                h == g0.spec_size().1,
                i <= w,
                forall|x: int, y: int|
                    0 <= x < w && 0 <= y < h ==> delta_state(
                        delta@,
                        (x as usize, y as usize),
                        g0.spec_state_at(x, y),
                    ) == (if x < i {
                        step_state_at(g0, x, y)
                    } else {
                        g0.spec_state_at(x, y)
                    }),
            decreases w - i,
        {
            let mut j: usize = 0;
            while j < h
                invariant
                    self.cell_grid == g0,
                    g0.wf(),
                    self.spec_evolution() == old(self).spec_evolution() + 1,
                    w == g0.spec_size().0,
                    h == g0.spec_size().1,
                    i < w,
                    j <= h,
                    forall|x: int, y: int|
                        0 <= x < w && 0 <= y < h ==> delta_state(
                            delta@,
                            (x as usize, y as usize),
                            g0.spec_state_at(x, y),
                        ) == (if x < i || (x == i && y < j) {
                            step_state_at(g0, x, y)
                        } else {
                            g0.spec_state_at(x, y)
                        }),
                decreases h - j,
            {
                // Compute neighbors at (i, j)
                let neighbors = self.cell_grid.get_neighbors(&(i, j));
                let neighbors = match neighbors {
                    Ok(positions) => positions,
                    Err(error) => {
                        return Err(error);
                    },
                };

                // Count the number of living neighbors against the pre-step
                // board.
                let mut alive: i32 = 0;
                let mut m: usize = 0;
                while m < neighbors.len()
                    invariant
                        self.cell_grid == g0,
                        g0.wf(),
                        neighbors@ == spec_neighbors(g0.spec_size(), (i, j)),
                        neighbors@.len() == 8,
                        m <= 8,
                        0 <= alive <= m,
                        alive as int == count_alive_upto(g0, neighbors@, m as int),
                    decreases neighbors@.len() - m,
                {
                    let indices = neighbors[m];
                    if let Some(neighbor_cell) = self.cell_grid.get_cell(&indices) {
                        match neighbor_cell.get_state() {
                            CellState::Alive => {
                                alive = alive + 1;
                            },
                            CellState::Dead => {},
                        }
                    }
                    m = m + 1;
                }

                // Apply the rule and record any change in the delta.
                let ghost delta0 = delta@;
                self.play(alive, &(i, j), &mut delta);
                proof {
                    reveal(live_neighbors);
                    assert(alive as int == live_neighbors(g0, (i, j)));
                    lemma_delta_step(g0, delta0, delta@, i as int, j as int);
                }
                j = j + 1;
            }
            i = i + 1;
        }

        // Commit the delta: every transition above was computed against the
        // pre-step board.
        self.cell_grid.update(delta);
        Ok(())
    }

    /// The number of generations stepped so far.
    pub fn get_evolution(&self) -> (r: u32)
        ensures
            r == self.spec_evolution(),
    {
        self.evolution
    }

    /// Applies the transition rule to the cell at `current_position` given
    /// its live-neighbor count, and records the new state in `delta` when
    /// it differs from the current one.
    fn play(
        &self,
        living_neighbors: i32,
        current_position: &(usize, usize),
        delta: &mut Vec<((usize, usize), CellState)>,
    )
        requires
            self.cell_grid.wf(),
        ensures
            final(delta)@ == (match spec_play(
                self.cell_grid,
                *current_position,
                living_neighbors as int,
            ) {
                Some(s) => old(delta)@.push((*current_position, s)),
                None => old(delta)@,
            }),
    {
        if living_neighbors < 2 {
            if let Some(cell) = self.cell_grid.get_cell(current_position) {
                match cell.get_state() {
                    CellState::Alive => {
                        delta.push((*current_position, CellState::Dead));
                    },
                    CellState::Dead => {},
                }
            }
        } else if living_neighbors == 2 || living_neighbors == 3 {
            if let Some(cell) = self.cell_grid.get_cell(current_position) {
                match cell.get_state() {
                    CellState::Alive => {},
                    CellState::Dead => {
                        if living_neighbors == 3 {
                            delta.push((*current_position, CellState::Alive));
                        }
                    },
                }
            }
        } else {
            if let Some(cell) = self.cell_grid.get_cell(current_position) {
                match cell.get_state() {
                    CellState::Alive => {
                        delta.push((*current_position, CellState::Dead));
                    },
                    CellState::Dead => {},
                }
            }
        }
    }
}

} // verus!
