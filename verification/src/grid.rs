//! The toroidal board: a total mapping from every in-range coordinate to a
//! cell, position classification into nine topological classes, and
//! Moore-neighborhood derivation under wrap-around boundary conditions.
//!
//! Coordinates are `(x, y)` pairs with `0 <= x < width` and
//! `0 <= y < height`. A board is well formed only when both dimensions are
//! at least 3: on smaller boards a cell could sit on two opposite edges at
//! once and the nine-class partition would not be exhaustive, so such
//! boards are rejected at construction.

use vstd::prelude::*;

use crate::cell::Cell;
use crate::cell::CellState;

verus! {

/// Error reported when a position classification or neighbor derivation is
/// requested for a coordinate outside the board.
#[derive(Debug, Clone)]
pub struct OutOfBoundsError;

/// One step of the Moore neighborhood, carrying the already-wrapped
/// coordinate that the step lands on.
#[derive(Debug)]
pub enum GridDirection {
    Up { x: usize, y: usize },
    Down { x: usize, y: usize },
    Left { x: usize, y: usize },
    Right { x: usize, y: usize },
    UpLeft { x: usize, y: usize },
    UpRight { x: usize, y: usize },
    DownLeft { x: usize, y: usize },
    DownRight { x: usize, y: usize },
}

/// The nine topological classes of an in-range board position.
#[derive(Debug)]
pub enum PositionDescription {
    Center,
    TopBound,
    BottomBound,
    RightBound,
    LeftBound,
    TopLeftCorner,
    TopRightCorner,
    BottomLeftCorner,
    BottomRightCorner,
}

/// Whether coordinate `p` lies on a board of dimensions `size`.
pub open spec fn in_range(size: (usize, usize), p: (usize, usize)) -> bool {
    p.0 < size.0 && p.1 < size.1
}

/// Toroidal wrap of a unit offset: moving by `delta` from `c` along an axis
/// of length `dim` re-enters from the opposite edge instead of leaving the
/// board.
pub open spec fn wrap(c: int, delta: int, dim: int) -> int {
    if c + delta < 0 {
        dim - 1
    } else if c + delta >= dim {
        0
    } else {
        c + delta
    }
}

/// The neighbor of `p` in direction `(dx, dy)` on a board of dimensions
/// `size`, with both axes wrapped toroidally.
pub open spec fn moore_neighbor(
    size: (usize, usize),
    p: (usize, usize),
    dx: int,
    dy: int,
) -> (usize, usize) {
    (
        wrap(p.0 as int, dx, size.0 as int) as usize,
        wrap(p.1 as int, dy, size.1 as int) as usize,
    )
}

/// The class of in-range position `p` on a board of dimensions `size`:
/// corners and edges by comparison with `0` and `dimension - 1`, everything
/// strictly inside as `Center`.
pub open spec fn spec_classify(size: (usize, usize), p: (usize, usize)) -> PositionDescription {
    let w = size.0 as int;
    let h = size.1 as int;
    let x = p.0 as int;
    let y = p.1 as int;
    if x == 0 && 0 < y < h - 1 {
        PositionDescription::LeftBound
    } else if x == w - 1 && 0 < y < h - 1 {
        PositionDescription::RightBound
    } else if 0 < x < w - 1 && y == 0 {
        PositionDescription::BottomBound
    } else if 0 < x < w - 1 && y == h - 1 {
        PositionDescription::TopBound
    } else if x == 0 && y == 0 {
        PositionDescription::BottomLeftCorner
    } else if x == 0 && y == h - 1 {
        PositionDescription::TopLeftCorner
    } else if x == w - 1 && y == h - 1 {
        PositionDescription::TopRightCorner
    } else if x == w - 1 && y == 0 {
        PositionDescription::BottomRightCorner
    } else {
        PositionDescription::Center
    }
}

/// The order in which the search policy visits the eight Moore offsets for
/// each position class: plain offsets first, wrapped ones after.
pub open spec fn class_offsets(c: PositionDescription) -> Seq<(int, int)> {
    match c {
        PositionDescription::Center => seq![
            (0, 1), (0, -1), (-1, 0), (1, 0), (-1, 1), (1, 1), (-1, -1), (1, -1),
        ],
        PositionDescription::TopBound => seq![
            (0, -1), (-1, 0), (1, 0), (-1, -1), (1, -1), (0, 1), (-1, 1), (1, 1),
        ],
        PositionDescription::BottomBound => seq![
            (0, 1), (-1, 0), (1, 0), (-1, 1), (1, 1), (0, -1), (-1, -1), (1, -1),
        ],
        PositionDescription::LeftBound => seq![
            (0, 1), (0, -1), (1, 0), (1, 1), (1, -1), (-1, 0), (-1, 1), (-1, -1),
        ],
        PositionDescription::RightBound => seq![
            (0, 1), (0, -1), (-1, 0), (-1, 1), (-1, -1), (1, 0), (1, 1), (1, -1),
        ],
        PositionDescription::TopRightCorner => seq![
            (0, -1), (-1, 0), (-1, -1), (0, 1), (-1, 1), (1, 1), (1, 0), (1, -1),
        ],
        PositionDescription::TopLeftCorner => seq![
            (0, -1), (1, 0), (1, -1), (0, 1), (-1, 0), (-1, 1), (1, 1), (-1, -1),
        ],
        PositionDescription::BottomRightCorner => seq![
            (0, 1), (-1, 0), (-1, 1), (0, -1), (1, 0), (1, 1), (-1, -1), (1, -1),
        ],
        PositionDescription::BottomLeftCorner => seq![
            (0, 1), (1, 0), (1, 1), (0, -1), (-1, 0), (-1, 1), (-1, -1), (1, -1),
        ],
    }
}

/// The direction value for offset `(dx, dy)` from `p`, carrying the wrapped
/// coordinate it lands on.
pub open spec fn spec_direction(
    size: (usize, usize),
    p: (usize, usize),
    dx: int,
    dy: int,
) -> GridDirection {
    let n = moore_neighbor(size, p, dx, dy);
    if dx == 0 && dy == 1 {
        GridDirection::Up { x: n.0, y: n.1 }
    } else if dx == 0 && dy == -1 {
        GridDirection::Down { x: n.0, y: n.1 }
    } else if dx == -1 && dy == 0 {
        GridDirection::Left { x: n.0, y: n.1 }
    } else if dx == 1 && dy == 0 {
        GridDirection::Right { x: n.0, y: n.1 }
    } else if dx == -1 && dy == 1 {
        GridDirection::UpLeft { x: n.0, y: n.1 }
    } else if dx == 1 && dy == 1 {
        GridDirection::UpRight { x: n.0, y: n.1 }
    } else if dx == -1 && dy == -1 {
        GridDirection::DownLeft { x: n.0, y: n.1 }
    } else {
        GridDirection::DownRight { x: n.0, y: n.1 }
    }
}

/// The coordinate a direction value carries.
pub open spec fn dir_coord(d: GridDirection) -> (usize, usize) {
    match d {
        GridDirection::Up { x, y } => (x, y),
        GridDirection::Down { x, y } => (x, y),
        GridDirection::Left { x, y } => (x, y),
        GridDirection::Right { x, y } => (x, y),
        GridDirection::UpLeft { x, y } => (x, y),
        GridDirection::UpRight { x, y } => (x, y),
        GridDirection::DownLeft { x, y } => (x, y),
        GridDirection::DownRight { x, y } => (x, y),
    }
}

/// The search policy for in-range position `p`: the eight Moore directions
/// in the order fixed by `p`'s class, each carrying its wrapped coordinate.
pub open spec fn spec_search(size: (usize, usize), p: (usize, usize)) -> Seq<GridDirection> {
    let offs = class_offsets(spec_classify(size, p));
    Seq::new(8, |k: int| spec_direction(size, p, offs[k].0, offs[k].1))
}

/// The eight neighbor coordinates of in-range position `p`, in search-policy
/// order, each wrapped toroidally.
#[verifier::opaque]
pub open spec fn spec_neighbors(size: (usize, usize), p: (usize, usize)) -> Seq<(usize, usize)> {
    let offs = class_offsets(spec_classify(size, p));
    Seq::new(8, |k: int| moore_neighbor(size, p, offs[k].0, offs[k].1))
}

/// The defining region of position class `c` on a board of dimensions
/// `size`: the set of coordinates that belong to that class.
pub open spec fn class_region(
    size: (usize, usize),
    p: (usize, usize),
    c: PositionDescription,
) -> bool {
    let w = size.0 as int;
    let h = size.1 as int;
    let x = p.0 as int;
    let y = p.1 as int;
    match c {
        PositionDescription::Center => 0 < x < w - 1 && 0 < y < h - 1,
        PositionDescription::TopBound => 0 < x < w - 1 && y == h - 1,
        PositionDescription::BottomBound => 0 < x < w - 1 && y == 0,
        PositionDescription::RightBound => x == w - 1 && 0 < y < h - 1,
        PositionDescription::LeftBound => x == 0 && 0 < y < h - 1,
        PositionDescription::TopLeftCorner => x == 0 && y == h - 1,
        PositionDescription::TopRightCorner => x == w - 1 && y == h - 1,
        PositionDescription::BottomLeftCorner => x == 0 && y == 0,
        PositionDescription::BottomRightCorner => x == w - 1 && y == 0,
    }
}

/// Law: on a board at least 3 wide and 3 high, the nine position classes
/// partition the in-range coordinate space. Every in-range coordinate lies
/// in the region of the class assigned to it and in no other class's
/// region.
pub proof fn lemma_classification_partitions(size: (usize, usize), p: (usize, usize))
    requires
        size.0 >= 3,
        size.1 >= 3,
        in_range(size, p),
    ensures
        class_region(size, p, spec_classify(size, p)),
        forall|c: PositionDescription| class_region(size, p, c) ==> c == spec_classify(size, p),
{
}

/// Wrapped unit offsets stay on the board.
proof fn lemma_wrap_in_range(c: int, delta: int, dim: int)
    requires
        dim >= 3,
        0 <= c < dim,
        -1 <= delta <= 1,
    ensures
        0 <= wrap(c, delta, dim) < dim,
{
}

/// On an axis of length at least 3, distinct unit offsets from the same
/// in-range coordinate wrap to distinct coordinates.
proof fn lemma_wrap_injective(c: int, d1: int, d2: int, dim: int)
    requires
        dim >= 3,
        0 <= c < dim,
        -1 <= d1 <= 1,
        -1 <= d2 <= 1,
        d1 != d2,
    ensures
        wrap(c, d1, dim) != wrap(c, d2, dim),
{
}

/// On a board at least 3 wide and 3 high, distinct Moore offsets from the
/// same in-range position land on distinct coordinates.
proof fn lemma_moore_injective(
    size: (usize, usize),
    p: (usize, usize),
    dx1: int,
    dy1: int,
    dx2: int,
    dy2: int,
)
    requires
        size.0 >= 3,
        size.1 >= 3,
        in_range(size, p),
        -1 <= dx1 <= 1,
        -1 <= dy1 <= 1,
        -1 <= dx2 <= 1,
        -1 <= dy2 <= 1,
        (dx1, dy1) != (dx2, dy2),
    ensures
        moore_neighbor(size, p, dx1, dy1) != moore_neighbor(size, p, dx2, dy2),
{
    if dx1 != dx2 {
        lemma_wrap_injective(p.0 as int, dx1, dx2, size.0 as int);
    } else {
        lemma_wrap_injective(p.1 as int, dy1, dy2, size.1 as int);
    }
}

/// Whether `q` is a toroidally wrapped Moore offset of `p`: the image of a
/// unit step from `p` in one of the eight directions, wrapped on both axes.
pub open spec fn is_moore_offset_of(size: (usize, usize), p: (usize, usize), q: (usize, usize)) -> bool {
    exists|dx: int, dy: int|
        #![trigger moore_neighbor(size, p, dx, dy)]
        -1 <= dx <= 1 && -1 <= dy <= 1 && !(dx == 0 && dy == 0) && q == moore_neighbor(
            size,
            p,
            dx,
            dy,
        )
}

/// Law: for every in-range coordinate on a board at least 3 wide and 3
/// high, neighbor derivation yields exactly eight pairwise-distinct
/// in-range coordinates; each is a toroidally wrapped Moore offset of the
/// position, and every one of the eight wrapped Moore offsets occurs among
/// them.
#[verifier::rlimit(100)]
#[verifier::spinoff_prover]
pub proof fn lemma_neighbors_toroidal(size: (usize, usize), p: (usize, usize))
    requires
        size.0 >= 3,
        size.1 >= 3,
        in_range(size, p),
    ensures
        spec_neighbors(size, p).len() == 8,
        forall|k: int| 0 <= k < 8 ==> in_range(size, #[trigger] spec_neighbors(size, p)[k]),
        forall|k: int|
            0 <= k < 8 ==> is_moore_offset_of(size, p, #[trigger] spec_neighbors(size, p)[k]),
        forall|dx: int, dy: int|
            -1 <= dx <= 1 && -1 <= dy <= 1 && !(dx == 0 && dy == 0) ==> spec_neighbors(
                size,
                p,
            ).contains(#[trigger] moore_neighbor(size, p, dx, dy)),
        forall|k1: int, k2: int|
            0 <= k1 < k2 < 8 ==> spec_neighbors(size, p)[k1] != spec_neighbors(size, p)[k2],
{
    reveal(spec_neighbors);
    let offs = class_offsets(spec_classify(size, p));
    let ns = spec_neighbors(size, p);
    // Mention every entry of the offset table so that quantifiers over it
    // can be instantiated at each concrete index.
    let o0: (int, int) = offs[0];
    let o1: (int, int) = offs[1];
    let o2: (int, int) = offs[2];
    let o3: (int, int) = offs[3];
    let o4: (int, int) = offs[4];
    let o5: (int, int) = offs[5];
    let o6: (int, int) = offs[6];
    let o7: (int, int) = offs[7];
    assert forall|k: int| 0 <= k < 8 implies -1 <= offs[k].0 <= 1 && -1 <= offs[k].1 <= 1 && !(
    offs[k].0 == 0 && offs[k].1 == 0) by {}
    assert forall|k: int| 0 <= k < 8 implies in_range(size, #[trigger] ns[k]) by {
        lemma_wrap_in_range(p.0 as int, offs[k].0, size.0 as int);
        lemma_wrap_in_range(p.1 as int, offs[k].1, size.1 as int);
    }
    assert forall|k: int| 0 <= k < 8 implies is_moore_offset_of(
        size,
        p,
        #[trigger] spec_neighbors(size, p)[k],
    ) by {
        assert(spec_neighbors(size, p)[k] == moore_neighbor(size, p, offs[k].0, offs[k].1));
    }
    assert forall|dx: int, dy: int|
        -1 <= dx <= 1 && -1 <= dy <= 1 && !(dx == 0 && dy == 0) implies ns.contains(
        #[trigger] moore_neighbor(size, p, dx, dy)) by {
        assert(ns[0] == moore_neighbor(size, p, o0.0, o0.1));
        assert(ns[1] == moore_neighbor(size, p, o1.0, o1.1));
        assert(ns[2] == moore_neighbor(size, p, o2.0, o2.1));
        assert(ns[3] == moore_neighbor(size, p, o3.0, o3.1));
        assert(ns[4] == moore_neighbor(size, p, o4.0, o4.1));
        assert(ns[5] == moore_neighbor(size, p, o5.0, o5.1));
        assert(ns[6] == moore_neighbor(size, p, o6.0, o6.1));
        assert(ns[7] == moore_neighbor(size, p, o7.0, o7.1));
    }
    assert forall|k1: int, k2: int| 0 <= k1 < k2 < 8 implies ns[k1] != ns[k2] by {
        assert(offs[k1] != offs[k2]);
        lemma_moore_injective(size, p, offs[k1].0, offs[k1].1, offs[k2].0, offs[k2].1);
    }
}

/// The state coordinate `p` ends up with after the updates in `d` are
/// merged, in order, into a board where `p` held state `s`: the last entry
/// for `p` wins, and a coordinate no entry names keeps `s`.
pub open spec fn delta_state(
    d: Seq<((usize, usize), CellState)>,
    p: (usize, usize),
    s: CellState,
) -> CellState
    decreases d.len(),
{
    if d.len() == 0 {
        s
    } else if d.last().0 == p {
        d.last().1
    } else {
        delta_state(d.drop_last(), p, s)
    }
}

/// A finite two-dimensional toroidal board holding one cell per coordinate.
///
/// Cells are stored row-major by `x`: the cell at `(x, y)` sits at flat
/// index `x * height + y`.
pub struct Grid {
    size: (usize, usize),
    state: Vec<Cell>,
}

/// `0 <= x * h + y < w * h` for any in-range `(x, y)`.
proof fn lemma_flat_index_bounds(x: int, y: int, w: int, h: int)
    requires
        0 <= x < w,
        0 <= y < h,
    ensures
        0 <= x * h + y < w * h,
{
    assert(0 <= x * h + y < w * h) by (nonlinear_arith)
        requires
            0 <= x < w,
            0 <= y < h,
    ;
}

/// Distinct in-range coordinates have distinct flat indices.
proof fn lemma_flat_index_injective(x1: int, y1: int, x2: int, y2: int, h: int)
    requires
        0 <= x1,
        0 <= x2,
        0 <= y1 < h,
        0 <= y2 < h,
        x1 * h + y1 == x2 * h + y2,
    ensures
        x1 == x2 && y1 == y2,
{
    assert(x1 == x2 && y1 == y2) by (nonlinear_arith)
        requires
            0 <= x1,
            0 <= x2,
            0 <= y1 < h,
            0 <= y2 < h,
            x1 * h + y1 == x2 * h + y2,
    ;
}

impl Clone for Grid {
    /// A clone has the same dimensions and the same cell for every
    /// coordinate as the original.
    fn clone(&self) -> (r: Self)
        ensures
            self.wf() ==> r.wf(),
            r.spec_size() == self.spec_size(),
            forall|x: int, y: int| r.spec_cell_at(x, y) == self.spec_cell_at(x, y),
    {
        let r = Grid { size: self.size, state: self.state.clone() };
        proof {
            assert forall|n: int| 0 <= n < self.state@.len() implies r.state@[n]
                == self.state@[n] by {
                assert(cloned::<Cell>(self.state@[n], r.state@[n]));
            }
            assert(r.state@ =~= self.state@);
            if self.wf() {
                assert forall|x: int, y: int|
                    0 <= x < r.size.0 && 0 <= y < r.size.1 implies (#[trigger] r.spec_cell_at(
                    x,
                    y,
                )).pos == (x as usize, y as usize) by {
                    assert(self.spec_cell_at(x, y).pos == (x as usize, y as usize));
                }
                assert(r.wf());
            }
        }
        r
    }
}

impl Grid {
    /// The cell stored for coordinate `(x, y)`.
    pub closed spec fn spec_cell_at(self, x: int, y: int) -> Cell {
        self.state@[x * (self.size.1 as int) + y]
    }

    /// The life state stored for coordinate `(x, y)`.
    pub closed spec fn spec_state_at(self, x: int, y: int) -> CellState {
        self.spec_cell_at(x, y).state
    }

    /// The board's dimensions.
    pub closed spec fn spec_size(self) -> (usize, usize) {
        self.size
    }

    /// Well-formedness: both dimensions at least 3, the flat coordinate
    /// space fits in a machine word, the cell store covers every coordinate
    /// exactly once, and each cell records the coordinate it is stored
    /// under.
    pub closed spec fn wf(self) -> bool {
        &&& self.size.0 >= 3
        &&& self.size.1 >= 3
        &&& self.size.0 * self.size.1 <= usize::MAX
        &&& self.state@.len() == self.size.0 * self.size.1
        &&& forall|x: int, y: int|
            0 <= x < self.size.0 && 0 <= y < self.size.1 ==> (#[trigger] self.spec_cell_at(
                x,
                y,
            )).pos == (x as usize, y as usize)
    }

    /// Builds a board of the given dimensions with every cell `Dead`.
    ///
    /// Defined only for boards of at least 3 in both dimensions (the
    /// nine-class partition is not exhaustive below that) whose coordinate
    /// space fits in a machine word.
    pub fn new(size: (usize, usize)) -> (r: Self)
        requires
            size.0 >= 3,
            size.1 >= 3,
            size.0 * size.1 <= usize::MAX,
        ensures
            r.wf(),
            r.spec_size() == size,
            forall|x: int, y: int|
                0 <= x < size.0 && 0 <= y < size.1 ==> r.spec_state_at(x, y)
                    == CellState::Dead,
    {
        let mut g = Grid { size, state: Vec::new() };
        let mut i: usize = 0;
        while i < size.0
            invariant
                g.size == size,
                size.0 >= 3,
                size.1 >= 3,
                size.0 * size.1 <= usize::MAX,
                i <= size.0,
                g.state@.len() == i * size.1,
                forall|x: int, y: int|
                    0 <= x < i && 0 <= y < size.1 ==> (#[trigger] g.spec_cell_at(x, y)).pos == (
                    x as usize,
                    y as usize,
                ) && g.spec_cell_at(x, y).state == CellState::Dead,
            decreases size.0 - i,
        {
            let mut j: usize = 0;
            while j < size.1
                invariant
                    g.size == size,
                    size.0 >= 3,
                    size.1 >= 3,
                    size.0 * size.1 <= usize::MAX,
                    i < size.0,
                    j <= size.1,
                    g.state@.len() == i * size.1 + j,
                    forall|x: int, y: int|
                        (0 <= x < i && 0 <= y < size.1) || (x == i && 0 <= y < j) ==> (
                        #[trigger] g.spec_cell_at(x, y)).pos == (x as usize, y as usize)
                            && g.spec_cell_at(x, y).state == CellState::Dead,
                decreases size.1 - j,
            {
                proof {
                    lemma_flat_index_bounds(i as int, j as int, size.0 as int, size.1 as int);
                }
                let ghost g0 = g;
                g.state.push(Cell::new(CellState::Dead, (i, j)));
                proof {
                    let h = size.1 as int;
                    assert forall|x: int, y: int|
                        (0 <= x < i && 0 <= y < size.1) || (x == i && 0 <= y < j + 1) implies (
                    #[trigger] g.spec_cell_at(x, y)).pos == (x as usize, y as usize)
                        && g.spec_cell_at(x, y).state == CellState::Dead by {
                        if x == i && y == j {
                            assert(g.spec_cell_at(x, y) == g.state@[i * h + j]);
                        } else {
                            if x < i {
                                assert(x * h + y < i * h + j) by (nonlinear_arith)
                                    requires
                                        0 <= x < i,
                                        0 <= y < h,
                                        0 <= j,
                                ;
                            }
                            assert(g.spec_cell_at(x, y) == g0.spec_cell_at(x, y));
                        }
                    }
                }
                j = j + 1;
            }
            proof {
                assert((i + 1) * (size.1 as int) == i * (size.1 as int) + (size.1 as int))
                    by (nonlinear_arith);
            }
            i = i + 1;
        }
        g
    }

    /// The board's dimensions, `(width, height)`.
    pub fn get_size(&self) -> (r: &(usize, usize))
        ensures
            *r == self.spec_size(),
    {
        &self.size
    }

    /// The cell stored at `position`: `Some` exactly for in-range
    /// coordinates, `None` otherwise.
    pub fn get_cell(&self, position: &(usize, usize)) -> (r: Option<&Cell>)
        requires
            self.wf(),
        ensures
            match r {
                Some(c) => in_range(self.spec_size(), *position) && *c == self.spec_cell_at(
                    position.0 as int,
                    position.1 as int,
                ) && c.state == self.spec_state_at(position.0 as int, position.1 as int) && c.pos
                    == *position,
                None => !in_range(self.spec_size(), *position),
            },
    {
        if position.0 < self.size.0 && position.1 < self.size.1 {
            proof {
                lemma_flat_index_bounds(
                    position.0 as int,
                    position.1 as int,
                    self.size.0 as int,
                    self.size.1 as int,
                );
            }
            let idx: usize = position.0 * self.size.1 + position.1;
            Some(&self.state[idx])
        } else {
            None
        }
    }

    /// Classifies `position` into one of the nine topological classes, or
    /// reports `OutOfBoundsError` exactly when the coordinate lies outside
    /// the board.
    pub fn get_position_description(&self, position: &(usize, usize)) -> (r: Result<
        PositionDescription,
        OutOfBoundsError,
    >)
        requires
            self.wf(),
        ensures
            r is Ok <==> in_range(self.spec_size(), *position),
            r matches Ok(d) ==> d == spec_classify(self.spec_size(), *position),
    {
        let description: PositionDescription;

        if position.0 == 0 && position.1 < (self.size.1 - 1) && position.1 > 0 {
            description = PositionDescription::LeftBound;
        } else if position.0 == (self.size.0 - 1) && position.1 < (self.size.1 - 1)
            && position.1 > 0 {
            description = PositionDescription::RightBound;
        } else if position.0 < (self.size.0 - 1) && position.0 > 0 && position.1 == 0 {
            description = PositionDescription::BottomBound;
        } else if position.0 < (self.size.0 - 1) && position.0 > 0 && position.1 == (self.size.1
            - 1) {
            description = PositionDescription::TopBound;
        } else if position.0 == 0 && position.1 == 0 {
            description = PositionDescription::BottomLeftCorner;
        } else if position.0 == 0 && position.1 == (self.size.1 - 1) {
            description = PositionDescription::TopLeftCorner;
        } else if position.0 == (self.size.0 - 1) && position.1 == (self.size.1 - 1) {
            description = PositionDescription::TopRightCorner;
        } else if position.0 == (self.size.0 - 1) && position.1 == 0 {
            description = PositionDescription::BottomRightCorner;
        } else if position.0 > 0 && position.0 < (self.size.0 - 1) && position.1 > 0 && position.1
            < (self.size.1 - 1) {
            description = PositionDescription::Center;
        } else {
            return Err(OutOfBoundsError);
        }

        Ok(description)
    }

    /// The search policy: the eight Moore directions from `position`, each
    /// carrying the wrapped coordinate it lands on, in the order fixed by
    /// the position's class. Reports `OutOfBoundsError` exactly when the
    /// coordinate lies outside the board.
    pub fn search_policy(&self, position: &(usize, usize)) -> (r: Result<
        Vec<GridDirection>,
        OutOfBoundsError,
    >)
        requires
            self.wf(),
        ensures
            r is Ok <==> in_range(self.spec_size(), *position),
            r matches Ok(s) ==> s@ == spec_search(self.spec_size(), *position),
    {
        let search: Vec<GridDirection>;
        let mut dimensions = *self.get_size();
        dimensions.0 = dimensions.0 - 1;
        dimensions.1 = dimensions.1 - 1;

        let description = match self.get_position_description(position) {
            Ok(description) => description,
            Err(error) => {
                return Err(error);
            },
        };

        match description {
            PositionDescription::Center => {
                search = vec![
                    GridDirection::Up { x: position.0, y: position.1 + 1 },
                    GridDirection::Down { x: position.0, y: position.1 - 1 },
                    GridDirection::Left { x: position.0 - 1, y: position.1 },
                    GridDirection::Right { x: position.0 + 1, y: position.1 },
                    GridDirection::UpLeft { x: position.0 - 1, y: position.1 + 1 },
                    GridDirection::UpRight { x: position.0 + 1, y: position.1 + 1 },
                    GridDirection::DownLeft { x: position.0 - 1, y: position.1 - 1 },
                    GridDirection::DownRight { x: position.0 + 1, y: position.1 - 1 },
                ];
            },
            PositionDescription::TopBound => {
                search = vec![
                    GridDirection::Down { x: position.0, y: position.1 - 1 },
                    GridDirection::Left { x: position.0 - 1, y: position.1 },
                    GridDirection::Right { x: position.0 + 1, y: position.1 },
                    GridDirection::DownLeft { x: position.0 - 1, y: position.1 - 1 },
                    GridDirection::DownRight { x: position.0 + 1, y: position.1 - 1 },
                    // wrap around
                    GridDirection::Up { x: position.0, y: 0 },
                    GridDirection::UpLeft { x: position.0 - 1, y: 0 },
                    GridDirection::UpRight { x: position.0 + 1, y: 0 },
                ];
            },
            PositionDescription::BottomBound => {
                search = vec![
                    GridDirection::Up { x: position.0, y: position.1 + 1 },
                    GridDirection::Left { x: position.0 - 1, y: position.1 },
                    GridDirection::Right { x: position.0 + 1, y: position.1 },
                    GridDirection::UpLeft { x: position.0 - 1, y: position.1 + 1 },
                    GridDirection::UpRight { x: position.0 + 1, y: position.1 + 1 },
                    // wrap around
                    GridDirection::Down { x: position.0, y: dimensions.1 },
                    GridDirection::DownLeft { x: position.0 - 1, y: dimensions.1 },
                    GridDirection::DownRight { x: position.0 + 1, y: dimensions.1 },
                ];
            },
            PositionDescription::LeftBound => {
                search = vec![
                    GridDirection::Up { x: position.0, y: position.1 + 1 },
                    GridDirection::Down { x: position.0, y: position.1 - 1 },
                    GridDirection::Right { x: position.0 + 1, y: position.1 },
                    GridDirection::UpRight { x: position.0 + 1, y: position.1 + 1 },
                    GridDirection::DownRight { x: position.0 + 1, y: position.1 - 1 },
                    // wrap around
                    GridDirection::Left { x: dimensions.0, y: position.1 },
                    GridDirection::UpLeft { x: dimensions.0, y: position.1 + 1 },
                    GridDirection::DownLeft { x: dimensions.0, y: position.1 - 1 },
                ];
            },
            PositionDescription::RightBound => {
                search = vec![
                    GridDirection::Up { x: position.0, y: position.1 + 1 },
                    GridDirection::Down { x: position.0, y: position.1 - 1 },
                    GridDirection::Left { x: position.0 - 1, y: position.1 },
                    GridDirection::UpLeft { x: position.0 - 1, y: position.1 + 1 },
                    GridDirection::DownLeft { x: position.0 - 1, y: position.1 - 1 },
                    // wrap around
                    GridDirection::Right { x: 0, y: position.1 },
                    GridDirection::UpRight { x: 0, y: position.1 + 1 },
                    GridDirection::DownRight { x: 0, y: position.1 - 1 },
                ];
            },
            PositionDescription::TopRightCorner => {
                search = vec![
                    GridDirection::Down { x: position.0, y: position.1 - 1 },
                    GridDirection::Left { x: position.0 - 1, y: position.1 },
                    GridDirection::DownLeft { x: position.0 - 1, y: position.1 - 1 },
                    // wrap around
                    GridDirection::Up { x: position.0, y: 0 },
                    GridDirection::UpLeft { x: position.0 - 1, y: 0 },
                    GridDirection::UpRight { x: 0, y: 0 },
                    GridDirection::Right { x: 0, y: position.1 },
                    GridDirection::DownRight { x: 0, y: position.1 - 1 },
                ];
            },
            PositionDescription::TopLeftCorner => {
                search = vec![
                    GridDirection::Down { x: position.0, y: position.1 - 1 },
                    GridDirection::Right { x: position.0 + 1, y: position.1 },
                    GridDirection::DownRight { x: position.0 + 1, y: position.1 - 1 },
                    // wrap around
                    GridDirection::Up { x: position.0, y: 0 },
                    GridDirection::Left { x: dimensions.0, y: position.1 },
                    GridDirection::UpLeft { x: dimensions.0, y: 0 },
                    GridDirection::UpRight { x: position.0 + 1, y: 0 },
                    GridDirection::DownLeft { x: dimensions.0, y: position.1 - 1 },
                ];
            },
            PositionDescription::BottomRightCorner => {
                search = vec![
                    GridDirection::Up { x: position.0, y: position.1 + 1 },
                    GridDirection::Left { x: position.0 - 1, y: position.1 },
                    GridDirection::UpLeft { x: position.0 - 1, y: position.1 + 1 },
                    // wrap around
                    GridDirection::Down { x: position.0, y: dimensions.1 },
                    GridDirection::Right { x: 0, y: position.1 },
                    GridDirection::UpRight { x: 0, y: position.1 + 1 },
                    GridDirection::DownLeft { x: position.0 - 1, y: dimensions.1 },
                    GridDirection::DownRight { x: 0, y: dimensions.1 },
                ];
            },
            PositionDescription::BottomLeftCorner => {
                search = vec![
                    GridDirection::Up { x: position.0, y: position.1 + 1 },
                    GridDirection::Right { x: position.0 + 1, y: position.1 },
                    GridDirection::UpRight { x: position.0 + 1, y: position.1 + 1 },
                    // wrap around
                    GridDirection::Down { x: position.0, y: dimensions.1 },
                    GridDirection::Left { x: dimensions.0, y: position.1 },
                    GridDirection::UpLeft { x: dimensions.0, y: position.1 + 1 },
                    GridDirection::DownLeft { x: dimensions.0, y: dimensions.1 },
                    GridDirection::DownRight { x: position.0 + 1, y: dimensions.1 },
                ];
            },
        }

        proof {
            assert(search@ =~= spec_search(self.spec_size(), *position));
        }
        Ok(search)
    }

    /// The eight neighbor coordinates of `position` under toroidal wrap, in
    /// search-policy order. Reports `OutOfBoundsError` exactly when the
    /// coordinate lies outside the board.
    pub fn get_neighbors(&self, position: &(usize, usize)) -> (r: Result<
        Vec<(usize, usize)>,
        OutOfBoundsError,
    >)
        requires
            self.wf(),
        ensures
            r is Ok <==> in_range(self.spec_size(), *position),
            r matches Ok(v) ==> v@ == spec_neighbors(self.spec_size(), *position) && v@.len()
                == 8,
    {
        let mut neighbors: Vec<(usize, usize)> = Vec::new();

        let search = match self.search_policy(position) {
            Ok(search) => search,
            Err(error) => {
                return Err(error);
            },
        };

        let mut k: usize = 0;
        while k < search.len()
            invariant
                search@ == spec_search(self.spec_size(), *position),
                k <= search@.len(),
                neighbors@.len() == k,
                forall|m: int| 0 <= m < k ==> neighbors@[m] == dir_coord(search@[m]),
            decreases search@.len() - k,
        {
            match &search[k] {
                GridDirection::Up { x, y } => {
                    neighbors.push((*x, *y));
                },
                GridDirection::Down { x, y } => {
                    neighbors.push((*x, *y));
                },
                GridDirection::Left { x, y } => {
                    neighbors.push((*x, *y));
                },
                GridDirection::Right { x, y } => {
                    neighbors.push((*x, *y));
                },
                GridDirection::UpLeft { x, y } => {
                    neighbors.push((*x, *y));
                },
                GridDirection::UpRight { x, y } => {
                    neighbors.push((*x, *y));
                },
                GridDirection::DownLeft { x, y } => {
                    neighbors.push((*x, *y));
                },
                GridDirection::DownRight { x, y } => {
                    neighbors.push((*x, *y));
                },
            }
            k = k + 1;
        }

        proof {
            reveal(spec_neighbors);
            assert forall|m: int| 0 <= m < 8 implies spec_neighbors(self.spec_size(), *position)[m]
                == dir_coord(spec_search(self.spec_size(), *position)[m]) by {}
            assert(neighbors@ =~= spec_neighbors(self.spec_size(), *position));
        }
        Ok(neighbors)
    }

    /// Merges the given coordinate-to-state updates into the board, in
    /// order. Coordinates not named keep their state; out-of-range entries
    /// are silently ignored.
    pub fn update(&mut self, updated_cells: Vec<((usize, usize), CellState)>)
        requires
            old(self).wf(),
        ensures
            final(self).wf(),
            final(self).spec_size() == old(self).spec_size(),
            forall|x: int, y: int|
                0 <= x < old(self).spec_size().0 && 0 <= y < old(self).spec_size().1
                    ==> final(self).spec_state_at(x, y) == delta_state(
                    updated_cells@,
                    (x as usize, y as usize),
                    old(self).spec_state_at(x, y),
                ),
    {
        let ghost d = updated_cells@;
        let mut k: usize = 0;
        while k < updated_cells.len()
            invariant
                self.wf(),
                self.spec_size() == old(self).spec_size(),
                d == updated_cells@,
                k <= d.len(),
                forall|x: int, y: int|
                    0 <= x < self.spec_size().0 && 0 <= y < self.spec_size().1 ==> self
                        .spec_state_at(x, y) == delta_state(
                        d.take(k as int),
                        (x as usize, y as usize),
                        old(self).spec_state_at(x, y),
                    ),
            decreases d.len() - k,
        {
            let position = updated_cells[k].0;
            let new_state = updated_cells[k].1;
            let ghost s0 = *self;
            if position.0 < self.size.0 && position.1 < self.size.1 {
                proof {
                    lemma_flat_index_bounds(
                        position.0 as int,
                        position.1 as int,
                        self.size.0 as int,
                        self.size.1 as int,
                    );
                }
                let idx: usize = position.0 * self.size.1 + position.1;
                let pos = *self.state[idx].get_position();
                self.state.set(idx, Cell::new(new_state, pos));
            }
            proof {
                assert(d.take(k as int + 1).drop_last() =~= d.take(k as int));
                let h = self.size.1 as int;
                assert forall|x: int, y: int|
                    0 <= x < self.spec_size().0 && 0 <= y < self.spec_size().1 implies {
                    &&& (#[trigger] self.spec_cell_at(x, y)).pos == (x as usize, y as usize)
                    &&& self.spec_state_at(x, y) == delta_state(
                        d.take(k as int + 1),
                        (x as usize, y as usize),
                        old(self).spec_state_at(x, y),
                    )
                } by {
                    lemma_flat_index_bounds(x, y, self.size.0 as int, self.size.1 as int);
                    let p = (x as usize, y as usize);
                    assert(s0.spec_state_at(x, y) == delta_state(
                        d.take(k as int),
                        p,
                        old(self).spec_state_at(x, y),
                    ));
                    assert(d.take(k as int + 1).last() == d[k as int]);
                    if in_range(self.spec_size(), position) {
                        assert(s0.spec_cell_at(position.0 as int, position.1 as int).pos
                            == position);
                        if (x as usize, y as usize) != position {
                            if x * h + y == position.0 as int * h + position.1 as int {
                                lemma_flat_index_injective(
                                    x,
                                    y,
                                    position.0 as int,
                                    position.1 as int,
                                    h,
                                );
                            }
                            assert(self.spec_cell_at(x, y) == s0.spec_cell_at(x, y));
                        }
                    } else {
                        assert(self.spec_cell_at(x, y) == s0.spec_cell_at(x, y));
                    }
                }
                assert(self.wf());
            }
            k = k + 1;
        }
        proof {
            assert(d.take(d.len() as int) =~= d);
        }
    }

    /// The characters that render row `j` of the board: `'x'` for a live
    /// cell and `'-'` for a dead one, indexed by `x` coordinate.
    pub fn row_chars(&self, j: usize) -> (r: Vec<char>)
        requires
            self.wf(),
            j < self.spec_size().1,
        ensures
            r@.len() == self.spec_size().0,
            forall|i: int|
                0 <= i < self.spec_size().0 ==> r@[i] == (if self.spec_state_at(i, j as int)
                    == CellState::Alive {
                    'x'
                } else {
                    '-'
                }),
    {
        let mut x_chars: Vec<char> = Vec::new();
        let mut i: usize = 0;
        while i < self.size.0
            invariant
                self.wf(),
                j < self.spec_size().1,
                i <= self.spec_size().0,
                x_chars@.len() == i,
                forall|m: int|
                    0 <= m < i ==> x_chars@[m] == (if self.spec_state_at(m, j as int)
                        == CellState::Alive {
                        'x'
                    } else {
                        '-'
                    }),
            decreases self.spec_size().0 - i,
        {
            if let Some(cell) = self.get_cell(&(i, j)) {
                match cell.get_state() {
                    CellState::Alive => x_chars.push('x'),
                    CellState::Dead => x_chars.push('-'),
                }
            } else {
                x_chars.push('-');
            }
            i = i + 1;
        }
        x_chars
    }
}

} // verus!

