//! The cellular automaton: a grid of cells and the Game-of-Life
//! transition rule.

use vstd::prelude::*;

verus! {

/// The state of one grid position.
#[derive(Clone, Copy, PartialEq, Eq, Structural, Debug)]
pub enum CellStatus {
    Alive,
    Dead,
}

/// One cell of the grid; it has no identity beyond its state.
#[derive(Clone, Copy, PartialEq, Eq, Structural, Debug)]
pub struct Cell {
    pub status: CellStatus,
}

impl Cell {
    pub fn new(status: CellStatus) -> (c: Cell)
        ensures
            c.status == status,
    {
        Cell { status }
    }
}

/// 1 for a live cell, 0 for anything else; the unit of a neighbor count.
pub open spec fn count_if_alive(alive: bool) -> int {
    if alive {
        1
    } else {
        0
    }
}

/// The standard Game-of-Life transition for one cell: a live cell
/// survives with two or three live neighbors, a dead cell is born with
/// exactly three, and every other cell is dead in the next generation.
pub open spec fn next_status(s: CellStatus, alive_neighbors: int) -> CellStatus {
    match s {
        CellStatus::Alive => if 2 <= alive_neighbors <= 3 {
            CellStatus::Alive
        } else {
            CellStatus::Dead
        },
        CellStatus::Dead => if alive_neighbors == 3 {
            CellStatus::Alive
        } else {
            CellStatus::Dead
        },
    }
}

/// Relies on rand::random::<bool>: draws one boolean, uniformly at
/// random, from the thread-local generator. Nothing can be promised of
/// the outcome.
#[verifier::external_body]
fn random_alive() -> bool {
    rand::random::<bool>()
}

/// A grid of `width * height` cells at one generation, stored row-major:
/// the cell at `(x, y)` sits at flat index `y * width + x`.
pub struct Board {
    pub width: u32,
    pub height: u32,
    pub cells: Vec<Cell>,
}

/// `post` is the generation that follows `pre`: same dimensions, and
/// every cell obeys the transition rule applied to `pre`.
pub open spec fn next_generation(pre: Board, post: Board) -> bool {
    &&& post.width == pre.width
    &&& post.height == pre.height
    &&& post.cells@.len() == pre.cells@.len()
    &&& forall|i: int|
        0 <= i < pre.cells@.len() ==> post.cells@[i].status == next_status(
            pre.cells@[i].status,
            pre.neighbors_alive(i % pre.width as int, i / pre.width as int),
        )
}

impl Board {
    /// The structural invariant: the flat storage holds exactly one cell
    /// per grid position, and the cell count fits the `u32` index type.
    pub open spec fn wf(self) -> bool {
        &&& self.cells@.len() == self.width * self.height
        &&& self.width * self.height <= u32::MAX
    }

    /// `(x, y)` lies on the grid. Neighbors that fall outside contribute
    /// nothing to a count: edges do not wrap.
    pub open spec fn in_bounds(self, x: int, y: int) -> bool {
        &&& 0 <= x < self.width
        &&& 0 <= y < self.height
    }

    /// The state stored for the on-grid position `(x, y)`.
    pub open spec fn status_at(self, x: int, y: int) -> CellStatus {
        self.cells@[y * self.width + x].status
    }

    /// `(x, y)` is on the grid and holds a live cell.
    pub open spec fn alive_at(self, x: int, y: int) -> bool {
        self.in_bounds(x, y) && self.status_at(x, y) is Alive
    }

    /// How many of the eight Moore neighbors of `(x, y)` are live cells.
    pub open spec fn neighbors_alive(self, x: int, y: int) -> int {
        count_if_alive(self.alive_at(x - 1, y - 1)) + count_if_alive(self.alive_at(x, y - 1))
            + count_if_alive(self.alive_at(x + 1, y - 1)) + count_if_alive(self.alive_at(x - 1, y))
            + count_if_alive(self.alive_at(x + 1, y)) + count_if_alive(self.alive_at(x - 1, y + 1))
            + count_if_alive(self.alive_at(x, y + 1)) + count_if_alive(self.alive_at(x + 1, y + 1))
    }

    /// Every cell of the board is dead.
    pub open spec fn all_dead(self) -> bool {
        forall|i: int| 0 <= i < self.cells@.len() ==> self.cells@[i].status is Dead
    }

    /// A new board with every cell dead.
    pub fn new_empty(width: u32, height: u32) -> (b: Board)
        requires
            width * height <= u32::MAX,
        ensures
            b.wf(),
            b.width == width,
            b.height == height,
            b.all_dead(),
    {
        let total: u32 = width * height;
        let mut cells: Vec<Cell> = Vec::new();
        let mut i: u32 = 0;
        while i < total
            invariant
                i <= total,
                cells@.len() == i,
                forall|j: int| 0 <= j < cells@.len() ==> cells@[j].status is Dead,
            decreases total - i,
        {
            cells.push(Cell::new(CellStatus::Dead));
            i = i + 1;
        }
        Board { width, height, cells }
    }

    /// A new board whose cells are drawn independently at random, each
    /// alive or dead with equal probability.
    pub fn new(width: u32, height: u32) -> (b: Board)
        requires
            width * height <= u32::MAX,
        ensures
            b.wf(),
            b.width == width,
            b.height == height,
    {
        let total: u32 = width * height;
        let mut cells: Vec<Cell> = Vec::new();
        let mut i: u32 = 0;
        while i < total
            invariant
                i <= total,
                cells@.len() == i,
            decreases total - i,
        {
            let status = if random_alive() {
                CellStatus::Alive
            } else {
                CellStatus::Dead
            };
            cells.push(Cell::new(status));
            i = i + 1;
        }
        Board { width, height, cells }
    }

    /// A board with the given dimensions whose cells take the given
    /// states, row-major; `None` when the count does not match the
    /// dimensions or overruns the `u32` index type.
    pub fn from_statuses(width: u32, height: u32, statuses: Vec<CellStatus>) -> (r: Option<Board>)
        ensures
            match r {
                Some(b) => {
                    &&& statuses@.len() == width * height
                    &&& width * height <= u32::MAX
                    &&& b.wf()
                    &&& b.width == width
                    &&& b.height == height
                    &&& forall|i: int|
                        0 <= i < statuses@.len() ==> b.cells@[i].status == statuses@[i]
                },
                None => statuses@.len() != width * height || width * height > u32::MAX,
            },
    {
        proof {
            assert((width as int) * (height as int) <= (u32::MAX as int) * (u32::MAX as int))
                by (nonlinear_arith)
                requires
                    width <= u32::MAX,
                    height <= u32::MAX,
            ;
        }
        let total: u64 = (width as u64) * (height as u64);
        if total > (u32::MAX as u64) {
            return None;
        }
        if (statuses.len() as u64) != total {
            return None;
        }
        let mut cells: Vec<Cell> = Vec::new();
        let mut i: usize = 0;
        while i < statuses.len()
            invariant
                i <= statuses@.len(),
                cells@.len() == i,
                forall|j: int| 0 <= j < cells@.len() ==> cells@[j].status == statuses@[j],
            decreases statuses@.len() - i,
        {
            cells.push(Cell::new(statuses[i]));
            i = i + 1;
        }
        Some(Board { width, height, cells })
    }

    /// The state at `(x, y)`, or `None` for a position off the grid.
    pub fn get_cell_status(&self, x: i64, y: i64) -> (r: Option<CellStatus>)
        requires
            self.wf(),
        ensures
            self.in_bounds(x as int, y as int) ==> r == Some(self.status_at(x as int, y as int)),
            !self.in_bounds(x as int, y as int) ==> r is None,
    {
        if x < 0 || x >= (self.width as i64) {
            return None;
        }
        if y < 0 || y >= (self.height as i64) {
            return None;
        }
        let n: usize = self.cells.len();
        proof {
            assert((y as int) * (self.width as int) + (x as int) < (self.width as int) * (
            self.height as int)) by (nonlinear_arith)
                requires
                    0 <= (x as int) < (self.width as int),
                    0 <= (y as int) < (self.height as int),
            ;
        }
        let i: usize = (y as usize) * (self.width as usize) + (x as usize);
        Some(self.cells[i].status)
    }

    /// 1 if `(x, y)` is on the grid and live, 0 otherwise.
    fn alive_contribution(&self, x: i64, y: i64) -> (r: u32)
        requires
            self.wf(),
        ensures
            r == count_if_alive(self.alive_at(x as int, y as int)),
    {
        match self.get_cell_status(x, y) {
            Some(CellStatus::Alive) => 1,
            _ => 0,
        }
    }

    /// The number of live Moore neighbors of the cell at flat index
    /// `idx`, taking `(x, y) = (idx % width, idx / width)`. Positions off
    /// the grid are simply absent and add nothing.
    pub fn neighbors_alive_count(&self, idx: u32) -> (count: u32)
        requires
            self.wf(),
            self.width > 0,
        ensures
            count == self.neighbors_alive((idx % self.width) as int, (idx / self.width) as int),
    {
        let x: i64 = (idx % self.width) as i64;
        let y: i64 = (idx / self.width) as i64;
        let mut count: u32 = 0;
        count = count + self.alive_contribution(x - 1, y - 1);
        count = count + self.alive_contribution(x, y - 1);
        count = count + self.alive_contribution(x + 1, y - 1);
        count = count + self.alive_contribution(x - 1, y);
        count = count + self.alive_contribution(x + 1, y);
        count = count + self.alive_contribution(x - 1, y + 1);
        count = count + self.alive_contribution(x, y + 1);
        count = count + self.alive_contribution(x + 1, y + 1);
        count
    }

    /// The next generation: a fresh board of the same dimensions with
    /// the transition rule applied to every cell. The receiver is left
    /// untouched, so a caller always observes one consistent generation.
    pub fn turn(&self) -> (next: Board)
        requires
            self.wf(),
        ensures
            next.wf(),
            next.width == self.width,
            next.height == self.height,
            next_generation(*self, next),
    {
        let n: usize = self.cells.len();
        let mut cells: Vec<Cell> = Vec::new();
        let mut idx: usize = 0;
        while idx < n
            invariant
                self.wf(),
                n == self.cells@.len(),
                idx <= n,
                cells@.len() == idx,
                forall|i: int|
                    0 <= i < idx ==> cells@[i].status == next_status(
                        self.cells@[i].status,
                        self.neighbors_alive(i % self.width as int, i / self.width as int),
                    ),
            decreases n - idx,
        {
            let nc: u32 = self.neighbors_alive_count(idx as u32);
            let status = if self.cells[idx].status == CellStatus::Alive {
                if nc < 2 || nc > 3 {
                    CellStatus::Dead
                } else {
                    CellStatus::Alive
                }
            } else if nc == 3 {
                CellStatus::Alive
            } else {
                CellStatus::Dead
            };
            cells.push(Cell::new(status));
            idx = idx + 1;
        }
        Board { width: self.width, height: self.height, cells }
    }
}

/// On a board whose cells are all dead no position is a live cell;
/// in particular an off-grid position never is.
proof fn lemma_all_dead_not_alive(b: Board, x: int, y: int)
    requires
        b.wf(),
        b.all_dead(),
    ensures
        !b.alive_at(x, y),
{
    if b.in_bounds(x, y) {
        assert(0 <= y * (b.width as int) + x < (b.width as int) * (b.height as int))
            by (nonlinear_arith)
            requires
                0 <= x < b.width as int,
                0 <= y < b.height as int,
        ;
    }
}

/// A neighbor count only ever draws on positions inside the grid: on a
/// board whose cells are all dead, the count is 0 at every position
/// whatever, of any board size, because each of the eight lookups
/// either falls off the grid (and is absent) or finds a dead cell.
pub proof fn lemma_all_dead_no_live_neighbors(b: Board, x: int, y: int)
    requires
        b.wf(),
        b.all_dead(),
    ensures
        b.neighbors_alive(x, y) == 0,
{
    lemma_all_dead_not_alive(b, x - 1, y - 1);
    lemma_all_dead_not_alive(b, x, y - 1);
    lemma_all_dead_not_alive(b, x + 1, y - 1);
    lemma_all_dead_not_alive(b, x - 1, y);
    lemma_all_dead_not_alive(b, x + 1, y);
    lemma_all_dead_not_alive(b, x - 1, y + 1);
    lemma_all_dead_not_alive(b, x, y + 1);
    lemma_all_dead_not_alive(b, x + 1, y + 1);
}

/// Stability of the empty board: a generation in which every cell is
/// dead is followed by one in which every cell is dead — no cell is
/// born without exactly three live neighbors.
pub proof fn lemma_dead_board_stays_dead(pre: Board, post: Board)
    requires
        pre.wf(),
        pre.all_dead(),
        next_generation(pre, post),
    ensures
        post.all_dead(),
{
    assert forall|i: int| 0 <= i < post.cells@.len() implies post.cells@[i].status is Dead by {
        assert(pre.cells@[i].status is Dead);
        lemma_all_dead_no_live_neighbors(pre, i % pre.width as int, i / pre.width as int);
    }
}

/// Birth rule: a dead cell is alive in the next generation exactly when
/// it has three live neighbors; with any other count — two, four, or
/// anything else — it stays dead.
pub proof fn lemma_birth_rule(pre: Board, post: Board, i: int)
    requires
        pre.wf(),
        next_generation(pre, post),
        0 <= i < pre.cells@.len(),
        pre.cells@[i].status is Dead,
    ensures
        post.cells@[i].status is Alive <==> pre.neighbors_alive(
            i % pre.width as int,
            i / pre.width as int,
        ) == 3,
{
}

/// Survival rule: a live cell is still alive in the next generation
/// exactly when it has two or three live neighbors; with fewer or more
/// it dies of under- or over-population.
pub proof fn lemma_survival_rule(pre: Board, post: Board, i: int)
    requires
        pre.wf(),
        next_generation(pre, post),
        0 <= i < pre.cells@.len(),
        pre.cells@[i].status is Alive,
    ensures
        post.cells@[i].status is Alive <==> 2 <= pre.neighbors_alive(
            i % pre.width as int,
            i / pre.width as int,
        ) <= 3,
{
}

} // verus!
