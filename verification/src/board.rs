//! The Connect-Four board: a 7-column, 6-row grid with gravity placement and
//! four-direction win detection.

use vstd::prelude::*;
use crate::player::Player;

verus! {

/// Number of columns.
pub const BOARD_WIDTH: usize = 7;

/// Number of rows in each column.
pub const BOARD_HEIGHT: usize = 6;

/// The cell value of an empty cell.
pub const EMPTY: u8 = 0;

/// The mark a player's pieces carry in a cell: the role's numeric label,
/// so never the empty value.
pub open spec fn mark_of(p: Player) -> u8 {
    p.spec_to_int()
}

/// The board. `board_xy[x][y]` is the cell of column `x` at height `y`
/// (`y == 0` is the bottom); it holds `EMPTY` or a player's mark.
pub struct Game {
    pub board_xy: [[u8; 6]; 7],
}

impl Game {
    /// The cell of column `x` at height `y`.
    pub open spec fn cell(self, x: int, y: int) -> u8 {
        self.board_xy[x][y]
    }

    /// Whether `(x, y)` lies on the board.
    pub open spec fn in_board(x: int, y: int) -> bool {
        0 <= x < 7 && 0 <= y < 6
    }

    /// The lowest height `>= y` of an empty cell in column `x`, or 6 when
    /// the column holds no empty cell at or above `y`.
    pub open spec fn lowest_empty_from(self, x: int, y: int) -> int
        decreases 6 - y when y <= 6
    {
        if y >= 6 {
            6
        } else if self.cell(x, y) == EMPTY {
            y
        } else {
            self.lowest_empty_from(x, y + 1)
        }
    }

    /// The height a new piece in column `x` would land at: the lowest empty
    /// cell, or 6 when the column is full.
    pub open spec fn lowest_empty(self, x: int) -> int {
        self.lowest_empty_from(x, 0)
    }

    /// Whether a placement in column `x` is legal: the column exists and
    /// still has an empty cell.
    pub open spec fn can_place(self, x: int) -> bool {
        0 <= x < 7 && self.lowest_empty(x) < 6
    }

    /// How a successful placement relates the board before (`self`) to the
    /// board after (`post`): the mark `m` stands at the lowest empty cell of
    /// column `x`, and every other cell is unchanged.
    pub open spec fn placed(self, post: Game, x: int, m: u8) -> bool {
        &&& self.can_place(x)
        &&& post.cell(x, self.lowest_empty(x)) == m
        &&& forall|xi: int, yi: int| #![trigger post.cell(xi, yi)]
            Self::in_board(xi, yi) && !(xi == x && yi == self.lowest_empty(x))
                ==> post.cell(xi, yi) == self.cell(xi, yi)
    }

    /// Gravity well-formedness: every cell holds the empty value or a
    /// player's mark, and no occupied cell floats above an empty one.
    pub open spec fn wf(self) -> bool {
        forall|x: int, y: int| #![trigger self.cell(x, y)]
            Self::in_board(x, y) ==> {
                &&& (self.cell(x, y) == EMPTY || self.cell(x, y) == 1 || self.cell(x, y) == 2)
                &&& (self.cell(x, y) != EMPTY && y > 0 ==> self.cell(x, y - 1) != EMPTY)
            }
    }

    /// The empty board.
    pub fn new() -> (g: Game)
        ensures
            forall|x: int, y: int| Self::in_board(x, y) ==> #[trigger] g.cell(x, y) == EMPTY,
            g.wf(),
    {
        Game { board_xy: [[0u8; 6]; 7] }
    }

    /// Tries to drop a piece of `player` into column `x`. Fails — returning
    /// `false` with the board unchanged — exactly when the column does not
    /// exist or is already full; otherwise writes the player's mark into the
    /// lowest empty cell of the column.
    pub fn place(&mut self, x: usize, player: Player) -> (r: bool)
        ensures
            r == old(self).can_place(x as int),
            r ==> old(self).placed(*final(self), x as int, mark_of(player)),
            !r ==> *final(self) == *old(self),
            old(self).wf() ==> final(self).wf(),
    {
        let m = player.to_int();
        if x > 6 {
            return false;
        }
        let mut y: usize = 0;
        while y < 6
            invariant
                x < 7,
                y <= 6,
                m == mark_of(player),
                *self == *old(self),
                forall|j: int| 0 <= j < y ==> self.cell(x as int, j) != EMPTY,
            decreases 6 - y,
        {
            if self.board_xy[x][y] == EMPTY {
                proof {
                    self.lemma_lowest_empty_pinned(x as int, y as int);
                }
                self.board_xy[x][y] = m;
                proof {
                    assert(self.cell(x as int, y as int) == m);
                    assert(forall|xi: int, yi: int|
                        Self::in_board(xi, yi) && !(xi == x && yi == y) ==> self.cell(xi, yi)
                            == old(self).cell(xi, yi));
                    if old(self).wf() {
                        assert forall|xi: int, yi: int| Self::in_board(xi, yi) implies {
                            &&& (self.cell(xi, yi) == EMPTY || self.cell(xi, yi) == 1
                                || self.cell(xi, yi) == 2)
                            &&& (self.cell(xi, yi) != EMPTY && yi > 0 ==> self.cell(
                                xi,
                                yi - 1,
                            ) != EMPTY)
                        } by {
                            if xi == x && yi == y {
                                assert(self.cell(xi, yi) == m);
                                if yi > 0 {
                                    assert(self.cell(xi, yi - 1) == old(self).cell(xi, yi - 1));
                                    assert(old(self).cell(x as int, y - 1) != EMPTY);
                                }
                            } else {
                                assert(self.cell(xi, yi) == old(self).cell(xi, yi));
                                assert(old(self).cell(xi, yi) == EMPTY || old(self).cell(
                                    xi,
                                    yi,
                                ) == 1 || old(self).cell(xi, yi) == 2);
                                if self.cell(xi, yi) != EMPTY && yi > 0 {
                                    if xi == x && yi - 1 == y {
                                        assert(self.cell(xi, yi - 1) == m);
                                    } else {
                                        assert(old(self).cell(xi, yi) != EMPTY);
                                        assert(old(self).cell(xi, yi - 1) != EMPTY);
                                        assert(self.cell(xi, yi - 1) == old(self).cell(
                                            xi,
                                            yi - 1,
                                        ));
                                    }
                                }
                            }
                        }
                    }
                }
                return true;
            }
            y = y + 1;
        }
        proof {
            self.lemma_lowest_empty_pinned(x as int, 6);
        }
        false
    }

    /// The column step of scan direction `d`: vertical, horizontal, rising
    /// diagonal, falling diagonal, in that order.
    pub open spec fn dir_dx(d: int) -> int {
        if d == 0 {
            0
        } else if d == 3 {
            -1
        } else {
            1
        }
    }

    /// The row step of scan direction `d`.
    pub open spec fn dir_dy(d: int) -> int {
        if d == 1 {
            0
        } else {
            1
        }
    }

    /// Four contiguous cells marked `m`, starting at `(x, y)` and stepping by
    /// `(dx, dy)`, all on the board.
    pub open spec fn run_at(self, m: u8, x: int, y: int, dx: int, dy: int) -> bool {
        &&& Self::in_board(x, y) && self.cell(x, y) == m
        &&& Self::in_board(x + dx, y + dy) && self.cell(x + dx, y + dy) == m
        &&& Self::in_board(x + 2 * dx, y + 2 * dy) && self.cell(x + 2 * dx, y + 2 * dy) == m
        &&& Self::in_board(x + 3 * dx, y + 3 * dy) && self.cell(x + 3 * dx, y + 3 * dy) == m
    }

    /// Whether a winning run of `p` starts at `(x, y)` in direction `d`.
    pub open spec fn win_start(self, p: Player, x: int, y: int, d: int) -> bool {
        0 <= d < 4 && self.run_at(mark_of(p), x, y, Self::dir_dx(d), Self::dir_dy(d))
    }

    /// Whether `p` owns at least four contiguous cells along a column, a row,
    /// or either diagonal. A run of four or more contiguous marks contains a
    /// run of exactly four, so this is equivalent to the existence of any run
    /// of length at least four.
    pub open spec fn has_win(self, p: Player) -> bool {
        exists|x: int, y: int, d: int| self.win_start(p, x, y, d)
    }

    /// Whether four cells marked `m` stand contiguously from `(x, y)` along
    /// direction `d`.
    fn run_from(&self, m: u8, x: usize, y: usize, d: usize) -> (r: bool)
        requires
            x < 7,
            y < 6,
            d < 4,
        ensures
            r == self.run_at(m, x as int, y as int, Self::dir_dx(d as int), Self::dir_dy(d as int)),
    {
        if d == 0 {
            y + 3 < 6 && self.board_xy[x][y] == m && self.board_xy[x][y + 1] == m
                && self.board_xy[x][y + 2] == m && self.board_xy[x][y + 3] == m
        } else if d == 1 {
            x + 3 < 7 && self.board_xy[x][y] == m && self.board_xy[x + 1][y] == m
                && self.board_xy[x + 2][y] == m && self.board_xy[x + 3][y] == m
        } else if d == 2 {
            x + 3 < 7 && y + 3 < 6 && self.board_xy[x][y] == m && self.board_xy[x + 1][y + 1] == m
                && self.board_xy[x + 2][y + 2] == m && self.board_xy[x + 3][y + 3] == m
        } else {
            x >= 3 && y + 3 < 6 && self.board_xy[x][y] == m && self.board_xy[x - 1][y + 1] == m
                && self.board_xy[x - 2][y + 2] == m && self.board_xy[x - 3][y + 3] == m
        }
    }

    /// Whether `player` has four contiguous marks in a column, a row, or
    /// either diagonal. Scans every cell as a potential run start and
    /// short-circuits on the first winning run.
    pub fn check_win(&self, player: Player) -> (r: bool)
        ensures
            r == self.has_win(player),
    {
        let m = player.to_int();
        let mut x: usize = 0;
        while x < 7
            invariant
                x <= 7,
                m == mark_of(player),
                forall|xi: int, yi: int, di: int|
                    xi < x ==> !self.win_start(player, xi, yi, di),
            decreases 7 - x,
        {
            let mut y: usize = 0;
            while y < 6
                invariant
                    x < 7,
                    y <= 6,
                    m == mark_of(player),
                    forall|xi: int, yi: int, di: int|
                        xi < x ==> !self.win_start(player, xi, yi, di),
                    forall|yi: int, di: int| yi < y ==> !self.win_start(player, x as int, yi, di),
                decreases 6 - y,
            {
                let mut d: usize = 0;
                while d < 4
                    invariant
                        x < 7,
                        y < 6,
                        d <= 4,
                        m == mark_of(player),
                        forall|di: int| di < d ==> !self.win_start(player, x as int, y as int, di),
                    decreases 4 - d,
                {
                    if self.run_from(m, x, y, d) {
                        proof {
                            assert(self.win_start(player, x as int, y as int, d as int));
                        }
                        return true;
                    }
                    d = d + 1;
                }
                y = y + 1;
            }
            x = x + 1;
        }
        proof {
            assert(forall|xi: int, yi: int, di: int| !self.win_start(player, xi, yi, di));
        }
        false
    }

    /// When every cell of column `x` below height `i` is occupied, and cell
    /// `i` (if on the board) is empty, then `i` is the landing height.
    proof fn lemma_lowest_empty_pinned(self, x: int, i: int)
        requires
            0 <= i <= 6,
            forall|j: int| 0 <= j < i ==> self.cell(x, j) != EMPTY,
            i < 6 ==> self.cell(x, i) == EMPTY,
        ensures
            self.lowest_empty(x) == i,
    {
        self.lemma_lowest_empty_from_pinned(x, 0, i);
    }

    proof fn lemma_lowest_empty_from_pinned(self, x: int, j: int, i: int)
        requires
            0 <= j <= i <= 6,
            forall|k: int| j <= k < i ==> self.cell(x, k) != EMPTY,
            i < 6 ==> self.cell(x, i) == EMPTY,
        ensures
            self.lowest_empty_from(x, j) == i,
        decreases i - j,
    {
        if j < i {
            self.lemma_lowest_empty_from_pinned(x, j + 1, i);
        }
    }

    /// Every cell below the landing height is occupied, the landing cell (when
    /// the column is not full) is empty, and the landing height lies in 0..=6.
    proof fn lemma_lowest_empty_props(self, x: int)
        ensures
            0 <= self.lowest_empty(x) <= 6,
            forall|j: int| 0 <= j < self.lowest_empty(x) ==> self.cell(x, j) != EMPTY,
            self.lowest_empty(x) < 6 ==> self.cell(x, self.lowest_empty(x)) == EMPTY,
    {
        self.lemma_lowest_empty_from_props(x, 0);
    }

    proof fn lemma_lowest_empty_from_props(self, x: int, j: int)
        requires
            0 <= j <= 6,
        ensures
            j <= self.lowest_empty_from(x, j) <= 6,
            forall|k: int| j <= k < self.lowest_empty_from(x, j) ==> self.cell(x, k) != EMPTY,
            self.lowest_empty_from(x, j) < 6 ==> self.cell(x, self.lowest_empty_from(x, j))
                == EMPTY,
        decreases 6 - j,
    {
        if j < 6 && self.cell(x, j) != EMPTY {
            self.lemma_lowest_empty_from_props(x, j + 1);
        }
    }

    /// Under gravity well-formedness, every cell at or above an empty cell of
    /// the same column is empty too.
    proof fn lemma_empty_above(self, x: int, j: int)
        requires
            self.wf(),
            Self::in_board(x, j),
            self.cell(x, j) == EMPTY,
        ensures
            forall|k: int| j <= k < 6 ==> self.cell(x, k) == EMPTY,
        decreases 6 - j,
    {
        if j + 1 < 6 {
            assert(self.cell(x, j + 1) != EMPTY ==> self.cell(x, j) != EMPTY);
            self.lemma_empty_above(x, j + 1);
        }
    }

    /// Two boards that agree on every cell of column `x` share its landing
    /// height.
    proof fn lemma_lowest_empty_congruent(self, other: Game, x: int, j: int)
        requires
            0 <= j <= 6,
            forall|y: int| 0 <= y < 6 ==> self.cell(x, y) == other.cell(x, y),
        ensures
            self.lowest_empty_from(x, j) == other.lowest_empty_from(x, j),
        decreases 6 - j,
    {
        if j < 6 && self.cell(x, j) != EMPTY {
            self.lemma_lowest_empty_congruent(other, x, j + 1);
        }
    }

    /// A column accepts at most six placements. Each successful placement on
    /// a well-formed board raises the landing height of its column by exactly
    /// one and leaves every other column's landing height unchanged; once the
    /// landing height reaches six, the column is full and `can_place` — hence
    /// any further attempt — is rejected.
    pub proof fn lemma_place_fills_one(pre: Game, post: Game, x: int, m: u8)
        requires
            pre.wf(),
            m != EMPTY,
            pre.placed(post, x, m),
        ensures
            post.lowest_empty(x) == pre.lowest_empty(x) + 1,
            forall|xo: int| 0 <= xo < 7 && xo != x ==> post.lowest_empty(xo) == pre.lowest_empty(
                xo,
            ),
            post.lowest_empty(x) == 6 ==> !post.can_place(x),
    {
        let le = pre.lowest_empty(x);
        pre.lemma_lowest_empty_props(x);
        pre.lemma_empty_above(x, le);
        assert forall|j: int| 0 <= j < le + 1 implies post.cell(x, j) != EMPTY by {
            if j < le {
                assert(post.cell(x, j) == pre.cell(x, j));
            } else {
                assert(post.cell(x, j) == m);
            }
        }
        if le + 1 < 6 {
            assert(post.cell(x, le + 1) == pre.cell(x, le + 1));
            assert(pre.cell(x, le + 1) == EMPTY);
        }
        post.lemma_lowest_empty_pinned(x, le + 1);
        assert forall|xo: int| 0 <= xo < 7 && xo != x implies post.lowest_empty(xo)
            == pre.lowest_empty(xo) by {
            assert(forall|y: int| 0 <= y < 6 ==> post.cell(xo, y) == pre.cell(xo, y));
            post.lemma_lowest_empty_congruent(pre, xo, 0);
        }
    }

    /// Any contiguous run of at least four of `p`'s marks along one scan
    /// direction contains a four-cell window, so `has_win` — and with it
    /// `check_win` — detects it; conversely, a board whose longest run holds
    /// three or fewer marks has no such window and is not a win.
    pub proof fn lemma_long_run_wins(g: Game, p: Player, x: int, y: int, d: int, n: int)
        requires
            0 <= d < 4,
            n >= 4,
            forall|k: int|
                0 <= k < n ==> Self::in_board(x + k * Self::dir_dx(d), y + k * Self::dir_dy(d))
                    && #[trigger] g.cell(x + k * Self::dir_dx(d), y + k * Self::dir_dy(d))
                    == mark_of(p),
        ensures
            g.has_win(p),
    {
        let dx = Self::dir_dx(d);
        let dy = Self::dir_dy(d);
        assert(g.cell(x + 0 * dx, y + 0 * dy) == mark_of(p));
        assert(g.cell(x + 1 * dx, y + 1 * dy) == mark_of(p));
        assert(g.cell(x + 2 * dx, y + 2 * dy) == mark_of(p));
        assert(g.cell(x + 3 * dx, y + 3 * dy) == mark_of(p));
        assert(g.win_start(p, x, y, d));
    }
}

} // verus!
