use vstd::prelude::*;

use crate::cell::{fresh_board, Cell};
use crate::kind::Kind;

verus! {

/// Overall state of a game once it has started.
#[derive(Clone, Copy, Debug, PartialEq, Eq, Structural)]
pub enum Status {
    PAUSED,
    PLAYING,
    WON,
    LOST,
}

/// Board size used when none is asked for.
pub const DEFAULT_CELL_COUNT: usize = 99;

/// The number of cells of a board made from an optional requested size.
pub open spec fn board_size(cell_qtd: Option<usize>) -> nat {
    match cell_qtd {
        Some(n) => n as nat,
        None => DEFAULT_CELL_COUNT as nat,
    }
}

/// Cell `i` of the board sits at position `i`.
pub open spec fn indices_dense(board: Seq<Cell>) -> bool {
    forall|i: int| 0 <= i < board.len() ==> #[trigger] board[i].index == i
}

/// Some mine of the board has been touched.
pub open spec fn mine_revealed(board: Seq<Cell>) -> bool {
    exists|i: int| 0 <= i < board.len() && #[trigger] board[i].revealed && board[i].kind == Kind::BOMB
}

/// Every cell of the board has been touched.
pub open spec fn all_revealed(board: Seq<Cell>) -> bool {
    forall|i: int| 0 <= i < board.len() ==> #[trigger] board[i].revealed
}

/// No cell of the board has been touched.
pub open spec fn none_revealed(board: Seq<Cell>) -> bool {
    forall|i: int| 0 <= i < board.len() ==> !#[trigger] board[i].revealed
}

/// Some cell other than the one at `index` is still hidden.
pub open spec fn others_hidden(board: Seq<Cell>, index: int) -> bool {
    exists|j: int| 0 <= j < board.len() && j != index && !#[trigger] board[j].revealed
}

/// The status that touching the cell at `index` sets: a mine loses; otherwise the game
/// is won when no other cell is left hidden, and goes on when one is.
pub open spec fn touch_status(board: Seq<Cell>, index: int) -> Status {
    if board[index].kind == Kind::BOMB {
        Status::LOST
    } else if others_hidden(board, index) {
        Status::PLAYING
    } else {
        Status::WON
    }
}

/// The board with the cell at `index` marked as revealed.
pub open spec fn revealed_at(board: Seq<Cell>, index: int) -> Seq<Cell> {
    board.update(index, Cell { index: board[index].index, kind: board[index].kind, revealed: true })
}

/// The status is the paused one.
pub open spec fn paused(status: Option<Status>) -> bool {
    status == Some(Status::PAUSED)
}

/// A board and status that a game can be in: cells sit at their own index, the game is
/// lost exactly when a mine has been touched, won only with every cell touched, and
/// without a status while no cell has been touched.
pub open spec fn valid_game(board: Seq<Cell>, status: Option<Status>) -> bool {
    &&& indices_dense(board)
    &&& (mine_revealed(board) <==> status == Some(Status::LOST))
    &&& (status == Some(Status::WON) ==> all_revealed(board))
    &&& (status is None ==> none_revealed(board))
}

/// A board of cells and the game's status.
pub struct Game {
    cells: Vec<Cell>,
    status: Option<Status>,
}

impl Game {
    /// The cells of the board, in order.
    pub closed spec fn board(&self) -> Seq<Cell> {
        self.cells@
    }

    /// The game's status; `None` before any touch.
    pub closed spec fn status_view(&self) -> Option<Status> {
        self.status
    }

    /// The game's board and status satisfy `valid_game`.
    pub open spec fn wf(&self) -> bool {
        valid_game(self.board(), self.status_view())
    }

    /// Starts a game on a fresh board of `cell_qtd` cells (99 when `None`). `draws` holds
    /// one answer of the random source per cell, in order; further answers are unused.
    pub fn new(cell_qtd: Option<usize>, draws: &Vec<usize>) -> (r: Game)
        requires
            board_size(cell_qtd) <= draws@.len(),
        ensures
            r.wf(),
            r.board() == fresh_board(board_size(cell_qtd), draws@),
            r.status_view() is None,
            !paused(r.status_view()),
    {
        let quantity = match cell_qtd {
            Some(n) => n,
            None => DEFAULT_CELL_COUNT,
        };
        let cells = Cell::create_many(quantity, draws);
        let game = Game { cells, status: None };
        assert(game.board() == fresh_board(board_size(cell_qtd), draws@));
        game
    }

    /// The game's status; `None` before any touch.
    pub fn status(&self) -> (r: Option<Status>)
        ensures
            r == self.status_view(),
    {
        self.status
    }

    /// A copy of the board, in order.
    pub fn get_cells(&self) -> (r: Vec<Cell>)
        ensures
            r@ == self.board(),
    {
        let mut out: Vec<Cell> = Vec::new();
        let mut i: usize = 0;
        while i < self.cells.len()
            invariant
                i <= self.cells@.len(),
                out@ == self.cells@.subrange(0, i as int),
            decreases self.cells@.len() - i,
        {
            out.push(self.cells[i]);
            i = i + 1;
            assert(out@ =~= self.cells@.subrange(0, i as int));
        }
        assert(out@ =~= self.cells@);
        out
    }

    /// A copy of the cell at `index`, or `None` when the board has no such cell.
    pub fn get_cell(&self, index: usize) -> (r: Option<Cell>)
        ensures
            r == (if index < self.board().len() {
                Some(self.board()[index as int])
            } else {
                None
            }),
    {
        if index < self.cells.len() {
            Some(self.cells[index])
        } else {
            None
        }
    }

    /// Touches the cell at `index`. Once the game is lost nothing changes. Otherwise the
    /// cell is revealed and the status becomes `touch_status` of the board as it was
    /// before the touch.
    pub fn touch_cell(&mut self, index: usize)
        requires
            old(self).wf(),
            index < old(self).board().len(),
        ensures
            final(self).wf(),
            old(self).status_view() == Some(Status::LOST) ==> final(self).board() == old(self).board()
                && final(self).status_view() == old(self).status_view(),
            old(self).status_view() != Some(Status::LOST) ==> final(self).board() == revealed_at(old(self).board(), index as int)
                && final(self).status_view() == Some(touch_status(old(self).board(), index as int)),
            old(self).board()[index as int].kind == Kind::BOMB ==> final(self).status_view() == Some(Status::LOST),
            old(self).status_view() != Some(Status::LOST) && old(self).board()[index as int].kind == Kind::EMPTY
                && !others_hidden(old(self).board(), index as int)
                ==> final(self).status_view() == Some(Status::WON),
            old(self).status_view() != Some(Status::LOST) && old(self).board()[index as int].kind == Kind::EMPTY
                && others_hidden(old(self).board(), index as int)
                ==> final(self).status_view() == Some(Status::PLAYING),
            old(self).status_view() == Some(Status::WON) ==> final(self).status_view() == Some(Status::WON),
            final(self).status_view() is Some,
            !paused(final(self).status_view()),
    {
        let lost = match self.status {
            Some(Status::LOST) => true,
            _ => false,
        };
        if lost {
            return;
        }
        let ghost before = self.cells@;
        let mut hidden_elsewhere = false;
        let mut j: usize = 0;
        while j < self.cells.len()
            invariant
                self.cells@ == before,
                index < before.len(),
                j <= before.len(),
                hidden_elsewhere == exists|k: int|
                    0 <= k < j && k != index && !#[trigger] before[k].revealed,
            decreases before.len() - j,
        {
            if j != index && !self.cells[j].revealed {
                hidden_elsewhere = true;
            }
            j = j + 1;
        }
        let cell = self.cells[index];
        let mut status = match cell.kind {
            Kind::BOMB => Status::LOST,
            Kind::EMPTY => Status::PLAYING,
        };
        if !hidden_elsewhere && status == Status::PLAYING {
            status = Status::WON;
        }
        self.cells.set(index, Cell { index: cell.index, kind: cell.kind, revealed: true });
        self.status = Some(status);
        proof {
            let after = self.cells@;
            assert(after == revealed_at(before, index as int));
            if mine_revealed(after) {
                let m = choose|m: int|
                    0 <= m < after.len() && #[trigger] after[m].revealed && after[m].kind
                        == Kind::BOMB;
                if m != index {
                    assert(before[m].revealed && before[m].kind == Kind::BOMB);
                }
            }
            if status == Status::LOST {
                assert(after[index as int].revealed && after[index as int].kind == Kind::BOMB);
            }
            if status == Status::WON {
                assert forall|i: int| 0 <= i < after.len() implies #[trigger] after[i].revealed by {
                    if i != index {
                        assert(!(0 <= i < before.len() && i != index && !before[i].revealed));
                    }
                }
            }
            if old(self).status_view() == Some(Status::WON) {
                assert(all_revealed(before));
                assert(!mine_revealed(before));
                assert(before[index as int].revealed);
            }
        }
    }

    /// Whether the game is paused.
    pub fn is_paused(&self) -> (r: bool)
        ensures
            r == paused(self.status_view()),
    {
        match self.status {
            Some(value) => value == Status::PAUSED,
            None => false,
        }
    }

    /// Pauses a game in play. Returns whether it did; in any other status nothing changes.
    pub fn pause(&mut self) -> (r: bool)
        requires
            old(self).wf(),
        ensures
            final(self).wf(),
            final(self).board() == old(self).board(),
            r == (old(self).status_view() == Some(Status::PLAYING)),
            final(self).status_view() == (if r {
                Some(Status::PAUSED)
            } else {
                old(self).status_view()
            }),
    {
        match self.status {
            Some(Status::PLAYING) => {
                self.status = Some(Status::PAUSED);
                true
            },
            _ => false,
        }
    }

    /// Resumes a paused game. Returns whether it did; in any other status nothing changes.
    pub fn resume(&mut self) -> (r: bool)
        requires
            old(self).wf(),
        ensures
            final(self).wf(),
            final(self).board() == old(self).board(),
            r == paused(old(self).status_view()),
            final(self).status_view() == (if r {
                Some(Status::PLAYING)
            } else {
                old(self).status_view()
            }),
    {
        match self.status {
            Some(Status::PAUSED) => {
                self.status = Some(Status::PLAYING);
                true
            },
            _ => false,
        }
    }
}

} // verus!
