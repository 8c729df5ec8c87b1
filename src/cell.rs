use vstd::prelude::*;

use crate::kind::{kind_label, Kind};

verus! {

/// One position of the board.
#[derive(Clone, Copy, Debug, PartialEq, Eq, Structural)]
pub struct Cell {
    /// Position in the board, fixed when the cell is made.
    pub index: usize,
    /// Mine or empty, fixed when the cell is made.
    pub kind: Kind,
    /// Set once the cell has been touched; never cleared.
    pub revealed: bool,
}

/// The kind that one draw of the random source gives: a draw of 1 places a mine.
pub open spec fn kind_of_draw(draw: usize) -> Kind {
    if draw == 1 {
        Kind::BOMB
    } else {
        Kind::EMPTY
    }
}

/// The board that `Cell::create_many` builds from `quantity` draws: cell `i` sits at
/// position `i`, takes its kind from draw `i`, and starts hidden.
pub open spec fn fresh_board(quantity: nat, draws: Seq<usize>) -> Seq<Cell> {
    Seq::new(quantity, |i: int| Cell { index: i as usize, kind: kind_of_draw(draws[i]), revealed: false })
}

/// The indices that the cells of a board hold.
pub open spec fn board_indices(board: Seq<Cell>) -> Set<int> {
    board.map_values(|c: Cell| c.index as int).to_set()
}

/// A fresh board of `quantity` cells has exactly `quantity` cells; their indices are
/// the numbers `0..quantity`, each held by exactly one cell.
pub proof fn lemma_fresh_board_indices(quantity: usize, draws: Seq<usize>)
    ensures
        fresh_board(quantity as nat, draws).len() == quantity,
        board_indices(fresh_board(quantity as nat, draws)) == Set::new(|k: int| 0 <= k < quantity),
        forall|i: int, j: int|
            0 <= i < quantity && 0 <= j < quantity && i != j ==> #[trigger] fresh_board(
                quantity as nat,
                draws,
            )[i].index != #[trigger] fresh_board(quantity as nat, draws)[j].index,
{
    let b = fresh_board(quantity as nat, draws);
    let ix = b.map_values(|c: Cell| c.index as int);
    assert forall|k: int| #[trigger] ix.to_set().contains(k) <==> 0 <= k < quantity by {
        if 0 <= k < quantity {
            assert(ix[k] == k);
        }
        if ix.to_set().contains(k) {
            let i = choose|i: int| 0 <= i < ix.len() && ix[i] == k;
            assert(ix[i] == i);
        }
    }
    assert(ix.to_set() =~= Set::new(|k: int| 0 <= k < quantity));
}

/// Every cell of a fresh board starts hidden.
pub proof fn lemma_fresh_board_hidden(quantity: usize, draws: Seq<usize>)
    ensures
        forall|i: int| 0 <= i < quantity ==> !#[trigger] fresh_board(quantity as nat, draws)[i].revealed,
{
}

impl Cell {
    fn new(index: usize, kind: Option<Kind>) -> (r: Cell)
        ensures
            r.index == index,
            r.kind == (match kind {
                Some(k) => k,
                None => Kind::EMPTY,
            }),
            !r.revealed,
    {
        Cell {
            index,
            kind: match kind {
                Some(k) => k,
                None => Kind::EMPTY,
            },
            revealed: false,
        }
    }

    /// Builds a board of `quantity` hidden cells with indices `0..quantity`, in order.
    /// `draws[i]` is the random source's answer for cell `i` (a value in `0..=1`);
    /// a draw of 1 makes the cell a mine.
    pub fn create_many(quantity: usize, draws: &Vec<usize>) -> (r: Vec<Cell>)
        requires
            quantity <= draws@.len(),
        ensures
            r@ == fresh_board(quantity as nat, draws@),
    {
        let mut cells: Vec<Cell> = Vec::new();
        let mut idx: usize = 0;
        while idx < quantity
            invariant
                idx <= quantity,
                quantity <= draws@.len(),
                cells@ == fresh_board(idx as nat, draws@),
            decreases quantity - idx,
        {
            let kind = if draws[idx] == 1 {
                Some(Kind::BOMB)
            } else {
                None
            };
            let cell = Cell::new(idx, kind);
            cells.push(cell);
            idx = idx + 1;
            assert(cells@ =~= fresh_board(idx as nat, draws@));
        }
        cells
    }

    /// The label of this cell's kind: "Bomb" or "Empty".
    pub fn get_kind_str(&self) -> (r: String)
        ensures
            r@ == kind_label(self.kind),
    {
        self.kind.label()
    }
}

} // verus!
