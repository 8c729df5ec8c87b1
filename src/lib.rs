mod cell;
mod game;
mod kind;

pub use cell::{
    board_indices, fresh_board, kind_of_draw, lemma_fresh_board_hidden, lemma_fresh_board_indices,
    Cell,
};
pub use game::{
    all_revealed, board_size, indices_dense, mine_revealed, none_revealed, others_hidden, paused,
    revealed_at, touch_status, valid_game, Game, Status, DEFAULT_CELL_COUNT,
};
pub use kind::{kind_label, kind_of_folded, lower_of, Kind};
