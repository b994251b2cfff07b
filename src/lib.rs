//! A triangular fifteen-hole peg board, its rotations by a third of a turn,
//! and a canonical orientation under those rotations.

mod board;

pub use board::BoardState;
pub use board::{
    ccw_source, cw_source, has_unique_max, left_count, normalized, peg, right_count, rotated_ccw,
    rotated_cw, thirds_balanced, top_count,
};
pub use board::{
    lemma_construction_identity, lemma_normalize_idempotent, lemma_normalize_rotation_invariant,
    lemma_rotation_inverse, lemma_rotation_order_three,
};
