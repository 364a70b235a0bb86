//! The static material evaluator.
//!
//! A position's score is the weighted count of the maximizing side's (white's)
//! pieces minus the weighted count of the other side's, with the fixed weight
//! table pawn 1, knight 3, bishop 3, rook 5, queen 9, king 1000.

use vstd::prelude::*;

use crate::adapter::PieceKind;
use crate::adapter::piece_bits;
use crate::adapter::piece_squares;
use crate::adapter::side_bits;
use crate::adapter::side_squares;
use crate::bits::lemma_pop64_bounds;
use crate::bits::pop64;
use crate::bits::popcount64;

verus! {

/// The fixed weight of one piece kind, in material units.
pub open spec fn spec_weight(k: PieceKind) -> int {
    match k {
        PieceKind::Pawn => 1,
        PieceKind::Knight => 3,
        PieceKind::Bishop => 3,
        PieceKind::Rook => 5,
        PieceKind::Queen => 9,
        PieceKind::King => 1000,
    }
}

/// Looks a piece kind's weight up in the fixed table.
pub fn weight_of(k: PieceKind) -> (w: i32)
    ensures
        w as int == spec_weight(k),
{
    match k {
        PieceKind::Pawn => 1,
        PieceKind::Knight => 3,
        PieceKind::Bishop => 3,
        PieceKind::Rook => 5,
        PieceKind::Queen => 9,
        PieceKind::King => 1000,
    }
}

/// How many pieces of one kind the given side has on the board.
pub open spec fn side_count(b: chess::Board, k: PieceKind, white: bool) -> int {
    pop64(piece_squares(b, k) & side_squares(b, white))
}

/// One kind's contribution to the material score: its weight times white's
/// count minus black's count of that kind.
pub open spec fn kind_balance(b: chess::Board, k: PieceKind) -> int {
    spec_weight(k) * (side_count(b, k, true) - side_count(b, k, false))
}

/// The material score of a position: positive favors white, the maximizing
/// side; negative favors black.
pub open spec fn spec_material(b: chess::Board) -> int {
    kind_balance(b, PieceKind::Pawn) + kind_balance(b, PieceKind::Knight) + kind_balance(
        b,
        PieceKind::Bishop,
    ) + kind_balance(b, PieceKind::Rook) + kind_balance(b, PieceKind::Queen) + kind_balance(
        b,
        PieceKind::King,
    )
}

/// One kind's balance is bounded by its weight times a full board of pieces.
pub proof fn lemma_kind_balance_bounds(b: chess::Board, k: PieceKind)
    ensures
        -64000 <= kind_balance(b, k) <= 64000,
{
    lemma_pop64_bounds(piece_squares(b, k) & side_squares(b, true));
    lemma_pop64_bounds(piece_squares(b, k) & side_squares(b, false));
    let w = spec_weight(k);
    let d = side_count(b, k, true) - side_count(b, k, false);
    assert(1 <= w <= 1000);
    assert(-64 <= d <= 64);
    assert(-64000 <= w * d <= 64000) by (nonlinear_arith)
        requires
            1 <= w <= 1000,
            -64 <= d <= 64,
    ;
}

/// A material score always fits comfortably inside a machine score.
pub proof fn lemma_material_bounds(b: chess::Board)
    ensures
        -384000 <= spec_material(b) <= 384000,
{
    lemma_kind_balance_bounds(b, PieceKind::Pawn);
    lemma_kind_balance_bounds(b, PieceKind::Knight);
    lemma_kind_balance_bounds(b, PieceKind::Bishop);
    lemma_kind_balance_bounds(b, PieceKind::Rook);
    lemma_kind_balance_bounds(b, PieceKind::Queen);
    lemma_kind_balance_bounds(b, PieceKind::King);
}

/// Computes one kind's contribution to the material score.
fn kind_score(b: &chess::Board, k: PieceKind) -> (s: i32)
    ensures
        s as int == kind_balance(*b, k),
        -64000 <= s <= 64000,
{
    let w = weight_of(k);
    let white_cnt = popcount64(piece_bits(b, k) & side_bits(b, true));
    let black_cnt = popcount64(piece_bits(b, k) & side_bits(b, false));
    let d = white_cnt as i32 - black_cnt as i32;
    assert(-64000 <= (w as int) * (d as int) <= 64000) by (nonlinear_arith)
        requires
            1 <= w as int <= 1000,
            -64 <= d as int <= 64,
    ;
    w * d
}

/// The material evaluator: sums each kind's weighted balance over the board.
pub fn evaluation(b: &chess::Board) -> (s: i32)
    ensures
        s as int == spec_material(*b),
{
    let s = kind_score(b, PieceKind::Pawn) + kind_score(b, PieceKind::Knight) + kind_score(
        b,
        PieceKind::Bishop,
    ) + kind_score(b, PieceKind::Rook) + kind_score(b, PieceKind::Queen) + kind_score(
        b,
        PieceKind::King,
    );
    s
}

/// Two positions mirror each other in color when, for every piece kind, each
/// side of the one holds exactly as many pieces of that kind as the other
/// side of the other.
pub open spec fn color_mirrored(b1: chess::Board, b2: chess::Board) -> bool {
    forall|k: PieceKind|
        #![trigger side_count(b2, k, true)]
        #![trigger side_count(b2, k, false)]
        side_count(b2, k, true) == side_count(b1, k, false) && side_count(b2, k, false)
            == side_count(b1, k, true)
}

/// Evaluating a position and its color-mirrored counterpart yields negated
/// scores: the material evaluator is side-symmetric.
pub proof fn lemma_material_symmetry(b1: chess::Board, b2: chess::Board)
    requires
        color_mirrored(b1, b2),
    ensures
        spec_material(b2) == -spec_material(b1),
{
    assert forall|k: PieceKind| #[trigger] kind_balance(b2, k) == -kind_balance(b1, k) by {
        assert(side_count(b2, k, true) == side_count(b1, k, false));
        let w = spec_weight(k);
        let wc1 = side_count(b1, k, true);
        let bc1 = side_count(b1, k, false);
        assert(w * (bc1 - wc1) == -(w * (wc1 - bc1))) by (nonlinear_arith);
    }
    assert(kind_balance(b2, PieceKind::Pawn) == -kind_balance(b1, PieceKind::Pawn));
    assert(kind_balance(b2, PieceKind::Knight) == -kind_balance(b1, PieceKind::Knight));
    assert(kind_balance(b2, PieceKind::Bishop) == -kind_balance(b1, PieceKind::Bishop));
    assert(kind_balance(b2, PieceKind::Rook) == -kind_balance(b1, PieceKind::Rook));
    assert(kind_balance(b2, PieceKind::Queen) == -kind_balance(b1, PieceKind::Queen));
    assert(kind_balance(b2, PieceKind::King) == -kind_balance(b1, PieceKind::King));
}

} // verus!
