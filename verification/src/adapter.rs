//! The boundary to the `chess` crate's rules engine.
//!
//! The engine's positions and moves are opaque here. Each operation the
//! search needs is given a name (an uninterpreted spec function of the
//! position alone) and a thin trusted wrapper whose contract ties the call's
//! result to that name. Everything above this module is verified against
//! those names.

use vstd::prelude::*;

verus! {

/// The six chess piece kinds, as this library speaks of them.
#[derive(Clone, Copy, PartialEq, Eq, Structural, Debug)]
pub enum PieceKind {
    Pawn,
    Knight,
    Bishop,
    Rook,
    Queen,
    King,
}

#[verifier::external_type_specification]
#[verifier::external_body]
pub struct ExBoard(chess::Board);

#[verifier::external_type_specification]
#[verifier::external_body]
pub struct ExChessMove(chess::ChessMove);

/// The bitboard (one bit per square) of the squares holding pieces of the
/// given kind, either side, in the given position.
pub uninterp spec fn piece_squares(b: chess::Board, k: PieceKind) -> u64;

/// The bitboard of the squares held by one side (white when `white` is true).
pub uninterp spec fn side_squares(b: chess::Board, white: bool) -> u64;

/// The legal moves from a position, in the move generator's fixed order.
pub uninterp spec fn legal_move_seq(b: chess::Board) -> Seq<chess::ChessMove>;

/// The position reached by playing one move.
pub uninterp spec fn successor_of(b: chess::Board, m: chess::ChessMove) -> chess::Board;

/// Whether play is still ongoing: the position is not terminal (not
/// checkmate and not stalemate).
pub uninterp spec fn is_ongoing(b: chess::Board) -> bool;

/// The position's 64-bit canonical hash key.
pub uninterp spec fn position_key(b: chess::Board) -> u64;

/// Relies on chess::Board::pieces: the bitboard of squares holding the given
/// piece kind; a pure read of the position, so it depends on it alone.
#[verifier::external_body]
pub(crate) fn piece_bits(b: &chess::Board, k: PieceKind) -> (r: u64)
    ensures
        r == piece_squares(*b, k),
{
    let p = match k {
        PieceKind::Pawn => chess::Piece::Pawn,
        PieceKind::Knight => chess::Piece::Knight,
        PieceKind::Bishop => chess::Piece::Bishop,
        PieceKind::Rook => chess::Piece::Rook,
        PieceKind::Queen => chess::Piece::Queen,
        PieceKind::King => chess::Piece::King,
    };
    b.pieces(p).0
}

/// Relies on chess::Board::color_combined: the bitboard of squares held by
/// one side; a pure read of the position.
#[verifier::external_body]
pub(crate) fn side_bits(b: &chess::Board, white: bool) -> (r: u64)
    ensures
        r == side_squares(*b, white),
{
    let c = if white {
        chess::Color::White
    } else {
        chess::Color::Black
    };
    b.color_combined(c).0
}

/// Relies on chess::MoveGen::new_legal: every legal move from the position,
/// produced in the generator's fixed, board-determined order.
#[verifier::external_body]
pub(crate) fn legal_moves(b: &chess::Board) -> (r: Vec<chess::ChessMove>)
    ensures
        r@ == legal_move_seq(*b),
{
    chess::MoveGen::new_legal(b).collect()
}

/// Relies on chess::Board::make_move_new: the successor position after one
/// move, computed from the position and the move alone (the input position
/// is not mutated). The move must be one of the position's legal moves: on
/// another move the engine may find no piece on the source square, or a king
/// on the target, and panic instead of returning.
#[verifier::external_body]
pub(crate) fn apply_move(b: &chess::Board, m: &chess::ChessMove) -> (r: chess::Board)
    requires
        legal_move_seq(*b).contains(*m),
    ensures
        r == successor_of(*b, *m),
{
    b.make_move_new(*m)
}

/// Relies on chess::Board::status: ongoing exactly when the position still
/// has legal moves; checkmate and stalemate otherwise.
#[verifier::external_body]
pub(crate) fn ongoing(b: &chess::Board) -> (r: bool)
    ensures
        r == is_ongoing(*b),
{
    b.status() == chess::BoardStatus::Ongoing
}

/// Relies on chess::Board::get_hash: the position's Zobrist hash, a pure
/// function of the position.
#[verifier::external_body]
pub(crate) fn board_key(b: &chess::Board) -> (r: u64)
    ensures
        r == position_key(*b),
{
    b.get_hash()
}

/// How many legal moves a position has.
pub fn legal_move_count(b: &chess::Board) -> (n: usize)
    ensures
        n == legal_move_seq(*b).len(),
{
    let moves = legal_moves(b);
    moves.len()
}

} // verus!
