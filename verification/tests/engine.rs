//! End-to-end tests of the evaluator, the searchers and the cache, run
//! against the real rules engine.

use std::str::FromStr;

use chess_minimax::adapter::legal_move_count;
use chess_minimax::adapter::PieceKind;
use chess_minimax::cache::Evaluator;
use chess_minimax::cache::evaluation_cached;
use chess_minimax::cache::TranspositionCache;
use chess_minimax::eval::evaluation;
use chess_minimax::eval::weight_of;
use chess_minimax::search::minmax;
use chess_minimax::search::minmax_plain;
use chess_minimax::search::search;
use chess_minimax::search::search_cached;
use chess_minimax::search::search_with;

// K+R versus bare K: one rook of material ahead.
const KR_VS_K: &str = "4k3/8/8/8/8/8/8/4K2R w K - 0 1";
// The color mirror of KR_VS_K: ranks flipped, colors swapped, black to move.
const K_VS_KR: &str = "4k2r/8/8/8/8/8/8/4K3 b k - 0 1";
// Queens face each other on the open d-file; either may capture the other.
const QUEEN_STANDOFF_WHITE: &str = "3qk3/8/8/8/8/8/8/3QK3 w - - 0 1";
const QUEEN_STANDOFF_BLACK: &str = "3qk3/8/8/8/8/8/8/3QK3 b - - 0 1";
// Fool's mate: white is checkmated, material is level.
const FOOLS_MATE: &str = "rnb1kbnr/pppp1ppp/8/4p3/6Pq/5P2/PPPPP2P/RNBQKBNR w KQkq - 1 3";
// Queen on f7 stalemates the bare black king in the corner.
const STALEMATE: &str = "7k/5Q2/6K1/8/8/8/8/8 b - - 0 1";

fn board(fen: &str) -> chess::Board {
    chess::Board::from_str(fen).expect("valid position")
}

#[test]
fn weight_table() {
    assert_eq!(weight_of(PieceKind::Pawn), 1);
    assert_eq!(weight_of(PieceKind::Knight), 3);
    assert_eq!(weight_of(PieceKind::Bishop), 3);
    assert_eq!(weight_of(PieceKind::Rook), 5);
    assert_eq!(weight_of(PieceKind::Queen), 9);
    assert_eq!(weight_of(PieceKind::King), 1000);
}

#[test]
fn starting_position_sanity() {
    let b = chess::Board::default();
    assert_eq!(evaluation(&b), 0);
    assert_eq!(legal_move_count(&b), 20);
}

#[test]
fn material_exact_values() {
    assert_eq!(evaluation(&board(KR_VS_K)), 5);
    assert_eq!(evaluation(&board(QUEEN_STANDOFF_WHITE)), 0);
    assert_eq!(evaluation(&board(FOOLS_MATE)), 0);
    assert_eq!(evaluation(&board(STALEMATE)), 9);
}

#[test]
fn mirror_symmetry() {
    let w = board(KR_VS_K);
    let m = board(K_VS_KR);
    assert_eq!(evaluation(&w), 5);
    assert_eq!(evaluation(&m), -evaluation(&w));
}

#[test]
fn zero_depth_identity() {
    for fen in [KR_VS_K, QUEEN_STANDOFF_WHITE, FOOLS_MATE, STALEMATE] {
        let b = board(fen);
        let e = evaluation(&b);
        assert_eq!(search(&b, 0, true), e);
        assert_eq!(search(&b, 0, false), e);
    }
    let start = chess::Board::default();
    assert_eq!(search(&start, 0, true), evaluation(&start));
}

#[test]
fn determinism() {
    let b = chess::Board::default();
    let first = search(&b, 3, true);
    let second = search(&b, 3, true);
    assert_eq!(first, second);
    let q = board(QUEEN_STANDOFF_BLACK);
    assert_eq!(search(&q, 2, false), search(&q, 2, false));
}

#[test]
fn depth_one_from_start() {
    let b = chess::Board::default();
    // No opening move captures anything, so every child evaluates to zero
    // and the best score is zero for either side.
    let mut children = 0;
    for m in chess::MoveGen::new_legal(&b) {
        let child = b.make_move_new(m);
        assert_eq!(evaluation(&child), 0);
        children += 1;
    }
    assert_eq!(children, 20);
    assert_eq!(search(&b, 1, true), 0);
    assert_eq!(search(&b, 1, false), 0);
}

#[test]
fn hanging_queen_is_taken() {
    // White to move captures the queen; at one ply the recapture is unseen.
    assert_eq!(search(&board(QUEEN_STANDOFF_WHITE), 1, true), 9);
    // Black to move does the mirror image.
    assert_eq!(search(&board(QUEEN_STANDOFF_BLACK), 1, false), -9);
    // At two plies the recapture evens the exchange back out.
    assert_eq!(search(&board(QUEEN_STANDOFF_WHITE), 2, true), 0);
}

#[test]
fn terminal_positions_score_as_material() {
    // Checkmate and stalemate end the recursion at any depth and are scored
    // purely by remaining material.
    let mate = board(FOOLS_MATE);
    assert_eq!(legal_move_count(&mate), 0);
    assert_eq!(search(&mate, 6, true), 0);
    let stale = board(STALEMATE);
    assert_eq!(legal_move_count(&stale), 0);
    assert_eq!(search(&stale, 6, false), 9);
}

#[test]
fn pruning_equivalence() {
    let start = chess::Board::default();
    for depth in 0..4 {
        assert_eq!(minmax_plain(&start, depth, true), search(&start, depth, true));
        assert_eq!(minmax_plain(&start, depth, false), search(&start, depth, false));
    }
    for fen in [KR_VS_K, QUEEN_STANDOFF_WHITE, QUEEN_STANDOFF_BLACK, STALEMATE] {
        let b = board(fen);
        for depth in 0..4 {
            assert_eq!(minmax_plain(&b, depth, true), search(&b, depth, true));
            assert_eq!(minmax_plain(&b, depth, false), search(&b, depth, false));
        }
    }
}

#[test]
fn narrow_window_returns_sound_bound() {
    // The true value is 9; a window capped below it must fail high: the
    // result is at or above the cap and never overshoots the true value.
    let b = board(QUEEN_STANDOFF_WHITE);
    let r = minmax(&b, 1, 0, 5, true);
    assert!(r >= 5);
    assert!(r <= 9);
    // A window above the true value must fail low.
    let r = minmax(&b, 1, 20, 30, true);
    assert!(r <= 20);
    assert!(r >= 9);
}

#[test]
fn terminal_leaf_ignores_window() {
    // A terminal or zero-depth node returns the material evaluation under
    // any window, not merely a window bound.
    let mate = board(FOOLS_MATE);
    assert_eq!(minmax(&mate, 3, -5, 5, true), 0);
    // The true value 9 lies below this window: still returned exactly.
    let stale = board(STALEMATE);
    assert_eq!(minmax(&stale, 2, 10, 20, false), 9);
    // Zero depth likewise, with the value above the window.
    assert_eq!(minmax(&board(KR_VS_K), 0, -30, -20, true), 5);
}

#[test]
fn cache_transparency() {
    let start = chess::Board::default();
    for depth in 0..4 {
        assert_eq!(search_cached(&start, depth, true), search(&start, depth, true));
    }
    for fen in [KR_VS_K, QUEEN_STANDOFF_BLACK, FOOLS_MATE] {
        let b = board(fen);
        for depth in 0..3 {
            assert_eq!(search_cached(&b, depth, false), search(&b, depth, false));
        }
    }
}

#[test]
fn cache_lookup_and_insert() {
    let mut c = TranspositionCache::new();
    assert_eq!(c.len(), 0);
    assert_eq!(c.lookup(42), None);
    c.insert(42, -7);
    assert_eq!(c.lookup(42), Some(-7));
    assert_eq!(c.len(), 1);
    // Overwriting is unconditional.
    c.insert(42, 11);
    assert_eq!(c.lookup(42), Some(11));
    assert_eq!(c.len(), 1);
    c.insert(7, 0);
    assert_eq!(c.len(), 2);
}

#[test]
fn cached_evaluation_matches_plain() {
    let mut c = TranspositionCache::new();
    let b = board(KR_VS_K);
    // A miss computes and records; a hit returns the same score unchanged.
    assert_eq!(evaluation_cached(&b, &mut c), 5);
    assert_eq!(evaluation_cached(&b, &mut c), 5);
    let start = chess::Board::default();
    assert_eq!(evaluation_cached(&start, &mut c), evaluation(&start));
}

#[test]
fn evaluator_caches_by_position() {
    let mut ev = Evaluator::with_cache();
    assert_eq!(ev.cached_count(), 0);
    let b = board(KR_VS_K);
    assert_eq!(ev.evaluate(&b), 5);
    assert_eq!(ev.cached_count(), 1);
    // The same position again: a hit, nothing new recorded.
    assert_eq!(ev.evaluate(&b), 5);
    assert_eq!(ev.cached_count(), 1);
    // A different position gets its own entry.
    let start = chess::Board::default();
    assert_eq!(ev.evaluate(&start), 0);
    assert_eq!(ev.cached_count(), 2);
}

#[test]
fn cache_survives_across_searches() {
    let mut ev = Evaluator::with_cache();
    let b = board(QUEEN_STANDOFF_WHITE);
    let first = search_with(&mut ev, &b, 2, true);
    let filled = ev.cached_count();
    assert!(filled > 0);
    let second = search_with(&mut ev, &b, 2, true);
    assert_eq!(first, second);
    assert_eq!(first, search(&b, 2, true));
    assert_eq!(ev.cached_count(), filled);
}
