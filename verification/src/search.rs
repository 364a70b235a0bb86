//! The depth-bounded minimax searcher with alpha-beta pruning.
//!
//! `spec_minmax` is the reference semantics: plain minimax over the game
//! tree, with no pruning. The executable searchers are proved against it.
//! The pruned searcher carries the classic fail-soft bound contract: a
//! result strictly inside the window is the exact minimax value, a result at
//! or below `alpha` is an upper bound on it, and a result at or above `beta`
//! is a lower bound. Over the full window the bounds collapse and pruning
//! provably returns the unpruned value.

use vstd::prelude::*;

use crate::adapter::apply_move;
use crate::adapter::is_ongoing;
use crate::adapter::legal_move_seq;
use crate::adapter::legal_moves;
use crate::adapter::ongoing;
use crate::adapter::successor_of;
use crate::cache::Evaluator;
use crate::cache::key_determines_material;
use crate::eval::evaluation;
use crate::eval::lemma_material_bounds;
use crate::eval::spec_material;
use crate::spec_max;
use crate::spec_min;

verus! {

/// The score of optimal adversarial play from `b`, restricted to `depth`
/// plies: the material evaluation at a leaf (depth exhausted or position no
/// longer ongoing), and otherwise the best child score for the side to move.
///
/// A checkmate or stalemate leaf is scored purely by remaining material,
/// with no forced-win sentinel: a deliberate trait of this engine, kept
/// rather than silently corrected.
pub open spec fn spec_minmax(b: chess::Board, depth: nat, maximize: bool) -> int
    decreases depth, 1int, 0int,
{
    if depth == 0 || !is_ongoing(b) {
        spec_material(b)
    } else {
        let init: int = if maximize {
            i32::MIN as int
        } else {
            i32::MAX as int
        };
        spec_fold_children(b, legal_move_seq(b), 0, depth, maximize, init)
    }
}

/// Folds the children of `b` from index `i` on into the running best `acc`:
/// the maximum of the child scores and `acc` when maximizing, the minimum
/// when minimizing.
pub open spec fn spec_fold_children(
    b: chess::Board,
    moves: Seq<chess::ChessMove>,
    i: int,
    depth: nat,
    maximize: bool,
    acc: int,
) -> int
    decreases depth, 0int, moves.len() - i,
{
    if depth > 0 && 0 <= i < moves.len() {
        let child = spec_minmax(successor_of(b, moves[i]), (depth - 1) as nat, !maximize);
        let step = if maximize {
            spec_max(acc, child)
        } else {
            spec_min(acc, child)
        };
        spec_fold_children(b, moves, i + 1, depth, maximize, step)
    } else {
        acc
    }
}

/// Folding children never moves the running best the wrong way: when
/// maximizing it only grows, when minimizing it only shrinks.
pub proof fn lemma_fold_extreme(
    b: chess::Board,
    moves: Seq<chess::ChessMove>,
    i: int,
    depth: nat,
    maximize: bool,
    acc: int,
)
    ensures
        maximize ==> acc <= spec_fold_children(b, moves, i, depth, maximize, acc),
        !maximize ==> spec_fold_children(b, moves, i, depth, maximize, acc) <= acc,
    decreases moves.len() - i,
{
    if depth > 0 && 0 <= i < moves.len() {
        let child = spec_minmax(successor_of(b, moves[i]), (depth - 1) as nat, !maximize);
        let step = if maximize {
            spec_max(acc, child)
        } else {
            spec_min(acc, child)
        };
        lemma_fold_extreme(b, moves, i + 1, depth, maximize, step);
    }
}

/// Every minimax value is representable as a machine score: it is either a
/// bounded material evaluation or one of the two sentinel extremes.
pub proof fn lemma_minmax_bounds(b: chess::Board, depth: nat, maximize: bool)
    ensures
        i32::MIN <= spec_minmax(b, depth, maximize) <= i32::MAX,
    decreases depth, 1int, 0int,
{
    if depth == 0 || !is_ongoing(b) {
        lemma_material_bounds(b);
    } else {
        let init: int = if maximize {
            i32::MIN as int
        } else {
            i32::MAX as int
        };
        lemma_fold_bounds(b, legal_move_seq(b), 0, depth, maximize, init);
    }
}

proof fn lemma_fold_bounds(
    b: chess::Board,
    moves: Seq<chess::ChessMove>,
    i: int,
    depth: nat,
    maximize: bool,
    acc: int,
)
    requires
        i32::MIN <= acc <= i32::MAX,
    ensures
        i32::MIN <= spec_fold_children(b, moves, i, depth, maximize, acc) <= i32::MAX,
    decreases depth, 0int, moves.len() - i,
{
    if depth > 0 && 0 <= i < moves.len() {
        lemma_minmax_bounds(successor_of(b, moves[i]), (depth - 1) as nat, !maximize);
        let child = spec_minmax(successor_of(b, moves[i]), (depth - 1) as nat, !maximize);
        let step = if maximize {
            spec_max(acc, child)
        } else {
            spec_min(acc, child)
        };
        lemma_fold_bounds(b, moves, i + 1, depth, maximize, step);
    }
}

/// Zero-depth identity: with no depth budget the search is exactly the
/// material evaluation, for any position and either side.
pub proof fn lemma_zero_depth(b: chess::Board, maximize: bool)
    ensures
        spec_minmax(b, 0, maximize) == spec_material(b),
{
}

/// Determinism: the searchers' contracts pin their result to
/// `spec_minmax`, a function of position, depth and side alone, so two
/// results for the same inputs are identical.
pub proof fn lemma_search_deterministic(
    b: chess::Board,
    depth: nat,
    maximize: bool,
    r1: int,
    r2: int,
)
    requires
        r1 == spec_minmax(b, depth, maximize),
        r2 == spec_minmax(b, depth, maximize),
    ensures
        r1 == r2,
{
}

/// Pruning equivalence: over the full score window the fail-soft bound
/// contract of the pruned searcher pins its result to the unpruned minimax
/// value, so pruning never changes the returned score.
pub proof fn lemma_full_window_exact(b: chess::Board, depth: nat, maximize: bool, r: int)
    requires
        i32::MIN <= r <= i32::MAX,
        r <= i32::MIN ==> spec_minmax(b, depth, maximize) <= r,
        r >= i32::MAX ==> r <= spec_minmax(b, depth, maximize),
        i32::MIN < r < i32::MAX ==> r == spec_minmax(b, depth, maximize),
    ensures
        r == spec_minmax(b, depth, maximize),
{
    lemma_minmax_bounds(b, depth, maximize);
}

/// Monotonic bound narrowing: one aggregation step moves `alpha` up to the
/// running best when maximizing and `beta` down to it when minimizing, so
/// across a node's children `alpha` never decreases and `beta` never
/// increases.
pub proof fn lemma_bound_narrowing(bound: int, running_best: int)
    ensures
        spec_max(bound, running_best) >= bound,
        spec_min(bound, running_best) <= bound,
{
}

/// Cache transparency: a score returned with the transposition cache
/// enabled and one returned with it disabled are both the reference minimax
/// value for the same position, depth and side, so they are equal; the
/// cache changes only the work done.
pub proof fn lemma_cache_transparency(
    b: chess::Board,
    depth: nat,
    maximize: bool,
    cached: int,
    uncached: int,
)
    requires
        cached == spec_minmax(b, depth, maximize),
        uncached == spec_minmax(b, depth, maximize),
    ensures
        cached == uncached,
{
}

/// The pruned searcher, over any evaluator. Fail-soft alpha-beta: the
/// result is the exact minimax value whenever it lands strictly inside the
/// `(alpha, beta)` window, and otherwise a sound bound on it. Whatever the
/// window, a leaf (depth exhausted or position no longer ongoing) returns
/// exactly the material evaluation, and a still-ongoing position with no
/// legal moves — a rules-engine contract violation, neither detected nor
/// reported — returns the initialization sentinel unchanged.
pub fn minmax_with(
    ev: &mut Evaluator,
    b: &chess::Board,
    depth: u32,
    alpha: i32,
    beta: i32,
    maximize: bool,
) -> (r: i32)
    requires
        alpha < beta,
        old(ev).wf(),
        old(ev).caching() ==> key_determines_material(),
    ensures
        final(ev).wf(),
        final(ev).caching() == old(ev).caching(),
        ({
            let v = spec_minmax(*b, depth as nat, maximize);
            &&& (r <= alpha ==> v <= r)
            &&& (r >= beta ==> r <= v)
            &&& (alpha < r < beta ==> r == v)
        }),
        (depth == 0 || !is_ongoing(*b)) ==> r as int == spec_material(*b),
        (depth > 0 && is_ongoing(*b) && legal_move_seq(*b).len() == 0) ==> r as int == (
        if maximize {
            i32::MIN as int
        } else {
            i32::MAX as int
        }),
    decreases depth,
{
    if depth == 0 || !ongoing(b) {
        return ev.evaluate(b);
    }
    let ghost v_all = spec_minmax(*b, depth as nat, maximize);
    let moves = legal_moves(b);
    let n = moves.len();
    let mut best: i32 = if maximize {
        i32::MIN
    } else {
        i32::MAX
    };
    let mut lo = alpha;
    let mut hi = beta;
    let ghost mut tru: int = best as int;
    let mut i: usize = 0;
    while i < n
        invariant_except_break
            i <= n,
            n == moves@.len(),
            moves@ == legal_move_seq(*b),
            depth >= 1,
            is_ongoing(*b),
            alpha < beta,
            lo < hi,
            alpha <= lo,
            hi <= beta,
            maximize ==> hi == beta && lo as int == spec_max(alpha as int, best as int),
            !maximize ==> lo == alpha && hi as int == spec_min(beta as int, best as int),
            maximize ==> tru <= best as int && best as int <= spec_max(tru, alpha as int),
            !maximize ==> best as int <= tru && spec_min(tru, beta as int) <= best as int,
            i == 0 ==> best as int == (
            if maximize {
                i32::MIN as int
            } else {
                i32::MAX as int
            }),
            v_all == spec_minmax(*b, depth as nat, maximize),
            v_all == spec_fold_children(*b, moves@, i as int, depth as nat, maximize, tru),
            ev.wf(),
            ev.caching() == old(ev).caching(),
            old(ev).caching() ==> key_determines_material(),
        ensures
            ev.wf(),
            ev.caching() == old(ev).caching(),
            best <= alpha ==> v_all <= best,
            best >= beta ==> best as int <= v_all,
            alpha < best < beta ==> best as int == v_all,
            n == 0 ==> best as int == (
            if maximize {
                i32::MIN as int
            } else {
                i32::MAX as int
            }),
        decreases n - i,
    {
        let m = &moves[i];
        proof {
            assert(legal_move_seq(*b)[i as int] == moves@[i as int]);
            assert(legal_move_seq(*b).contains(moves@[i as int]));
        }
        let child = apply_move(b, m);
        let ghost vc = spec_minmax(
            successor_of(*b, moves@[i as int]),
            (depth - 1) as nat,
            !maximize,
        );
        let r = minmax_with(ev, &child, depth - 1, lo, hi, !maximize);
        if maximize {
            proof {
                tru = spec_max(tru, vc);
            }
            if r > best {
                best = r;
            }
            if best > lo {
                lo = best;
            }
        } else {
            proof {
                tru = spec_min(tru, vc);
            }
            if r < best {
                best = r;
            }
            if best < hi {
                hi = best;
            }
        }
        i = i + 1;
        if hi <= lo {
            proof {
                lemma_fold_extreme(*b, moves@, i as int, depth as nat, maximize, tru);
            }
            break;
        }
    }
    best
}

/// The pruned searcher of the original boundary: no cache, explicit window.
pub fn minmax(b: &chess::Board, depth: u32, alpha: i32, beta: i32, maximize: bool) -> (r: i32)
    requires
        alpha < beta,
    ensures
        ({
            let v = spec_minmax(*b, depth as nat, maximize);
            &&& (r <= alpha ==> v <= r)
            &&& (r >= beta ==> r <= v)
            &&& (alpha < r < beta ==> r == v)
        }),
        (depth == 0 || !is_ongoing(*b)) ==> r as int == spec_material(*b),
        (depth > 0 && is_ongoing(*b) && legal_move_seq(*b).len() == 0) ==> r as int == (
        if maximize {
            i32::MIN as int
        } else {
            i32::MAX as int
        }),
{
    let mut ev = Evaluator::new();
    minmax_with(&mut ev, b, depth, alpha, beta, maximize)
}

/// The unpruned minimax searcher: examines every child of every node and
/// returns exactly the reference minimax value.
pub fn minmax_plain(b: &chess::Board, depth: u32, maximize: bool) -> (r: i32)
    ensures
        r as int == spec_minmax(*b, depth as nat, maximize),
    decreases depth,
{
    if depth == 0 || !ongoing(b) {
        return evaluation(b);
    }
    let moves = legal_moves(b);
    let n = moves.len();
    let mut best: i32 = if maximize {
        i32::MIN
    } else {
        i32::MAX
    };
    let mut i: usize = 0;
    while i < n
        invariant
            i <= n,
            n == moves@.len(),
            moves@ == legal_move_seq(*b),
            depth >= 1,
            is_ongoing(*b),
            spec_minmax(*b, depth as nat, maximize) == spec_fold_children(
                *b,
                moves@,
                i as int,
                depth as nat,
                maximize,
                best as int,
            ),
        decreases n - i,
    {
        let m = &moves[i];
        proof {
            assert(legal_move_seq(*b)[i as int] == moves@[i as int]);
            assert(legal_move_seq(*b).contains(moves@[i as int]));
        }
        let child = apply_move(b, m);
        let r = minmax_plain(&child, depth - 1, !maximize);
        if maximize {
            if r > best {
                best = r;
            }
        } else {
            if r < best {
                best = r;
            }
        }
        i = i + 1;
    }
    best
}

/// A full search over any evaluator: the pruned searcher on the full score
/// window, which provably returns the unpruned minimax value.
pub fn search_with(ev: &mut Evaluator, b: &chess::Board, depth: u32, maximize: bool) -> (r: i32)
    requires
        old(ev).wf(),
        old(ev).caching() ==> key_determines_material(),
    ensures
        final(ev).wf(),
        final(ev).caching() == old(ev).caching(),
        r as int == spec_minmax(*b, depth as nat, maximize),
{
    let r = minmax_with(ev, b, depth, i32::MIN, i32::MAX, maximize);
    proof {
        lemma_full_window_exact(*b, depth as nat, maximize, r as int);
    }
    r
}

/// The boundary operation: score a position under optimal adversarial play
/// restricted to `depth` plies, without a cache.
pub fn search(b: &chess::Board, depth: u32, maximize: bool) -> (r: i32)
    ensures
        r as int == spec_minmax(*b, depth as nat, maximize),
{
    let mut ev = Evaluator::new();
    search_with(&mut ev, b, depth, maximize)
}

/// The caching variant of the boundary operation: same score as `search`
/// for every position, depth and side; only the work differs.
pub fn search_cached(b: &chess::Board, depth: u32, maximize: bool) -> (r: i32)
    requires
        key_determines_material(),
    ensures
        r as int == spec_minmax(*b, depth as nat, maximize),
{
    let mut ev = Evaluator::with_cache();
    search_with(&mut ev, b, depth, maximize)
}

} // verus!
