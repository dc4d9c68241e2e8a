//! Terrain sculpting: raising or lowering one vertex by a unit while dragging
//! its neighbours along so that the slope rule keeps holding.
//!
//! A raise (lower) first raises (lowers) every Chebyshev neighbour that is
//! lower (higher) than the vertex, recursively, in row-major order, and then
//! moves the vertex itself. Failure policy: work already committed by
//! completed sub-steps stays in place when a later neighbour fails; the board
//! is still well-formed and, if it was smooth, still smooth.

use vstd::prelude::*;
use crate::board::{
    Board, Vertex, height_at, smooth, vertex_in_bounds, vertex_index, vertex_is_edge, adjacent,
    MAX_HEIGHT, MIN_HEIGHT,
};

verus! {

/// Why a sculpting step did nothing at the requested vertex.
#[derive(PartialEq, Eq, Structural, Clone, Copy, Debug)]
pub enum TerrainError {
    AtMaxHeight,
    AtMinHeight,
    ImmutableEdge,
    /// No vertex on the board was selected.
    NoTarget,
}

pub open spec fn abs_diff(a: int, b: int) -> int {
    if a >= b {
        a - b
    } else {
        b - a
    }
}

/// Chebyshev distance between two grid points.
pub open spec fn cheb_dist(x1: int, y1: int, x2: int, y2: int) -> int {
    let dx = abs_diff(x1, x2);
    let dy = abs_diff(y1, y2);
    if dx >= dy {
        dx
    } else {
        dy
    }
}

/// Raising `(vx, vy)` from height `h` never has to move an edge vertex: each
/// edge vertex already stands at or above the slope-one cone that peaks at
/// `h + 1` over `(vx, vy)`.
pub open spec fn raise_is_clear(heights: Seq<u8>, vx: int, vy: int, h: int) -> bool {
    forall|x: int, y: int|
        vertex_in_bounds(x, y) && vertex_is_edge(x, y) ==> #[trigger] height_at(heights, x, y)
            + cheb_dist(x, y, vx, vy) > h
}

/// Lowering `(vx, vy)` from height `h` never has to move an edge vertex.
pub open spec fn lower_is_clear(heights: Seq<u8>, vx: int, vy: int, h: int) -> bool {
    forall|x: int, y: int|
        vertex_in_bounds(x, y) && vertex_is_edge(x, y) ==> #[trigger] height_at(heights, x, y)
            - cheb_dist(x, y, vx, vy) < h
}

/// Going from `before` to `after`, heights only rose, and every vertex that
/// rose ended at or under the slope-one cone that peaks at `p + 1` over
/// `(vx, vy)`.
pub open spec fn raised_within(before: Seq<u8>, after: Seq<u8>, vx: int, vy: int, p: int) -> bool {
    &&& after.len() == before.len()
    &&& forall|x: int, y: int|
        vertex_in_bounds(x, y) ==> {
            &&& #[trigger] height_at(after, x, y) >= height_at(before, x, y)
            &&& height_at(after, x, y) != height_at(before, x, y) ==> height_at(after, x, y) <= p
                + 1 - cheb_dist(x, y, vx, vy)
        }
}

/// Going from `before` to `after`, heights only fell, and every vertex that
/// fell ended at or over the slope-one funnel that bottoms out at `p - 1` under
/// `(vx, vy)`.
pub open spec fn lowered_within(before: Seq<u8>, after: Seq<u8>, vx: int, vy: int, p: int) -> bool {
    &&& after.len() == before.len()
    &&& forall|x: int, y: int|
        vertex_in_bounds(x, y) ==> {
            &&& #[trigger] height_at(after, x, y) <= height_at(before, x, y)
            &&& height_at(after, x, y) != height_at(before, x, y) ==> height_at(after, x, y) >= p
                - 1 + cheb_dist(x, y, vx, vy)
        }
}

/// Moving one step changes the Chebyshev distance to any point by at most one.
pub proof fn lemma_cheb_step(x: int, y: int, ax: int, ay: int, bx: int, by: int)
    requires
        adjacent(ax, ay, bx, by),
    ensures
        cheb_dist(x, y, ax, ay) >= cheb_dist(x, y, bx, by) - 1,
        cheb_dist(x, y, ax, ay) <= cheb_dist(x, y, bx, by) + 1,
{
}

/// `-1`, `0` or `1`: the step from `a` toward `b`.
pub open spec fn step_toward(a: int, b: int) -> int {
    if b > a {
        1
    } else if b < a {
        -1
    } else {
        0
    }
}

/// On a smooth board, heights differ by at most the Chebyshev distance.
pub proof fn lemma_smooth_lipschitz(heights: Seq<u8>, ax: int, ay: int, bx: int, by: int)
    requires
        smooth(heights),
        vertex_in_bounds(ax, ay),
        vertex_in_bounds(bx, by),
    ensures
        height_at(heights, ax, ay) <= height_at(heights, bx, by) + cheb_dist(ax, ay, bx, by),
    decreases cheb_dist(ax, ay, bx, by),
{
    if cheb_dist(ax, ay, bx, by) > 0 {
        let nx = ax + step_toward(ax, bx);
        let ny = ay + step_toward(ay, by);
        assert(cheb_dist(nx, ny, bx, by) == cheb_dist(ax, ay, bx, by) - 1);
        lemma_smooth_lipschitz(heights, nx, ny, bx, by);
        assert(height_at(heights, ax, ay) - height_at(heights, nx, ny) <= 1);
    }
}

/// Edge vertices kept their heights.
pub open spec fn edges_kept(before: Seq<u8>, after: Seq<u8>) -> bool {
    forall|x: int, y: int|
        vertex_in_bounds(x, y) && vertex_is_edge(x, y) ==> #[trigger] height_at(after, x, y)
            == height_at(before, x, y)
}

/// `after` is `before` lifted to the least slope-one cone peaking at `p + 1`
/// over `(vx, vy)`: each vertex ends at the higher of its start and the cone.
pub open spec fn is_raised_cone(before: Seq<u8>, after: Seq<u8>, vx: int, vy: int, p: int) -> bool {
    forall|x: int, y: int|
        vertex_in_bounds(x, y) ==> #[trigger] height_at(after, x, y) == max_int(
            height_at(before, x, y),
            p + 1 - cheb_dist(x, y, vx, vy),
        )
}

/// `after` is `before` cut down to the least slope-one funnel bottoming out at
/// `p - 1` under `(vx, vy)`: each vertex ends at the lower of its start and the funnel.
pub open spec fn is_lowered_funnel(before: Seq<u8>, after: Seq<u8>, vx: int, vy: int, p: int) -> bool {
    forall|x: int, y: int|
        vertex_in_bounds(x, y) ==> #[trigger] height_at(after, x, y) == min_int(
            height_at(before, x, y),
            p - 1 + cheb_dist(x, y, vx, vy),
        )
}

/// Place of neighbour `(x, y)` in the row-major visit of the 3x3 square around `(vx, vy)`.
pub open spec fn visit_order(x: int, y: int, vx: int, vy: int) -> int {
    (y - vy + 1) * 3 + (x - vx + 1)
}

pub open spec fn min_int(a: int, b: int) -> int {
    if a <= b {
        a
    } else {
        b
    }
}

pub open spec fn max_int(a: int, b: int) -> int {
    if a >= b {
        a
    } else {
        b
    }
}

/// After a successful raise of `(vx, vy)` from `p`, each neighbour stands at
/// least at `p`, or at least one above where it started.
pub open spec fn neighbours_raised(before: Seq<u8>, after: Seq<u8>, vx: int, vy: int, p: int) -> bool {
    forall|x: int, y: int|
        vertex_in_bounds(x, y) && adjacent(x, y, vx, vy) && !(x == vx && y == vy)
            ==> #[trigger] height_at(after, x, y) >= min_int(p, height_at(before, x, y) + 1)
}

/// After a successful lower of `(vx, vy)` from `p`, each neighbour stands at
/// most at `p`, or at least one below where it started.
pub open spec fn neighbours_lowered(before: Seq<u8>, after: Seq<u8>, vx: int, vy: int, p: int) -> bool {
    forall|x: int, y: int|
        vertex_in_bounds(x, y) && adjacent(x, y, vx, vy) && !(x == vx && y == vy)
            ==> #[trigger] height_at(after, x, y) <= max_int(p, height_at(before, x, y) - 1)
}

/// No neighbour of `(vx, vy)` is lower than `p`.
pub open spec fn none_below(heights: Seq<u8>, vx: int, vy: int, p: int) -> bool {
    forall|x: int, y: int|
        vertex_in_bounds(x, y) && adjacent(x, y, vx, vy) && !(x == vx && y == vy)
            ==> #[trigger] height_at(heights, x, y) >= p
}

/// No neighbour of `(vx, vy)` is higher than `p`.
pub open spec fn none_above(heights: Seq<u8>, vx: int, vy: int, p: int) -> bool {
    forall|x: int, y: int|
        vertex_in_bounds(x, y) && adjacent(x, y, vx, vy) && !(x == vx && y == vy)
            ==> #[trigger] height_at(heights, x, y) <= p
}

/// The `k`-th neighbour, in row-major order, of a vertex strictly inside the board.
fn neighbour(v: Vertex, k: usize) -> (n: Vertex)
    requires
        v.on_board(),
        !v.is_edge(),
        k < 9,
    ensures
        n.on_board(),
        adjacent(n.x as int, n.y as int, v.x as int, v.y as int),
        visit_order(n.x as int, n.y as int, v.x as int, v.y as int) == k,
{
    Vertex { x: v.x - 1 + (k % 3) as u32, y: v.y - 1 + (k / 3) as u32 }
}

#[verifier::rlimit(60)]
fn raise_from(board: &mut Board, v: Vertex, prior: u8) -> (r: Result<(), TerrainError>)
    requires
        old(board)@.wf(),
        v.on_board(),
        prior == old(board)@.height(v),
    ensures
        final(board)@.wf(),
        final(board)@.placements == old(board)@.placements,
        final(board)@.occupants == old(board)@.occupants,
        raised_within(old(board)@.heights, final(board)@.heights, v.x as int, v.y as int, prior as int),
        prior >= MAX_HEIGHT ==> r == Err::<(), TerrainError>(TerrainError::AtMaxHeight),
        prior >= MAX_HEIGHT || v.is_edge() ==> final(board)@.heights == old(board)@.heights,
        prior < MAX_HEIGHT && v.is_edge() ==> r == Err::<(), TerrainError>(TerrainError::ImmutableEdge),
        r == Err::<(), TerrainError>(TerrainError::AtMaxHeight) ==> prior >= MAX_HEIGHT,
        r is Err ==> r == Err::<(), TerrainError>(TerrainError::AtMaxHeight) || r == Err::<
            (),
            TerrainError,
        >(TerrainError::ImmutableEdge),
        r is Err ==> final(board)@.height(v) == prior,
        r is Ok ==> final(board)@.height(v) == prior + 1,
        r is Ok ==> neighbours_raised(old(board)@.heights, final(board)@.heights, v.x as int, v.y as int, prior as int),
        smooth(old(board)@.heights) ==> smooth(final(board)@.heights),
        edges_kept(old(board)@.heights, final(board)@.heights),
        smooth(old(board)@.heights) && !raise_is_clear(old(board)@.heights, v.x as int, v.y as int, prior as int)
            ==> r is Err,
        prior < MAX_HEIGHT && raise_is_clear(old(board)@.heights, v.x as int, v.y as int, prior as int)
            ==> r is Ok,
        prior < MAX_HEIGHT && !v.is_edge() && none_below(old(board)@.heights, v.x as int, v.y as int, prior as int)
            ==> r is Ok && final(board)@.heights == old(board)@.heights.update(
            vertex_index(v.x as int, v.y as int),
            (prior + 1) as u8,
        ),
    decreases prior,
{
    if prior >= MAX_HEIGHT {
        return Err(TerrainError::AtMaxHeight);
    }
    if v.is_edge_vertex() {
        return Err(TerrainError::ImmutableEdge);
    }
    let ghost start = board@.heights;
    let ghost vx = v.x as int;
    let ghost vy = v.y as int;
    // When the cone is blocked, `u` is an edge vertex inside it and `(nx, ny)`
    // the neighbour one step toward it, whose own raise must then fail.
    let ghost blocked = smooth(start) && !raise_is_clear(start, vx, vy, prior as int);
    let ghost u = choose|x: int, y: int|
        vertex_in_bounds(x, y) && vertex_is_edge(x, y) && height_at(start, x, y) + cheb_dist(x, y, vx, vy)
            <= prior;
    let ghost nx = vx + step_toward(vx, u.0);
    let ghost ny = vy + step_toward(vy, u.1);
    let ghost ks = visit_order(nx, ny, vx, vy);
    proof {
        if blocked {
            assert(cheb_dist(u.0, u.1, nx, ny) == cheb_dist(u.0, u.1, vx, vy) - 1);
            lemma_smooth_lipschitz(start, nx, ny, u.0, u.1);
        }
    }
    let mut k: usize = 0;
    while k < 9
        invariant
            k <= 9,
            board@.wf(),
            v.on_board(),
            !v.is_edge(),
            prior < MAX_HEIGHT,
            start == old(board)@.heights,
            vx == v.x,
            vy == v.y,
            board@.placements == old(board)@.placements,
            board@.occupants == old(board)@.occupants,
            board@.height(v) == prior,
            raised_within(start, board@.heights, vx, vy, prior as int),
            forall|x: int, y: int|
                vertex_in_bounds(x, y) && adjacent(x, y, vx, vy) && !(x == vx && y == vy)
                    && visit_order(x, y, vx, vy) < k ==> #[trigger] height_at(board@.heights, x, y)
                    >= min_int(prior as int, height_at(start, x, y) + 1),
            smooth(start) ==> smooth(board@.heights),
            none_below(start, vx, vy, prior as int) ==> board@.heights == start,
            edges_kept(start, board@.heights),
            blocked == (smooth(start) && !raise_is_clear(start, vx, vy, prior as int)),
            blocked ==> {
                &&& vertex_in_bounds(u.0, u.1) && vertex_is_edge(u.0, u.1)
                &&& height_at(start, u.0, u.1) + cheb_dist(u.0, u.1, vx, vy) <= prior
                &&& vertex_in_bounds(nx, ny) && adjacent(nx, ny, vx, vy) && !(nx == vx && ny == vy)
                &&& cheb_dist(u.0, u.1, nx, ny) == cheb_dist(u.0, u.1, vx, vy) - 1
                &&& ks == visit_order(nx, ny, vx, vy)
                &&& k <= ks
                &&& height_at(board@.heights, nx, ny) < prior
            },
        decreases 9 - k,
    {
        let n = neighbour(v, k);
        let h = board.vertex_height(n);
        if h < prior {
            let ghost mid = board@.heights;
            proof {
                if raise_is_clear(start, vx, vy, prior as int) {
                    assert forall|x: int, y: int|
                        vertex_in_bounds(x, y) && vertex_is_edge(x, y) implies #[trigger] height_at(
                        mid,
                        x,
                        y,
                    ) + cheb_dist(x, y, n.x as int, n.y as int) > h by {
                        assert(height_at(start, x, y) + cheb_dist(x, y, vx, vy) > prior);
                        assert(height_at(mid, x, y) >= height_at(start, x, y));
                        lemma_cheb_step(x, y, n.x as int, n.y as int, vx, vy);
                    }
                }
            }
            proof {
                if blocked && k == ks {
                    assert(n.x == nx && n.y == ny);
                    assert(height_at(mid, vx, vy) == prior);
                    assert(height_at(mid, nx, ny) - height_at(mid, vx, vy) >= -1);
                    assert(height_at(mid, u.0, u.1) == height_at(start, u.0, u.1));
                    assert(!(height_at(mid, u.0, u.1) + cheb_dist(u.0, u.1, nx, ny) > h));
                }
            }
            let sub = raise_from(board, n, h);
            proof {
                let ghost now = board@.heights;
                assert forall|x: int, y: int| vertex_in_bounds(x, y) implies {
                    &&& #[trigger] height_at(now, x, y) >= height_at(start, x, y)
                    &&& height_at(now, x, y) != height_at(start, x, y) ==> height_at(now, x, y)
                        <= prior + 1 - cheb_dist(x, y, vx, vy)
                } by {
                    assert(height_at(mid, x, y) >= height_at(start, x, y));
                    lemma_cheb_step(x, y, n.x as int, n.y as int, vx, vy);
                }
                assert(height_at(mid, vx, vy) == prior);
                assert(!(n.x == vx && n.y == vy));
                assert(height_at(now, vx, vy) >= height_at(mid, vx, vy));
                assert(height_at(now, vx, vy) == prior);
                if blocked && k != ks {
                    assert(!(n.x == nx && n.y == ny));
                    assert(height_at(mid, nx, ny) < prior);
                    assert(height_at(now, nx, ny) == height_at(mid, nx, ny) || height_at(now, nx, ny) <= h);
                }
            }
            match sub {
                Err(e) => {
                    return Err(e);
                },
                Ok(()) => {},
            }
        }
        k = k + 1;
    }
    let ghost cur = board@.heights;
    board.set_vertex_height(v, prior + 1);
    proof {
        let ghost fin = board@.heights;
        assert forall|x: int, y: int| vertex_in_bounds(x, y) implies #[trigger] height_at(fin, x, y)
            == if x == vx && y == vy {
            prior + 1
        } else {
            height_at(cur, x, y)
        } by {
            if !(x == vx && y == vy) {
                assert(vertex_index(x, y) != vertex_index(vx, vy));
            }
        }
        if smooth(start) {
            assert forall|x1: int, y1: int, x2: int, y2: int|
                vertex_in_bounds(x1, y1) && vertex_in_bounds(x2, y2) && adjacent(
                    x1,
                    y1,
                    x2,
                    y2,
                ) implies -1 <= #[trigger] height_at(fin, x1, y1) - #[trigger] height_at(fin, x2, y2)
                <= 1 by {
                assert(height_at(cur, x1, y1) - height_at(cur, x2, y2) <= 1);
                assert(height_at(cur, x2, y2) - height_at(cur, x1, y1) <= 1);
                if x1 == vx && y1 == vy && !(x2 == vx && y2 == vy) {
                    assert(height_at(start, x2, y2) - height_at(start, vx, vy) >= -1);
                    assert(height_at(cur, x2, y2) >= min_int(prior as int, height_at(start, x2, y2) + 1));
                }
                if x2 == vx && y2 == vy && !(x1 == vx && y1 == vy) {
                    assert(height_at(start, x1, y1) - height_at(start, vx, vy) >= -1);
                    assert(height_at(cur, x1, y1) >= min_int(prior as int, height_at(start, x1, y1) + 1));
                }
            }
        }
    }
    Ok(())
}

#[verifier::rlimit(60)]
fn lower_from(board: &mut Board, v: Vertex, prior: u8) -> (r: Result<(), TerrainError>)
    requires
        old(board)@.wf(),
        v.on_board(),
        prior == old(board)@.height(v),
    ensures
        final(board)@.wf(),
        final(board)@.placements == old(board)@.placements,
        final(board)@.occupants == old(board)@.occupants,
        lowered_within(old(board)@.heights, final(board)@.heights, v.x as int, v.y as int, prior as int),
        !v.is_edge() && prior <= MIN_HEIGHT ==> r == Err::<(), TerrainError>(TerrainError::AtMinHeight),
        prior <= MIN_HEIGHT || v.is_edge() ==> final(board)@.heights == old(board)@.heights,
        v.is_edge() ==> r == Err::<(), TerrainError>(TerrainError::ImmutableEdge),
        r == Err::<(), TerrainError>(TerrainError::AtMinHeight) ==> prior <= MIN_HEIGHT,
        r is Err ==> r == Err::<(), TerrainError>(TerrainError::AtMinHeight) || r == Err::<
            (),
            TerrainError,
        >(TerrainError::ImmutableEdge),
        r is Err ==> final(board)@.height(v) == prior,
        r is Ok ==> final(board)@.height(v) == prior - 1,
        r is Ok ==> neighbours_lowered(old(board)@.heights, final(board)@.heights, v.x as int, v.y as int, prior as int),
        smooth(old(board)@.heights) ==> smooth(final(board)@.heights),
        edges_kept(old(board)@.heights, final(board)@.heights),
        smooth(old(board)@.heights) && !lower_is_clear(old(board)@.heights, v.x as int, v.y as int, prior as int)
            ==> r is Err,
        prior > MIN_HEIGHT && lower_is_clear(old(board)@.heights, v.x as int, v.y as int, prior as int)
            ==> r is Ok,
        prior > MIN_HEIGHT && !v.is_edge() && none_above(old(board)@.heights, v.x as int, v.y as int, prior as int)
            ==> r is Ok && final(board)@.heights == old(board)@.heights.update(
            vertex_index(v.x as int, v.y as int),
            (prior - 1) as u8,
        ),
    decreases MAX_HEIGHT - prior,
{
    if v.is_edge_vertex() {
        return Err(TerrainError::ImmutableEdge);
    }
    if prior <= MIN_HEIGHT {
        return Err(TerrainError::AtMinHeight);
    }
    let ghost start = board@.heights;
    let ghost vx = v.x as int;
    let ghost vy = v.y as int;
    // When the cone is blocked, `u` is an edge vertex inside it and `(nx, ny)`
    // the neighbour one step toward it, whose own lower must then fail.
    let ghost blocked = smooth(start) && !lower_is_clear(start, vx, vy, prior as int);
    let ghost u = choose|x: int, y: int|
        vertex_in_bounds(x, y) && vertex_is_edge(x, y) && height_at(start, x, y) - cheb_dist(x, y, vx, vy)
            >= prior;
    let ghost nx = vx + step_toward(vx, u.0);
    let ghost ny = vy + step_toward(vy, u.1);
    let ghost ks = visit_order(nx, ny, vx, vy);
    proof {
        if blocked {
            assert(cheb_dist(u.0, u.1, nx, ny) == cheb_dist(u.0, u.1, vx, vy) - 1);
            lemma_smooth_lipschitz(start, u.0, u.1, nx, ny);
        }
    }
    let mut k: usize = 0;
    while k < 9
        invariant
            k <= 9,
            board@.wf(),
            v.on_board(),
            !v.is_edge(),
            prior > MIN_HEIGHT,
            start == old(board)@.heights,
            vx == v.x,
            vy == v.y,
            board@.placements == old(board)@.placements,
            board@.occupants == old(board)@.occupants,
            board@.height(v) == prior,
            lowered_within(start, board@.heights, vx, vy, prior as int),
            forall|x: int, y: int|
                vertex_in_bounds(x, y) && adjacent(x, y, vx, vy) && !(x == vx && y == vy)
                    && visit_order(x, y, vx, vy) < k ==> #[trigger] height_at(board@.heights, x, y)
                    <= max_int(prior as int, height_at(start, x, y) - 1),
            smooth(start) ==> smooth(board@.heights),
            none_above(start, vx, vy, prior as int) ==> board@.heights == start,
            edges_kept(start, board@.heights),
            blocked == (smooth(start) && !lower_is_clear(start, vx, vy, prior as int)),
            blocked ==> {
                &&& vertex_in_bounds(u.0, u.1) && vertex_is_edge(u.0, u.1)
                &&& height_at(start, u.0, u.1) - cheb_dist(u.0, u.1, vx, vy) >= prior
                &&& vertex_in_bounds(nx, ny) && adjacent(nx, ny, vx, vy) && !(nx == vx && ny == vy)
                &&& cheb_dist(u.0, u.1, nx, ny) == cheb_dist(u.0, u.1, vx, vy) - 1
                &&& ks == visit_order(nx, ny, vx, vy)
                &&& k <= ks
                &&& height_at(board@.heights, nx, ny) > prior
            },
        decreases 9 - k,
    {
        let n = neighbour(v, k);
        let h = board.vertex_height(n);
        if h > prior {
            let ghost mid = board@.heights;
            proof {
                if lower_is_clear(start, vx, vy, prior as int) {
                    assert forall|x: int, y: int|
                        vertex_in_bounds(x, y) && vertex_is_edge(x, y) implies #[trigger] height_at(
                        mid,
                        x,
                        y,
                    ) - cheb_dist(x, y, n.x as int, n.y as int) < h by {
                        assert(height_at(start, x, y) - cheb_dist(x, y, vx, vy) < prior);
                        assert(height_at(mid, x, y) <= height_at(start, x, y));
                        lemma_cheb_step(x, y, n.x as int, n.y as int, vx, vy);
                    }
                }
            }
            proof {
                if blocked && k == ks {
                    assert(n.x == nx && n.y == ny);
                    assert(height_at(mid, vx, vy) == prior);
                    assert(height_at(mid, nx, ny) - height_at(mid, vx, vy) <= 1);
                    assert(height_at(mid, u.0, u.1) == height_at(start, u.0, u.1));
                    assert(!(height_at(mid, u.0, u.1) - cheb_dist(u.0, u.1, nx, ny) < h));
                }
            }
            let sub = lower_from(board, n, h);
            proof {
                let ghost now = board@.heights;
                assert forall|x: int, y: int| vertex_in_bounds(x, y) implies {
                    &&& #[trigger] height_at(now, x, y) <= height_at(start, x, y)
                    &&& height_at(now, x, y) != height_at(start, x, y) ==> height_at(now, x, y)
                        >= prior - 1 + cheb_dist(x, y, vx, vy)
                } by {
                    assert(height_at(mid, x, y) <= height_at(start, x, y));
                    lemma_cheb_step(x, y, n.x as int, n.y as int, vx, vy);
                }
                assert(height_at(mid, vx, vy) == prior);
                assert(!(n.x == vx && n.y == vy));
                assert(height_at(now, vx, vy) <= height_at(mid, vx, vy));
                assert(height_at(now, vx, vy) == prior);
                if blocked && k != ks {
                    assert(!(n.x == nx && n.y == ny));
                    assert(height_at(mid, nx, ny) > prior);
                    assert(height_at(now, nx, ny) == height_at(mid, nx, ny) || height_at(now, nx, ny) >= h);
                }
            }
            match sub {
                Err(e) => {
                    return Err(e);
                },
                Ok(()) => {},
            }
        }
        k = k + 1;
    }
    let ghost cur = board@.heights;
    board.set_vertex_height(v, prior - 1);
    proof {
        let ghost fin = board@.heights;
        assert forall|x: int, y: int| vertex_in_bounds(x, y) implies #[trigger] height_at(fin, x, y)
            == if x == vx && y == vy {
            prior - 1
        } else {
            height_at(cur, x, y)
        } by {
            if !(x == vx && y == vy) {
                assert(vertex_index(x, y) != vertex_index(vx, vy));
            }
        }
        if smooth(start) {
            assert forall|x1: int, y1: int, x2: int, y2: int|
                vertex_in_bounds(x1, y1) && vertex_in_bounds(x2, y2) && adjacent(
                    x1,
                    y1,
                    x2,
                    y2,
                ) implies -1 <= #[trigger] height_at(fin, x1, y1) - #[trigger] height_at(fin, x2, y2)
                <= 1 by {
                assert(height_at(cur, x1, y1) - height_at(cur, x2, y2) <= 1);
                assert(height_at(cur, x2, y2) - height_at(cur, x1, y1) <= 1);
                if x1 == vx && y1 == vy && !(x2 == vx && y2 == vy) {
                    assert(height_at(start, x2, y2) - height_at(start, vx, vy) <= 1);
                    assert(height_at(cur, x2, y2) <= max_int(prior as int, height_at(start, x2, y2) - 1));
                }
                if x2 == vx && y2 == vy && !(x1 == vx && y1 == vy) {
                    assert(height_at(start, x1, y1) - height_at(start, vx, vy) <= 1);
                    assert(height_at(cur, x1, y1) <= max_int(prior as int, height_at(start, x1, y1) - 1));
                }
            }
        }
    }
    Ok(())
}

/// What one raise of `v` does to the heights, given its result `r`.
///
/// `AtMaxHeight` comes exactly when `v` is at `MAX_HEIGHT`; otherwise
/// `ImmutableEdge` comes when `v` is on the perimeter; both leave every height
/// as it was. A failure deeper in the recursion can only be `ImmutableEdge`.
/// Heights only rise, and a risen vertex ends at most on the cone
/// `p + 1 - cheb` around `v`, where `p` is the starting height of `v`, whether
/// the raise succeeds or not. On success `v` stands at `p + 1` and each
/// neighbour at least at `min(p, its start + 1)`, which on a smooth board
/// means at least `p`; on a smooth board every vertex ends exactly at the
/// higher of its start and the cone `p + 1 - cheb` around `v`
/// (`is_raised_cone`). Smoothness is kept, and edge vertices are never
/// moved, either way. Success is certain when no edge vertex stands in the
/// way (`raise_is_clear`); on a smooth board that is also the only way to
/// succeed. When no neighbour is below `p`, `v` is the only vertex that changes.
pub open spec fn raise_effect(before: Seq<u8>, after: Seq<u8>, v: Vertex, r: Result<(), TerrainError>) -> bool {
    let vx = v.x as int;
    let vy = v.y as int;
    let p = height_at(before, vx, vy);
    &&& p >= MAX_HEIGHT ==> r == Err::<(), TerrainError>(TerrainError::AtMaxHeight)
    &&& p < MAX_HEIGHT && v.is_edge() ==> r == Err::<(), TerrainError>(TerrainError::ImmutableEdge)
    &&& p >= MAX_HEIGHT || v.is_edge() ==> after == before
    &&& r == Err::<(), TerrainError>(TerrainError::AtMaxHeight) ==> p >= MAX_HEIGHT
    &&& r is Err ==> r == Err::<(), TerrainError>(TerrainError::AtMaxHeight) || r == Err::<
        (),
        TerrainError,
    >(TerrainError::ImmutableEdge)
    &&& raised_within(before, after, vx, vy, p)
    &&& r is Err ==> height_at(after, vx, vy) == p
    &&& r is Ok ==> height_at(after, vx, vy) == p + 1
    &&& r is Ok ==> neighbours_raised(before, after, vx, vy, p)
    &&& r is Ok && smooth(before) ==> none_below(after, vx, vy, p)
    &&& r is Ok && smooth(before) ==> is_raised_cone(before, after, vx, vy, p)
    &&& smooth(before) ==> smooth(after)
    &&& edges_kept(before, after)
    &&& p < MAX_HEIGHT && raise_is_clear(before, vx, vy, p) ==> r is Ok
    &&& smooth(before) && !raise_is_clear(before, vx, vy, p) ==> r is Err
    &&& p < MAX_HEIGHT && !v.is_edge() && none_below(before, vx, vy, p) ==> r is Ok && after
        == before.update(vertex_index(vx, vy), (p + 1) as u8)
}

/// What one lower of `v` does to the heights, given its result `r`; the
/// mirror image of `raise_effect`, with `AtMinHeight` and `MIN_HEIGHT`, except
/// that the perimeter is tested first: lowering an edge vertex always gives
/// `ImmutableEdge`, whatever its height, and `AtMinHeight` comes only for a
/// vertex strictly inside the board.
pub open spec fn lower_effect(before: Seq<u8>, after: Seq<u8>, v: Vertex, r: Result<(), TerrainError>) -> bool {
    let vx = v.x as int;
    let vy = v.y as int;
    let p = height_at(before, vx, vy);
    &&& v.is_edge() ==> r == Err::<(), TerrainError>(TerrainError::ImmutableEdge)
    &&& !v.is_edge() && p <= MIN_HEIGHT ==> r == Err::<(), TerrainError>(TerrainError::AtMinHeight)
    &&& p <= MIN_HEIGHT || v.is_edge() ==> after == before
    &&& r == Err::<(), TerrainError>(TerrainError::AtMinHeight) ==> p <= MIN_HEIGHT
    &&& r is Err ==> r == Err::<(), TerrainError>(TerrainError::AtMinHeight) || r == Err::<
        (),
        TerrainError,
    >(TerrainError::ImmutableEdge)
    &&& lowered_within(before, after, vx, vy, p)
    &&& r is Err ==> height_at(after, vx, vy) == p
    &&& r is Ok ==> height_at(after, vx, vy) == p - 1
    &&& r is Ok ==> neighbours_lowered(before, after, vx, vy, p)
    &&& r is Ok && smooth(before) ==> none_above(after, vx, vy, p)
    &&& r is Ok && smooth(before) ==> is_lowered_funnel(before, after, vx, vy, p)
    &&& smooth(before) ==> smooth(after)
    &&& edges_kept(before, after)
    &&& p > MIN_HEIGHT && lower_is_clear(before, vx, vy, p) ==> r is Ok
    &&& smooth(before) && !lower_is_clear(before, vx, vy, p) ==> r is Err
    &&& p > MIN_HEIGHT && !v.is_edge() && none_above(before, vx, vy, p) ==> r is Ok && after
        == before.update(vertex_index(vx, vy), (p - 1) as u8)
}

/// Raises `vertex` by one unit, first raising (recursively, in row-major
/// order) every neighbour lower than it; see `raise_effect`.
pub fn raise_vertex(board: &mut Board, vertex: Vertex) -> (r: Result<(), TerrainError>)
    requires
        old(board)@.wf(),
        vertex.on_board(),
    ensures
        final(board)@.wf(),
        final(board)@.placements == old(board)@.placements,
        final(board)@.occupants == old(board)@.occupants,
        raise_effect(old(board)@.heights, final(board)@.heights, vertex, r),
{
    let prior = board.vertex_height(vertex);
    let r = raise_from(board, vertex, prior);
    proof {
        let ghost before = old(board)@.heights;
        let ghost after = board@.heights;
        if r is Ok && smooth(before) {
            assert forall|x: int, y: int|
                vertex_in_bounds(x, y) && adjacent(x, y, vertex.x as int, vertex.y as int) && !(x
                    == vertex.x && y == vertex.y) implies #[trigger] height_at(after, x, y)
                >= prior by {
                assert(height_at(before, x, y) - height_at(before, vertex.x as int, vertex.y as int) >= -1);
                assert(height_at(after, x, y) >= min_int(prior as int, height_at(before, x, y) + 1));
            }
            assert forall|x: int, y: int| vertex_in_bounds(x, y) implies #[trigger] height_at(after, x, y)
                == max_int(height_at(before, x, y), prior + 1 - cheb_dist(x, y, vertex.x as int, vertex.y as int)) by {
                lemma_smooth_lipschitz(after, vertex.x as int, vertex.y as int, x, y);
            }
        }
    }
    r
}

/// Lowers `vertex` by one unit, first lowering (recursively, in row-major
/// order) every neighbour higher than it; see `lower_effect`.
pub fn lower_vertex(board: &mut Board, vertex: Vertex) -> (r: Result<(), TerrainError>)
    requires
        old(board)@.wf(),
        vertex.on_board(),
    ensures
        final(board)@.wf(),
        final(board)@.placements == old(board)@.placements,
        final(board)@.occupants == old(board)@.occupants,
        lower_effect(old(board)@.heights, final(board)@.heights, vertex, r),
{
    let prior = board.vertex_height(vertex);
    let r = lower_from(board, vertex, prior);
    proof {
        let ghost before = old(board)@.heights;
        let ghost after = board@.heights;
        if r is Ok && smooth(before) {
            assert forall|x: int, y: int|
                vertex_in_bounds(x, y) && adjacent(x, y, vertex.x as int, vertex.y as int) && !(x
                    == vertex.x && y == vertex.y) implies #[trigger] height_at(after, x, y)
                <= prior by {
                assert(height_at(before, x, y) - height_at(before, vertex.x as int, vertex.y as int) <= 1);
                assert(height_at(after, x, y) <= max_int(prior as int, height_at(before, x, y) - 1));
            }
            assert forall|x: int, y: int| vertex_in_bounds(x, y) implies #[trigger] height_at(after, x, y)
                == min_int(height_at(before, x, y), prior - 1 + cheb_dist(x, y, vertex.x as int, vertex.y as int)) by {
                lemma_smooth_lipschitz(after, x, y, vertex.x as int, vertex.y as int);
            }
        }
    }
    r
}

} // verus!
