use vstd::prelude::*;

use crate::ai::GhostState;
use crate::common::Direction;
use crate::components::{Movable, Position};
use crate::map::{cell, lemma_open_neighbour_is_step, open_neighbours, MapType, Maze, TilePos};

verus! {

/// A pursuer prefers not to turn back, and not to pass the nest door heading `Down`.
pub open spec fn ghost_prefers(g: Seq<Seq<MapType>>, heading: Direction, e: (TilePos, Direction)) -> bool {
    e.1 != heading.opposite_spec() && !(cell(g, e.0) == Some(MapType::GhostOnlyBarrier) && e.1
        == Direction::Down)
}

pub open spec fn prefers_pred(g: Seq<Seq<MapType>>, heading: Direction) -> spec_fn(
    (TilePos, Direction),
) -> bool {
    |e: (TilePos, Direction)| ghost_prefers(g, heading, e)
}

/// The moves a pursuer at `p` heading `heading` chooses among: the preferred open
/// neighbours, or all open neighbours where none is preferred.
pub open spec fn chase_candidates(g: Seq<Seq<MapType>>, p: TilePos, heading: Direction) -> Seq<
    (TilePos, Direction),
> {
    let preferred = open_neighbours(g, p).filter(prefers_pred(g, heading));
    if preferred.len() > 0 {
        preferred
    } else {
        open_neighbours(g, p)
    }
}

/// Index of the entry nearest to `t`; the earliest one among equals.
pub open spec fn nearest_index(s: Seq<(TilePos, Direction)>, t: TilePos) -> int
    decreases s.len(),
{
    if s.len() <= 1 {
        0
    } else {
        let i = nearest_index(s.drop_last(), t);
        if s.last().0.dist_spec(t) < s[i].0.dist_spec(t) {
            s.len() - 1
        } else {
            i
        }
    }
}

/// Entry `i` is no farther from `t` than any other, and nearer than every one before it.
pub open spec fn is_first_nearest(s: Seq<(TilePos, Direction)>, i: int, t: TilePos) -> bool {
    &&& 0 <= i < s.len()
    &&& forall|j: int| 0 <= j < s.len() ==> s[i].0.dist_spec(t) <= #[trigger] s[j].0.dist_spec(t)
    &&& forall|j: int| 0 <= j < i ==> s[i].0.dist_spec(t) < #[trigger] s[j].0.dist_spec(t)
}

/// The move a pursuer at `p` heading `heading` takes to chase `t`, or `None` when
/// no neighbour is open.
pub open spec fn chase_choice(g: Seq<Seq<MapType>>, p: TilePos, heading: Direction, t: TilePos) -> Option<
    (TilePos, Direction),
> {
    let c = chase_candidates(g, p, heading);
    if c.len() == 0 {
        None
    } else {
        Some(c[nearest_index(c, t)])
    }
}

/// The nearest index is the first entry at the least distance.
pub proof fn lemma_nearest_index_is_first_nearest(s: Seq<(TilePos, Direction)>, t: TilePos)
    requires
        s.len() > 0,
    ensures
        is_first_nearest(s, nearest_index(s, t), t),
    decreases s.len(),
{
    if s.len() > 1 {
        let p = s.drop_last();
        lemma_nearest_index_is_first_nearest(p, t);
        assert forall|j: int| 0 <= j < p.len() implies p[j] == s[j] by {}
    }
}

/// At most one entry is the first at the least distance.
pub proof fn lemma_first_nearest_unique(s: Seq<(TilePos, Direction)>, i: int, k: int, t: TilePos)
    requires
        is_first_nearest(s, i, t),
        is_first_nearest(s, k, t),
    ensures
        i == k,
{
    if i < k {
        assert(s[k].0.dist_spec(t) < s[i].0.dist_spec(t));
    } else if k < i {
        assert(s[i].0.dist_spec(t) < s[k].0.dist_spec(t));
    }
}

/// `r` is a chase decision for a pursuer at `p` heading `heading` and chasing `t`:
/// `None` when it has no candidate move, else a candidate at the least distance to
/// `t` that no earlier candidate ties.
pub open spec fn is_chase_decision(
    g: Seq<Seq<MapType>>,
    p: TilePos,
    heading: Direction,
    t: TilePos,
    r: Option<(TilePos, Direction)>,
) -> bool {
    let c = chase_candidates(g, p, heading);
    match r {
        None => c.len() == 0,
        Some(m) => exists|i: int| is_first_nearest(c, i, t) && c[i] == m,
    }
}

/// The move a pursuer takes is a chase decision.
pub proof fn lemma_chase_choice_is_decision(g: Seq<Seq<MapType>>, p: TilePos, heading: Direction, t: TilePos)
    ensures
        is_chase_decision(g, p, heading, t, chase_choice(g, p, heading, t)),
{
    let c = chase_candidates(g, p, heading);
    if c.len() > 0 {
        lemma_nearest_index_is_first_nearest(c, t);
    }
}

/// The decision is determined: two chase decisions for the same tile, heading and
/// chased tile are the same move.
pub proof fn lemma_chase_decision_deterministic(
    g: Seq<Seq<MapType>>,
    p: TilePos,
    heading: Direction,
    t: TilePos,
    r1: Option<(TilePos, Direction)>,
    r2: Option<(TilePos, Direction)>,
)
    requires
        is_chase_decision(g, p, heading, t, r1),
        is_chase_decision(g, p, heading, t, r2),
    ensures
        r1 == r2,
{
    let c = chase_candidates(g, p, heading);
    if r1 is Some && r2 is Some {
        let i = choose|i: int| is_first_nearest(c, i, t) && c[i] == r1->0;
        let k = choose|k: int| is_first_nearest(c, k, t) && c[k] == r2->0;
        lemma_first_nearest_unique(c, i, k, t);
    } else if r1 is Some {
        let i = choose|i: int| is_first_nearest(c, i, t) && c[i] == r1->0;
    } else if r2 is Some {
        let k = choose|k: int| is_first_nearest(c, k, t) && c[k] == r2->0;
    }
}

/// A pursuer with any open neighbour always moves, turning back if that is all that is
/// left; with a single open neighbour it takes that one.
pub proof fn lemma_chase_never_stalls(g: Seq<Seq<MapType>>, p: TilePos, heading: Direction, t: TilePos)
    requires
        open_neighbours(g, p).len() > 0,
    ensures
        chase_choice(g, p, heading, t) is Some,
        open_neighbours(g, p).contains(chase_choice(g, p, heading, t)->0),
        open_neighbours(g, p).len() == 1 ==> chase_choice(g, p, heading, t) == Some(
            open_neighbours(g, p)[0],
        ),
{
    let ns = open_neighbours(g, p);
    let c = chase_candidates(g, p, heading);
    let pred = prefers_pred(g, heading);
    ns.lemma_filter_len(pred);
    lemma_chase_choice_adjacent(g, p, heading, t);
    if ns.len() == 1 {
        assert(c.len() == 1);
        assert(nearest_index(c, t) == 0);
    }
}

/// Whether a pursuer heading `heading` prefers the move `e`.
fn prefers(maze: &Maze, heading: Direction, e: &(TilePos, Direction)) -> (r: bool)
    ensures
        r == ghost_prefers(maze@, heading, *e),
{
    let back = heading.opposite();
    if e.1 == back {
        return false;
    }
    match maze.get_at(&e.0) {
        Ok(MapType::GhostOnlyBarrier) => e.1 != Direction::Down,
        _ => true,
    }
}

/// The moves in `ns` that a pursuer heading `heading` prefers, in their order.
fn preferred_moves(maze: &Maze, ns: &Vec<(TilePos, Direction)>, heading: Direction) -> (r: Vec<
    (TilePos, Direction),
>)
    ensures
        r@ == ns@.filter(prefers_pred(maze@, heading)),
{
    let mut out: Vec<(TilePos, Direction)> = Vec::new();
    let mut i: usize = 0;
    while i < ns.len()
        invariant
            i <= ns.len(),
            out@ == ns@.take(i as int).filter(prefers_pred(maze@, heading)),
        decreases ns.len() - i,
    {
        let e = ns[i];
        let ghost pred = prefers_pred(maze@, heading);
        proof {
            assert(ns@.take(i + 1) =~= ns@.take(i as int).push(e));
            ns@.take(i as int).lemma_filter_push(e, pred);
        }
        if prefers(maze, heading, &e) {
            out.push(e);
        }
        i += 1;
    }
    assert(ns@.take(ns.len() as int) =~= ns@);
    out
}

/// The index of the entry of `cands` nearest to `target`.
fn nearest(cands: &Vec<(TilePos, Direction)>, target: &TilePos) -> (r: usize)
    requires
        cands.len() > 0,
    ensures
        r == nearest_index(cands@, *target),
        r < cands.len(),
{
    let mut best: usize = 0;
    let mut best_dist = cands[0].0.dist_to(target);
    let mut i: usize = 1;
    while i < cands.len()
        invariant
            1 <= i <= cands.len(),
            best < i,
            best == nearest_index(cands@.take(i as int), *target),
            best_dist == cands@[best as int].0.dist_spec(*target),
        decreases cands.len() - i,
    {
        let d = cands[i].0.dist_to(target);
        proof {
            let s = cands@.take(i + 1);
            assert(s.drop_last() =~= cands@.take(i as int));
            assert(s[best as int] == cands@[best as int]);
            assert(s.last() == cands@[i as int]);
        }
        if d < best_dist {
            best = i;
            best_dist = d;
        }
        i += 1;
    }
    assert(cands@.take(cands.len() as int) =~= cands@);
    best
}

/// The chase decision of the pursuer that hunts the player.
pub struct BlinkyDecision {
    pub pacman_pos: Position,
}

impl BlinkyDecision {
    /// The next tile and heading for a pursuer standing at `position`: among the
    /// open neighbours it prefers (or all open neighbours, where it prefers none),
    /// the one nearest to the player, ties going to Up, Left, Down, Right in that order.
    pub fn take_decision(&self, maze: &Maze, position: &Position, movable: &Movable) -> (r: Option<
        (TilePos, Direction),
    >)
        ensures
            r == chase_choice(maze@, position.0, movable.direction, self.pacman_pos.0),
    {
        let ns = maze.get_empty_neighbours(&position.0);
        let preferred = preferred_moves(maze, &ns, movable.direction);
        let cands = if preferred.len() > 0 {
            preferred
        } else {
            ns
        };
        if cands.len() == 0 {
            return None;
        }
        let i = nearest(&cands, &self.pacman_pos.0);
        Some(cands[i])
    }
}

/// The motion state of a pursuer just after it commits to tile `at`, chasing `t`.
pub open spec fn ghost_after_commit(g: Seq<Seq<MapType>>, at: TilePos, m: Movable, t: TilePos) -> Movable {
    match chase_choice(g, at, m.direction, t) {
        Some(c) => Movable { target_tile: c.0, progress: 0, direction: c.1, ..m },
        None => Movable { target_tile: at, progress: 0, ..m },
    }
}

/// Whatever the pursuer chooses lies next to the tile it chooses from.
pub proof fn lemma_chase_choice_adjacent(g: Seq<Seq<MapType>>, p: TilePos, heading: Direction, t: TilePos)
    ensures
        match chase_choice(g, p, heading, t) {
            Some(c) => open_neighbours(g, p).contains(c) && p.adjacent_or_equal(c.0),
            None => open_neighbours(g, p).len() == 0,
        },
{
    let ns = open_neighbours(g, p);
    let c = chase_candidates(g, p, heading);
    let pred = prefers_pred(g, heading);
    if c.len() > 0 {
        let i = nearest_index(c, t);
        lemma_nearest_index_is_first_nearest(c, t);
        assert(c.contains(c[i]));
        if ns.filter(pred).len() > 0 {
            ns.lemma_filter_contains_rev(pred, c[i]);
        }
        lemma_open_neighbour_is_step(g, p, c[i]);
    }
}

/// One step of a pursuer's motion: progress grows by what `elapsed_ms` covers;
/// on reaching the target tile the pursuer commits to it and asks `decision_maker`
/// for the next one, standing still where there is none.
fn handle_ai_decision(
    decision_maker: BlinkyDecision,
    maze: &Maze,
    elapsed_ms: u32,
    position: &mut Position,
    movable: &mut Movable,
    ghost: &mut GhostState,
)
    ensures
        final(ghost).target_tile == decision_maker.pacman_pos.0,
        !old(movable).reaches_target(elapsed_ms) ==> *final(position) == *old(position)
            && *final(movable) == (Movable {
                progress: old(movable).progress_after(elapsed_ms) as u32,
                ..*old(movable)
            }),
        old(movable).reaches_target(elapsed_ms) ==> final(position).0 == old(movable).target_tile
            && *final(movable) == ghost_after_commit(
            maze@,
            old(movable).target_tile,
            *old(movable),
            decision_maker.pacman_pos.0,
        ),
        old(movable).reaches_target(elapsed_ms) || old(position).0.adjacent_or_equal(
            old(movable).target_tile,
        ) ==> final(position).0.adjacent_or_equal(final(movable).target_tile),
        final(movable).wf(),
{
    ghost.target_tile = decision_maker.pacman_pos.0;
    if movable.advance(elapsed_ms) {
        position.0 = movable.target_tile;
        proof {
            lemma_chase_choice_adjacent(
                maze@,
                position.0,
                movable.direction,
                decision_maker.pacman_pos.0,
            );
        }
        match decision_maker.take_decision(maze, position, movable) {
            Some(next) => {
                movable.target_tile = next.0;
                movable.direction = next.1;
            },
            None => {
                movable.target_tile = position.0;
            },
        }
    }
}

/// One step of the pursuer that hunts the player standing at `pacman_pos`.
pub fn blinky_ai(
    maze: &Maze,
    pacman_pos: &Position,
    elapsed_ms: u32,
    position: &mut Position,
    movable: &mut Movable,
    ghost: &mut GhostState,
)
    ensures
        final(ghost).target_tile == pacman_pos.0,
        !old(movable).reaches_target(elapsed_ms) ==> *final(position) == *old(position)
            && *final(movable) == (Movable {
                progress: old(movable).progress_after(elapsed_ms) as u32,
                ..*old(movable)
            }),
        old(movable).reaches_target(elapsed_ms) ==> final(position).0 == old(movable).target_tile
            && *final(movable) == ghost_after_commit(
            maze@,
            old(movable).target_tile,
            *old(movable),
            pacman_pos.0,
        ),
        old(movable).reaches_target(elapsed_ms) || old(position).0.adjacent_or_equal(
            old(movable).target_tile,
        ) ==> final(position).0.adjacent_or_equal(final(movable).target_tile),
        final(movable).wf(),
{
    handle_ai_decision(
        BlinkyDecision { pacman_pos: *pacman_pos },
        maze,
        elapsed_ms,
        position,
        movable,
        ghost,
    );
}

} // verus!
