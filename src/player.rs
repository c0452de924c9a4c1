use vstd::prelude::*;

use crate::common::Direction;
use crate::components::{Movable, Position};
use crate::map::{cell, lemma_step_adjacent, MapType, Maze, TilePos};

verus! {

/// The player may stand only on open floor: not on walls, not on the pursuers' gate.
pub open spec fn player_may_enter(g: Seq<Seq<MapType>>, p: TilePos) -> bool {
    cell(g, p) == Some(MapType::Empty)
}

/// Whether the player may take one step from `from` in `d`.
pub open spec fn player_can_step(g: Seq<Seq<MapType>>, from: TilePos, d: Direction) -> bool {
    from.can_translate(d) && player_may_enter(g, from.translated(d))
}

/// The tile the player heads for after committing to `at` with heading `d`.
pub open spec fn player_next_target(g: Seq<Seq<MapType>>, at: TilePos, d: Direction) -> TilePos {
    if player_can_step(g, at, d) {
        at.translated(d)
    } else {
        at
    }
}

/// Whether the player may enter the tile one step from `from` in `d`.
fn can_step(maze: &Maze, from: &TilePos, d: &Direction) -> (r: bool)
    ensures
        r == player_can_step(maze@, *from, *d),
{
    match from.checked_translate(d) {
        Some(next) => match maze.get_at(&next) {
            Ok(MapType::Empty) => true,
            _ => false,
        },
        None => false,
    }
}

/// Turns the player to `new_dir` when the tile one step from its target in that
/// heading is open floor; otherwise leaves it as it was. Returns whether it turned.
pub fn steer(maze: &Maze, movable: &mut Movable, new_dir: Direction) -> (accepted: bool)
    ensures
        accepted == player_can_step(maze@, old(movable).target_tile, new_dir),
        accepted ==> *final(movable) == (Movable { direction: new_dir, ..*old(movable) }),
        !accepted ==> *final(movable) == *old(movable),
{
    if can_step(maze, &movable.target_tile, &new_dir) {
        movable.direction = new_dir;
        true
    } else {
        false
    }
}

/// One step of the player's motion: progress grows by what `elapsed_ms` covers; on
/// reaching the target tile the player commits to it and heads for the next tile in
/// its heading, or stays where that tile is closed to it.
pub fn move_player(maze: &Maze, pos: &mut Position, movable: &mut Movable, elapsed_ms: u32)
    ensures
        !old(movable).reaches_target(elapsed_ms) ==> *final(pos) == *old(pos) && *final(movable)
            == (Movable {
                progress: old(movable).progress_after(elapsed_ms) as u32,
                ..*old(movable)
            }),
        old(movable).reaches_target(elapsed_ms) ==> final(pos).0 == old(movable).target_tile
            && *final(movable) == (Movable {
                target_tile: player_next_target(
                    maze@,
                    old(movable).target_tile,
                    old(movable).direction,
                ),
                progress: 0,
                ..*old(movable)
            }),
        old(movable).reaches_target(elapsed_ms) || old(pos).0.adjacent_or_equal(
            old(movable).target_tile,
        ) ==> final(pos).0.adjacent_or_equal(final(movable).target_tile),
        final(movable).wf(),
{
    if movable.advance(elapsed_ms) {
        pos.0 = movable.target_tile;
        if can_step(maze, &pos.0, &movable.direction) {
            proof {
                lemma_step_adjacent(pos.0, movable.direction);
            }
            movable.target_tile = pos.0.translate(&movable.direction);
        }
    }
}

/// The ghosts that share a tile with the player: exactly the indices `i` with
/// `ghosts[i] == player`, in increasing order.
pub open spec fn is_collision_list(player: Position, ghosts: Seq<Position>, r: Seq<usize>) -> bool {
    &&& forall|k: int| 0 <= k < r.len() ==> #[trigger] r[k] < ghosts.len() && ghosts[r[k] as int] == player
    &&& forall|k: int, m: int| 0 <= k < m < r.len() ==> #[trigger] r[k] < #[trigger] r[m]
    &&& forall|i: int| 0 <= i < ghosts.len() && #[trigger] ghosts[i] == player ==> r.contains(i as usize)
}

/// The indices of the pursuers standing on the player's committed tile.
pub fn check_collision(player: &Position, ghosts: &Vec<Position>) -> (r: Vec<usize>)
    ensures
        is_collision_list(*player, ghosts@, r@),
{
    let mut hits: Vec<usize> = Vec::new();
    let mut i: usize = 0;
    while i < ghosts.len()
        invariant
            i <= ghosts.len(),
            forall|k: int| 0 <= k < hits.len() ==> #[trigger] hits@[k] < i && ghosts@[hits@[k] as int] == *player,
            forall|k: int, m: int| 0 <= k < m < hits.len() ==> #[trigger] hits@[k] < #[trigger] hits@[m],
            forall|j: int| 0 <= j < i && #[trigger] ghosts@[j] == *player ==> hits@.contains(j as usize),
        decreases ghosts.len() - i,
    {
        let ghost before = hits@;
        if ghosts[i] == *player {
            hits.push(i);
            assert(hits@[hits.len() - 1] == i);
            assert forall|j: int| 0 <= j < i && #[trigger] ghosts@[j] == *player implies hits@.contains(
                j as usize,
            ) by {
                let k = choose|k: int| 0 <= k < before.len() && before[k] == j as usize;
                assert(hits@[k] == before[k]);
            }
        }
        i += 1;
    }
    hits
}

} // verus!
