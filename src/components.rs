use vstd::prelude::*;

use crate::common::Direction;
use crate::map::TilePos;

verus! {

/// Progress is counted in millionths of a tile; this much is one whole tile.
pub const PROGRESS_FULL: u32 = 1_000_000;

/// The tile an entity last committed to.
#[derive(Clone, Copy, Debug, PartialEq, Eq, Structural)]
pub struct Position(pub TilePos);

/// The motion state of an entity moving from tile to tile.
///
/// `progress` is in millionths of a tile and `base_speed` in thousandths of a tile
/// per second, so that a step of `elapsed_ms` milliseconds adds
/// `base_speed * elapsed_ms` to `progress`.
#[derive(Clone, Copy, Debug, PartialEq, Eq, Structural)]
pub struct Movable {
    pub target_tile: TilePos,
    pub progress: u32,
    pub base_speed: u32,
    pub direction: Direction,
}

impl Movable {
    /// The progress before it is checked against a whole tile.
    pub open spec fn progress_after(self, elapsed_ms: u32) -> int {
        self.progress + self.base_speed * elapsed_ms
    }

    /// Whether a step of `elapsed_ms` reaches the target tile.
    pub open spec fn reaches_target(self, elapsed_ms: u32) -> bool {
        self.progress_after(elapsed_ms) >= PROGRESS_FULL
    }

    pub open spec fn wf(self) -> bool {
        self.progress < PROGRESS_FULL
    }

    pub fn new(target_tile: TilePos, progress: u32, base_speed: u32, direction: Direction) -> (r:
        Movable)
        requires
            progress < PROGRESS_FULL,
        ensures
            r == (Movable { target_tile, progress, base_speed, direction }),
            r.wf(),
    {
        Movable { target_tile, progress, base_speed, direction }
    }

    /// Adds the distance covered in `elapsed_ms` milliseconds. When that reaches a
    /// whole tile, progress goes back to zero (the excess is dropped) and `true` is
    /// returned.
    pub fn advance(&mut self, elapsed_ms: u32) -> (reached: bool)
        ensures
            reached == old(self).reaches_target(elapsed_ms),
            final(self).progress == (if reached {
                0
            } else {
                old(self).progress_after(elapsed_ms)
            }),
            final(self).target_tile == old(self).target_tile,
            final(self).base_speed == old(self).base_speed,
            final(self).direction == old(self).direction,
            final(self).wf(),
    {
        assert(self.base_speed as int * elapsed_ms as int <= 0xffff_ffff * 0xffff_ffff)
            by (nonlinear_arith);
        let total: u64 = self.progress as u64 + self.base_speed as u64 * elapsed_ms as u64;
        if total >= PROGRESS_FULL as u64 {
            self.progress = 0;
            true
        } else {
            self.progress = total as u32;
            false
        }
    }
}

/// Sprite frames for each heading, and the frame shown now.
pub struct AnimationIndices {
    pub current_index: usize,
    pub sprite_indices_right: Vec<usize>,
    pub sprite_indices_left: Vec<usize>,
    pub sprite_indices_up: Vec<usize>,
    pub sprite_indices_down: Vec<usize>,
}

impl AnimationIndices {
    pub fn new(right: Vec<usize>, left: Vec<usize>, up: Vec<usize>, down: Vec<usize>) -> (r:
        AnimationIndices)
        ensures
            r.current_index == 0,
            r.sprite_indices_right@ == right@,
            r.sprite_indices_left@ == left@,
            r.sprite_indices_up@ == up@,
            r.sprite_indices_down@ == down@,
    {
        AnimationIndices {
            current_index: 0,
            sprite_indices_right: right,
            sprite_indices_left: left,
            sprite_indices_up: up,
            sprite_indices_down: down,
        }
    }

    pub open spec fn frames(self, d: Direction) -> Seq<usize> {
        match d {
            Direction::Up => self.sprite_indices_up@,
            Direction::Left => self.sprite_indices_left@,
            Direction::Right => self.sprite_indices_right@,
            Direction::Down => self.sprite_indices_down@,
        }
    }

    /// Moves to the next frame of the cycle for heading `d` and returns the sprite
    /// to show.
    pub fn next_frame(&mut self, d: Direction) -> (r: usize)
        requires
            old(self).frames(d).len() > 0,
            old(self).current_index < usize::MAX,
        ensures
            final(self).current_index == (old(self).current_index as int + 1) % old(
                self,
            ).frames(d).len() as int,
            r == old(self).frames(d)[final(self).current_index as int],
            final(self).sprite_indices_right@ == old(self).sprite_indices_right@,
            final(self).sprite_indices_left@ == old(self).sprite_indices_left@,
            final(self).sprite_indices_up@ == old(self).sprite_indices_up@,
            final(self).sprite_indices_down@ == old(self).sprite_indices_down@,
    {
        let frames = match d {
            Direction::Up => &self.sprite_indices_up,
            Direction::Left => &self.sprite_indices_left,
            Direction::Right => &self.sprite_indices_right,
            Direction::Down => &self.sprite_indices_down,
        };
        let index: usize = (self.current_index + 1) % frames.len();
        let sprite = frames[index];
        self.current_index = index;
        sprite
    }
}

} // verus!
