use vstd::prelude::*;
use crate::animation::SpriteAnimation;

verus! {

/// Marker for the one controllable character.
#[derive(Clone, Copy, PartialEq, Eq, Structural, Debug)]
pub struct Player;

/// The character's five animation clips: one per run direction, plus idle.
/// At most one of them should own the visible frame index at a time; the
/// dispatcher enforces that by stopping the others before playing one.
#[derive(Clone, Copy, PartialEq, Eq, Structural, Debug)]
pub struct PlayerAnimation {
    pub idle: SpriteAnimation,
    pub left_run: SpriteAnimation,
    pub right_run: SpriteAnimation,
    pub up_run: SpriteAnimation,
    pub down_run: SpriteAnimation,
}

impl PlayerAnimation {
    pub open spec fn wf(self) -> bool {
        self.idle.wf() && self.left_run.wf() && self.right_run.wf() && self.up_run.wf()
            && self.down_run.wf()
    }

    /// How many of the five clips are currently playing.
    pub open spec fn playing_count(self) -> int {
        (if self.idle.is_playing { 1int } else { 0int })
            + (if self.left_run.is_playing { 1int } else { 0int })
            + (if self.right_run.is_playing { 1int } else { 0int })
            + (if self.up_run.is_playing { 1int } else { 0int })
            + (if self.down_run.is_playing { 1int } else { 0int })
    }

    /// The intended cross-clip invariant: no two clips own the visible frame
    /// index at once.
    pub open spec fn at_most_one_playing(self) -> bool {
        self.playing_count() <= 1
    }
}

/// The character's 2D position, in whole world units.
#[derive(Clone, Copy, PartialEq, Eq, Structural, Debug)]
pub struct Position {
    pub x: i64,
    pub y: i64,
}

/// What the renderer reads each frame: where the sprite stands and which
/// sprite-sheet cell it shows.
#[derive(Clone, Copy, PartialEq, Eq, Structural, Debug)]
pub struct SpriteState {
    pub position: Position,
    pub frame_index: usize,
}

/// Everything one character owns: the marker, the render state, and the five
/// animation clips.
#[derive(Clone, Copy, PartialEq, Eq, Structural, Debug)]
pub struct PlayerBundle {
    pub player: Player,
    pub sprite: SpriteState,
    pub animation: PlayerAnimation,
}

} // verus!
