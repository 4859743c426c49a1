use vstd::prelude::*;
use crate::animation::{SpriteAnimation, SpriteAnimationIndex, SpriteAnimationTimer};
use crate::player::{Player, PlayerAnimation, PlayerBundle, Position, SpriteState};

verus! {

/// How far the character moves along one axis in a frame with a directional
/// key held: the fixed speed, the same for all four directions.
pub const MOVE_DELTA: i64 = 2;

/// One frame's snapshot of the four directional keys.
#[derive(Clone, Copy, PartialEq, Eq, Structural, Debug)]
pub struct DirectionalInput {
    pub left: bool,
    pub right: bool,
    pub up: bool,
    pub down: bool,
}

/// The dispatcher branch that wins for a given input snapshot.
#[derive(Clone, Copy, PartialEq, Eq, Structural, Debug)]
pub enum Direction {
    Left,
    Right,
    Up,
    Down,
    Idle,
}

/// The priority rule over simultaneously held keys: left beats right beats up
/// beats down; with no key held, idle wins.
pub open spec fn winner(input: DirectionalInput) -> Direction {
    if input.left {
        Direction::Left
    } else if input.right {
        Direction::Right
    } else if input.up {
        Direction::Up
    } else if input.down {
        Direction::Down
    } else {
        Direction::Idle
    }
}

/// The five clips after one dispatcher update: the winning direction's clip
/// plays, and the clips the dispatcher names for it stop. A directional
/// winner stops all four others; idle stops only the two horizontal run
/// clips and leaves the vertical ones as they were.
pub open spec fn dispatched_anim(
    anim: PlayerAnimation,
    input: DirectionalInput,
    delta_ms: u64,
) -> PlayerAnimation {
    match winner(input) {
        Direction::Left => PlayerAnimation {
            idle: anim.idle.stopped(),
            left_run: anim.left_run.played(delta_ms),
            right_run: anim.right_run.stopped(),
            up_run: anim.up_run.stopped(),
            down_run: anim.down_run.stopped(),
        },
        Direction::Right => PlayerAnimation {
            idle: anim.idle.stopped(),
            left_run: anim.left_run.stopped(),
            right_run: anim.right_run.played(delta_ms),
            up_run: anim.up_run.stopped(),
            down_run: anim.down_run.stopped(),
        },
        Direction::Up => PlayerAnimation {
            idle: anim.idle.stopped(),
            left_run: anim.left_run.stopped(),
            right_run: anim.right_run.stopped(),
            up_run: anim.up_run.played(delta_ms),
            down_run: anim.down_run.stopped(),
        },
        Direction::Down => PlayerAnimation {
            idle: anim.idle.stopped(),
            left_run: anim.left_run.stopped(),
            right_run: anim.right_run.stopped(),
            up_run: anim.up_run.stopped(),
            down_run: anim.down_run.played(delta_ms),
        },
        Direction::Idle => PlayerAnimation {
            idle: anim.idle.played(delta_ms),
            left_run: anim.left_run.stopped(),
            right_run: anim.right_run.stopped(),
            up_run: anim.up_run,
            down_run: anim.down_run,
        },
    }
}

/// The visible frame index after one dispatcher update: only the winning
/// clip's play touches it.
pub open spec fn dispatched_frame(
    anim: PlayerAnimation,
    input: DirectionalInput,
    frame: usize,
    delta_ms: u64,
) -> usize {
    match winner(input) {
        Direction::Left => anim.left_run.played_frame(frame, delta_ms),
        Direction::Right => anim.right_run.played_frame(frame, delta_ms),
        Direction::Up => anim.up_run.played_frame(frame, delta_ms),
        Direction::Down => anim.down_run.played_frame(frame, delta_ms),
        Direction::Idle => anim.idle.played_frame(frame, delta_ms),
    }
}

/// The position after one dispatcher update: the winning direction moves its
/// axis by the fixed speed, the other axis is untouched, and idle moves
/// nothing.
pub open spec fn dispatched_position(pos: Position, input: DirectionalInput) -> Position {
    match winner(input) {
        Direction::Left => Position { x: (pos.x - MOVE_DELTA) as i64, y: pos.y },
        Direction::Right => Position { x: (pos.x + MOVE_DELTA) as i64, y: pos.y },
        Direction::Up => Position { x: pos.x, y: (pos.y + MOVE_DELTA) as i64 },
        Direction::Down => Position { x: pos.x, y: (pos.y - MOVE_DELTA) as i64 },
        Direction::Idle => pos,
    }
}

/// No clip's timer accumulator overflows when ticked by `delta_ms`.
pub open spec fn ticks_fit(anim: PlayerAnimation, delta_ms: u64) -> bool {
    anim.idle.timer.elapsed_ms + delta_ms <= u64::MAX
        && anim.left_run.timer.elapsed_ms + delta_ms <= u64::MAX
        && anim.right_run.timer.elapsed_ms + delta_ms <= u64::MAX
        && anim.up_run.timer.elapsed_ms + delta_ms <= u64::MAX
        && anim.down_run.timer.elapsed_ms + delta_ms <= u64::MAX
}

/// The position is far enough from the representable extremes for one step in
/// any direction.
pub open spec fn position_fits(pos: Position) -> bool {
    i64::MIN + MOVE_DELTA <= pos.x && pos.x <= i64::MAX - MOVE_DELTA
        && i64::MIN + MOVE_DELTA <= pos.y && pos.y <= i64::MAX - MOVE_DELTA
}

/// The character as spawned: at the origin, showing sprite-sheet cell 0, all
/// five clips stopped, the idle clip over cells 0..=5 with a 100 ms beat and
/// the four run clips over their six-cell bands with a 120 ms beat.
pub open spec fn initial_bundle() -> PlayerBundle {
    PlayerBundle {
        player: Player,
        sprite: SpriteState { position: Position { x: 0, y: 0 }, frame_index: 0 },
        animation: PlayerAnimation {
            idle: SpriteAnimation {
                is_playing: false,
                index: SpriteAnimationIndex { first: 0, last: 5 },
                timer: SpriteAnimationTimer {
                    interval_ms: 100,
                    elapsed_ms: 0,
                    finished_this_tick: false,
                },
            },
            left_run: SpriteAnimation {
                is_playing: false,
                index: SpriteAnimationIndex { first: 12, last: 17 },
                timer: SpriteAnimationTimer {
                    interval_ms: 120,
                    elapsed_ms: 0,
                    finished_this_tick: false,
                },
            },
            right_run: SpriteAnimation {
                is_playing: false,
                index: SpriteAnimationIndex { first: 0, last: 5 },
                timer: SpriteAnimationTimer {
                    interval_ms: 120,
                    elapsed_ms: 0,
                    finished_this_tick: false,
                },
            },
            up_run: SpriteAnimation {
                is_playing: false,
                index: SpriteAnimationIndex { first: 6, last: 11 },
                timer: SpriteAnimationTimer {
                    interval_ms: 120,
                    elapsed_ms: 0,
                    finished_this_tick: false,
                },
            },
            down_run: SpriteAnimation {
                is_playing: false,
                index: SpriteAnimationIndex { first: 18, last: 23 },
                timer: SpriteAnimationTimer {
                    interval_ms: 120,
                    elapsed_ms: 0,
                    finished_this_tick: false,
                },
            },
        },
    }
}

/// Build the character at its fixed starting position with its five
/// configured clips, none of them playing, showing frame 0.
pub fn create_player() -> (b: PlayerBundle)
    ensures
        b == initial_bundle(),
        b.animation.wf(),
        b.animation.at_most_one_playing(),
{
    PlayerBundle {
        player: Player,
        sprite: SpriteState { position: Position { x: 0, y: 0 }, frame_index: 0 },
        animation: PlayerAnimation {
            idle: SpriteAnimation {
                is_playing: false,
                index: SpriteAnimationIndex { first: 0, last: 5 },
                timer: SpriteAnimationTimer::new(100),
            },
            left_run: SpriteAnimation {
                is_playing: false,
                index: SpriteAnimationIndex { first: 12, last: 17 },
                timer: SpriteAnimationTimer::new(120),
            },
            right_run: SpriteAnimation {
                is_playing: false,
                index: SpriteAnimationIndex { first: 0, last: 5 },
                timer: SpriteAnimationTimer::new(120),
            },
            up_run: SpriteAnimation {
                is_playing: false,
                index: SpriteAnimationIndex { first: 6, last: 11 },
                timer: SpriteAnimationTimer::new(120),
            },
            down_run: SpriteAnimation {
                is_playing: false,
                index: SpriteAnimationIndex { first: 18, last: 23 },
                timer: SpriteAnimationTimer::new(120),
            },
        },
    }
}

/// One frame of the input-to-animation dispatcher: pick the winning direction
/// by the priority rule, move the position along its axis, stop the clips the
/// rule names, and play the winner's clip, which may advance the visible
/// frame index.
pub fn update_player(
    input: DirectionalInput,
    delta_ms: u64,
    position: &mut Position,
    frame_index: &mut usize,
    anim: &mut PlayerAnimation,
)
    requires
        old(anim).wf(),
        ticks_fit(*old(anim), delta_ms),
        position_fits(*old(position)),
        *old(frame_index) < usize::MAX,
    ensures
        *final(anim) == dispatched_anim(*old(anim), input, delta_ms),
        *final(frame_index) == dispatched_frame(*old(anim), input, *old(frame_index), delta_ms),
        *final(position) == dispatched_position(*old(position), input),
        final(anim).wf(),
{
    if input.left {
        position.x = position.x - MOVE_DELTA;
        anim.idle.stop();
        anim.right_run.stop();
        anim.up_run.stop();
        anim.down_run.stop();
        anim.left_run.play(frame_index, delta_ms);
    } else if input.right {
        position.x = position.x + MOVE_DELTA;
        anim.idle.stop();
        anim.left_run.stop();
        anim.up_run.stop();
        anim.down_run.stop();
        anim.right_run.play(frame_index, delta_ms);
    } else if input.up {
        position.y = position.y + MOVE_DELTA;
        anim.idle.stop();
        anim.left_run.stop();
        anim.right_run.stop();
        anim.down_run.stop();
        anim.up_run.play(frame_index, delta_ms);
    } else if input.down {
        position.y = position.y - MOVE_DELTA;
        anim.idle.stop();
        anim.up_run.stop();
        anim.right_run.stop();
        anim.left_run.stop();
        anim.down_run.play(frame_index, delta_ms);
    } else {
        anim.left_run.stop();
        anim.right_run.stop();
        anim.idle.play(frame_index, delta_ms);
    }
}

/// After a dispatcher update at most one clip is playing, provided that when
/// no key is held neither vertical run clip was left playing: on the idle
/// branch the dispatcher stops only the two horizontal run clips.
pub proof fn lemma_at_most_one_playing(
    anim: PlayerAnimation,
    input: DirectionalInput,
    delta_ms: u64,
)
    requires
        winner(input) == Direction::Idle ==> !anim.up_run.is_playing
            && !anim.down_run.is_playing,
    ensures
        dispatched_anim(anim, input, delta_ms).at_most_one_playing(),
{
}

/// Priority: whenever left is held, the winning direction is left, whatever
/// the other three keys hold.
pub proof fn lemma_left_priority(a: DirectionalInput, b: DirectionalInput)
    requires
        a.left,
        b.left,
    ensures
        winner(a) == winner(b),
{
}

/// Two input snapshots with the same winning direction produce the same
/// update: the same clips, the same frame index, the same position.
pub proof fn lemma_winner_determines_update(
    anim: PlayerAnimation,
    pos: Position,
    frame: usize,
    delta_ms: u64,
    a: DirectionalInput,
    b: DirectionalInput,
)
    requires
        winner(a) == winner(b),
    ensures
        dispatched_anim(anim, a, delta_ms) == dispatched_anim(anim, b, delta_ms),
        dispatched_frame(anim, a, frame, delta_ms) == dispatched_frame(anim, b, frame, delta_ms),
        dispatched_position(pos, a) == dispatched_position(pos, b),
{
}

/// Holding left moves the position by exactly the fixed speed in the negative
/// x direction and leaves y unchanged.
pub proof fn lemma_left_moves_x_only(pos: Position, input: DirectionalInput)
    requires
        input.left,
        i64::MIN + MOVE_DELTA <= pos.x,
    ensures
        dispatched_position(pos, input).x == pos.x - MOVE_DELTA,
        dispatched_position(pos, input).y == pos.y,
{
}

/// Releasing every key after movement (so the idle clip is stopped) makes the
/// very next update play idle and restart the visible frame index at idle's
/// first frame, as long as idle's tick stays below its interval threshold.
pub proof fn lemma_release_restarts_idle(
    anim: PlayerAnimation,
    input: DirectionalInput,
    frame: usize,
    delta_ms: u64,
)
    requires
        winner(input) == Direction::Idle,
        !anim.idle.is_playing,
        anim.idle.timer.elapsed_ms + delta_ms < anim.idle.timer.interval_ms,
    ensures
        dispatched_anim(anim, input, delta_ms).idle.is_playing,
        dispatched_frame(anim, input, frame, delta_ms) == anim.idle.index.first,
{
}

} // verus!
