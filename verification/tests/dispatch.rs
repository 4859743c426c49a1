use elepaz::player::PlayerBundle;
use elepaz::service::{create_player, update_player, DirectionalInput, MOVE_DELTA};

fn held(left: bool, right: bool, up: bool, down: bool) -> DirectionalInput {
    DirectionalInput { left, right, up, down }
}

fn no_keys() -> DirectionalInput {
    held(false, false, false, false)
}

fn step(b: &mut PlayerBundle, input: DirectionalInput, delta_ms: u64) {
    update_player(
        input,
        delta_ms,
        &mut b.sprite.position,
        &mut b.sprite.frame_index,
        &mut b.animation,
    );
}

fn playing_count(b: &PlayerBundle) -> usize {
    let a = &b.animation;
    [
        a.idle.is_playing,
        a.left_run.is_playing,
        a.right_run.is_playing,
        a.up_run.is_playing,
        a.down_run.is_playing,
    ]
    .iter()
    .filter(|p| **p)
    .count()
}

#[test]
fn create_player_configuration() {
    let b = create_player();
    assert_eq!(b.sprite.position.x, 0);
    assert_eq!(b.sprite.position.y, 0);
    assert_eq!(b.sprite.frame_index, 0);
    assert_eq!(playing_count(&b), 0);

    assert_eq!(b.animation.idle.index.first, 0);
    assert_eq!(b.animation.idle.index.last, 5);
    assert_eq!(b.animation.idle.timer.interval_ms, 100);

    assert_eq!(b.animation.right_run.index.first, 0);
    assert_eq!(b.animation.right_run.index.last, 5);
    assert_eq!(b.animation.right_run.timer.interval_ms, 120);

    assert_eq!(b.animation.left_run.index.first, 12);
    assert_eq!(b.animation.left_run.index.last, 17);
    assert_eq!(b.animation.left_run.timer.interval_ms, 120);

    assert_eq!(b.animation.up_run.index.first, 6);
    assert_eq!(b.animation.up_run.index.last, 11);
    assert_eq!(b.animation.up_run.timer.interval_ms, 120);

    assert_eq!(b.animation.down_run.index.first, 18);
    assert_eq!(b.animation.down_run.index.last, 23);
    assert_eq!(b.animation.down_run.timer.interval_ms, 120);
}

#[test]
fn left_moves_x_only() {
    let mut b = create_player();
    step(&mut b, held(true, false, false, false), 16);
    assert_eq!(b.sprite.position.x, -MOVE_DELTA);
    assert_eq!(b.sprite.position.y, 0);
    assert!(b.animation.left_run.is_playing);
    assert_eq!(b.sprite.frame_index, 12);
}

#[test]
fn left_beats_right_when_both_held() {
    let mut only_left = create_player();
    step(&mut only_left, held(true, false, false, false), 16);
    let mut both = create_player();
    step(&mut both, held(true, true, false, false), 16);
    assert_eq!(both, only_left);
    assert_eq!(both.sprite.position.x, -MOVE_DELTA);
    assert_eq!(both.sprite.position.y, 0);
}

#[test]
fn priority_order_over_all_keys() {
    // left > right > up > down: with all four held, left wins; with the
    // lower-priority triple held, right wins; and so on down to down.
    let mut all = create_player();
    step(&mut all, held(true, true, true, true), 16);
    assert!(all.animation.left_run.is_playing);
    assert_eq!(all.sprite.position.x, -MOVE_DELTA);

    let mut no_left = create_player();
    step(&mut no_left, held(false, true, true, true), 16);
    assert!(no_left.animation.right_run.is_playing);
    assert_eq!(no_left.sprite.position.x, MOVE_DELTA);

    let mut vertical = create_player();
    step(&mut vertical, held(false, false, true, true), 16);
    assert!(vertical.animation.up_run.is_playing);
    assert_eq!(vertical.sprite.position.y, MOVE_DELTA);

    let mut down_only = create_player();
    step(&mut down_only, held(false, false, false, true), 16);
    assert!(down_only.animation.down_run.is_playing);
    assert_eq!(down_only.sprite.position.y, -MOVE_DELTA);
}

#[test]
fn up_and_down_move_y_only() {
    let mut b = create_player();
    step(&mut b, held(false, false, true, false), 16);
    assert_eq!(b.sprite.position.x, 0);
    assert_eq!(b.sprite.position.y, MOVE_DELTA);
    assert_eq!(b.sprite.frame_index, 6);
    step(&mut b, held(false, false, false, true), 16);
    assert_eq!(b.sprite.position.x, 0);
    assert_eq!(b.sprite.position.y, 0);
    assert_eq!(b.sprite.frame_index, 18);
}

#[test]
fn no_input_moves_nothing_and_plays_idle() {
    let mut b = create_player();
    step(&mut b, no_keys(), 16);
    assert_eq!(b.sprite.position.x, 0);
    assert_eq!(b.sprite.position.y, 0);
    assert!(b.animation.idle.is_playing);
    assert_eq!(b.sprite.frame_index, 0);
}

#[test]
fn at_most_one_playing_after_updates() {
    let mut b = create_player();
    let frames = [
        held(true, false, false, false),
        held(true, true, false, false),
        held(false, true, false, false),
        no_keys(),
        held(false, false, true, false),
        held(false, false, false, true),
        held(true, true, true, true),
        no_keys(),
    ];
    for input in frames {
        step(&mut b, input, 16);
        assert!(playing_count(&b) <= 1);
    }
}

#[test]
fn release_all_transitions_to_idle() {
    // After moving right, releasing every key plays idle on the very next
    // update, restarting the visible frame at idle's first frame.
    let mut b = create_player();
    step(&mut b, held(false, true, false, false), 16);
    assert!(b.animation.right_run.is_playing);
    step(&mut b, no_keys(), 16);
    assert!(b.animation.idle.is_playing);
    assert!(!b.animation.left_run.is_playing);
    assert!(!b.animation.right_run.is_playing);
    assert_eq!(b.sprite.frame_index, 0);
    assert_eq!(playing_count(&b), 1);
}

#[test]
fn idle_branch_stops_only_horizontal_runs() {
    // On the no-key branch the dispatcher stops just the left and right run
    // clips; a vertical run clip keeps the state it had.
    let mut b = create_player();
    step(&mut b, held(false, false, true, false), 16);
    assert!(b.animation.up_run.is_playing);
    step(&mut b, no_keys(), 16);
    assert!(b.animation.idle.is_playing);
    assert!(b.animation.up_run.is_playing);
    assert!(!b.animation.left_run.is_playing);
    assert!(!b.animation.right_run.is_playing);
}

#[test]
fn switching_direction_restarts_new_clip() {
    // Run right long enough to advance a few frames, then switch left: the
    // left clip starts at its own first frame, not where right left off.
    let mut b = create_player();
    for _ in 0..4 {
        step(&mut b, held(false, true, false, false), 120);
    }
    assert!(b.sprite.frame_index > 0);
    step(&mut b, held(true, false, false, false), 16);
    assert_eq!(b.sprite.frame_index, 12);
    assert!(b.animation.left_run.is_playing);
    assert!(!b.animation.right_run.is_playing);
}
