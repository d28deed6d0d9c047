use platformer::animation::{
    should_flip_sprite, AnimationClip, AnimationState, AsepriteAnimation, Direction,
};

const MS: u64 = 1_000_000;

fn clip(names: &[&'static str], millis: &[u64]) -> AnimationClip<&'static str> {
    AnimationClip::new(names.to_vec(), millis.iter().map(|m| m * MS).collect())
}

fn player(state: AnimationState) -> AsepriteAnimation<&'static str> {
    AsepriteAnimation::new(
        clip(&["idle0", "idle1", "idle2"], &[100, 100, 100]),
        clip(&["walk0", "walk1"], &[50, 150]),
        clip(&["jump0", "jump1", "jump2"], &[40, 40, 40]),
        Direction::Right,
        state,
    )
}

#[test]
fn new_animation_starts_on_first_frame() {
    let animation = player(AnimationState::Walk);
    assert_eq!(animation.current_frame(), 0);
    assert_eq!(animation.elapsed(), 0);
    assert_eq!(animation.direction(), Direction::Right);
    assert_eq!(animation.state(), AnimationState::Walk);
    assert_eq!(*animation.active_frame(), "walk0");
    assert_eq!(animation.active_clip().frames.len(), 2);
}

#[test]
fn active_clip_follows_state() {
    assert_eq!(player(AnimationState::Idle).active_clip().frames[1], "idle1");
    assert_eq!(player(AnimationState::Walk).active_clip().frames[1], "walk1");
    assert_eq!(player(AnimationState::Jump).active_clip().frames[1], "jump1");
    assert_eq!(player(AnimationState::Walk).active_clip().frame_duration(1), 150 * MS);
}

#[test]
fn state_change_restarts_animation() {
    let mut animation = player(AnimationState::Idle);
    assert!(animation.advance(130 * MS));
    assert_eq!(animation.current_frame(), 1);
    assert_eq!(animation.elapsed(), 30 * MS);
    animation.set_direction_and_state(Direction::Right, AnimationState::Walk);
    assert_eq!(animation.current_frame(), 0);
    assert_eq!(animation.elapsed(), 0);
    assert_eq!(*animation.active_frame(), "walk0");
}

#[test]
fn turning_during_jump_keeps_frame() {
    let mut animation = player(AnimationState::Jump);
    assert!(animation.advance(50 * MS));
    assert_eq!(animation.current_frame(), 1);
    assert_eq!(animation.elapsed(), 10 * MS);
    animation.set_direction_and_state(Direction::Left, AnimationState::Jump);
    assert_eq!(animation.direction(), Direction::Left);
    assert_eq!(animation.current_frame(), 1);
    assert_eq!(animation.elapsed(), 10 * MS);
    assert_eq!(*animation.active_frame(), "jump1");
}

#[test]
fn short_advance_keeps_frame() {
    let mut animation = player(AnimationState::Walk);
    assert!(!animation.advance(49 * MS));
    assert_eq!(animation.current_frame(), 0);
    assert_eq!(animation.elapsed(), 49 * MS);
    assert!(animation.advance(MS));
    assert_eq!(animation.current_frame(), 1);
    assert_eq!(animation.elapsed(), 0);
}

#[test]
fn looping_clip_wraps_to_first_frame() {
    let mut animation = player(AnimationState::Walk);
    // 50 + 150 = 200 ms per loop; 430 ms is two loops and 30 ms.
    assert!(animation.advance(430 * MS));
    assert_eq!(animation.current_frame(), 0);
    assert_eq!(animation.elapsed(), 30 * MS);
    assert!(animation.advance(40 * MS));
    assert_eq!(animation.current_frame(), 1);
    assert_eq!(animation.elapsed(), 20 * MS);
}

#[test]
fn jump_freezes_on_last_frame() {
    let mut animation = player(AnimationState::Jump);
    assert!(animation.advance(1000 * MS));
    assert_eq!(animation.current_frame(), 2);
    // Reached the last frame by ordinary steps: the leftover time is kept.
    assert_eq!(animation.elapsed(), 920 * MS);
    // Passing the last frame's duration again keeps the last frame and
    // resets its time.
    assert!(animation.advance(0));
    assert_eq!(animation.current_frame(), 2);
    assert_eq!(animation.elapsed(), 0);
    assert!(!animation.advance(39 * MS));
    assert_eq!(animation.current_frame(), 2);
    assert_eq!(*animation.active_frame(), "jump2");
}

#[test]
fn single_frame_clip_is_left_alone() {
    let mut animation = AsepriteAnimation::new(
        clip(&["still"], &[100]),
        clip(&["walk0", "walk1"], &[50, 150]),
        clip(&[], &[]),
        Direction::Left,
        AnimationState::Idle,
    );
    assert!(!animation.advance(500 * MS));
    assert_eq!(animation.current_frame(), 0);
    assert_eq!(animation.elapsed(), 0);
    animation.set_direction_and_state(Direction::Left, AnimationState::Jump);
    assert!(!animation.advance(500 * MS));
    assert_eq!(animation.elapsed(), 0);
}

#[test]
fn zero_duration_frames_are_skipped() {
    let mut animation = AsepriteAnimation::new(
        clip(&["a", "b", "c"], &[0, 10, 0]),
        clip(&["walk0", "walk1"], &[50, 150]),
        clip(&["jump0", "jump1"], &[0, 0]),
        Direction::Right,
        AnimationState::Idle,
    );
    assert!(animation.advance(5 * MS));
    assert_eq!(animation.current_frame(), 1);
    assert_eq!(animation.elapsed(), 5 * MS);
    assert!(animation.advance(5 * MS));
    assert_eq!(animation.current_frame(), 1);
    assert_eq!(animation.elapsed(), 0);
    animation.set_direction_and_state(Direction::Right, AnimationState::Jump);
    assert!(animation.advance(0));
    assert_eq!(animation.current_frame(), 1);
}

#[test]
fn looping_advances_compose() {
    let mut once = player(AnimationState::Idle);
    let mut twice = player(AnimationState::Idle);
    once.advance(370 * MS);
    twice.advance(180 * MS);
    twice.advance(190 * MS);
    assert_eq!(once.current_frame(), twice.current_frame());
    assert_eq!(once.elapsed(), twice.elapsed());
    assert_eq!(once.current_frame(), 0);
    assert_eq!(once.elapsed(), 70 * MS);
}

#[test]
fn elapsed_time_saturates() {
    let mut animation = AsepriteAnimation::new(
        AnimationClip::new(vec!["a", "b"], vec![u64::MAX, u64::MAX]),
        clip(&["walk0", "walk1"], &[50, 150]),
        clip(&["jump0", "jump1"], &[40, 40]),
        Direction::Right,
        AnimationState::Idle,
    );
    assert!(!animation.advance(u64::MAX - 5));
    assert_eq!(animation.elapsed(), u64::MAX - 5);
    // The sum is capped at u64::MAX, which covers the first frame exactly.
    assert!(animation.advance(100));
    assert_eq!(animation.current_frame(), 1);
    assert_eq!(animation.elapsed(), 0);
}

#[test]
fn positive_duration_check() {
    assert!(clip(&["a", "b"], &[0, 3]).has_positive_duration());
    assert!(!clip(&["a", "b"], &[0, 0]).has_positive_duration());
    assert!(!clip(&[], &[]).has_positive_duration());
}

#[test]
fn left_facing_sprites_are_flipped() {
    assert!(should_flip_sprite(Direction::Left));
    assert!(!should_flip_sprite(Direction::Right));
}
