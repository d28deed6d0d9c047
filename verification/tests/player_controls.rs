use platformer::animation::{AnimationClip, AnimationState, AsepriteAnimation, Direction};
use platformer::player::{
    animation_state, change_direction, horizontal_direction, move_player, pressed_direction,
    update_grounded, Grounded, PlayerPhysics, VerticalMotion, JUMP_BUFFER_NANOS,
};

const MS: u64 = 1_000_000;

fn player(state: AnimationState) -> AsepriteAnimation<u32> {
    AsepriteAnimation::new(
        AnimationClip::new(vec![10, 11], vec![100 * MS, 100 * MS]),
        AnimationClip::new(vec![20, 21], vec![100 * MS, 100 * MS]),
        AnimationClip::new(vec![30, 31, 32], vec![100 * MS, 100 * MS, 100 * MS]),
        Direction::Right,
        state,
    )
}

#[test]
fn horizontal_direction_values() {
    assert_eq!(horizontal_direction(false, false), 0);
    assert_eq!(horizontal_direction(true, false), -1);
    assert_eq!(horizontal_direction(false, true), 1);
    assert_eq!(horizontal_direction(true, true), 0);
}

#[test]
fn pressed_direction_prefers_left() {
    assert_eq!(pressed_direction(false, false), None);
    assert_eq!(pressed_direction(true, false), Some(Direction::Left));
    assert_eq!(pressed_direction(false, true), Some(Direction::Right));
    assert_eq!(pressed_direction(true, true), Some(Direction::Left));
}

#[test]
fn animation_state_rules() {
    // Rising fast always jumps.
    assert_eq!(animation_state(true, 0, VerticalMotion::Rising, AnimationState::Idle), AnimationState::Jump);
    // Falling fast only jumps while airborne.
    assert_eq!(animation_state(false, 0, VerticalMotion::Falling, AnimationState::Idle), AnimationState::Jump);
    assert_eq!(animation_state(true, 0, VerticalMotion::Falling, AnimationState::Idle), AnimationState::Idle);
    assert_eq!(animation_state(true, 1, VerticalMotion::Falling, AnimationState::Walk), AnimationState::Walk);
    // The jump is sticky while airborne.
    assert_eq!(animation_state(false, 1, VerticalMotion::Steady, AnimationState::Jump), AnimationState::Jump);
    assert_eq!(animation_state(false, 0, VerticalMotion::Steady, AnimationState::Jump), AnimationState::Jump);
    // Landing ends it.
    assert_eq!(animation_state(true, 0, VerticalMotion::Steady, AnimationState::Jump), AnimationState::Idle);
    assert_eq!(animation_state(true, -1, VerticalMotion::Steady, AnimationState::Jump), AnimationState::Walk);
    // Airborne but slow, not yet jumping: follow the input.
    assert_eq!(animation_state(false, 1, VerticalMotion::Steady, AnimationState::Idle), AnimationState::Walk);
    assert_eq!(animation_state(false, 0, VerticalMotion::Steady, AnimationState::Walk), AnimationState::Idle);
}

#[test]
fn jump_buffer_counts_down_and_refreshes() {
    let mut physics = PlayerPhysics::default();
    assert_eq!(physics.jump_buffer(), 0);
    assert!(!move_player(&mut physics, 16 * MS, true, false));
    assert_eq!(physics.jump_buffer(), JUMP_BUFFER_NANOS);
    assert!(!move_player(&mut physics, 16 * MS, false, false));
    assert_eq!(physics.jump_buffer(), JUMP_BUFFER_NANOS - 16 * MS);
    assert!(!move_player(&mut physics, 100 * MS, false, false));
    assert_eq!(physics.jump_buffer(), 0);
    // The request has expired: landing now does not jump.
    assert!(!move_player(&mut physics, 16 * MS, false, true));
}

#[test]
fn buffered_press_jumps_on_landing() {
    let mut physics = PlayerPhysics::default();
    assert!(!move_player(&mut physics, 16 * MS, true, false));
    assert!(move_player(&mut physics, 16 * MS, false, true));
    assert_eq!(physics.jump_buffer(), 0);
}

#[test]
fn one_press_one_jump() {
    let mut physics = PlayerPhysics::default();
    assert!(move_player(&mut physics, 16 * MS, true, true));
    assert!(!move_player(&mut physics, 16 * MS, false, true));
    assert!(!move_player(&mut physics, 0, false, true));
    // Holding jump repeats it.
    assert!(move_player(&mut physics, 16 * MS, true, true));
}

#[test]
fn grounded_from_sensor_hits() {
    let mut grounded = Grounded::default();
    assert!(!grounded.is_grounded());
    update_grounded(&mut grounded, &[false, true]);
    assert!(grounded.is_grounded());
    update_grounded(&mut grounded, &[false, false]);
    assert!(!grounded.is_grounded());
    update_grounded(&mut grounded, &[true]);
    update_grounded(&mut grounded, &[]);
    assert!(!grounded.is_grounded());
}

#[test]
fn no_input_keeps_everything() {
    let mut animation = player(AnimationState::Idle);
    animation.advance(150 * MS);
    assert!(!change_direction(&mut animation, None, true, 0, VerticalMotion::Steady));
    assert_eq!(animation.direction(), Direction::Right);
    assert_eq!(animation.state(), AnimationState::Idle);
    assert_eq!(animation.current_frame(), 1);
    assert_eq!(animation.elapsed(), 50 * MS);
}

#[test]
fn walking_left_restarts_and_turns() {
    let mut animation = player(AnimationState::Idle);
    animation.advance(150 * MS);
    assert!(change_direction(
        &mut animation,
        Some(Direction::Left),
        true,
        -1,
        VerticalMotion::Steady
    ));
    assert_eq!(animation.direction(), Direction::Left);
    assert_eq!(animation.state(), AnimationState::Walk);
    assert_eq!(animation.current_frame(), 0);
    assert_eq!(*animation.active_frame(), 20);
}

#[test]
fn turning_in_the_air_keeps_jump_frame() {
    let mut animation = player(AnimationState::Jump);
    animation.advance(120 * MS);
    assert!(change_direction(
        &mut animation,
        Some(Direction::Left),
        false,
        -1,
        VerticalMotion::Steady
    ));
    assert_eq!(animation.direction(), Direction::Left);
    assert_eq!(animation.state(), AnimationState::Jump);
    assert_eq!(animation.current_frame(), 1);
    assert_eq!(animation.elapsed(), 20 * MS);
}
