use vstd::prelude::*;

use crate::animation::{AnimationState, AsepriteAnimation, Direction};

verus! {

/// How long a jump request is remembered, in nanoseconds (0.05 s).
pub const JUMP_BUFFER_NANOS: u64 = 50_000_000;

/// The player's vertical speed measured against the speed above which the
/// jump animation plays.
#[derive(Clone, Copy, Debug, PartialEq, Eq, Structural)]
pub enum VerticalMotion {
    /// Moving up faster than the threshold.
    Rising,
    /// Moving down faster than the threshold.
    Falling,
    /// Vertical speed within the threshold either way.
    Steady,
}

/// Converts left/right input into a numeric direction: `-1` for left, `1` for
/// right, and `0` when neither or both directions are pressed.
pub fn horizontal_direction(left_pressed: bool, right_pressed: bool) -> (direction: i8)
    ensures
        direction == (if right_pressed { 1int } else { 0int }) - (if left_pressed {
            1int
        } else {
            0int
        }),
        -1 <= direction <= 1,
{
    let mut direction: i8 = 0;

    if left_pressed {
        direction -= 1;
    }
    if right_pressed {
        direction += 1;
    }

    direction
}

/// Returns the requested facing direction; left wins when both are pressed.
pub fn pressed_direction(left_pressed: bool, right_pressed: bool) -> (direction: Option<
    Direction,
>)
    ensures
        left_pressed ==> direction == Some(Direction::Left),
        !left_pressed && right_pressed ==> direction == Some(Direction::Right),
        !left_pressed && !right_pressed ==> direction == None::<Direction>,
{
    if left_pressed {
        Some(Direction::Left)
    } else if right_pressed {
        Some(Direction::Right)
    } else {
        None
    }
}

/// The animation mode for the given ground contact, horizontal input, vertical
/// motion and current mode.
///
/// The jump state is "sticky": once the jump animation has started it stays
/// active until the player is grounded again.
pub open spec fn next_animation_state(
    grounded: bool,
    horizontal_direction: int,
    vertical: VerticalMotion,
    current_state: AnimationState,
) -> AnimationState {
    if (current_state == AnimationState::Jump && !grounded) || vertical == VerticalMotion::Rising
        || (!grounded && vertical != VerticalMotion::Steady) {
        AnimationState::Jump
    } else if horizontal_direction != 0 {
        AnimationState::Walk
    } else {
        AnimationState::Idle
    }
}

/// Maps physics and input into an animation state.
pub fn animation_state(
    grounded: bool,
    horizontal_direction: i8,
    vertical: VerticalMotion,
    current_state: AnimationState,
) -> (state: AnimationState)
    ensures
        state == next_animation_state(
            grounded,
            horizontal_direction as int,
            vertical,
            current_state,
        ),
{
    if current_state == AnimationState::Jump && !grounded || vertical == VerticalMotion::Rising || (
    !grounded && vertical != VerticalMotion::Steady) {
        AnimationState::Jump
    } else if horizontal_direction != 0 {
        AnimationState::Walk
    } else {
        AnimationState::Idle
    }
}

/// Chooses the facing direction and animation state from the input and the
/// physics, and applies them to the animation.
///
/// With no left/right key pressed the previous facing is kept. Nothing changes
/// when both already match; otherwise the animation restarts only if the state
/// changed. Returns whether anything changed, in which case the sprite shows
/// the active frame, flipped when facing left.
pub fn change_direction<F>(
    animation: &mut AsepriteAnimation<F>,
    pressed_direction: Option<Direction>,
    grounded: bool,
    horizontal_direction: i8,
    vertical: VerticalMotion,
) -> (changed: bool)
    requires
        old(animation).wf(),
    ensures
        final(animation).wf(),
        ({
            let direction = match pressed_direction {
                Some(d) => d,
                None => old(animation).facing(),
            };
            let state = next_animation_state(
                grounded,
                horizontal_direction as int,
                vertical,
                old(animation).mode(),
            );
            &&& changed == (direction != old(animation).facing() || state != old(
                animation,
            ).mode())
            &&& final(animation).facing() == direction
            &&& final(animation).mode() == state
        }),
        final(animation).idle_clip() == old(animation).idle_clip(),
        final(animation).walk_clip() == old(animation).walk_clip(),
        final(animation).jump_clip() == old(animation).jump_clip(),
        final(animation).mode() == old(animation).mode() ==> final(animation).frame_index() == old(
            animation,
        ).frame_index() && final(animation).time_on_frame() == old(animation).time_on_frame(),
        final(animation).mode() != old(animation).mode() ==> final(animation).frame_index() == 0
            && final(animation).time_on_frame() == 0,
{
    let direction = match pressed_direction {
        Some(d) => d,
        None => animation.direction(),
    };
    let state = animation_state(grounded, horizontal_direction, vertical, animation.state());

    if animation.direction() == direction && animation.state() == state {
        return false;
    }
    animation.set_direction_and_state(direction, state);
    true
}

/// Movement state that persists between input frames: how much longer, in
/// nanoseconds, a jump request is remembered.
pub struct PlayerPhysics {
    jump_buffer: u64,
}

impl PlayerPhysics {
    /// Remaining time of the remembered jump request, in nanoseconds.
    pub closed spec fn buffer(&self) -> int {
        self.jump_buffer as int
    }

    /// Remaining time of the remembered jump request, in nanoseconds.
    pub fn jump_buffer(&self) -> (buffer: u64)
        ensures
            buffer == self.buffer(),
    {
        self.jump_buffer
    }
}

impl Default for PlayerPhysics {
    fn default() -> (physics: Self)
        ensures
            physics.buffer() == 0,
    {
        PlayerPhysics { jump_buffer: 0 }
    }
}

/// The jump buffer after one input frame and whether the player jumps.
///
/// The buffer counts down by the frame time (never below zero); holding jump
/// refreshes it; a jump fires only while grounded with time left in the
/// buffer, and clears it.
pub open spec fn jump_step(buffer: int, delta: int, jump_pressed: bool, grounded: bool) -> (
    int,
    bool,
) {
    let counted = if buffer - delta < 0 {
        0
    } else {
        buffer - delta
    };
    let refreshed = if jump_pressed {
        JUMP_BUFFER_NANOS as int
    } else {
        counted
    };
    if grounded && refreshed > 0 {
        (0, true)
    } else {
        (refreshed, false)
    }
}

/// Applies one input frame of `delta` nanoseconds to the jump buffer and
/// returns whether the player jumps this frame.
pub fn move_player(physics: &mut PlayerPhysics, delta: u64, jump_pressed: bool, grounded: bool) -> (jump: bool)
    ensures
        (final(physics).buffer(), jump) == jump_step(old(physics).buffer(), delta as int, jump_pressed, grounded),
{
    physics.jump_buffer = physics.jump_buffer.saturating_sub(delta);

    if jump_pressed {
        physics.jump_buffer = JUMP_BUFFER_NANOS;
    }

    if grounded && physics.jump_buffer > 0 {
        physics.jump_buffer = 0;
        true
    } else {
        false
    }
}

/// A jump happens only while grounded, and uses up the buffered request.
pub proof fn law_jump_only_from_ground(buffer: int, delta: int, jump_pressed: bool, grounded: bool)
    requires
        buffer >= 0,
        delta >= 0,
    ensures
        jump_step(buffer, delta, jump_pressed, grounded).1 ==> grounded && jump_step(
            buffer,
            delta,
            jump_pressed,
            grounded,
        ).0 == 0,
        0 <= jump_step(buffer, delta, jump_pressed, grounded).0 <= if buffer
            > JUMP_BUFFER_NANOS {
            buffer
        } else {
            JUMP_BUFFER_NANOS as int
        },
{
}

/// One buffered press produces one jump: after a jump, no further jump
/// happens until jump is pressed again.
pub proof fn law_one_press_one_jump(
    buffer: int,
    delta: int,
    jump_pressed: bool,
    grounded: bool,
    later_delta: int,
    later_grounded: bool,
)
    requires
        buffer >= 0,
        delta >= 0,
        later_delta >= 0,
        jump_step(buffer, delta, jump_pressed, grounded).1,
    ensures
        !jump_step(
            jump_step(buffer, delta, jump_pressed, grounded).0,
            later_delta,
            false,
            later_grounded,
        ).1,
{
}

/// A jump pressed just before landing still fires on the first grounded
/// frame, provided less than the buffer time has passed.
pub proof fn law_buffered_press_jumps_on_landing(
    buffer: int,
    delta: int,
    landing_delta: int,
)
    requires
        buffer >= 0,
        delta >= 0,
        0 <= landing_delta < JUMP_BUFFER_NANOS,
    ensures
        jump_step(jump_step(buffer, delta, true, false).0, landing_delta, false, true).1,
{
}

/// Holding jump keeps the request fresh, so the jump fires on every grounded
/// frame while jump is held.
pub proof fn law_held_jump_fires_when_grounded(buffer: int, delta: int)
    ensures
        jump_step(buffer, delta, true, true) == (0int, true),
{
}

/// On each input frame the player jumps exactly when grounded and either jump
/// is held or the remembered request outlasts the frame time; afterwards the
/// buffer is empty after a jump, full while jump is held, and otherwise the
/// old buffer less the frame time, never below zero.
pub proof fn law_jump_buffer_behaviour(buffer: int, delta: int, jump_pressed: bool, grounded: bool)
    requires
        buffer >= 0,
        delta >= 0,
    ensures
        jump_step(buffer, delta, jump_pressed, grounded).1 <==> grounded && (jump_pressed || buffer
            > delta),
        jump_step(buffer, delta, jump_pressed, grounded).1 ==> jump_step(
            buffer,
            delta,
            jump_pressed,
            grounded,
        ).0 == 0,
        !jump_step(buffer, delta, jump_pressed, grounded).1 && jump_pressed ==> jump_step(
            buffer,
            delta,
            jump_pressed,
            grounded,
        ).0 == JUMP_BUFFER_NANOS,
        !jump_step(buffer, delta, jump_pressed, grounded).1 && !jump_pressed ==> jump_step(
            buffer,
            delta,
            jump_pressed,
            grounded,
        ).0 == if buffer > delta {
            buffer - delta
        } else {
            0
        },
{
}

/// Landing without pressing jump fires the remembered request exactly when it
/// outlasts the landing frame.
pub proof fn law_landing_uses_remembered_request(buffer: int, delta: int)
    requires
        buffer >= 0,
        delta >= 0,
    ensures
        jump_step(buffer, delta, false, true).1 <==> buffer > delta,
{
}

/// While airborne and moving vertically faster than the threshold (either
/// way), the jump animation plays whatever the input and the current state.
pub proof fn law_fast_airborne_motion_jumps(
    horizontal_direction: int,
    vertical: VerticalMotion,
    current_state: AnimationState,
)
    requires
        vertical != VerticalMotion::Steady,
    ensures
        next_animation_state(false, horizontal_direction, vertical, current_state)
            == AnimationState::Jump,
{
}

/// Rising faster than the threshold always plays the jump animation.
pub proof fn law_rising_jumps(grounded: bool, horizontal_direction: int, current_state: AnimationState)
    ensures
        next_animation_state(grounded, horizontal_direction, VerticalMotion::Rising, current_state)
            == AnimationState::Jump,
{
}

/// Once grounded and not rising, the state follows the input alone: walking
/// while a direction is held, idle otherwise, whatever the current state.
pub proof fn law_grounded_follows_input(
    horizontal_direction: int,
    vertical: VerticalMotion,
    current_state: AnimationState,
)
    requires
        vertical != VerticalMotion::Rising,
    ensures
        next_animation_state(true, horizontal_direction, vertical, current_state) == if horizontal_direction
            != 0 {
            AnimationState::Walk
        } else {
            AnimationState::Idle
        },
{
}

/// Airborne with a slow vertical speed, a jump in progress continues, and any
/// other state follows the input.
pub proof fn law_slow_airborne_motion(horizontal_direction: int, current_state: AnimationState)
    ensures
        next_animation_state(false, horizontal_direction, VerticalMotion::Steady, current_state)
            == if current_state == AnimationState::Jump {
            AnimationState::Jump
        } else if horizontal_direction != 0 {
            AnimationState::Walk
        } else {
            AnimationState::Idle
        },
{
}

/// While airborne, a started jump animation keeps playing whatever the input.
pub proof fn law_jump_is_sticky_while_airborne(horizontal_direction: int, vertical: VerticalMotion)
    ensures
        next_animation_state(false, horizontal_direction, vertical, AnimationState::Jump)
            == AnimationState::Jump,
{
}

/// Whether the player touched a walkable surface during the latest physics
/// update.
pub struct Grounded(bool);

impl Grounded {
    /// Whether the player is grounded.
    pub closed spec fn on_ground(&self) -> bool {
        self.0
    }

    /// Whether the player is grounded.
    pub fn is_grounded(&self) -> (grounded: bool)
        ensures
            grounded == self.on_ground(),
    {
        self.0
    }
}

impl Default for Grounded {
    fn default() -> (grounded: Self)
        ensures
            !grounded.on_ground(),
    {
        Grounded(false)
    }
}

/// Updates the grounded flag from the ground sensor's hits: the player is
/// grounded when some hit surface faces upward (`upward_hits[i]` tells whether
/// hit `i` does).
pub fn update_grounded(grounded: &mut Grounded, upward_hits: &[bool])
    ensures
        final(grounded).on_ground() == exists|i: int| 0 <= i < upward_hits@.len() && upward_hits@[i],
{
    let mut found = false;
    let mut i: usize = 0;
    while i < upward_hits.len()
        invariant
            i <= upward_hits@.len(),
            found == exists|j: int| 0 <= j < i && upward_hits@[j],
        decreases upward_hits@.len() - i,
    {
        if upward_hits[i] {
            found = true;
        }
        i = i + 1;
    }
    grounded.0 = found;
}

} // verus!
