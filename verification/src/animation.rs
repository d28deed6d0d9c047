use vstd::prelude::*;

verus! {

/// Cardinal facing direction used to flip right-facing source art.
#[derive(Clone, Copy, Debug, PartialEq, Eq, Structural)]
pub enum Direction {
    Left,
    Right,
}

/// High-level animation mode for the player.
///
/// Direction is separate from state because the same walking animation can face
/// left or right by flipping the sprite.
#[derive(Clone, Copy, Debug, PartialEq, Eq, Structural)]
pub enum AnimationState {
    Idle,
    Walk,
    Jump,
}

/// Returns whether the sprite should be mirrored horizontally.
///
/// The loaded sprite art faces right; left-facing movement reuses the same
/// frames mirrored.
pub fn should_flip_sprite(direction: Direction) -> (flip: bool)
    ensures
        flip <==> direction == Direction::Left,
{
    direction == Direction::Left
}

/// Whether a clip in the given state wraps around after its last frame.
///
/// Idle and walk loop forever; jump plays once and freezes on its last frame.
pub open spec fn state_loops(state: AnimationState) -> bool {
    state != AnimationState::Jump
}

/// A sequence of frames together with how long each stays on screen.
///
/// Durations are measured in nanoseconds.
#[derive(Clone)]
pub struct AnimationClip<F> {
    /// The frames, in playback order.
    pub frames: Vec<F>,
    /// How long each frame should stay on screen, in nanoseconds.
    frame_durations: Vec<u64>,
}

impl<F> AnimationClip<F> {
    /// Display time of each frame, in nanoseconds.
    pub closed spec fn durations(&self) -> Seq<u64> {
        self.frame_durations@
    }

    /// The frames, in playback order.
    pub closed spec fn frame_seq(&self) -> Seq<F> {
        self.frames@
    }

    /// Number of frames in the clip.
    pub open spec fn frame_count(&self) -> nat {
        self.frame_seq().len()
    }

    /// Every frame has exactly one duration.
    pub open spec fn wf(&self) -> bool {
        self.frame_seq().len() == self.durations().len()
    }

    /// Builds a clip from its frames and their durations in nanoseconds.
    pub fn new(frames: Vec<F>, frame_durations: Vec<u64>) -> (clip: Self)
        requires
            frames@.len() == frame_durations@.len(),
        ensures
            clip.frame_seq() == frames@,
            clip.durations() == frame_durations@,
            clip.wf(),
    {
        AnimationClip { frames, frame_durations }
    }

    /// Display time of the frame at `index`, in nanoseconds.
    pub fn frame_duration(&self, index: usize) -> (duration: u64)
        requires
            index < self.durations().len(),
        ensures
            duration == self.durations()[index as int],
    {
        self.frame_durations[index]
    }

    /// Whether some frame of the clip stays on screen for a positive time.
    pub fn has_positive_duration(&self) -> (positive: bool)
        ensures
            positive <==> has_progress(self.durations()),
    {
        let mut i: usize = 0;
        while i < self.frame_durations.len()
            invariant
                i <= self.frame_durations@.len(),
                forall|j: int| 0 <= j < i ==> self.frame_durations@[j] == 0,
            decreases self.frame_durations@.len() - i,
        {
            if self.frame_durations[i] > 0 {
                return true;
            }
            i = i + 1;
        }
        false
    }
}

/// Some frame has a positive display time.
pub open spec fn has_progress(d: Seq<u64>) -> bool {
    exists|k: int| 0 <= k < d.len() && d[k] > 0
}

/// An index of a frame with a positive display time.
pub open spec fn progress_index(d: Seq<u64>) -> int {
    choose|k: int| 0 <= k < d.len() && d[k] > 0
}

/// The inputs on which frame playback is defined: at least two frames, the
/// cursor on one of them, and, for a looping clip, some frame that takes time.
pub open spec fn playable(d: Seq<u64>, looping: bool, cur: int, e: int) -> bool {
    &&& d.len() > 1
    &&& 0 <= cur < d.len()
    &&& e >= 0
    &&& looping ==> has_progress(d)
}

/// The frame cursor and remaining time after leaving frame `cur`, which has
/// been shown for `e` nanoseconds.
///
/// A looping clip wraps to its first frame; a clip that plays once stays on its
/// last frame with the time reset.
pub open spec fn step_frame(d: Seq<u64>, looping: bool, cur: int, e: int) -> (int, int) {
    let rest = e - d[cur];
    if cur + 1 >= d.len() {
        if looping {
            (0, rest)
        } else {
            (d.len() - 1, 0)
        }
    } else {
        (cur + 1, rest)
    }
}

/// The number of zero-duration frames the cursor may still pass over before it
/// must reach a frame that consumes time (looping), or before the last frame
/// (playing once).
pub open spec fn frames_ahead(d: Seq<u64>, looping: bool, cur: int) -> int {
    if looping {
        let k = progress_index(d);
        if k >= cur {
            k - cur
        } else {
            k + d.len() - cur
        }
    } else {
        d.len() - cur
    }
}

/// Where playback settles: the frame shown and the time it has been shown,
/// after frame `cur` has accumulated `e` nanoseconds.
///
/// Frames are left while the accumulated time covers the current frame's
/// duration; a clip that plays once stops as soon as it reaches its last frame.
pub open spec fn run_frames(d: Seq<u64>, looping: bool, cur: int, e: int) -> (int, int)
    decreases e, frames_ahead(d, looping, cur),
    when playable(d, looping, cur, e)
{
    if e < d[cur] {
        (cur, e)
    } else {
        let next = step_frame(d, looping, cur, e);
        if !looping && next.0 == d.len() - 1 {
            next
        } else {
            proof {
                lemma_step_decreases(d, looping, cur, e);
            }
            run_frames(d, looping, next.0, next.1)
        }
    }
}

/// Leaving a frame either spends time or moves closer to a frame that does.
pub proof fn lemma_step_decreases(d: Seq<u64>, looping: bool, cur: int, e: int)
    requires
        playable(d, looping, cur, e),
        e >= d[cur],
        looping || step_frame(d, looping, cur, e).0 != d.len() - 1,
    ensures
        playable(d, looping, step_frame(d, looping, cur, e).0, step_frame(d, looping, cur, e).1),
        ({
            let next = step_frame(d, looping, cur, e);
            next.1 < e || (next.1 == e && frames_ahead(d, looping, next.0) < frames_ahead(
                d,
                looping,
                cur,
            ))
        }),
{
    if looping {
        let k = progress_index(d);
        assert(0 <= k < d.len() && d[k] > 0);
    }
}

/// Playback settles on a valid frame, never with negative time.
pub proof fn lemma_run_in_range(d: Seq<u64>, looping: bool, cur: int, e: int)
    requires
        playable(d, looping, cur, e),
    ensures
        0 <= run_frames(d, looping, cur, e).0 < d.len(),
        0 <= run_frames(d, looping, cur, e).1 <= e,
    decreases e, frames_ahead(d, looping, cur),
{
    if e >= d[cur] {
        let next = step_frame(d, looping, cur, e);
        if !(!looping && next.0 == d.len() - 1) {
            lemma_step_decreases(d, looping, cur, e);
            lemma_run_in_range(d, looping, next.0, next.1);
        }
    }
}

/// Component that stores the animation clips and playback cursor for one entity.
///
/// The component owns the timing state: the current frame and the time, in
/// nanoseconds, that frame has been shown.
pub struct AsepriteAnimation<F> {
    idle: AnimationClip<F>,
    walk: AnimationClip<F>,
    jump: AnimationClip<F>,
    pub direction: Direction,
    pub state: AnimationState,
    current_frame: usize,
    elapsed: u64,
}

impl<F> AsepriteAnimation<F> {
    /// The idle clip.
    pub closed spec fn idle_clip(&self) -> AnimationClip<F> {
        self.idle
    }

    /// The walking clip.
    pub closed spec fn walk_clip(&self) -> AnimationClip<F> {
        self.walk
    }

    /// The jump clip.
    pub closed spec fn jump_clip(&self) -> AnimationClip<F> {
        self.jump
    }

    /// The facing direction.
    pub closed spec fn facing(&self) -> Direction {
        self.direction
    }

    /// The animation mode.
    pub closed spec fn mode(&self) -> AnimationState {
        self.state
    }

    /// Index of the frame on screen within the active clip.
    pub closed spec fn frame_index(&self) -> int {
        self.current_frame as int
    }

    /// Time the current frame has been on screen, in nanoseconds.
    pub closed spec fn time_on_frame(&self) -> int {
        self.elapsed as int
    }

    /// The clip that plays in the given mode.
    pub open spec fn clip_for(&self, state: AnimationState) -> AnimationClip<F> {
        match state {
            AnimationState::Idle => self.idle_clip(),
            AnimationState::Walk => self.walk_clip(),
            AnimationState::Jump => self.jump_clip(),
        }
    }

    /// The clip that matches the current animation mode.
    pub open spec fn active(&self) -> AnimationClip<F> {
        self.clip_for(self.mode())
    }

    /// The three clips are well formed, the cursor points into the active
    /// clip (or at its start, when the clip is empty), and the time on the
    /// current frame is a `u64` count of nanoseconds.
    pub open spec fn wf(&self) -> bool {
        &&& self.idle_clip().wf()
        &&& self.walk_clip().wf()
        &&& self.jump_clip().wf()
        &&& 0 <= self.frame_index()
        &&& (self.frame_index() < self.active().frame_count() || self.frame_index() == 0)
        &&& 0 <= self.time_on_frame() <= u64::MAX
    }

    /// The clips are those of `other` and so are direction and mode.
    pub open spec fn same_setup(&self, other: &Self) -> bool {
        &&& self.idle_clip() == other.idle_clip()
        &&& self.walk_clip() == other.walk_clip()
        &&& self.jump_clip() == other.jump_clip()
        &&& self.facing() == other.facing()
        &&& self.mode() == other.mode()
    }

    /// Builds an animation component from the three clips used by the player,
    /// starting on the first frame.
    pub fn new(
        idle: AnimationClip<F>,
        walk: AnimationClip<F>,
        jump: AnimationClip<F>,
        direction: Direction,
        state: AnimationState,
    ) -> (animation: Self)
        requires
            idle.wf(),
            walk.wf(),
            jump.wf(),
        ensures
            animation.wf(),
            animation.idle_clip() == idle,
            animation.walk_clip() == walk,
            animation.jump_clip() == jump,
            animation.facing() == direction,
            animation.mode() == state,
            animation.frame_index() == 0,
            animation.time_on_frame() == 0,
    {
        AsepriteAnimation { idle, walk, jump, direction, state, current_frame: 0, elapsed: 0 }
    }

    /// The facing direction.
    pub fn direction(&self) -> (direction: Direction)
        ensures
            direction == self.facing(),
    {
        self.direction
    }

    /// The animation mode.
    pub fn state(&self) -> (state: AnimationState)
        ensures
            state == self.mode(),
    {
        self.state
    }

    /// Index of the frame on screen within the active clip.
    pub fn current_frame(&self) -> (index: usize)
        ensures
            index == self.frame_index(),
    {
        self.current_frame
    }

    /// Time the current frame has been on screen, in nanoseconds.
    pub fn elapsed(&self) -> (elapsed: u64)
        ensures
            elapsed == self.time_on_frame(),
    {
        self.elapsed
    }

    /// Updates facing direction and animation state.
    ///
    /// The animation only restarts when the state changes: changing from
    /// `Idle` to `Walk` resets to frame 0, but turning around during `Jump`
    /// keeps the current jump frame.
    pub fn set_direction_and_state(&mut self, direction: Direction, state: AnimationState)
        requires
            old(self).wf(),
        ensures
            final(self).wf(),
            final(self).idle_clip() == old(self).idle_clip(),
            final(self).walk_clip() == old(self).walk_clip(),
            final(self).jump_clip() == old(self).jump_clip(),
            final(self).facing() == direction,
            final(self).mode() == state,
            old(self).mode() != state ==> final(self).frame_index() == 0
                && final(self).time_on_frame() == 0,
            old(self).mode() == state ==> final(self).frame_index() == old(self).frame_index()
                && final(self).time_on_frame() == old(self).time_on_frame(),
    {
        let state_changed = self.state != state;

        self.direction = direction;
        self.state = state;

        if state_changed {
            self.current_frame = 0;
            self.elapsed = 0;
        }
    }

    /// Returns the clip that matches the current animation state.
    pub fn active_clip(&self) -> (clip: &AnimationClip<F>)
        ensures
            *clip == self.active(),
    {
        match self.state {
            AnimationState::Idle => &self.idle,
            AnimationState::Walk => &self.walk,
            AnimationState::Jump => &self.jump,
        }
    }

    /// Returns the image frame currently displayed by this animation.
    pub fn active_frame(&self) -> (frame: &F)
        requires
            self.wf(),
            self.active().frame_count() > 0,
        ensures
            *frame == self.active().frame_seq()[self.frame_index()],
    {
        let clip = self.active_clip();
        &clip.frames[self.current_frame]
    }

    /// Idle and walk loop forever; jump plays once and freezes on its last frame.
    fn should_loop(&self) -> (looping: bool)
        ensures
            looping == state_loops(self.mode()),
    {
        self.state != AnimationState::Jump
    }

    /// Advances playback by `delta` nanoseconds.
    ///
    /// A clip with fewer than two frames is left alone. Otherwise the time is
    /// added to the current frame's time (saturating), and frames are left as
    /// long as that time covers the current frame's duration: idle and walk
    /// wrap back to frame 0; jump stops on its last frame. Returns whether the
    /// displayed image was replaced.
    pub fn advance(&mut self, delta: u64) -> (changed: bool)
        requires
            old(self).wf(),
            old(self).active().frame_count() > 1 && state_loops(old(self).mode()) ==> has_progress(
                old(self).active().durations(),
            ),
        ensures
            final(self).wf(),
            final(self).same_setup(&*old(self)),
            old(self).active().frame_count() <= 1 ==> !changed && final(self).frame_index()
                == old(self).frame_index() && final(self).time_on_frame() == old(
                self,
            ).time_on_frame(),
            old(self).active().frame_count() > 1 ==> ({
                let d = old(self).active().durations();
                let start = old(self).frame_index();
                let e = sat_add(old(self).time_on_frame(), delta as int);
                let settled = run_frames(d, state_loops(old(self).mode()), start, e);
                &&& final(self).frame_index() == settled.0
                &&& final(self).time_on_frame() == settled.1
                &&& changed == (e >= d[start])
            }),
    {
        let frame_count = self.active_clip().frames.len();
        if frame_count <= 1 {
            return false;
        }
        proof {
            assert(self.active().frame_count() == self.active().durations().len());
        }
        self.elapsed = self.elapsed.saturating_add(delta);
        let looping = self.should_loop();
        let ghost d = self.active().durations();
        let ghost start = self.current_frame as int;
        let ghost e0 = self.elapsed as int;
        let ghost settled = run_frames(d, looping, start, e0);
        let mut changed = false;

        loop
            invariant_except_break
                run_frames(d, looping, self.current_frame as int, self.elapsed as int) == settled,
            invariant
                self.wf(),
                self.same_setup(&*old(self)),
                self.active().durations() == d,
                d.len() == frame_count,
                frame_count > 1,
                looping == state_loops(self.mode()),
                looping ==> has_progress(d),
                0 <= self.current_frame < frame_count,
                0 <= start < frame_count,
                !changed ==> self.current_frame == start && self.elapsed == e0,
                changed ==> e0 >= d[start],
            ensures
                self.wf(),
                self.same_setup(&*old(self)),
                self.current_frame == settled.0,
                self.elapsed == settled.1,
                changed == (e0 >= d[start]),
            decreases self.elapsed, frames_ahead(d, looping, self.current_frame as int),
        {
            let duration = self.active_clip().frame_duration(self.current_frame);
            if self.elapsed < duration {
                break;
            }
            let ghost before = (self.current_frame as int, self.elapsed as int);
            proof {
                if looping || step_frame(d, looping, before.0, before.1).0 != d.len() - 1 {
                    lemma_step_decreases(d, looping, before.0, before.1);
                }
            }
            self.elapsed = self.elapsed - duration;

            // Idle/walk wrap back to frame 0. Jump clamps to the last frame so
            // it does not restart while the player is still airborne.
            let next_frame = self.current_frame + 1;
            if next_frame >= frame_count {
                if looping {
                    self.current_frame = 0;
                } else {
                    self.current_frame = frame_count - 1;
                    self.elapsed = 0;
                }
            } else {
                self.current_frame = next_frame;
            }
            changed = true;

            if !looping && self.current_frame == frame_count - 1 {
                break;
            }
        }
        changed
    }
}

/// Idle and walk animations always catch up: after playback settles, the frame
/// on screen has been shown for less than its duration.
pub proof fn law_looping_playback_catches_up(d: Seq<u64>, cur: int, e: int)
    requires
        playable(d, true, cur, e),
    ensures
        run_frames(d, true, cur, e).1 < d[run_frames(d, true, cur, e).0],
    decreases e, frames_ahead(d, true, cur),
{
    lemma_run_in_range(d, true, cur, e);
    if e >= d[cur] {
        let next = step_frame(d, true, cur, e);
        lemma_step_decreases(d, true, cur, e);
        law_looping_playback_catches_up(d, next.0, next.1);
    }
}

/// The jump animation plays once: playback never moves back to an earlier
/// frame, and once the last frame is reached it stays there.
pub proof fn law_jump_never_rewinds(d: Seq<u64>, cur: int, e: int)
    requires
        playable(d, false, cur, e),
    ensures
        cur <= run_frames(d, false, cur, e).0 < d.len(),
        cur == d.len() - 1 ==> run_frames(d, false, cur, e).0 == cur,
    decreases e, frames_ahead(d, false, cur),
{
    if e >= d[cur] {
        let next = step_frame(d, false, cur, e);
        if next.0 != d.len() - 1 {
            lemma_step_decreases(d, false, cur, e);
            law_jump_never_rewinds(d, next.0, next.1);
        }
    }
}

/// For idle and walk, advancing by `a` and then by `b` leaves playback where
/// advancing by `a + b` at once does.
pub proof fn law_looping_advances_compose(d: Seq<u64>, cur: int, e: int, a: int, b: int)
    requires
        playable(d, true, cur, e),
        a >= 0,
        b >= 0,
    ensures
        ({
            let first = run_frames(d, true, cur, e + a);
            run_frames(d, true, first.0, first.1 + b) == run_frames(d, true, cur, e + a + b)
        }),
{
    lemma_run_in_range(d, true, cur, e + a);
    lemma_looping_run_absorbs(d, cur, e + a, b);
}

/// Extra time added before playback settles is carried over to the frame on
/// which it settles.
proof fn lemma_looping_run_absorbs(d: Seq<u64>, cur: int, e: int, b: int)
    requires
        playable(d, true, cur, e),
        b >= 0,
    ensures
        ({
            let first = run_frames(d, true, cur, e);
            run_frames(d, true, first.0, first.1 + b) == run_frames(d, true, cur, e + b)
        }),
    decreases e, frames_ahead(d, true, cur),
{
    lemma_run_in_range(d, true, cur, e);
    if e >= d[cur] {
        let next = step_frame(d, true, cur, e);
        let next_b = step_frame(d, true, cur, e + b);
        assert(next_b == (next.0, next.1 + b));
        lemma_step_decreases(d, true, cur, e);
        lemma_step_decreases(d, true, cur, e + b);
        lemma_looping_run_absorbs(d, next.0, next.1, b);
    }
}

/// Total display time of the `k` frames met when walking a looping clip
/// from frame `c`, wrapping from the last frame to the first.
pub open spec fn walk_time(d: Seq<u64>, c: int, k: nat) -> int
    decreases k,
{
    if k == 0 {
        0
    } else {
        d[c % (d.len() as int)] + walk_time(d, c + 1, (k - 1) as nat)
    }
}

/// Total display time of frames `from` up to (not including) `to`.
pub open spec fn span_time(d: Seq<u64>, from: int, to: int) -> int
    decreases to - from,
{
    if from >= to {
        0
    } else {
        d[from] + span_time(d, from + 1, to)
    }
}

/// Walking from `x` or from `x` reduced modulo the clip length meets the
/// same frames.
proof fn lemma_walk_time_mod(d: Seq<u64>, x: int, k: nat)
    requires
        d.len() > 0,
        x >= 0,
    ensures
        walk_time(d, x, k) == walk_time(d, x % (d.len() as int), k),
    decreases k,
{
    let n = d.len() as int;
    if k > 0 {
        vstd::arithmetic::div_mod::lemma_mod_twice(x, n);
        lemma_walk_time_mod(d, x + 1, (k - 1) as nat);
        lemma_walk_time_mod(d, x % n + 1, (k - 1) as nat);
        vstd::arithmetic::div_mod::lemma_add_mod_noop_right(1, x, n);
        assert((1 + x % n) % n == (1 + x) % n);
        assert((x % n + 1) % n == (x + 1) % n);
    }
}

/// Idle and walk conserve time: playback from frame `c` with `e` nanoseconds
/// settles `k` frames further on (wrapping), where `k` is such that the frames
/// passed took exactly `e` minus the time left on the settled frame, and that
/// time is less than the settled frame's duration.
pub proof fn law_looping_time_is_conserved(d: Seq<u64>, c: int, e: int)
    requires
        playable(d, true, c, e),
    ensures
        exists|k: nat|
            #![trigger walk_time(d, c, k)]
            run_frames(d, true, c, e) == ((c + k) % (d.len() as int), e - walk_time(d, c, k)),
        0 <= run_frames(d, true, c, e).1 < d[run_frames(d, true, c, e).0],
    decreases e, frames_ahead(d, true, c),
{
    let n = d.len() as int;
    lemma_run_in_range(d, true, c, e);
    law_looping_playback_catches_up(d, c, e);
    if e < d[c] {
        vstd::arithmetic::div_mod::lemma_small_mod(c as nat, n as nat);
        assert(walk_time(d, c, 0) == 0);
        assert(run_frames(d, true, c, e) == ((c + 0) % n, e - walk_time(d, c, 0)));
    } else {
        let next = step_frame(d, true, c, e);
        lemma_step_decreases(d, true, c, e);
        law_looping_time_is_conserved(d, next.0, next.1);
        let k1 = choose|k1: nat|
            #![trigger walk_time(d, next.0, k1)]
            run_frames(d, true, next.0, next.1) == ((next.0 + k1) % n, next.1 - walk_time(
                d,
                next.0,
                k1,
            ));
        let k: nat = k1 + 1;
        // The next frame is frame c + 1, reduced modulo the clip length.
        if c + 1 >= n {
            assert(c + 1 == n);
            vstd::arithmetic::div_mod::lemma_mod_self_0(n);
        } else {
            vstd::arithmetic::div_mod::lemma_small_mod((c + 1) as nat, n as nat);
        }
        assert(next.0 == (c + 1) % n);
        vstd::arithmetic::div_mod::lemma_add_mod_noop_right(k1 as int, c + 1, n);
        assert((k1 + (c + 1) % n) % n == (k1 + (c + 1)) % n);
        assert((next.0 + k1) % n == (c + k) % n);
        lemma_walk_time_mod(d, c + 1, k1);
        vstd::arithmetic::div_mod::lemma_small_mod(c as nat, n as nat);
        assert(walk_time(d, c, k) == d[c] + walk_time(d, next.0, k1));
        assert(run_frames(d, true, c, e) == ((c + k) % n, e - walk_time(d, c, k)));
    }
}

/// The jump animation conserves time: from a frame before the last one,
/// playback settles on a frame `f` no earlier, the frames passed took exactly
/// `e` minus the time left on `f`, and that time is less than `f`'s duration
/// unless `f` is the last frame.
pub proof fn law_play_once_time_is_conserved(d: Seq<u64>, c: int, e: int)
    requires
        playable(d, false, c, e),
        c < d.len() - 1,
    ensures
        ({
            let (f, r) = run_frames(d, false, c, e);
            &&& c <= f < d.len()
            &&& r == e - span_time(d, c, f)
            &&& r >= 0
            &&& (r < d[f] || f == d.len() - 1)
        }),
    decreases e, frames_ahead(d, false, c),
{
    if e >= d[c] {
        let next = step_frame(d, false, c, e);
        assert(next == (c + 1, e - d[c]));
        if next.0 != d.len() - 1 {
            lemma_step_decreases(d, false, c, e);
            law_play_once_time_is_conserved(d, next.0, next.1);
            let f = run_frames(d, false, next.0, next.1).0;
            assert(span_time(d, c, f) == d[c] + span_time(d, c + 1, f));
        } else {
            assert(span_time(d, c + 1, c + 1) == 0);
            assert(span_time(d, c, c + 1) == d[c] + span_time(d, c + 1, c + 1));
        }
    } else {
        assert(span_time(d, c, c) == 0);
    }
}

/// The jump animation freezes on its last frame: it stays there, and once
/// the accumulated time covers that frame's duration the time restarts at 0.
pub proof fn law_play_once_freezes_on_last_frame(d: Seq<u64>, e: int)
    requires
        playable(d, false, d.len() - 1, e),
    ensures
        run_frames(d, false, d.len() - 1, e) == (d.len() - 1, if e >= d[d.len() - 1] {
            0int
        } else {
            e
        }),
{
}

/// The capped sum is the sum whenever that fits in a `u64`, and the largest
/// `u64` otherwise; it is never less than either addend.
pub proof fn law_sat_add(a: int, b: int)
    requires
        0 <= a <= u64::MAX,
        0 <= b <= u64::MAX,
    ensures
        a + b <= u64::MAX ==> sat_add(a, b) == a + b,
        a + b > u64::MAX ==> sat_add(a, b) == u64::MAX,
        a <= sat_add(a, b) <= u64::MAX,
        b <= sat_add(a, b),
{
}

/// `a + b`, capped at the largest `u64`.
pub open spec fn sat_add(a: int, b: int) -> int {
    if a + b > u64::MAX {
        u64::MAX as int
    } else {
        a + b
    }
}

} // verus!
