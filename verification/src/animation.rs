use vstd::prelude::*;

verus! {

/// Sent when an animation reaches its last frame, naming the animated entity.
#[derive(Debug, Clone, Copy, PartialEq, Eq)]
pub struct SpriteAnimationFinished<E>(pub E);

/// How long each frame of an animation is shown.
#[derive(Debug, Clone, Copy, PartialEq, Eq, Structural)]
pub enum FrameRate {
    /// This many frames per second.
    PerSecond(u8),
    /// One millisecond: the frame is set on the next update.
    Instant,
}

/// A sprite-sheet animation running from `first_index` to `last_index`.
#[derive(Debug, Clone, Copy, PartialEq, Eq, Structural)]
pub struct SpriteAnimation {
    pub first_index: usize,
    pub last_index: usize,
    pub frame_rate: FrameRate,
    pub looping: bool,
    pub playing: bool,
    pub started: bool,
}

/// What a frame tick does to the sprite.
#[derive(Debug, Clone, Copy, PartialEq, Eq, Structural)]
pub struct FrameStep {
    /// The sprite-sheet index to show.
    pub index: usize,
    /// Whether the animation reached its end on this tick.
    pub finished: bool,
    /// Whether the frame timer starts over.
    pub reset_timer: bool,
}

/// A playing, non-looping, not yet started animation from `first` to `last` at `fps`
/// frames per second.
pub open spec fn animation_spec(first: usize, last: usize, fps: u8) -> SpriteAnimation {
    SpriteAnimation {
        first_index: first,
        last_index: last,
        frame_rate: FrameRate::PerSecond(fps),
        looping: false,
        playing: true,
        started: false,
    }
}

/// A one-frame animation that shows `index` on the next update.
pub open spec fn frame_spec(index: usize) -> SpriteAnimation {
    SpriteAnimation {
        first_index: index,
        last_index: index,
        frame_rate: FrameRate::Instant,
        looping: false,
        playing: true,
        started: false,
    }
}

/// The same animation, looping.
pub open spec fn looped(a: SpriteAnimation) -> SpriteAnimation {
    SpriteAnimation { looping: true, ..a }
}

/// The effect of a frame tick on an animation showing `index`.
pub open spec fn frame_step(a: SpriteAnimation, index: usize) -> FrameStep {
    if index == a.last_index {
        FrameStep {
            index: if a.looping { a.first_index } else { index },
            finished: true,
            reset_timer: a.looping,
        }
    } else if index < a.last_index {
        FrameStep { index: (index + 1) as usize, finished: false, reset_timer: true }
    } else {
        FrameStep { index, finished: false, reset_timer: false }
    }
}

/// The index shown after `k` frame ticks from `index`.
pub open spec fn frame_after(a: SpriteAnimation, index: usize, k: nat) -> usize
    decreases k,
{
    if k == 0 {
        index
    } else {
        frame_after(a, frame_step(a, index).index, (k - 1) as nat)
    }
}

impl SpriteAnimation {
    /// An animation from `first` to `last` at `fps` frames per second, playing, not
    /// looping, not started.
    pub fn new(first: usize, last: usize, fps: u8) -> (a: SpriteAnimation)
        requires
            fps > 0,
        ensures
            a == animation_spec(first, last, fps),
    {
        SpriteAnimation {
            first_index: first,
            last_index: last,
            frame_rate: FrameRate::PerSecond(fps),
            looping: false,
            playing: true,
            started: false,
        }
    }

    /// A one-frame animation that shows `index` on the next update.
    pub fn set_frame(index: usize) -> (a: SpriteAnimation)
        ensures
            a == frame_spec(index),
    {
        SpriteAnimation {
            first_index: index,
            last_index: index,
            frame_rate: FrameRate::Instant,
            looping: false,
            playing: true,
            started: false,
        }
    }

    /// The same animation, looping.
    pub fn looping(self) -> (a: SpriteAnimation)
        ensures
            a == looped(self),
    {
        SpriteAnimation { looping: true, ..self }
    }

    /// The same animation, paused.
    pub fn paused(self) -> (a: SpriteAnimation)
        ensures
            a == (SpriteAnimation { playing: false, ..self }),
    {
        SpriteAnimation { playing: false, ..self }
    }

    pub fn play(&mut self)
        ensures
            *final(self) == (SpriteAnimation { playing: true, ..*old(self) }),
    {
        self.playing = true;
    }

    pub fn pause(&mut self)
        ensures
            *final(self) == (SpriteAnimation { playing: false, ..*old(self) }),
    {
        self.playing = false;
    }

    /// Shows frames at `fps` frames per second from now on; the time already spent on the
    /// current frame is kept.
    pub fn change_fps(&mut self, fps: u8)
        requires
            fps > 0,
        ensures
            *final(self) == (SpriteAnimation { frame_rate: FrameRate::PerSecond(fps), ..*old(self) }),
    {
        self.frame_rate = FrameRate::PerSecond(fps);
    }

    /// On the first update of an animation, shows its first frame and marks it started.
    pub fn set_first_frame(&mut self, index: &mut usize)
        ensures
            !old(self).started ==> *final(index) == old(self).first_index
                && *final(self) == (SpriteAnimation { started: true, ..*old(self) }),
            old(self).started ==> *final(index) == *old(index) && *final(self) == *old(self),
    {
        if !self.started {
            *index = self.first_index;
            self.started = true;
        }
    }

    /// A frame tick of a playing animation showing `index`: the next frame, or at the last
    /// frame the end of the animation (which starts over if it loops). An index past the
    /// last frame is left alone.
    pub fn advance_frame(&self, index: usize) -> (s: FrameStep)
        ensures
            s == frame_step(*self, index),
    {
        if index == self.last_index {
            if self.looping {
                FrameStep { index: self.first_index, finished: true, reset_timer: true }
            } else {
                FrameStep { index, finished: true, reset_timer: false }
            }
        } else if index < self.last_index {
            FrameStep { index: index + 1, finished: false, reset_timer: true }
        } else {
            FrameStep { index, finished: false, reset_timer: false }
        }
    }
}

/// The effect of an update on an animation showing `index`, where `timer_expired` says
/// whether its frame timer ran out on this update (after any delay): a paused animation, or
/// one whose timer did not run out, stays as it is; otherwise it takes a frame step.
pub open spec fn update_step(a: SpriteAnimation, index: usize, timer_expired: bool) -> FrameStep {
    if a.playing && timer_expired {
        frame_step(a, index)
    } else {
        FrameStep { index, finished: false, reset_timer: false }
    }
}

impl SpriteAnimation {
    /// An update of the animation showing `index`: only a playing animation whose frame
    /// timer ran out moves on a frame (see `advance_frame`); otherwise nothing changes and no
    /// end is reported.
    pub fn update(&self, index: usize, timer_expired: bool) -> (s: FrameStep)
        ensures
            s == update_step(*self, index, timer_expired),
    {
        if self.playing && timer_expired {
            self.advance_frame(index)
        } else {
            FrameStep { index, finished: false, reset_timer: false }
        }
    }
}

/// An update keeps a shown index that lies within the animation's frames within them.
pub proof fn lemma_update_stays_in_range(a: SpriteAnimation, index: usize, timer_expired: bool)
    requires
        a.first_index <= index <= a.last_index,
    ensures
        a.first_index <= update_step(a, index, timer_expired).index <= a.last_index,
        !a.playing ==> update_step(a, index, timer_expired) == (FrameStep { index, finished: false, reset_timer: false }),
{
}

/// A frame tick keeps the shown index within the animation's frames.
pub proof fn lemma_frame_stays_in_range(a: SpriteAnimation, index: usize)
    requires
        a.first_index <= index <= a.last_index,
    ensures
        a.first_index <= frame_step(a, index).index <= a.last_index,
{
}

/// Ticking from frame `index` (not past the last) for `k` ticks, with `index + k` not past
/// the last frame, shows frame `index + k`.
pub proof fn lemma_frames_in_order(a: SpriteAnimation, index: usize, k: nat)
    requires
        index + k <= a.last_index,
    ensures
        frame_after(a, index, k) == index + k,
    decreases k,
{
    if k > 0 {
        lemma_frames_in_order(a, (index + 1) as usize, (k - 1) as nat);
    }
}

/// A looping animation started at its first frame is back at its first frame after one
/// tick per frame.
pub proof fn lemma_looping_cycle(a: SpriteAnimation)
    requires
        a.looping,
        a.first_index <= a.last_index,
    ensures
        frame_after(a, a.first_index, (a.last_index - a.first_index + 1) as nat) == a.first_index,
{
    let n = (a.last_index - a.first_index) as nat;
    lemma_frames_in_order(a, a.first_index, n);
    lemma_frame_after_split(a, a.first_index, n, 1);
    assert(frame_after(a, a.last_index, 1) == frame_after(a, a.first_index, 0));
    assert(n + 1 == (a.last_index - a.first_index + 1) as nat);
}

/// `k + m` ticks are `k` ticks followed by `m` ticks.
pub proof fn lemma_frame_after_split(a: SpriteAnimation, index: usize, k: nat, m: nat)
    ensures
        frame_after(a, index, k + m) == frame_after(a, frame_after(a, index, k), m),
    decreases k,
{
    if k > 0 {
        lemma_frame_after_split(a, frame_step(a, index).index, (k - 1) as nat, m);
        assert((k + m - 1) as nat == (k - 1) as nat + m);
    }
}

/// A non-looping animation that reached its last frame stays there, and the step at its
/// last frame reports the end without restarting the frame timer.
pub proof fn lemma_non_looping_stops(a: SpriteAnimation, k: nat)
    requires
        !a.looping,
    ensures
        frame_after(a, a.last_index, k) == a.last_index,
        frame_step(a, a.last_index).finished,
        !frame_step(a, a.last_index).reset_timer,
    decreases k,
{
    if k > 0 {
        lemma_non_looping_stops(a, (k - 1) as nat);
    }
}

/// One update of an animation paced by a one-shot frame timer, showing frame `index`.
/// `spent` says whether the timer already ran out and was not restarted since, `expires`
/// whether it runs out on this update. A spent timer does not run out again, so nothing
/// happens; a timer that runs out takes a frame step, and stays spent unless the step
/// restarts it. Gives the frame shown, whether the end was reported, and whether the timer
/// is spent.
pub open spec fn paced_update(a: SpriteAnimation, index: usize, spent: bool, expires: bool) -> (usize, bool, bool) {
    if spent || !expires {
        (index, false, spent)
    } else {
        let s = frame_step(a, index);
        (s.index, s.finished, !s.reset_timer)
    }
}

/// How many times the end is reported over a run of updates; `expiries[j]` says whether
/// the timer runs out on the `j`-th update.
pub open spec fn end_reports(a: SpriteAnimation, index: usize, spent: bool, expiries: Seq<bool>) -> nat
    decreases expiries.len(),
{
    if expiries.len() == 0 {
        0
    } else {
        let (i, reported, now_spent) = paced_update(a, index, spent, expiries[0]);
        (if reported { 1nat } else { 0nat }) + end_reports(a, i, now_spent, expiries.drop_first())
    }
}

/// A spent timer reports nothing more.
pub proof fn lemma_spent_timer_is_silent(a: SpriteAnimation, index: usize, expiries: Seq<bool>)
    ensures
        end_reports(a, index, true, expiries) == 0,
    decreases expiries.len(),
{
    if expiries.len() > 0 {
        lemma_spent_timer_is_silent(a, index, expiries.drop_first());
    }
}

/// A non-looping animation at its last frame, with a fresh timer, reports its end exactly
/// once over any run of updates in which the timer runs out at all, and never otherwise.
pub proof fn lemma_non_looping_reports_once(a: SpriteAnimation, expiries: Seq<bool>)
    requires
        !a.looping,
    ensures
        end_reports(a, a.last_index, false, expiries) == (if expiries.contains(true) { 1nat } else { 0nat }),
    decreases expiries.len(),
{
    if expiries.len() > 0 {
        let rest = expiries.drop_first();
        if expiries[0] {
            lemma_spent_timer_is_silent(a, a.last_index, rest);
            assert(expiries.contains(true)) by {
                assert(expiries[0] == true);
            }
        } else {
            lemma_non_looping_reports_once(a, rest);
            assert(expiries.contains(true) == rest.contains(true)) by {
                if expiries.contains(true) {
                    let j = choose|j: int| 0 <= j < expiries.len() && expiries[j] == true;
                    assert(rest[j - 1] == true);
                }
                if rest.contains(true) {
                    let j = choose|j: int| 0 <= j < rest.len() && rest[j] == true;
                    assert(expiries[j + 1] == true);
                }
            }
        }
    }
}


/// Below its last frame, every animation, looping or not, moves on to the next frame and
/// restarts its frame timer; at its last frame it reports its end, and only a looping one
/// goes back to its first frame and restarts the timer.
pub proof fn lemma_tick_moves_on(a: SpriteAnimation, index: usize)
    ensures
        index < a.last_index ==> frame_step(a, index) == (FrameStep { index: (index + 1) as usize, finished: false, reset_timer: true }),
        index == a.last_index && a.looping ==> frame_step(a, index) == (FrameStep { index: a.first_index, finished: true, reset_timer: true }),
        index == a.last_index && !a.looping ==> frame_step(a, index) == (FrameStep { index, finished: true, reset_timer: false }),
{
}

/// A looping animation on one of its frames never leaves its one-shot frame timer spent:
/// every update in which the timer runs out restarts it, so the animation keeps cycling.
pub proof fn lemma_looping_timer_never_spent(a: SpriteAnimation, index: usize, expires: bool)
    requires
        a.looping,
        a.first_index <= index <= a.last_index,
    ensures
        !paced_update(a, index, false, expires).2,
        a.first_index <= paced_update(a, index, false, expires).0 <= a.last_index,
{
}

/// A playing looping animation whose timer runs out on every update shows its frames in
/// order and wraps around: after `k` updates from its first frame it shows the frame
/// `k` steps along, counted modulo the number of frames.
pub proof fn lemma_looping_cycles(a: SpriteAnimation, k: nat)
    requires
        a.looping,
        a.first_index <= a.last_index,
    ensures
        frame_after(a, a.first_index, k) == a.first_index + k % ((a.last_index - a.first_index + 1) as nat),
    decreases k,
{
    let n = (a.last_index - a.first_index + 1) as nat;
    if k < n {
        lemma_frames_in_order(a, a.first_index, k);
        assert(k % n == k) by (nonlinear_arith)
            requires k < n;
    } else {
        lemma_frame_after_split(a, a.first_index, n, (k - n) as nat);
        lemma_looping_cycle(a);
        lemma_looping_cycles(a, (k - n) as nat);
        assert(((k - n) as nat) % n == k % n) by (nonlinear_arith)
            requires n > 0, k >= n;
    }
}


/// A new animation plays from its first to its last frame at its rate, once, and has not
/// started; a set frame shows that one frame on the next update; looping and pausing change
/// only that flag.
pub proof fn lemma_animation_forms(first: usize, last: usize, fps: u8, index: usize, a: SpriteAnimation)
    ensures
        animation_spec(first, last, fps).first_index == first,
        animation_spec(first, last, fps).last_index == last,
        animation_spec(first, last, fps).frame_rate == FrameRate::PerSecond(fps),
        !animation_spec(first, last, fps).looping,
        animation_spec(first, last, fps).playing,
        !animation_spec(first, last, fps).started,
        frame_spec(index).first_index == index && frame_spec(index).last_index == index,
        frame_spec(index).frame_rate == FrameRate::Instant,
        frame_spec(index).playing && !frame_spec(index).looping && !frame_spec(index).started,
        looped(a).looping,
        looped(a).first_index == a.first_index && looped(a).last_index == a.last_index,
        looped(a).frame_rate == a.frame_rate && looped(a).playing == a.playing && looped(a).started == a.started,
{
}

} // verus!
