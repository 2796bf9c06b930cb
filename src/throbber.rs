//! The throbber's state and the decisions of its render loop.
use vstd::prelude::*;

use crate::frames::{braille_frames, braille_frames_spec, classic_frames, classic_frames_spec};

verus! {

/// What the render loop does on one pass.
#[derive(Clone, Copy, Debug, PartialEq, Eq, Structural)]
pub enum Action {
    /// The throbber was killed: leave the loop for good.
    Exit,
    /// Rendering is off: draw nothing and look again.
    Idle,
    /// Draw `glyph` at the current cursor position, put the cursor back where
    /// it was, then pause for `pause_nanos` nanoseconds.
    Render { glyph: char, pause_nanos: u64 },
}

/// The abstract state of a throbber.
pub ghost struct ThrobberModel {
    /// The glyphs of the animation, in the order they are shown.
    pub animation: Seq<char>,
    /// The position in `animation` of the glyph drawn next.
    pub frame: int,
    /// The pause after each drawn glyph, in nanoseconds.
    pub frame_time_nanos: u64,
    /// Whether the render loop draws.
    pub enabled: bool,
    /// Whether the render loop has been told to stop for good.
    pub terminated: bool,
}

impl ThrobberModel {
    /// A non-empty animation and a frame position inside it.
    pub open spec fn valid(self) -> bool {
        &&& self.animation.len() >= 1
        &&& 0 <= self.frame < self.animation.len()
    }

    /// A freshly built throbber: first frame, not drawing, not killed.
    pub open spec fn initial(animation: Seq<char>, frame_time_nanos: u64) -> ThrobberModel {
        ThrobberModel { animation, frame: 0, frame_time_nanos, enabled: false, terminated: false }
    }

    /// The state after `start`: back at the first frame, drawing.
    pub open spec fn started(self) -> ThrobberModel {
        ThrobberModel { frame: 0, enabled: true, ..self }
    }

    /// The state after `stop`: not drawing, frame position kept.
    pub open spec fn stopped(self) -> ThrobberModel {
        ThrobberModel { enabled: false, ..self }
    }

    /// The state after `kill_thread`.
    pub open spec fn killed(self) -> ThrobberModel {
        ThrobberModel { terminated: true, ..self }
    }

    /// What one pass of the render loop does in this state.
    pub open spec fn action(self) -> Action {
        if self.terminated {
            Action::Exit
        } else if self.enabled {
            Action::Render { glyph: self.animation[self.frame], pause_nanos: self.frame_time_nanos }
        } else {
            Action::Idle
        }
    }

    /// The state after one pass of the render loop: a drawn glyph moves the
    /// frame position on by one, wrapping at the end of the animation.
    pub open spec fn ticked(self) -> ThrobberModel {
        if !self.terminated && self.enabled {
            ThrobberModel { frame: (self.frame + 1) % (self.animation.len() as int), ..self }
        } else {
            self
        }
    }

    /// The state after `n` passes of the render loop.
    pub open spec fn after(self, n: nat) -> ThrobberModel
        decreases n,
    {
        if n == 0 {
            self
        } else {
            self.after((n - 1) as nat).ticked()
        }
    }
}

/// A throbber: an animation, a frame interval, and the flags that steer the
/// render loop.
pub struct Throbber {
    animation: Vec<char>,
    animation_length: usize,
    frame: usize,
    frame_time_nanos: u64,
    run: bool,
    killed: bool,
}

impl View for Throbber {
    type V = ThrobberModel;

    closed spec fn view(&self) -> ThrobberModel {
        ThrobberModel {
            animation: self.animation@,
            frame: self.frame as int,
            frame_time_nanos: self.frame_time_nanos,
            enabled: self.run,
            terminated: self.killed,
        }
    }
}

impl Throbber {
    #[verifier::type_invariant]
    spec fn inv(self) -> bool {
        &&& self.animation_length == self.animation@.len()
        &&& 0 < self.animation_length
        &&& self.frame < self.animation_length
    }

    /// A throbber over the given glyphs, pausing `frame_time_nanos`
    /// nanoseconds after each drawn glyph. It starts idle, at the first glyph.
    pub fn custom(animation: Vec<char>, frame_time_nanos: u64) -> (r: Self)
        requires
            animation@.len() >= 1,
        ensures
            r@ == ThrobberModel::initial(animation@, frame_time_nanos),
            r@.valid(),
    {
        let animation_length = animation.len();
        Throbber { animation, animation_length, frame: 0, frame_time_nanos, run: false, killed: false }
    }

    /// A throbber over the line spinner `| / - \`.
    pub fn classic(frame_time_nanos: u64) -> (r: Self)
        ensures
            r@ == ThrobberModel::initial(classic_frames_spec(), frame_time_nanos),
            r@.valid(),
    {
        Self::custom(classic_frames(), frame_time_nanos)
    }

    /// A throbber over the eight-glyph Braille spinner.
    pub fn braille(frame_time_nanos: u64) -> (r: Self)
        ensures
            r@ == ThrobberModel::initial(braille_frames_spec(), frame_time_nanos),
            r@.valid(),
    {
        Self::custom(braille_frames(), frame_time_nanos)
    }

    /// Turns drawing on, from the first glyph of the animation.
    pub fn start(&mut self)
        ensures
            final(self)@ == old(self)@.started(),
            final(self)@.valid(),
    {
        proof {
            use_type_invariant(&*self);
        }
        self.frame = 0;
        self.run = true;
    }

    /// Turns drawing off; the last drawn glyph stays on screen.
    pub fn stop(&mut self)
        ensures
            final(self)@ == old(self)@.stopped(),
            final(self)@.valid(),
    {
        proof {
            use_type_invariant(&*self);
        }
        self.run = false;
    }

    /// Tells the render loop to stop for good. Calling it again changes nothing.
    pub fn kill_thread(&mut self)
        ensures
            final(self)@ == old(self)@.killed(),
            final(self)@.valid(),
    {
        proof {
            use_type_invariant(&*self);
        }
        self.killed = true;
    }

    /// Decides one pass of the render loop and moves the frame position on
    /// past the glyph it hands out.
    pub fn tick(&mut self) -> (a: Action)
        ensures
            a == old(self)@.action(),
            final(self)@ == old(self)@.ticked(),
            final(self)@.valid(),
    {
        proof {
            use_type_invariant(&*self);
        }
        if self.killed {
            Action::Exit
        } else if self.run {
            let glyph = self.animation[self.frame];
            self.frame = (self.frame + 1) % self.animation_length;
            Action::Render { glyph, pause_nanos: self.frame_time_nanos }
        } else {
            Action::Idle
        }
    }

    /// The position of the glyph drawn next.
    pub fn frame_index(&self) -> (r: usize)
        ensures
            r as int == self@.frame,
    {
        self.frame
    }

    /// The glyphs of the animation.
    pub fn animation(&self) -> (r: &Vec<char>)
        ensures
            r@ == self@.animation,
    {
        &self.animation
    }

    /// The pause after each drawn glyph, in nanoseconds.
    pub fn frame_time_nanos(&self) -> (r: u64)
        ensures
            r == self@.frame_time_nanos,
    {
        self.frame_time_nanos
    }

    /// Whether the render loop draws.
    pub fn is_enabled(&self) -> (r: bool)
        ensures
            r == self@.enabled,
    {
        self.run
    }

    /// Whether the render loop has been told to stop for good.
    pub fn is_terminated(&self) -> (r: bool)
        ensures
            r == self@.terminated,
    {
        self.killed
    }
}

} // verus!
