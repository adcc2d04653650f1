//! The shell that owns the two spinners and drives them frame by frame.

use vstd::prelude::*;
use crate::model::AppModel;
use crate::plot::{Controls, Plot, Tip};

verus! {

/// The frequency ratio the left spinner starts with: pi.
pub const PI_RATIO: i64 = 3_141_593;

/// The frequency ratio the right spinner starts with: the golden ratio.
pub const GOLDEN_RATIO: i64 = 1_618_034;

/// What the shell hands to the renderer after a frame.
#[derive(Clone, Copy, Debug, PartialEq, Eq)]
pub struct Frame {
    /// Where the tip of each spinner stands, for drawing its two arms.
    pub tips: [Tip; 2],
    /// Whether another frame is to follow without waiting for input.
    pub repaint: bool,
}

/// Two spinners side by side. Neither knows of the other.
pub struct App {
    dark_mode: bool,
    plots: [Plot; 2],
}

impl View for App {
    type V = AppModel;

    closed spec fn view(&self) -> AppModel {
        AppModel { dark_mode: self.dark_mode, left: self.plots[0]@, right: self.plots[1]@ }
    }
}

impl App {
    /// Both spinners are in a state they can be in.
    pub open spec fn wf(&self) -> bool {
        self@.wf()
    }

    /// The shell at startup, with the theme it is to be shown in: two
    /// spinners that have not run yet, at pi and at the golden ratio.
    pub fn new(dark_mode: bool) -> (app: App)
        ensures
            app.wf(),
            app@ == AppModel::fresh(dark_mode, PI_RATIO as int, GOLDEN_RATIO as int),
    {
        App { dark_mode, plots: [Plot::new(PI_RATIO), Plot::new(GOLDEN_RATIO)] }
    }

    /// Runs one frame of both spinners, each with the same frame delta and
    /// with its own controls, and always asks for the next frame: the
    /// picture changes with every frame, input or not.
    pub fn update(&mut self, frame_delta: i64, controls: [Controls; 2]) -> (frame: Frame)
        requires
            old(self).wf(),
        ensures
            final(self).wf(),
            final(self)@ == old(self)@.update(frame_delta as int, controls[0], controls[1]),
            frame.tips[0]@ == final(self)@.left.tip(),
            frame.tips[1]@ == final(self)@.right.tip(),
            frame.repaint,
    {
        let left = self.plots[0].update(frame_delta, controls[0]);
        let right = self.plots[1].update(frame_delta, controls[1]);
        Frame { tips: [left, right], repaint: true }
    }

    /// Whether the shell was started in the dark theme.
    pub fn dark_mode(&self) -> (dark_mode: bool)
        ensures
            dark_mode == self@.dark_mode,
    {
        self.dark_mode
    }

    /// The two spinners, left one first.
    pub fn plots(&self) -> (plots: &[Plot; 2])
        ensures
            plots[0]@ == self@.left,
            plots[1]@ == self@.right,
    {
        &self.plots
    }
}

} // verus!
