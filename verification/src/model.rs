//! The mathematical model of one spinner: a point on a unit circle whose
//! centre rides on another unit circle around the origin.
//!
//! Every quantity is a fixed-point number counted in millionths: a time of
//! `1_500_000` is one and a half seconds, an angle of `UNIT` is one radian.
//! The model says, over unbounded integers, what the executable types in
//! [`crate::plot`] compute.

use vstd::prelude::*;
use crate::plot::Controls;

verus! {

/// The fixed-point value of 1.
pub const UNIT: i64 = 1_000_000;

/// The largest time scale a spinner accepts, 10.
pub const MAX_TIME_SCALE: i64 = 10_000_000;

/// A frame never counts for more than one part in this many of a second.
pub const FRAME_CAP: i64 = 120;

/// How many simulated seconds pass per clamped second at a frequency ratio
/// and a time scale of 1.
pub const PACE: i64 = 5;

/// Intermediate samples drawn per frame at a time scale of 1.
pub const SAMPLES: i64 = 20;

/// The quotient `a / b` rounded toward zero. `b` must not be zero.
pub open spec fn trunc_div(a: int, b: int) -> int
    recommends
        b != 0,
{
    if b > 0 {
        if a >= 0 {
            a / b
        } else {
            -((-a) / b)
        }
    } else {
        if a >= 0 {
            -(a / (-b))
        } else {
            (-a) / (-b)
        }
    }
}

/// `x` held to the range of a 64-bit clock.
pub open spec fn saturate(x: int) -> int {
    if x < i64::MIN {
        i64::MIN as int
    } else if x > i64::MAX {
        i64::MAX as int
    } else {
        x
    }
}

/// `FRAME_CAP` times the frame delta after it was clamped to at most
/// `1 / FRAME_CAP` of a second. The factor keeps the clamp exact although
/// a 120th of a second is no whole number of millionths.
pub open spec fn capped_delta(frame_delta: int) -> int {
    if FRAME_CAP * frame_delta > UNIT {
        UNIT as int
    } else {
        FRAME_CAP * frame_delta
    }
}

/// By how much one frame moves the simulated clock: the clamped frame delta
/// times `time_scale` times `PACE / frequency_ratio`, evaluated exactly and
/// rounded toward zero once. A zero frequency ratio has no pace; the clock
/// then stands still.
pub open spec fn time_step(frame_delta: int, time_scale: int, frequency_ratio: int) -> int {
    if frequency_ratio == 0 {
        0
    } else {
        trunc_div(capped_delta(frame_delta) * time_scale * PACE, FRAME_CAP * frequency_ratio)
    }
}

/// The number of intervals a frame is cut into: `SAMPLES` times the time
/// scale, rounded down.
pub open spec fn sample_count(time_scale: int) -> int {
    (SAMPLES * time_scale) / (UNIT as int)
}

/// How many tips one frame adds to the trace while nothing resets it: the
/// `n + 1` samples and the final position, or the final position alone if
/// the sample count `n` is zero.
pub open spec fn points_per_frame(time_scale: int) -> int {
    let n = sample_count(time_scale);
    if n > 0 {
        n + 2
    } else {
        1
    }
}

/// The time of sample `i` of `n` on the way from `from` to `to`.
pub open spec fn sample_time(from: int, to: int, n: int, i: int) -> int
    recommends
        0 <= i <= n,
        0 < n,
{
    from + trunc_div((to - from) * i, n)
}

/// The position of the tip, given by the angles of its two arms.
///
/// The primary arm reaches from the origin to `(cos primary, sin primary)`;
/// the secondary arm starts there and adds `(cos secondary, sin secondary)`.
/// Both arms have length 1 by construction.
pub struct TipModel {
    pub primary: int,
    pub secondary: int,
}

/// Where the tip is at `time`: the primary arm turns at rate 1, the secondary
/// arm at rate `frequency_ratio`.
pub open spec fn tip_at(time: int, frequency_ratio: int) -> TipModel {
    TipModel { primary: time, secondary: trunc_div(time * frequency_ratio, UNIT as int) }
}

/// The state of one spinner.
pub struct PlotModel {
    /// Angular speed of the secondary arm relative to the primary one.
    pub frequency_ratio: int,
    /// The simulated clock.
    pub elapsed_time: int,
    /// How fast the simulated clock runs against the wall clock.
    pub time_scale: int,
    /// Every tip position recorded since the last reset, oldest first.
    pub trace: Seq<TipModel>,
}

impl PlotModel {
    /// A spinner that has not run yet: clock at zero, time scale 1, no trace.
    pub open spec fn fresh(frequency_ratio: int) -> PlotModel {
        PlotModel {
            frequency_ratio,
            elapsed_time: 0,
            time_scale: UNIT as int,
            trace: Seq::empty(),
        }
    }

    /// What every state satisfies: the values fit their machine types, the
    /// time scale lies in `[0, MAX_TIME_SCALE]`, and every recorded tip lies
    /// on the curve of the current frequency ratio.
    pub open spec fn wf(self) -> bool {
        &&& i64::MIN <= self.frequency_ratio <= i64::MAX
        &&& i64::MIN <= self.elapsed_time <= i64::MAX
        &&& 0 <= self.time_scale <= MAX_TIME_SCALE
        &&& forall|i: int|
            0 <= i < self.trace.len() ==> {
                &&& i64::MIN <= (#[trigger] self.trace[i]).primary <= i64::MAX
                &&& self.trace[i] == tip_at(self.trace[i].primary, self.frequency_ratio)
            }
    }

    /// No recorded tip is earlier than one recorded before it.
    pub open spec fn time_ordered(self) -> bool {
        forall|i: int, j: int|
            0 <= i <= j < self.trace.len() ==> self.trace[i].primary <= self.trace[j].primary
    }

    /// The trace, unless it is empty, ends where the tip stands now.
    pub open spec fn ends_at_tip(self) -> bool {
        self.trace.len() > 0 ==> self.trace.last() == self.tip()
    }

    /// The current position of the tip.
    pub open spec fn tip(self) -> TipModel {
        tip_at(self.elapsed_time, self.frequency_ratio)
    }

    /// The clock back at zero and the trace empty.
    pub open spec fn reset(self) -> PlotModel {
        PlotModel { elapsed_time: 0, trace: Seq::empty(), ..self }
    }

    /// The frequency ratio set to `value`. A value that differs from the
    /// current one makes the recorded history meaningless, so it resets.
    pub open spec fn with_frequency_ratio(self, value: int) -> PlotModel {
        if value == self.frequency_ratio {
            self
        } else {
            PlotModel { frequency_ratio: value, ..self.reset() }
        }
    }

    /// The time scale set to `value`, held to `[0, MAX_TIME_SCALE]`.
    pub open spec fn with_time_scale(self, value: int) -> PlotModel {
        let held = if value < 0 {
            0
        } else if value > MAX_TIME_SCALE {
            MAX_TIME_SCALE as int
        } else {
            value
        };
        PlotModel { time_scale: held, ..self }
    }

    /// The clock after a frame of `frame_delta`.
    pub open spec fn time_after(self, frame_delta: int) -> int {
        saturate(
            self.elapsed_time + time_step(frame_delta, self.time_scale, self.frequency_ratio),
        )
    }

    /// The tips a frame of `frame_delta` records on its way: with `n` the
    /// sample count, `n + 1` tips evenly spread over the step, both ends
    /// included; none at all if `n` is zero.
    pub open spec fn samples(self, frame_delta: int) -> Seq<TipModel> {
        let n = sample_count(self.time_scale);
        if n > 0 {
            Seq::new(
                (n + 1) as nat,
                |i: int|
                    tip_at(
                        sample_time(self.elapsed_time, self.time_after(frame_delta), n, i),
                        self.frequency_ratio,
                    ),
            )
        } else {
            Seq::empty()
        }
    }

    /// The clock moved on by one frame, and the samples of that step recorded.
    pub open spec fn advance(self, frame_delta: int) -> PlotModel {
        PlotModel {
            elapsed_time: self.time_after(frame_delta),
            trace: self.trace + self.samples(frame_delta),
            ..self
        }
    }

    /// The user's input of one frame taken in: first the reset button, then
    /// the frequency ratio editor, then the time scale editor.
    pub open spec fn apply(self, controls: Controls) -> PlotModel {
        let a = if controls.reset {
            self.reset()
        } else {
            self
        };
        let b = match controls.frequency_ratio {
            Some(value) => a.with_frequency_ratio(value as int),
            None => a,
        };
        match controls.time_scale {
            Some(value) => b.with_time_scale(value as int),
            None => b,
        }
    }

    /// The current position recorded at the end of the trace.
    pub open spec fn mark(self) -> PlotModel {
        PlotModel { trace: self.trace.push(self.tip()), ..self }
    }

    /// One whole frame: advance, take in the controls, record where the tip
    /// stands now.
    pub open spec fn update(self, frame_delta: int, controls: Controls) -> PlotModel {
        self.advance(frame_delta).apply(controls).mark()
    }

    /// The state after a run of frames, each given by its frame delta and
    /// its controls, the earliest first.
    pub open spec fn run(self, frames: Seq<(int, Controls)>) -> PlotModel
        decreases frames.len(),
    {
        if frames.len() == 0 {
            self
        } else {
            self.run(frames.drop_last()).update(frames.last().0, frames.last().1)
        }
    }
}

/// The state of the shell: the theme it was started with and its two
/// spinners, the left one first.
pub struct AppModel {
    pub dark_mode: bool,
    pub left: PlotModel,
    pub right: PlotModel,
}

impl AppModel {
    /// The shell at startup: the left spinner at `left_ratio`, the right one
    /// at `right_ratio`, neither has run yet.
    pub open spec fn fresh(dark_mode: bool, left_ratio: int, right_ratio: int) -> AppModel {
        AppModel {
            dark_mode,
            left: PlotModel::fresh(left_ratio),
            right: PlotModel::fresh(right_ratio),
        }
    }

    /// Both spinners are well formed.
    pub open spec fn wf(self) -> bool {
        self.left.wf() && self.right.wf()
    }

    /// One frame: each spinner runs it with the same frame delta and with
    /// its own controls. The theme stays as it is.
    pub open spec fn update(self, frame_delta: int, left: Controls, right: Controls) -> AppModel {
        AppModel {
            dark_mode: self.dark_mode,
            left: self.left.update(frame_delta, left),
            right: self.right.update(frame_delta, right),
        }
    }
}

} // verus!
