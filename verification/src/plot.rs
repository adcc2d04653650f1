//! The executable spinner.
//!
//! [`Plot`] holds the parameters, the clock and the trace of one spinner in
//! machine integers. Each of its operations is tied to the transition of
//! [`PlotModel`] that it carries out.

use vstd::prelude::*;
use crate::arith::{lemma_sample_time_within, lemma_trunc_div_within};
use crate::laws::{law_clock_runs_forward, law_reset_is_idempotent, law_trace_grows};
use crate::model::{
    points_per_frame, sample_count, sample_time, time_step, tip_at, PlotModel, TipModel,
    FRAME_CAP, MAX_TIME_SCALE, PACE, SAMPLES, UNIT,
};

verus! {

/// What the user did to one spinner's controls during a frame.
#[derive(Clone, Copy, Debug, PartialEq, Eq)]
pub struct Controls {
    /// The reset button was pressed.
    pub reset: bool,
    /// The value left in the frequency ratio editor, if it was touched.
    pub frequency_ratio: Option<i64>,
    /// The value left in the time scale editor, if it was touched.
    pub time_scale: Option<i64>,
}

impl Controls {
    /// A frame in which the user touched nothing.
    pub open spec fn is_idle(self) -> bool {
        !self.reset && self.frequency_ratio.is_none() && self.time_scale.is_none()
    }

    /// The frame leaves the history of a spinner at `frequency_ratio` alone:
    /// no reset, and no other frequency ratio.
    pub open spec fn keeps_history(self, frequency_ratio: int) -> bool {
        !self.reset && (self.frequency_ratio matches Some(value) ==> value == frequency_ratio)
    }

    /// The controls of a frame in which the user touched nothing.
    pub fn idle() -> (controls: Controls)
        ensures
            controls.is_idle(),
    {
        Controls { reset: false, frequency_ratio: None, time_scale: None }
    }
}

/// The position of the tip, given by the angles of its two arms in
/// millionths of a radian.
///
/// The primary arm reaches from the origin to `(cos primary, sin primary)`;
/// the secondary arm starts there and adds `(cos secondary, sin secondary)`.
#[derive(Clone, Copy, Debug, PartialEq, Eq, Structural)]
pub struct Tip {
    pub primary: i64,
    pub secondary: i128,
}

impl View for Tip {
    type V = TipModel;

    open spec fn view(&self) -> TipModel {
        TipModel { primary: self.primary as int, secondary: self.secondary as int }
    }
}

/// The models of a sequence of tips, in the same order.
pub open spec fn models_of(tips: Seq<Tip>) -> Seq<TipModel> {
    tips.map_values(|tip: Tip| tip@)
}

impl Tip {
    /// Where the tip is at `time` under `frequency_ratio`.
    pub fn at(time: i64, frequency_ratio: i64) -> (tip: Tip)
        ensures
            tip@ == tip_at(time as int, frequency_ratio as int),
    {
        assert(-0x4000_0000_0000_0000_0000_0000_0000_0000 <= time * frequency_ratio
            <= 0x4000_0000_0000_0000_0000_0000_0000_0000) by (nonlinear_arith)
            requires
                -0x8000_0000_0000_0000 <= time <= 0x8000_0000_0000_0000,
                -0x8000_0000_0000_0000 <= frequency_ratio <= 0x8000_0000_0000_0000,
        ;
        let turned: i128 = time as i128 * frequency_ratio as i128;
        Tip { primary: time, secondary: turned / (UNIT as i128) }
    }
}

/// The clock step of one frame.
fn step_of(frame_delta: i64, time_scale: i64, frequency_ratio: i64) -> (step: i128)
    requires
        0 <= time_scale <= MAX_TIME_SCALE,
    ensures
        step == time_step(frame_delta as int, time_scale as int, frequency_ratio as int),
        -0x8_0000_0000_0000_0000_0000_0000 <= step <= 0x8_0000_0000_0000_0000_0000_0000,
{
    if frequency_ratio == 0 {
        return 0;
    }
    assert(FRAME_CAP * frame_delta == 120 * frame_delta && FRAME_CAP * frequency_ratio == 120
        * frequency_ratio) by (nonlinear_arith)
        requires
            FRAME_CAP == 120,
    ;
    let scaled: i128 = FRAME_CAP as i128 * frame_delta as i128;
    let capped: i128 = if scaled > UNIT as i128 {
        UNIT as i128
    } else {
        scaled
    };
    assert(-0x4_0000_0000_0000_0000_0000_0000 <= capped * time_scale * PACE
        <= 0x4_0000_0000_0000_0000_0000_0000 && -0x4_0000_0000_0000_0000_0000_0000 <= capped
        * time_scale <= 0x4_0000_0000_0000_0000_0000_0000) by (nonlinear_arith)
        requires
            -120 * 0x8000_0000_0000_0000 <= capped <= 1_000_000,
            0 <= time_scale <= 10_000_000,
            PACE == 5,
    ;
    let numerator: i128 = capped * time_scale as i128 * PACE as i128;
    let denominator: i128 = FRAME_CAP as i128 * frequency_ratio as i128;
    if denominator > 0 {
        proof {
            lemma_trunc_div_within(numerator as int, denominator as int);
        }
        numerator / denominator
    } else {
        proof {
            lemma_trunc_div_within(-numerator, -denominator);
        }
        (-numerator) / (-denominator)
    }
}

/// The time of sample `i` of `n` on the way from `from` to `to`.
fn sample_at(from: i64, to: i64, n: i64, i: i64) -> (time: i64)
    requires
        0 <= i <= n <= 200,
        0 < n,
    ensures
        time == sample_time(from as int, to as int, n as int, i as int),
{
    let span: i128 = to as i128 - from as i128;
    assert(-200 * 0x1_0000_0000_0000_0000 <= span * i <= 200 * 0x1_0000_0000_0000_0000)
        by (nonlinear_arith)
        requires
            -0x1_0000_0000_0000_0000 <= span <= 0x1_0000_0000_0000_0000,
            0 <= i <= 200,
    ;
    proof {
        lemma_sample_time_within(from as int, to as int, n as int, i as int);
    }
    let offset: i128 = span * i as i128 / n as i128;
    (from as i128 + offset) as i64
}

/// One spinner.
pub struct Plot {
    frequency_ratio: i64,
    elapsed_time: i64,
    time_scale: i64,
    trace: Vec<Tip>,
}

impl View for Plot {
    type V = PlotModel;

    closed spec fn view(&self) -> PlotModel {
        PlotModel {
            frequency_ratio: self.frequency_ratio as int,
            elapsed_time: self.elapsed_time as int,
            time_scale: self.time_scale as int,
            trace: models_of(self.trace@),
        }
    }
}

impl Plot {
    /// The state is one the spinner can be in.
    pub open spec fn wf(&self) -> bool {
        self@.wf()
    }

    /// A spinner that has not run yet: clock at zero, time scale 1, no trace.
    pub fn new(frequency_ratio: i64) -> (plot: Plot)
        ensures
            plot.wf(),
            plot@ == PlotModel::fresh(frequency_ratio as int),
    {
        let plot = Plot { frequency_ratio, elapsed_time: 0, time_scale: UNIT, trace: Vec::new() };
        assert(plot@.trace =~= Seq::empty());
        plot
    }

    /// Puts the clock back to zero and empties the trace. The storage of the
    /// trace is kept for the points to come.
    pub fn reset(&mut self)
        requires
            old(self).wf(),
        ensures
            final(self).wf(),
            final(self)@ == old(self)@.reset(),
            final(self)@.elapsed_time == 0,
            final(self)@.trace.len() == 0,
            old(self)@.elapsed_time == 0 && old(self)@.trace.len() == 0 ==> final(self)@
                == old(self)@,
    {
        self.elapsed_time = 0;
        self.trace.clear();
        assert(self@.trace =~= Seq::empty());
        proof {
            if old(self)@.elapsed_time == 0 && old(self)@.trace.len() == 0 {
                law_reset_is_idempotent(old(self)@);
            }
        }
    }

    /// Sets the frequency ratio. A value that differs from the current one
    /// resets the spinner first.
    pub fn set_frequency_ratio(&mut self, value: i64)
        requires
            old(self).wf(),
        ensures
            final(self).wf(),
            final(self)@ == old(self)@.with_frequency_ratio(value as int),
            value != old(self)@.frequency_ratio ==> final(self)@.elapsed_time == 0
                && final(self)@.trace.len() == 0,
    {
        if value != self.frequency_ratio {
            self.reset();
            self.frequency_ratio = value;
        }
    }

    /// Sets the time scale, held to `[0, MAX_TIME_SCALE]`.
    pub fn set_time_scale(&mut self, value: i64)
        requires
            old(self).wf(),
        ensures
            final(self).wf(),
            final(self)@ == old(self)@.with_time_scale(value as int),
    {
        self.time_scale = if value < 0 {
            0
        } else if value > MAX_TIME_SCALE {
            MAX_TIME_SCALE
        } else {
            value
        };
        assert(self@.trace =~= old(self)@.trace);
    }

    /// Moves the clock on by one frame and records the samples of that step.
    fn advance(&mut self, frame_delta: i64)
        requires
            old(self).wf(),
        ensures
            final(self).wf(),
            final(self)@ == old(self)@.advance(frame_delta as int),
    {
        let ghost before = self@;
        let from = self.elapsed_time;
        let ratio = self.frequency_ratio;
        let step = step_of(frame_delta, self.time_scale, ratio);
        let moved: i128 = from as i128 + step;
        let to: i64 = if moved < i64::MIN as i128 {
            i64::MIN
        } else if moved > i64::MAX as i128 {
            i64::MAX
        } else {
            moved as i64
        };
        assert(to == before.time_after(frame_delta as int));
        self.elapsed_time = to;
        let n: i64 = SAMPLES * self.time_scale / UNIT;
        assert(n == sample_count(before.time_scale));
        assert(self@.trace =~= before.trace);
        if n > 0 {
            let mut i: i64 = 0;
            while i <= n
                invariant
                    0 <= i <= n + 1,
                    0 < n <= 200,
                    before.wf(),
                    from == before.elapsed_time,
                    ratio == before.frequency_ratio,
                    self@.frequency_ratio == before.frequency_ratio,
                    self@.time_scale == before.time_scale,
                    self@.elapsed_time == to,
                    self@.trace == before.trace + Seq::new(
                        i as nat,
                        |k: int|
                            tip_at(
                                sample_time(from as int, to as int, n as int, k),
                                ratio as int,
                            ),
                    ),
                    self.wf(),
                decreases n + 1 - i,
            {
                let ghost so_far = self.trace@;
                let tip = Tip::at(sample_at(from, to, n, i), ratio);
                self.trace.push(tip);
                assert(models_of(self.trace@) =~= models_of(so_far).push(tip@));
                i = i + 1;
            }
            assert(self@.trace =~= before.trace + before.samples(frame_delta as int));
        } else {
            assert(self@.trace =~= before.trace + before.samples(frame_delta as int));
        }
    }

    /// Takes in what the user did during a frame: first the reset button,
    /// then the frequency ratio editor, then the time scale editor.
    pub fn apply(&mut self, controls: Controls)
        requires
            old(self).wf(),
        ensures
            final(self).wf(),
            final(self)@ == old(self)@.apply(controls),
    {
        if controls.reset {
            self.reset();
        }
        if let Some(value) = controls.frequency_ratio {
            self.set_frequency_ratio(value);
        }
        if let Some(value) = controls.time_scale {
            self.set_time_scale(value);
        }
    }

    /// Runs one frame: moves the clock on by the clamped and scaled
    /// `frame_delta`, records the samples of that step, takes in the
    /// controls, and records and returns the position the tip has then.
    pub fn update(&mut self, frame_delta: i64, controls: Controls) -> (tip: Tip)
        requires
            old(self).wf(),
        ensures
            final(self).wf(),
            final(self)@ == old(self)@.update(frame_delta as int, controls),
            tip@ == final(self)@.tip(),
            final(self)@.trace.last() == tip@,
            controls.keeps_history(old(self)@.frequency_ratio) ==> {
                &&& final(self)@.trace.len() == old(self)@.trace.len() + points_per_frame(
                    old(self)@.time_scale,
                )
                &&& final(self)@.trace.take(old(self)@.trace.len() as int) == old(self)@.trace
                &&& 0 <= frame_delta && 0 <= old(self)@.frequency_ratio
                    ==> final(self)@.elapsed_time >= old(self)@.elapsed_time
            },
            !controls.keeps_history(old(self)@.frequency_ratio) ==> {
                &&& final(self)@.trace == seq![tip@]
                &&& final(self)@.elapsed_time == 0
            },
    {
        proof {
            let before = self@;
            if controls.keeps_history(before.frequency_ratio) {
                law_trace_grows(before, frame_delta as int, controls);
                if 0 <= frame_delta && 0 <= before.frequency_ratio {
                    law_clock_runs_forward(before, frame_delta as int, controls);
                }
            } else {
                let cleared = before.advance(frame_delta as int).apply(controls);
                assert(cleared.trace =~= Seq::empty());
                assert(cleared.mark().trace =~= seq![cleared.tip()]);
            }
        }
        self.advance(frame_delta);
        self.apply(controls);
        let tip = self.tip();
        let ghost so_far = self.trace@;
        self.trace.push(tip);
        assert(models_of(self.trace@) =~= models_of(so_far).push(tip@));
        tip
    }

    /// The frequency ratio.
    pub fn frequency_ratio(&self) -> (value: i64)
        ensures
            value == self@.frequency_ratio,
    {
        self.frequency_ratio
    }

    /// The simulated clock.
    pub fn elapsed_time(&self) -> (value: i64)
        ensures
            value == self@.elapsed_time,
    {
        self.elapsed_time
    }

    /// The time scale.
    pub fn time_scale(&self) -> (value: i64)
        ensures
            value == self@.time_scale,
    {
        self.time_scale
    }

    /// Every tip position recorded since the last reset, oldest first.
    pub fn trace(&self) -> (trace: &Vec<Tip>)
        ensures
            models_of(trace@) == self@.trace,
    {
        &self.trace
    }

    /// The current position of the tip.
    pub fn tip(&self) -> (tip: Tip)
        ensures
            tip@ == self@.tip(),
    {
        Tip::at(self.elapsed_time, self.frequency_ratio)
    }
}

} // verus!
