//! What holds of a spinner whatever it is fed, proved over the model.

use vstd::prelude::*;
use crate::arith::{
    lemma_sample_time_ordered, lemma_sample_time_within, lemma_time_step_sign,
    lemma_trunc_div_remainder,
};
use crate::model::{
    capped_delta, points_per_frame, sample_count, time_step, tip_at, AppModel, PlotModel,
    FRAME_CAP, PACE, UNIT,
};
use crate::plot::Controls;

verus! {

/// Each formula is the exact value rounded toward zero, once: the clock step
/// and both angles of a tip miss the exact quotient by less than one
/// millionth, and never lie beyond it.
pub proof fn law_rounding_is_below_one_unit(
    frame_delta: int,
    time_scale: int,
    time: int,
    frequency_ratio: int,
)
    ensures
        frequency_ratio != 0 ==> ({
            let exact = capped_delta(frame_delta) * time_scale * PACE;
            let by = FRAME_CAP * frequency_ratio;
            let missed = exact - time_step(frame_delta, time_scale, frequency_ratio) * by;
            &&& exact >= 0 ==> missed >= 0
            &&& exact <= 0 ==> missed <= 0
            &&& by > 0 ==> -by < missed < by
            &&& by < 0 ==> by < missed < -by
        }),
        tip_at(time, frequency_ratio).primary == time,
        ({
            let exact = time * frequency_ratio;
            let missed = exact - tip_at(time, frequency_ratio).secondary * UNIT;
            &&& exact >= 0 ==> missed >= 0
            &&& exact <= 0 ==> missed <= 0
            &&& -UNIT < missed < UNIT
        }),
{
    if frequency_ratio != 0 {
        assert(FRAME_CAP * frequency_ratio != 0) by (nonlinear_arith)
            requires
                frequency_ratio != 0,
                FRAME_CAP == 120,
        ;
        lemma_trunc_div_remainder(
            capped_delta(frame_delta) * time_scale * PACE,
            FRAME_CAP * frequency_ratio,
        );
    }
    lemma_trunc_div_remainder(time * frequency_ratio, UNIT as int);
}

/// A spinner that has not run yet is well formed, and its empty trace is in
/// time order and ends at the tip in the only way an empty trace can.
pub proof fn law_fresh_is_well_formed(frequency_ratio: int)
    requires
        i64::MIN <= frequency_ratio <= i64::MAX,
    ensures
        PlotModel::fresh(frequency_ratio).wf(),
        PlotModel::fresh(frequency_ratio).time_ordered(),
        PlotModel::fresh(frequency_ratio).ends_at_tip(),
{
}

/// Resetting a spinner whose clock is at zero and whose trace is empty
/// changes nothing.
pub proof fn law_reset_is_idempotent(p: PlotModel)
    requires
        p.elapsed_time == 0,
        p.trace.len() == 0,
    ensures
        p.reset() == p,
{
    assert(p.reset().trace =~= p.trace);
}

/// Resetting twice is resetting once.
pub proof fn law_reset_twice(p: PlotModel)
    ensures
        p.reset().reset() == p.reset(),
{
}

/// Whatever a spinner has been through, a reset leaves it with an empty
/// trace and the clock at zero, and with the parameters it had.
pub proof fn law_reset_clears_history(p: PlotModel, frames: Seq<(int, Controls)>)
    ensures
        p.run(frames).reset().trace.len() == 0,
        p.run(frames).reset().elapsed_time == 0,
        p.run(frames).reset().frequency_ratio == p.run(frames).frequency_ratio,
        p.run(frames).reset().time_scale == p.run(frames).time_scale,
{
}

/// Setting a frequency ratio other than the current one empties the trace
/// and puts the clock to zero; setting the current one changes nothing.
pub proof fn law_new_ratio_resets(p: PlotModel, value: int)
    ensures
        value != p.frequency_ratio ==> p.with_frequency_ratio(value) == (PlotModel {
            frequency_ratio: value,
            ..p.reset()
        }),
        value == p.frequency_ratio ==> p.with_frequency_ratio(value) == p,
{
}

/// In a frame in which the frequency ratio editor is left at another value,
/// the history goes before the frame's final point is recorded: the trace
/// then holds that point alone, taken at time zero under the new ratio.
pub proof fn law_new_ratio_resets_within_frame(
    p: PlotModel,
    frame_delta: int,
    controls: Controls,
    value: i64,
)
    requires
        controls.frequency_ratio == Some(value),
        value != p.frequency_ratio,
    ensures
        p.update(frame_delta, controls).frequency_ratio == value,
        p.update(frame_delta, controls).elapsed_time == 0,
        p.update(frame_delta, controls).trace == seq![tip_at(0, value as int)],
{
    let q = p.advance(frame_delta).apply(controls);
    assert(q.trace =~= Seq::empty());
    assert(q.mark().trace =~= seq![tip_at(0, value as int)]);
}

/// Every operation keeps a state well formed.
pub proof fn law_wf_is_kept(p: PlotModel, frame_delta: int, controls: Controls, value: int)
    requires
        p.wf(),
    ensures
        p.reset().wf(),
        i64::MIN <= value <= i64::MAX ==> p.with_frequency_ratio(value).wf(),
        p.with_time_scale(value).wf(),
        p.advance(frame_delta).wf(),
        p.apply(controls).wf(),
        p.mark().wf(),
        p.update(frame_delta, controls).wf(),
{
    lemma_advance_keeps_wf(p, frame_delta);
    lemma_apply_keeps_wf(p, controls);
    lemma_apply_keeps_wf(p.advance(frame_delta), controls);
}

proof fn lemma_advance_keeps_wf(p: PlotModel, frame_delta: int)
    requires
        p.wf(),
    ensures
        p.advance(frame_delta).wf(),
{
    let q = p.advance(frame_delta);
    let n = sample_count(p.time_scale);
    assert forall|i: int| 0 <= i < q.trace.len() implies {
        &&& i64::MIN <= (#[trigger] q.trace[i]).primary <= i64::MAX
        &&& q.trace[i] == tip_at(q.trace[i].primary, q.frequency_ratio)
    } by {
        if i < p.trace.len() {
            assert(q.trace[i] == p.trace[i]);
        } else {
            let k = i - p.trace.len();
            assert(q.trace[i] == p.samples(frame_delta)[k]);
            lemma_sample_time_within(p.elapsed_time, q.elapsed_time, n, k);
        }
    }
}

proof fn lemma_apply_keeps_wf(p: PlotModel, controls: Controls)
    requires
        p.wf(),
    ensures
        p.apply(controls).wf(),
        p.mark().wf(),
{
}

/// A run of frames keeps a state well formed.
pub proof fn law_run_keeps_wf(p: PlotModel, frames: Seq<(int, Controls)>)
    requires
        p.wf(),
    ensures
        p.run(frames).wf(),
    decreases frames.len(),
{
    if frames.len() > 0 {
        law_run_keeps_wf(p, frames.drop_last());
        law_wf_is_kept(p.run(frames.drop_last()), frames.last().0, frames.last().1, 0);
    }
}

/// After a frame the trace ends where the tip stands, and no reset or
/// editor breaks that.
pub proof fn law_trace_ends_at_tip(p: PlotModel, frame_delta: int, controls: Controls, value: int)
    ensures
        p.update(frame_delta, controls).ends_at_tip(),
        p.reset().ends_at_tip(),
        p.ends_at_tip() ==> p.with_frequency_ratio(value).ends_at_tip(),
        p.ends_at_tip() ==> p.with_time_scale(value).ends_at_tip(),
        p.ends_at_tip() ==> p.apply(controls).ends_at_tip(),
{
}

/// While frame delta and frequency ratio are not negative, a trace that is
/// in time order and ends at the tip is still in time order after a frame.
pub proof fn law_trace_stays_time_ordered(p: PlotModel, frame_delta: int, controls: Controls)
    requires
        p.wf(),
        p.time_ordered(),
        p.ends_at_tip(),
        0 <= frame_delta,
        0 <= p.frequency_ratio,
    ensures
        p.update(frame_delta, controls).time_ordered(),
{
    let a = p.advance(frame_delta);
    let q = p.update(frame_delta, controls);
    let n = sample_count(p.time_scale);
    let old_len = p.trace.len() as int;
    lemma_time_step_sign(frame_delta, p.time_scale, p.frequency_ratio);
    if controls.keeps_history(p.frequency_ratio) {
        assert(q.trace =~= a.trace.push(a.tip()));
        assert forall|i: int| old_len <= i < q.trace.len() implies p.elapsed_time <= (
        #[trigger] q.trace[i]).primary by {
            if i < a.trace.len() {
                lemma_sample_time_within(p.elapsed_time, a.elapsed_time, n, i - old_len);
            }
        }
        assert forall|i: int, j: int| 0 <= i <= j < q.trace.len() implies q.trace[i].primary
            <= q.trace[j].primary by {
            if j < old_len {
                assert(q.trace[i] == p.trace[i] && q.trace[j] == p.trace[j]);
            } else if i < old_len {
                assert(q.trace[i] == p.trace[i]);
                assert(p.trace[i].primary <= p.trace[old_len - 1].primary);
                assert(p.elapsed_time <= q.trace[j].primary);
            } else if j < a.trace.len() {
                lemma_sample_time_ordered(
                    p.elapsed_time,
                    a.elapsed_time,
                    n,
                    i - old_len,
                    j - old_len,
                );
            } else if i < a.trace.len() {
                lemma_sample_time_within(p.elapsed_time, a.elapsed_time, n, i - old_len);
            }
        }
    } else {
        let cleared = a.apply(controls);
        assert(cleared.trace =~= Seq::empty());
        assert(q.trace =~= seq![cleared.tip()]);
    }
}

/// Over any run of frames that keep the history, with frame deltas and a
/// frequency ratio that are not negative, a trace that is in time order and
/// ends at the tip stays so.
pub proof fn law_forward_run_is_time_ordered(p: PlotModel, frames: Seq<(int, Controls)>)
    requires
        p.wf(),
        p.time_ordered(),
        p.ends_at_tip(),
        0 <= p.frequency_ratio,
        forall|k: int|
            0 <= k < frames.len() ==> 0 <= (#[trigger] frames[k]).0 && frames[k].1.keeps_history(
                p.frequency_ratio,
            ),
    ensures
        p.run(frames).time_ordered(),
        p.run(frames).ends_at_tip(),
        p.run(frames).frequency_ratio == p.frequency_ratio,
    decreases frames.len(),
{
    if frames.len() > 0 {
        let shorter = frames.drop_last();
        let (frame_delta, controls) = frames.last();
        assert(frames.last() == frames[frames.len() - 1]);
        law_forward_run_is_time_ordered(p, shorter);
        law_run_keeps_wf(p, shorter);
        law_trace_stays_time_ordered(p.run(shorter), frame_delta, controls);
    }
}

/// A frame that keeps the history, with a frame delta and a frequency ratio
/// that are not negative, never turns the clock back.
pub proof fn law_clock_runs_forward(p: PlotModel, frame_delta: int, controls: Controls)
    requires
        p.wf(),
        0 <= frame_delta,
        0 <= p.frequency_ratio,
        controls.keeps_history(p.frequency_ratio),
    ensures
        p.update(frame_delta, controls).elapsed_time >= p.elapsed_time,
        p.update(frame_delta, controls).frequency_ratio == p.frequency_ratio,
{
    lemma_time_step_sign(frame_delta, p.time_scale, p.frequency_ratio);
}

/// Over any run of frames that keep the history, with frame deltas that are
/// not negative and a frequency ratio that is not negative, the clock never
/// decreases: at every moment of the run it reads at least what it read at
/// any earlier moment.
pub proof fn law_time_is_monotonic(
    p: PlotModel,
    frames: Seq<(int, Controls)>,
    earlier: int,
    later: int,
)
    requires
        p.wf(),
        0 <= p.frequency_ratio,
        forall|k: int|
            0 <= k < frames.len() ==> 0 <= (#[trigger] frames[k]).0 && frames[k].1.keeps_history(
                p.frequency_ratio,
            ),
        0 <= earlier <= later <= frames.len(),
    ensures
        p.run(frames.take(earlier)).elapsed_time <= p.run(frames.take(later)).elapsed_time,
        p.run(frames.take(later)).frequency_ratio == p.frequency_ratio,
    decreases later,
{
    if later == 0 {
        assert(frames.take(0).len() == 0);
    } else {
        let shorter = frames.take(later - 1);
        let longer = frames.take(later);
        assert(longer.drop_last() =~= shorter);
        assert(longer.last() == frames[later - 1]);
        if earlier < later {
            law_time_is_monotonic(p, frames, earlier, later - 1);
        } else {
            law_time_is_monotonic(p, frames, later - 1, later - 1);
        }
        law_run_keeps_wf(p, shorter);
        law_clock_runs_forward(p.run(shorter), frames[later - 1].0, frames[later - 1].1);
    }
}

/// No frame counts for more than a 120th of a second: any two frame deltas
/// of at least that much lead to the same state.
pub proof fn law_frame_delta_is_clamped(
    p: PlotModel,
    long_delta: int,
    longer_delta: int,
    controls: Controls,
)
    requires
        FRAME_CAP * long_delta >= UNIT,
        FRAME_CAP * longer_delta >= UNIT,
    ensures
        p.update(long_delta, controls) == p.update(longer_delta, controls),
{
    assert(p.samples(long_delta) =~= p.samples(longer_delta));
}

/// A frame that keeps the history only adds to the trace, and adds exactly
/// `points_per_frame` tips, counted at the time scale the frame began with.
pub proof fn law_trace_grows(p: PlotModel, frame_delta: int, controls: Controls)
    requires
        p.wf(),
        controls.keeps_history(p.frequency_ratio),
    ensures
        p.update(frame_delta, controls).trace.len() == p.trace.len() + points_per_frame(
            p.time_scale,
        ),
        p.update(frame_delta, controls).trace.take(p.trace.len() as int) == p.trace,
        0 <= sample_count(p.time_scale) <= 200,
{
    let q = p.update(frame_delta, controls);
    assert(q.trace.take(p.trace.len() as int) =~= p.trace);
}

/// At a time scale of zero the clock stands still through any run of frames
/// that keep the history and leave the time scale at zero, whatever their
/// frame deltas, and each frame records the same point once more.
pub proof fn law_zero_time_scale_stands_still(p: PlotModel, frames: Seq<(int, Controls)>)
    requires
        p.wf(),
        p.time_scale == 0,
        forall|k: int|
            0 <= k < frames.len() ==> {
                &&& (#[trigger] frames[k]).1.keeps_history(p.frequency_ratio)
                &&& frames[k].1.time_scale matches Some(value) ==> value <= 0
            },
    ensures
        p.run(frames).elapsed_time == p.elapsed_time,
        p.run(frames).frequency_ratio == p.frequency_ratio,
        p.run(frames).time_scale == 0,
        p.run(frames).trace == p.trace + Seq::new(frames.len(), |k: int| p.tip()),
    decreases frames.len(),
{
    if frames.len() == 0 {
        assert(p.trace =~= p.trace + Seq::new(frames.len(), |k: int| p.tip()));
    } else {
        let shorter = frames.drop_last();
        law_zero_time_scale_stands_still(p, shorter);
        let q = p.run(shorter);
        assert(frames.last() == frames[frames.len() - 1]);
        assert(q.samples(frames.last().0) =~= Seq::empty());
        assert(p.run(frames).trace =~= p.trace + Seq::new(frames.len(), |k: int| p.tip()));
    }
}

/// The two spinners of the shell share nothing: what a frame makes of one
/// depends on that one's state and controls alone.
pub proof fn law_spinners_are_independent(
    a: AppModel,
    b: AppModel,
    frame_delta: int,
    left: Controls,
    right: Controls,
    other: Controls,
)
    ensures
        a.left == b.left ==> a.update(frame_delta, left, right).left == b.update(
            frame_delta,
            left,
            other,
        ).left,
        a.right == b.right ==> a.update(frame_delta, left, right).right == b.update(
            frame_delta,
            other,
            right,
        ).right,
        a.update(frame_delta, left, right).dark_mode == a.dark_mode,
{
}

} // verus!
