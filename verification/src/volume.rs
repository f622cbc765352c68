//! Volume control with smooth, click-free transitions.
//!
//! Gains are linear factors in millionths (`1_000_000` = unity). Two
//! ramp mechanisms mirror the two places volume is applied:
//!
//! * [`VolumeRamp`] interpolates from the current gain toward a target
//!   over a configurable number of samples along a linear, exponential
//!   or S-curve shape;
//! * [`VolumeControl`] is the device-feed ramp: a fixed step count, one
//!   equal step of the remaining distance per sample.
//!
//! Multiplying the actual `f32` samples by these gains is the
//! embedder's concern; the library computes the per-sample gain
//! trajectory exactly.

use vstd::prelude::*;
use crate::error::{CCPlayerError, Result};
use vstd::string::StringExecFns;

verus! {

/// Unity gain: 1.0 as a factor in millionths.
pub const UNITY_GAIN: u32 = 1_000_000;

/// Volume ramp duration used by the device feed path, in samples.
pub const VOLUME_RAMP_SAMPLES: usize = 512;

/// Volume ramp type.
#[derive(Clone, Copy, Debug, PartialEq, Eq, Structural)]
pub enum RampType {
    /// Linear ramp.
    Linear,
    /// Exponential ramp (more natural).
    Exponential,
    /// S-curve ramp (smoothest).
    SCurve,
}

/// `a * b / 1_000_000` on gains: fixed-point multiplication of factors
/// in millionths.
pub open spec fn gain_mul(a: int, b: int) -> int {
    a * b / 1_000_000
}

/// The interpolation factor, in millionths, that a ramp of the given
/// type reaches when `progress` millionths of its duration have passed.
/// `rising` tells an exponential ramp its direction.
pub open spec fn ramp_factor(t: RampType, progress: int, rising: bool) -> int {
    match t {
        RampType::Linear => progress,
        RampType::Exponential => if rising {
            // 1 - (1 - p)^2
            1_000_000 - gain_mul(1_000_000 - progress, 1_000_000 - progress)
        } else {
            // p^2
            gain_mul(progress, progress)
        },
        RampType::SCurve => {
            // 3 p^2 - 2 p^3, computed as p^2 * (3 - 2 p)
            gain_mul(gain_mul(progress, progress), 3_000_000 - 2 * progress)
        },
    }
}

/// The gain a ramp outputs at `progress` millionths of its way from
/// `current` to `target`.
pub open spec fn ramp_value(t: RampType, current: int, target: int, progress: int) -> int {
    if target >= current {
        current + gain_mul(target - current, ramp_factor(t, progress, true))
    } else {
        current - gain_mul(current - target, ramp_factor(t, progress, false))
    }
}

/// Fixed-point multiplication of two gain factors in millionths.
pub fn gain_mul_exec(a: u32, b: u32) -> (r: u32)
    requires
        a <= 3_000_000,
        b <= 3_000_000,
    ensures
        r == gain_mul(a as int, b as int),
{
    proof {
        assert(0 <= (a as int) * (b as int) <= 3_000_000 * 3_000_000) by (nonlinear_arith)
            requires
                0 <= a <= 3_000_000,
                0 <= b <= 3_000_000,
        ;
        assert(0 <= (a as int) * (b as int) / 1_000_000 <= 3_000_000 * 3_000_000 / 1_000_000)
            by (nonlinear_arith)
            requires
                0 <= (a as int) * (b as int) <= 3_000_000 * 3_000_000,
        ;
    }
    let p: u64 = (a as u64) * (b as u64) / 1_000_000;
    p as u32
}

/// The state of a [`VolumeRamp`] after one `next_value` call.
pub open spec fn vr_next(r: VolumeRamp) -> VolumeRamp {
    if r.samples_processed >= r.duration_samples {
        VolumeRamp { current: r.target, ..r }
    } else {
        VolumeRamp { samples_processed: (r.samples_processed + 1) as usize, ..r }
    }
}

/// The gain one `next_value` call returns: the target once the ramp is
/// done, otherwise the curve at the completed fraction of the duration.
pub open spec fn vr_out(r: VolumeRamp) -> int {
    if r.samples_processed >= r.duration_samples {
        r.target as int
    } else {
        ramp_value(
            r.ramp_type,
            r.current as int,
            r.target as int,
            (r.samples_processed + 1) * 1_000_000 as int / r.duration_samples as int,
        )
    }
}

/// The state of a [`VolumeRamp`] after `n` `next_value` calls.
pub open spec fn vr_after(r: VolumeRamp, n: nat) -> VolumeRamp
    decreases n,
{
    if n == 0 {
        r
    } else {
        vr_after(vr_next(r), (n - 1) as nat)
    }
}

/// `n + 1` ramp steps are `n` steps followed by one more.
pub proof fn lemma_vr_after_snoc(r: VolumeRamp, n: nat)
    ensures
        vr_after(r, n + 1) == vr_next(vr_after(r, n)),
    decreases n,
{
    if n == 0 {
        assert(vr_after(r, 1) == vr_after(vr_next(r), 0));
        assert(vr_after(vr_next(r), 0) == vr_next(r));
        assert(vr_after(r, 0) == r);
    } else {
        lemma_vr_after_snoc(vr_next(r), (n - 1) as nat);
        assert(vr_after(r, n + 1) == vr_after(vr_next(r), n));
        assert(vr_after(r, n) == vr_after(vr_next(r), (n - 1) as nat));
    }
}

/// Volume ramping for smooth transitions: interpolates the output gain
/// from `current` to `target` across `duration_samples` samples.
#[derive(Clone, Copy, Debug, PartialEq, Eq, Structural)]
pub struct VolumeRamp {
    /// Gain at the start of the ramp, in millionths.
    pub current: u32,
    /// Target gain, in millionths.
    pub target: u32,
    /// Ramp duration in samples (at least 1).
    pub duration_samples: usize,
    /// Samples processed since the ramp (re)started.
    pub samples_processed: usize,
    /// Ramp shape.
    pub ramp_type: RampType,
}

impl VolumeRamp {
    /// Gains stay within [0, unity] and the duration is positive.
    pub open spec fn wf(&self) -> bool {
        &&& self.current <= UNITY_GAIN
        &&& self.target <= UNITY_GAIN
        &&& self.duration_samples >= 1
    }

    pub fn new() -> (r: Self)
        ensures
            r.wf(),
            r.current == UNITY_GAIN,
            r.target == UNITY_GAIN,
            r.duration_samples == 2048,
            r.samples_processed == 0,
            r.ramp_type == RampType::Exponential,
    {
        VolumeRamp {
            current: UNITY_GAIN,
            target: UNITY_GAIN,
            duration_samples: 2048,
            samples_processed: 0,
            ramp_type: RampType::Exponential,
        }
    }

    /// Set the target gain. The ramp restarts only if the target
    /// differs from the current gain by more than 1000 millionths
    /// (0.001), so negligible changes cause no ramp restart.
    pub fn set_target(&mut self, target: u32)
        requires
            old(self).wf(),
            target <= UNITY_GAIN,
        ensures
            final(self).wf(),
            (target > old(self).current + 1000 || target + 1000 < old(self).current)
                ==> *final(self) == (VolumeRamp { target, samples_processed: 0, ..*old(self) }),
            !(target > old(self).current + 1000 || target + 1000 < old(self).current)
                ==> *final(self) == *old(self),
    {
        let delta_big: bool = if target >= self.current {
            target - self.current > 1000
        } else {
            self.current - target > 1000
        };
        if delta_big {
            self.target = target;
            self.samples_processed = 0;
        }
    }

    /// Produce the next ramped gain, advancing the ramp one sample. At
    /// or beyond the ramp's end the current gain snaps to the target
    /// and stays there; during the ramp the gain is the configured
    /// curve evaluated at the fraction of the duration completed by
    /// this sample.
    pub fn next_value(&mut self) -> (r: u32)
        requires
            old(self).wf(),
        ensures
            final(self).wf(),
            *final(self) == vr_next(*old(self)),
            r as int == vr_out(*old(self)),
            r <= UNITY_GAIN,
    {
        if self.samples_processed >= self.duration_samples {
            self.current = self.target;
            return self.current;
        }

        let done: usize = self.samples_processed + 1;
        self.samples_processed = done;

        // the fraction of the ramp completed by this sample, in millionths
        proof {
            assert(0 <= (done as int) * 1_000_000 <= (self.duration_samples as int) * 1_000_000
                && 0 <= (done as int) * 1_000_000 / (self.duration_samples as int) <= 1_000_000)
                by (nonlinear_arith)
                requires
                    0 < done <= self.duration_samples,
            ;
        }
        let progress: u32 = (((done as u128) * 1_000_000) / (self.duration_samples as u128)) as u32;

        let rising: bool = self.target > self.current;
        let factor: u32 = match self.ramp_type {
            RampType::Linear => progress,
            RampType::Exponential => {
                if rising {
                    // 1 - (1 - p)^2: fast start, soft landing
                    let q = gain_mul_exec(UNITY_GAIN - progress, UNITY_GAIN - progress);
                    proof {
                        lemma_gain_mul_bounds(
                            (UNITY_GAIN - progress) as int,
                            (UNITY_GAIN - progress) as int,
                        );
                    }
                    UNITY_GAIN - q
                } else {
                    // p^2: soft start
                    gain_mul_exec(progress, progress)
                }
            },
            RampType::SCurve => {
                // 3 p^2 - 2 p^3 as p^2 * (3 - 2 p)
                let p2 = gain_mul_exec(progress, progress);
                proof {
                    lemma_gain_mul_bounds(progress as int, progress as int);
                }
                gain_mul_exec(p2, 3_000_000 - 2 * progress)
            },
        };

        let dist: u32 = if self.target >= self.current {
            self.target - self.current
        } else {
            self.current - self.target
        };
        proof {
            lemma_ramp_factor_bounds(self.ramp_type, progress as int, rising);
            if self.target == self.current {
                // both the strict and the non-strict direction give the
                // same value when there is no distance to cover
                let f_true = ramp_factor(self.ramp_type, progress as int, true);
                let f_false = ramp_factor(self.ramp_type, progress as int, false);
                assert(gain_mul(0, f_true) == 0 && gain_mul(0, f_false) == 0)
                    by (nonlinear_arith);
            }
            assert(factor == ramp_factor(
                self.ramp_type,
                progress as int,
                self.target as int >= self.current as int,
            ) || self.target == self.current);
            lemma_gain_mul_bounds(dist as int, factor as int);
        }
        if self.target >= self.current {
            self.current + gain_mul_exec(dist, factor)
        } else {
            self.current - gain_mul_exec(dist, factor)
        }
    }
}

/// A ramp factor at a progress within [0, 1] is itself within [0, 1]
/// (all in millionths).
pub proof fn lemma_ramp_factor_bounds(t: RampType, progress: int, rising: bool)
    requires
        0 <= progress <= 1_000_000,
    ensures
        0 <= ramp_factor(t, progress, rising) <= 1_000_000,
{
    match t {
        RampType::Linear => {},
        RampType::Exponential => {
            lemma_gain_mul_bounds(1_000_000 - progress, 1_000_000 - progress);
            lemma_gain_mul_bounds(progress, progress);
        },
        RampType::SCurve => {
            lemma_gain_mul_bounds(progress, progress);
            let p2 = gain_mul(progress, progress);
            let c = 3_000_000 - 2 * progress;
            let d = 1_000_000 - progress;
            // (1 - p)^2 (1 + 2 p) >= 0 rearranges to p^2 (3 - 2 p) <= 1
            assert(progress * progress * c == 1_000_000 * 1_000_000 * 1_000_000 - d * d * (
            1_000_000 + 2 * progress)) by (nonlinear_arith)
                requires
                    c == 3_000_000 - 2 * progress,
                    d == 1_000_000 - progress,
            ;
            assert(d * d * (1_000_000 + 2 * progress) >= 0) by (nonlinear_arith)
                requires
                    0 <= d,
                    0 <= progress,
            ;
            assert(p2 * 1_000_000 <= progress * progress) by (nonlinear_arith)
                requires
                    p2 == progress * progress / 1_000_000,
                    0 <= progress,
            ;
            assert(p2 * c <= 1_000_000 * 1_000_000) by (nonlinear_arith)
                requires
                    p2 * 1_000_000 <= progress * progress,
                    progress * progress * c <= 1_000_000 * 1_000_000 * 1_000_000,
                    0 <= c,
                    0 <= p2,
            ;
            assert(0 <= p2 * c / 1_000_000 <= 1_000_000) by (nonlinear_arith)
                requires
                    0 <= p2 * c <= 1_000_000 * 1_000_000,
            ;
        },
    }
}

/// `gain_mul` of factors within [0, 1] stays within [0, 1] and below
/// either factor (all in millionths).
pub proof fn lemma_gain_mul_bounds(a: int, b: int)
    requires
        0 <= a <= 1_000_000,
        0 <= b <= 1_000_000,
    ensures
        0 <= gain_mul(a, b) <= a,
        gain_mul(a, b) <= b,
        gain_mul(a, b) <= 1_000_000,
{
    assert(0 <= a * b / 1_000_000 && a * b / 1_000_000 <= a && a * b / 1_000_000 <= b)
        by (nonlinear_arith)
        requires
            0 <= a <= 1_000_000,
            0 <= b <= 1_000_000,
    ;
}

/// Law (ramp convergence): once a ramp has processed at least its
/// duration in samples, every further `next_value` returns exactly the
/// target gain.
pub proof fn lemma_ramp_converges(r: VolumeRamp)
    requires
        r.wf(),
        r.samples_processed >= r.duration_samples,
    ensures
        forall|t: RampType, p: int| ramp_value(t, r.target as int, r.target as int, p)
            == r.target,
{
    assert forall|t: RampType, p: int| ramp_value(t, r.target as int, r.target as int, p)
        == r.target by {
        assert(gain_mul(0, ramp_factor(t, p, true)) == 0) by (nonlinear_arith);
    }
}

/// Volume control of the device feed path: smooth transitions by one
/// equal step of the remaining distance per sample, over
/// `VOLUME_RAMP_SAMPLES` samples.
#[derive(Clone, Copy, Debug, PartialEq, Eq, Structural)]
pub struct VolumeControl {
    /// Current gain in millionths.
    pub current: u32,
    /// Target gain in millionths.
    pub target: u32,
    /// Ramp samples remaining.
    pub ramp_samples: usize,
}

/// One sample step of the device-feed ramp: move `current` by the
/// truncated per-sample share of the remaining distance; the final step
/// lands exactly on the target.
pub open spec fn vc_step(c: VolumeControl) -> VolumeControl {
    if c.ramp_samples == 0 {
        c
    } else if c.ramp_samples == 1 {
        VolumeControl { current: c.target, ramp_samples: 0, ..c }
    } else {
        let moved: int = if c.target >= c.current {
            c.current + (c.target - c.current) / (c.ramp_samples as int)
        } else {
            c.current - (c.current - c.target) / (c.ramp_samples as int)
        };
        VolumeControl {
            current: moved as u32,
            ramp_samples: (c.ramp_samples - 1) as usize,
            ..c
        }
    }
}

/// The ramp state after `n` sample steps.
pub open spec fn vc_steps(c: VolumeControl, n: nat) -> VolumeControl
    decreases n,
{
    if n == 0 {
        c
    } else {
        vc_steps(vc_step(c), (n - 1) as nat)
    }
}

/// `n + 1` device-feed ramp steps are `n` steps followed by one more.
pub proof fn lemma_vc_steps_snoc(c: VolumeControl, n: nat)
    ensures
        vc_steps(c, n + 1) == vc_step(vc_steps(c, n)),
    decreases n,
{
    if n == 0 {
        assert(vc_steps(c, 1) == vc_steps(vc_step(c), 0));
        assert(vc_steps(vc_step(c), 0) == vc_step(c));
        assert(vc_steps(c, 0) == c);
    } else {
        lemma_vc_steps_snoc(vc_step(c), (n - 1) as nat);
        assert(vc_steps(c, n + 1) == vc_steps(vc_step(c), n));
        assert(vc_steps(c, n) == vc_steps(vc_step(c), (n - 1) as nat));
    }
}

impl VolumeControl {
    pub open spec fn wf(&self) -> bool {
        &&& self.current <= UNITY_GAIN
        &&& self.target <= UNITY_GAIN
    }

    pub fn new() -> (r: Self)
        ensures
            r.wf(),
            r.current == UNITY_GAIN,
            r.target == UNITY_GAIN,
            r.ramp_samples == 0,
    {
        VolumeControl { current: UNITY_GAIN, target: UNITY_GAIN, ramp_samples: 0 }
    }

    /// Advance the ramp one sample and return the gain to apply to that
    /// sample.
    pub fn process_gain(&mut self) -> (g: u32)
        requires
            old(self).wf(),
        ensures
            final(self).wf(),
            *final(self) == vc_step(*old(self)),
            g == final(self).current,
    {
        proof {
            lemma_vc_step_bounds(*self);
        }
        if self.ramp_samples > 0 {
            if self.ramp_samples == 1 {
                self.current = self.target;
                self.ramp_samples = 0;
            } else {
                let rs = self.ramp_samples;
                if self.target >= self.current {
                    let step = (((self.target - self.current) as u64) / (rs as u64)) as u32;
                    self.current = self.current + step;
                } else {
                    let step = (((self.current - self.target) as u64) / (rs as u64)) as u32;
                    self.current = self.current - step;
                }
                self.ramp_samples = rs - 1;
            }
        }
        self.current
    }

    /// Set the target gain (clamped to unity) and restart the ramp over
    /// `VOLUME_RAMP_SAMPLES` samples.
    pub fn set_target(&mut self, volume: u32)
        ensures
            final(self).wf() == (old(self).current <= UNITY_GAIN),
            final(self).target == (
                if volume > UNITY_GAIN {
                    UNITY_GAIN
                } else {
                    volume
                }
            ),
            final(self).ramp_samples == VOLUME_RAMP_SAMPLES,
            final(self).current == old(self).current,
    {
        self.target = if volume > UNITY_GAIN {
            UNITY_GAIN
        } else {
            volume
        };
        self.ramp_samples = VOLUME_RAMP_SAMPLES;
    }
}

/// Law (ramp step stays in range): one step of the device-feed ramp
/// moves the gain toward the target without overshooting, so the gain
/// stays between the old gain and the target.
pub proof fn lemma_vc_step_bounds(c: VolumeControl)
    requires
        c.wf(),
    ensures
        vc_step(c).wf(),
        c.target >= c.current ==> c.current <= vc_step(c).current <= c.target,
        c.target < c.current ==> c.target <= vc_step(c).current <= c.current,
        vc_step(c).target == c.target,
        c.ramp_samples > 0 ==> vc_step(c).ramp_samples == c.ramp_samples - 1,
        c.ramp_samples == 0 ==> vc_step(c) == c,
{
    if c.ramp_samples > 1 {
        if c.target >= c.current {
            let d = c.target - c.current;
            assert(0 <= d / (c.ramp_samples as int) <= d) by (nonlinear_arith)
                requires
                    0 <= d,
                    c.ramp_samples >= 1,
            ;
        } else {
            let d = c.current - c.target;
            assert(0 <= d / (c.ramp_samples as int) <= d) by (nonlinear_arith)
                requires
                    0 <= d,
                    c.ramp_samples >= 1,
            ;
        }
    }
}

/// Law (volume ramp convergence): after a ramp with at least one sample
/// remaining has processed `ramp_samples` or more samples, the gain
/// equals the target exactly and the ramp is finished.
pub proof fn lemma_vc_ramp_convergence(c: VolumeControl, n: nat)
    requires
        c.wf(),
        c.ramp_samples >= 1,
        n >= c.ramp_samples,
    ensures
        vc_steps(c, n).current == c.target,
        vc_steps(c, n).target == c.target,
        vc_steps(c, n).ramp_samples == 0,
    decreases n,
{
    lemma_vc_step_bounds(c);
    let c1 = vc_step(c);
    if c.ramp_samples == 1 {
        lemma_vc_idle(c1, (n - 1) as nat);
    } else {
        lemma_vc_ramp_convergence(c1, (n - 1) as nat);
    }
}

/// A finished ramp never changes again.
pub proof fn lemma_vc_idle(c: VolumeControl, n: nat)
    requires
        c.ramp_samples == 0,
    ensures
        vc_steps(c, n) == c,
    decreases n,
{
    if n > 0 {
        lemma_vc_idle(c, (n - 1) as nat);
    }
}

/// Law (volume ramp monotonicity): across any number of steps the gain
/// moves monotonically toward the target, never past it.
pub proof fn lemma_vc_ramp_monotone(c: VolumeControl, n: nat)
    requires
        c.wf(),
    ensures
        c.target >= c.current ==> c.current <= vc_steps(c, n).current <= c.target,
        c.target < c.current ==> c.target <= vc_steps(c, n).current <= c.current,
        vc_steps(c, n).target == c.target,
    decreases n,
{
    lemma_vc_step_bounds(c);
    if n > 0 {
        lemma_vc_ramp_monotone(vc_step(c), (n - 1) as nat);
    }
}

/// The gain configured for a channel: the channel's own volume, or
/// unity for channels beyond the configured list.
pub open spec fn chan_gain(vols: Seq<u32>, ch: int) -> int {
    if 0 <= ch < vols.len() {
        vols[ch] as int
    } else {
        UNITY_GAIN as int
    }
}

/// Volume controller: master volume, per-channel volumes, mute state
/// and a configurable-curve ramp. It produces the per-sample gains that
/// the embedder multiplies into the interleaved sample stream.
pub struct VolumeController {
    /// Master volume in millionths (0 to unity).
    pub master_volume: u32,
    /// Per-channel volumes for multi-channel control.
    pub channel_volumes: Vec<u32>,
    /// Mute state.
    pub muted: bool,
    /// Volume before muting (for unmute).
    pub pre_mute_volume: u32,
    /// Volume ramping for smooth transitions.
    pub ramp: VolumeRamp,
}

/// The gain applied to sample `i` of an interleaved stream with
/// `channels` channels, when the ramp outputs `ramp_gain`: zero when
/// muted, else ramp x master x channel volume.
pub open spec fn sample_gain(
    c: VolumeController,
    ramp_gain: int,
    i: int,
    channels: int,
) -> int {
    if c.muted {
        0
    } else {
        gain_mul(
            gain_mul(ramp_gain, c.master_volume as int),
            chan_gain(c.channel_volumes@, i % channels),
        )
    }
}

impl VolumeController {
    pub open spec fn wf(&self) -> bool {
        &&& self.master_volume <= UNITY_GAIN
        &&& self.pre_mute_volume <= UNITY_GAIN
        &&& forall|i: int|
            0 <= i < self.channel_volumes@.len() ==> #[trigger] self.channel_volumes@[i]
                <= UNITY_GAIN
        &&& self.ramp.wf()
    }

    /// Create a volume controller for `channels` channels, all at unity
    /// gain and unmuted.
    pub fn new(channels: usize) -> (r: Self)
        ensures
            r.wf(),
            r.master_volume == UNITY_GAIN,
            r.channel_volumes@.len() == channels,
            forall|i: int| 0 <= i < channels ==> #[trigger] r.channel_volumes@[i] == UNITY_GAIN,
            !r.muted,
            r.pre_mute_volume == UNITY_GAIN,
            r.ramp.current == UNITY_GAIN && r.ramp.target == UNITY_GAIN
                && r.ramp.samples_processed == 0,
    {
        let mut channel_volumes: Vec<u32> = Vec::new();
        let mut i: usize = 0;
        while i < channels
            invariant
                i <= channels,
                channel_volumes@.len() == i,
                forall|j: int| 0 <= j < i ==> #[trigger] channel_volumes@[j] == UNITY_GAIN,
            decreases channels - i,
        {
            channel_volumes.push(UNITY_GAIN);
            i = i + 1;
        }
        VolumeController {
            master_volume: UNITY_GAIN,
            channel_volumes,
            muted: false,
            pre_mute_volume: UNITY_GAIN,
            ramp: VolumeRamp::new(),
        }
    }

    /// Produce the gains for the next `count` samples of an interleaved
    /// stream with `channels` channels. When muted every gain is zero
    /// and the ramp stands still; otherwise the ramp advances one step
    /// per sample and each gain is ramp x master x channel volume.
    pub fn process_gains(&mut self, count: usize, channels: usize) -> (r: Vec<u32>)
        requires
            old(self).wf(),
            channels >= 1,
        ensures
            final(self).wf(),
            r@.len() == count,
            old(self).muted ==> *final(self) == *old(self),
            !old(self).muted ==> *final(self) == (VolumeController {
                ramp: vr_after(old(self).ramp, count as nat),
                ..*old(self)
            }),
            forall|i: int|
                0 <= i < count ==> #[trigger] r@[i] as int == sample_gain(
                    *old(self),
                    vr_out(vr_after(old(self).ramp, i as nat)),
                    i,
                    channels as int,
                ),
    {
        let mut gains: Vec<u32> = Vec::new();
        if self.muted {
            let mut i: usize = 0;
            while i < count
                invariant
                    i <= count,
                    gains@.len() == i,
                    self.muted,
                    forall|j: int| 0 <= j < i ==> #[trigger] gains@[j] == 0,
                decreases count - i,
            {
                gains.push(0);
                i = i + 1;
            }
            return gains;
        }

        let mut i: usize = 0;
        while i < count
            invariant
                self.wf(),
                i <= count,
                gains@.len() == i,
                channels >= 1,
                !self.muted,
                !old(self).muted,
                *self == (VolumeController { ramp: vr_after(old(self).ramp, i as nat), ..*old(
                    self,
                ) }),
                forall|j: int|
                    0 <= j < i ==> #[trigger] gains@[j] as int == sample_gain(
                        *old(self),
                        vr_out(vr_after(old(self).ramp, j as nat)),
                        j,
                        channels as int,
                    ),
            decreases count - i,
        {
            let ramped = self.ramp.next_value();
            proof {
                lemma_vr_after_snoc(old(self).ramp, i as nat);
                lemma_gain_mul_bounds(ramped as int, self.master_volume as int);
            }
            let scaled = gain_mul_exec(ramped, self.master_volume);
            let channel: usize = i % channels;
            let channel_vol: u32 = if channel < self.channel_volumes.len() {
                self.channel_volumes[channel]
            } else {
                UNITY_GAIN
            };
            proof {
                lemma_gain_mul_bounds(scaled as int, channel_vol as int);
            }
            gains.push(gain_mul_exec(scaled, channel_vol));
            i = i + 1;
        }
        gains
    }

    /// Set the master volume in millionths; values above unity clamp to
    /// unity. Also retargets the ramp and, when not muted, remembers
    /// the value for unmuting.
    pub fn set_volume(&mut self, volume: u32) -> (r: Result<()>)
        requires
            old(self).wf(),
        ensures
            final(self).wf(),
            r is Ok,
            final(self).master_volume == clamp_unity(volume),
            final(self).pre_mute_volume == (
                if old(self).muted {
                    old(self).pre_mute_volume
                } else {
                    clamp_unity(volume)
                }
            ),
            final(self).muted == old(self).muted,
            final(self).channel_volumes == old(self).channel_volumes,
            final(self).ramp.target == (
                if clamp_unity(volume) > old(self).ramp.current + 1000 || clamp_unity(volume)
                    + 1000 < old(self).ramp.current {
                    clamp_unity(volume)
                } else {
                    old(self).ramp.target
                }
            ),
    {
        let clamped: u32 = if volume > UNITY_GAIN {
            UNITY_GAIN
        } else {
            volume
        };
        self.master_volume = clamped;
        self.ramp.set_target(clamped);
        if !self.muted {
            self.pre_mute_volume = clamped;
        }
        Ok(())
    }

    /// Get the master volume in millionths.
    pub fn get_volume(&self) -> (r: u32)
        ensures
            r == self.master_volume,
    {
        self.master_volume
    }

    /// Set one channel's volume in millionths (clamped to unity);
    /// returns an audio error exactly when the channel does not exist.
    pub fn set_channel_volume(&mut self, channel: usize, volume: u32) -> (r: Result<()>)
        requires
            old(self).wf(),
        ensures
            final(self).wf(),
            channel < old(self).channel_volumes@.len() ==> {
                &&& r is Ok
                &&& final(self).channel_volumes@ == old(self).channel_volumes@.update(
                    channel as int,
                    clamp_unity(volume),
                )
                &&& *final(self) == (VolumeController {
                    channel_volumes: final(self).channel_volumes,
                    ..*old(self)
                })
            },
            channel >= old(self).channel_volumes@.len() ==> {
                &&& r matches Err(e) && e is Audio
                &&& *final(self) == *old(self)
            },
    {
        if channel >= self.channel_volumes.len() {
            return Err(
                CCPlayerError::Audio(
                    String::from_str("invalid channel index"),
                ),
            );
        }
        let clamped: u32 = if volume > UNITY_GAIN {
            UNITY_GAIN
        } else {
            volume
        };
        self.channel_volumes.set(channel, clamped);
        Ok(())
    }

    /// Get one channel's volume; an audio error exactly when the
    /// channel does not exist.
    pub fn get_channel_volume(&self, channel: usize) -> (r: Result<u32>)
        ensures
            channel < self.channel_volumes@.len() ==> r == Ok::<u32, CCPlayerError>(
                self.channel_volumes@[channel as int],
            ),
            channel >= self.channel_volumes@.len() ==> (r matches Err(e) && e is Audio),
    {
        if channel < self.channel_volumes.len() {
            Ok(self.channel_volumes[channel])
        } else {
            Err(
                CCPlayerError::Audio(
                    String::from_str("invalid channel index"),
                ),
            )
        }
    }

    /// Mute: remember the master volume and silence the output.
    pub fn mute(&mut self)
        requires
            old(self).wf(),
        ensures
            final(self).wf(),
            *final(self) == (VolumeController {
                muted: true,
                pre_mute_volume: old(self).master_volume,
                ..*old(self)
            }),
    {
        self.pre_mute_volume = self.master_volume;
        self.muted = true;
    }

    /// Unmute: restore the remembered volume.
    pub fn unmute(&mut self)
        requires
            old(self).wf(),
        ensures
            final(self).wf(),
            !final(self).muted,
            final(self).master_volume == old(self).pre_mute_volume,
            final(self).pre_mute_volume == old(self).pre_mute_volume,
            final(self).channel_volumes == old(self).channel_volumes,
    {
        self.muted = false;
        let pre_mute = self.pre_mute_volume;
        let _ = self.set_volume(pre_mute);
    }

    /// Toggle mute state.
    pub fn toggle_mute(&mut self)
        requires
            old(self).wf(),
        ensures
            final(self).wf(),
            final(self).muted == !old(self).muted,
            old(self).muted ==> final(self).master_volume == old(self).pre_mute_volume,
            !old(self).muted ==> final(self).pre_mute_volume == old(self).master_volume,
    {
        if self.muted {
            self.unmute();
        } else {
            self.mute();
        }
    }

    /// Check if muted.
    pub fn is_muted(&self) -> (r: bool)
        ensures
            r == self.muted,
    {
        self.muted
    }

    /// Set the ramp duration in samples (at least 1).
    pub fn set_ramp_duration(&mut self, duration_samples: usize)
        requires
            old(self).wf(),
        ensures
            final(self).wf(),
            final(self).ramp.duration_samples == (
                if duration_samples >= 1 {
                    duration_samples
                } else {
                    1usize
                }
            ),
    {
        self.ramp.duration_samples = if duration_samples >= 1 {
            duration_samples
        } else {
            1
        };
    }

    /// Set the ramp shape.
    pub fn set_ramp_type(&mut self, ramp_type: RampType)
        requires
            old(self).wf(),
        ensures
            final(self).wf(),
            final(self).ramp.ramp_type == ramp_type,
            *final(self) == (VolumeController {
                ramp: VolumeRamp { ramp_type, ..old(self).ramp },
                ..*old(self)
            }),
    {
        self.ramp.ramp_type = ramp_type;
    }
}

/// Clamp a gain to at most unity.
pub open spec fn clamp_unity(v: u32) -> u32 {
    if v > UNITY_GAIN {
        UNITY_GAIN
    } else {
        v
    }
}

/// Law (ramp monotonicity, linear shape): during a linear ramp the gain
/// moves monotonically from `current` toward `target`: a later sample's
/// gain is no further from the target than an earlier sample's.
pub proof fn lemma_linear_ramp_monotone(current: int, target: int, p1: int, p2: int)
    requires
        0 <= current <= 1_000_000,
        0 <= target <= 1_000_000,
        0 <= p1 <= p2 <= 1_000_000,
    ensures
        target >= current ==> ramp_value(RampType::Linear, current, target, p1) <= ramp_value(
            RampType::Linear,
            current,
            target,
            p2,
        ) <= target,
        target < current ==> target <= ramp_value(RampType::Linear, current, target, p2)
            <= ramp_value(RampType::Linear, current, target, p1),
{
    if target >= current {
        let d = target - current;
        assert(d * p1 / 1_000_000 <= d * p2 / 1_000_000 && d * p2 / 1_000_000 <= d)
            by (nonlinear_arith)
            requires
                0 <= d <= 1_000_000,
                0 <= p1 <= p2 <= 1_000_000,
        ;
    } else {
        let d = current - target;
        assert(d * p1 / 1_000_000 <= d * p2 / 1_000_000 && d * p2 / 1_000_000 <= d)
            by (nonlinear_arith)
            requires
                0 <= d <= 1_000_000,
                0 <= p1 <= p2 <= 1_000_000,
        ;
    }
}

} // verus!
