//! Bookkeeping and fade schedule of the transitional tuning sound.
//!
//! The audio sink itself lives in the surrounding application; this
//! module tracks whether an output is available and whether the one
//! tuning effect is active — at most one is, and starting a new one
//! replaces any prior one — and computes the fade-out schedule the
//! application plays back: a short fade takes twenty linear steps
//! down to silence, a long one (over three seconds) holds full volume
//! for the first third of sixty steps and then decays along a
//! quadratic curve. Volumes are in thousandths of full scale.

use vstd::prelude::*;

use vstd::arithmetic::div_mod::lemma_div_is_ordered;

verus! {

/// Number of fade steps for a fade of the given length.
pub open spec fn fade_steps(d: int) -> int {
    if d > 3000 {
        60
    } else {
        20
    }
}

/// Number of leading steps held at full volume.
pub open spec fn fade_hold(d: int) -> int {
    if d > 3000 {
        20
    } else {
        0
    }
}

/// Volume of step `i` of a fade of length `d`. A short fade loses the
/// same share every step; a long one stays full through the hold and
/// then follows `1 - p^2` of full scale, where `p` grows evenly to
/// one.
pub open spec fn fade_volume(d: int, i: int) -> int {
    let hold = fade_hold(d);
    let n = fade_steps(d) - hold;
    if d <= 3000 {
        1000 - 1000 * i / n
    } else if i < hold {
        1000
    } else {
        1000 - 1000 * ((i - hold) * (i - hold)) / (n * n)
    }
}

/// A fade schedule: play each volume in turn, waiting `step_ms`
/// between them, then stop the sound.
pub struct FadePlan {
    pub step_ms: u64,
    pub volumes: Vec<u32>,
}

/// Tracks the single transitional tuning effect.
pub struct SoundEffectManager {
    /// Whether an audio output could be opened at all; without one,
    /// playing is refused and everything else is a no-op.
    pub output_available: bool,
    /// Whether the tuning effect is currently active. At most one
    /// effect is active at a time.
    pub tuning_active: bool,
}

impl SoundEffectManager {
    pub fn new(output_available: bool) -> (r: Self)
        ensures
            r.output_available == output_available,
            !r.tuning_active,
    {
        SoundEffectManager { output_available, tuning_active: false }
    }

    /// Starts the tuning effect at full volume, replacing any prior
    /// one; errs exactly when no audio output is available.
    pub fn play_tuning_sound(&mut self) -> (r: Result<(), String>)
        ensures
            r is Ok <==> old(self).output_available,
            old(self).output_available ==> *final(self) == (SoundEffectManager {
                tuning_active: true,
                ..*old(self)
            }),
            !old(self).output_available ==> *final(self) == *old(self),
            r is Err ==> r->Err_0@ == "Audio output not available"@,
    {
        if !self.output_available {
            return Err(String::from_str("Audio output not available"));
        }
        self.tuning_active = true;
        Ok(())
    }

    /// Halts and releases the effect immediately.
    pub fn stop_tuning_sound(&mut self)
        ensures
            *final(self) == (SoundEffectManager { tuning_active: false, ..*old(self) }),
    {
        self.tuning_active = false;
    }

    /// The fade-out schedule for the active effect, or nothing when no
    /// effect is active.
    pub fn fade_out_tuning_sound(&self, duration_ms: u64) -> (r: Option<FadePlan>)
        ensures
            r is Some <==> self.tuning_active,
            r matches Some(p) ==> {
                &&& p.step_ms == duration_ms as int / fade_steps(duration_ms as int)
                &&& p.volumes@.len() == fade_steps(duration_ms as int)
                &&& forall|i: int| 0 <= i < p.volumes@.len() ==> p.volumes@[i] == fade_volume(
                    duration_ms as int,
                    i,
                )
            },
    {
        if !self.tuning_active {
            return None;
        }
        let steps: u64 = if duration_ms > 3000 {
            60
        } else {
            20
        };
        let hold: u64 = if duration_ms > 3000 {
            20
        } else {
            0
        };
        let n: u64 = steps - hold;
        let step_ms = duration_ms / steps;
        let mut volumes: Vec<u32> = Vec::new();
        let mut i: u64 = 0;
        while i < steps
            invariant
                i <= steps,
                steps == fade_steps(duration_ms as int),
                hold == fade_hold(duration_ms as int),
                n == steps - hold,
                n == 40 || n == 20,
                volumes@.len() == i,
                forall|k: int| 0 <= k < i ==> volumes@[k] == fade_volume(duration_ms as int, k),
            decreases steps - i,
        {
            let v: u32 = if duration_ms <= 3000 {
                (1000 - 1000 * i / n) as u32
            } else if i < hold {
                1000
            } else {
                let t = i - hold;
                proof {
                    assert(t * t < n * n) by (nonlinear_arith)
                        requires
                            0 <= t < n,
                    ;
                    assert(t * t <= 1600) by (nonlinear_arith)
                        requires
                            0 <= t < 41,
                    ;
                    assert(n * n == 1600 || n * n == 400) by (nonlinear_arith)
                        requires
                            n == 40 || n == 20,
                    ;
                    assert(1000 * (t * t) < 1000 * (n * n));
                    assert(1000 * (t * t) / (n * n) < 1000);
                }
                (1000 - 1000 * (t * t) / (n * n)) as u32
            };
            volumes.push(v);
            i = i + 1;
        }
        Some(FadePlan { step_ms, volumes })
    }
}

/// The fade schedule never rises: each step's volume is at most the
/// one before it, and the schedule starts at full volume.
pub proof fn lemma_fade_monotone(d: int, i: int, j: int)
    requires
        0 <= i <= j < fade_steps(d),
    ensures
        fade_volume(d, j) <= fade_volume(d, i) <= 1000,
{
    let hold = fade_hold(d);
    let n = fade_steps(d) - hold;
    assert(n == 40 || n == 20);
    assert(n * n == 1600 || n * n == 400) by (nonlinear_arith)
        requires
            n == 40 || n == 20,
    ;
    if d <= 3000 {
        lemma_div_is_ordered(1000 * i, 1000 * j, n);
    } else if i >= hold {
        let a = i - hold;
        let b = j - hold;
        assert(a * a <= b * b) by (nonlinear_arith)
            requires
                0 <= a <= b,
        ;
        lemma_div_is_ordered(1000 * (a * a), 1000 * (b * b), n * n);
        assert(a * a >= 0) by (nonlinear_arith);
    } else if j >= hold {
        let b = j - hold;
        assert(b * b >= 0) by (nonlinear_arith);
    }
}

} // verus!
