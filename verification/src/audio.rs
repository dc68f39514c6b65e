//! Shared visualization state and its animation model.
//!
//! All animated quantities are kept in thousandths (per-mille) so the
//! transition rules are exact integer arithmetic: a star depth of `1000`
//! stands for the far plane, a bass impact of `1000` for full energy, a
//! warp speed of `1000` for normal speed. The model is stepped once per
//! render tick; while playing it chases a freshly drawn bass target and
//! advances the star field, while paused it relaxes towards an idle
//! state. Every random draw is taken from a seeded [`RandomSource`], so
//! a scripted sequence of steps is reproducible, and every contract
//! below holds whatever values the draws produce.

use vstd::prelude::*;

use crate::rng::RandomSource;

verus! {

/// What is currently known about the stream being played.
#[derive(Clone)]
pub struct StreamInfo {
    pub bitrate: String,
    pub format: String,
    pub station_name: String,
    pub current_song: Option<String>,
}

/// One particle of the starfield, in per-mille units.
///
/// `x` and `y` range over [-1000, 1000] around the center; `z` is the
/// depth in [0, 1000] where larger means closer to the viewer.
#[derive(Clone, Copy, PartialEq, Eq, Structural, Debug)]
pub struct Star {
    pub x: i32,
    pub y: i32,
    pub z: u32,
    pub brightness: u32,
    pub speed: u32,
    pub color: u8,
}

/// Bounds every star keeps between steps.
pub open spec fn star_wf(s: Star) -> bool {
    &&& -1000 <= s.x <= 1000
    &&& -1000 <= s.y <= 1000
    &&& s.z <= 1000
    &&& 200 <= s.brightness <= 1000
    &&& 5 <= s.speed <= 20
    &&& s.color < 5
}

/// Depth gained by a star in one step: full rate while playing, a fifth
/// of it while paused.
pub open spec fn star_advance(speed: int, warp: int, playing: bool) -> int {
    if playing {
        speed * warp / 1000
    } else {
        speed * warp / 5000
    }
}

/// How one step transforms a single star.
///
/// A star whose advanced depth passes the far plane is recycled to a
/// fresh position at depth 10 (0.01); while paused the recycled star
/// keeps its brightness, speed and color. A star that stays inside the
/// field only gains depth.
pub open spec fn star_step_ok(pre: Star, post: Star, warp: int, playing: bool) -> bool {
    let adv = pre.z + star_advance(pre.speed as int, warp, playing);
    if adv > 1000 {
        &&& post.z == 10
        &&& star_wf(post)
        &&& (!playing ==> post.brightness == pre.brightness && post.speed == pre.speed
            && post.color == pre.color)
    } else {
        &&& post.z == adv
        &&& post.x == pre.x
        &&& post.y == pre.y
        &&& post.brightness == pre.brightness
        &&& post.speed == pre.speed
        &&& post.color == pre.color
    }
}

/// Exponential smoothing of the bass impact towards a drawn target.
pub open spec fn bass_mix(b: int, target: int) -> int {
    (b * 9 + target) / 10
}

/// One idle step of the warp speed: relax towards 500 (half speed).
pub open spec fn idle_warp(w: int) -> int {
    500 + (w - 500) * 95 / 100
}

/// One idle step of the bass impact: plain decay towards zero.
pub open spec fn idle_bass(b: int) -> int {
    b * 95 / 100
}

/// Volume after one up or down key, clamped to [0, 100].
pub open spec fn vol_up(v: int) -> int {
    if v + 5 <= 100 {
        v + 5
    } else {
        100
    }
}

pub open spec fn vol_down(v: int) -> int {
    if v - 5 >= 0 {
        v - 5
    } else {
        0
    }
}

/// The shared animation state, stepped once per render tick.
#[derive(Clone)]
pub struct AudioState {
    pub stars: Vec<Star>,
    pub bass_impact: u32,
    pub is_playing: bool,
    pub is_muted: bool,
    pub volume: u8,
    pub stream_info: Option<StreamInfo>,
    pub frame_count: u64,
    pub warp_speed: u32,
}

impl AudioState {
    /// Invariant of the state between steps: volume clamped, bass and
    /// warp inside their per-mille ranges, star count between its floor
    /// and cap, every star well formed.
    pub open spec fn wf(self) -> bool {
        &&& self.volume <= 100
        &&& self.bass_impact <= 1000
        &&& 500 <= self.warp_speed <= 3000
        &&& 50 <= self.stars@.len() <= 250
        &&& forall|i: int| 0 <= i < self.stars@.len() ==> star_wf(#[trigger] self.stars@[i])
    }

    /// A fresh state: 200 random stars, silence, half volume.
    pub fn new(rng: &mut RandomSource) -> (r: Self)
        ensures
            r.wf(),
            r.stars@.len() == 200,
            r.bass_impact == 0,
            !r.is_playing,
            !r.is_muted,
            r.volume == 50,
            r.stream_info is None,
            r.frame_count == 0,
            r.warp_speed == 1000,
    {
        let mut stars: Vec<Star> = Vec::new();
        let mut i: usize = 0;
        while i < 200
            invariant
                i <= 200,
                stars@.len() == i,
                forall|k: int| 0 <= k < i ==> star_wf(#[trigger] stars@[k]),
            decreases 200 - i,
        {
            let star = Star {
                x: rng.next_in(0, 2000) as i32 - 1000,
                y: rng.next_in(0, 2000) as i32 - 1000,
                z: rng.next_in(10, 999),
                brightness: rng.next_in(200, 999),
                speed: rng.next_in(5, 19),
                color: rng.next_in(0, 4) as u8,
            };
            stars.push(star);
            i = i + 1;
        }
        AudioState {
            stars,
            bass_impact: 0,
            is_playing: false,
            is_muted: false,
            volume: 50,
            stream_info: None,
            frame_count: 0,
            warp_speed: 1000,
        }
    }

    /// One tick of the animation.
    ///
    /// While playing, the bass impact chases a freshly drawn target
    /// (a drop target from [800, 999] in one roll out of twenty, an
    /// ordinary one from [200, 599] otherwise), the warp speed follows
    /// the bass, every star advances at the new warp and recycles past
    /// the far plane, and one roll out of twenty appends a star up to
    /// the cap of 250. While paused, warp and bass decay towards the
    /// idle values, the stars crawl at a fifth of the rate, and one
    /// roll out of a hundred removes a star down to the floor of 50.
    pub fn update_visualization(&mut self, rng: &mut RandomSource)
        requires
            old(self).wf(),
            old(self).frame_count < u64::MAX,
        ensures
            final(self).wf(),
            final(self).frame_count == old(self).frame_count + 1,
            final(self).is_playing == old(self).is_playing,
            final(self).is_muted == old(self).is_muted,
            final(self).volume == old(self).volume,
            final(self).stream_info == old(self).stream_info,
            old(self).is_playing ==> exists|t: int|
                200 <= t <= 1000 && final(self).bass_impact == #[trigger] bass_mix(
                    old(self).bass_impact as int,
                    t,
                ),
            old(self).is_playing ==> final(self).warp_speed == 1000 + final(self).bass_impact
                * 2,
            old(self).is_playing ==> old(self).stars@.len() <= final(self).stars@.len()
                <= old(self).stars@.len() + 1,
            old(self).is_playing && final(self).stars@.len() > old(self).stars@.len() ==> {
                &&& old(self).stars@.len() < 250
                &&& star_wf(final(self).stars@.last())
                &&& final(self).stars@.last().z == 10
            },
            old(self).is_playing ==> forall|i: int| 0 <= i < old(self).stars@.len()
                ==> star_step_ok(
                    old(self).stars@[i],
                    #[trigger] final(self).stars@[i],
                    final(self).warp_speed as int,
                    true,
                ),
            !old(self).is_playing ==> final(self).warp_speed == idle_warp(
                old(self).warp_speed as int,
            ),
            !old(self).is_playing ==> final(self).bass_impact == idle_bass(
                old(self).bass_impact as int,
            ),
            !old(self).is_playing ==> old(self).stars@.len() - 1 <= final(self).stars@.len()
                <= old(self).stars@.len(),
            !old(self).is_playing && old(self).stars@.len() <= 50 ==> final(self).stars@.len()
                == old(self).stars@.len(),
            !old(self).is_playing ==> forall|i: int| 0 <= i < final(self).stars@.len()
                ==> star_step_ok(
                    old(self).stars@[i],
                    #[trigger] final(self).stars@[i],
                    final(self).warp_speed as int,
                    false,
                ),
    {
        self.frame_count = self.frame_count + 1;
        let playing = self.is_playing;

        if playing {
            let drop_roll = rng.next_in(0, 999);
            let target = if drop_roll < 50 {
                rng.next_in(800, 999)
            } else {
                rng.next_in(200, 599)
            };
            let mixed = (self.bass_impact * 9 + target) / 10;
            proof {
                assert(mixed == bass_mix(old(self).bass_impact as int, target as int));
            }
            self.bass_impact = mixed;
            self.warp_speed = 1000 + self.bass_impact * 2;
        } else {
            self.warp_speed = 500 + (self.warp_speed - 500) * 95 / 100;
            self.bass_impact = self.bass_impact * 95 / 100;
        }

        let warp = self.warp_speed;
        let ghost pre_loop = *self;
        let n = self.stars.len();
        let mut i: usize = 0;
        while i < n
            invariant
                i <= n,
                n == self.stars@.len(),
                *self == (AudioState { stars: self.stars, ..pre_loop }),
                500 <= warp <= 3000,
                warp == pre_loop.warp_speed,
                playing == pre_loop.is_playing,
                forall|k: int| 0 <= k < n ==> star_wf(#[trigger] pre_loop.stars@[k]),
                forall|k: int| 0 <= k < i ==> star_step_ok(
                    pre_loop.stars@[k],
                    #[trigger] self.stars@[k],
                    warp as int,
                    playing,
                ),
                forall|k: int| 0 <= k < i ==> star_wf(#[trigger] self.stars@[k]),
                forall|k: int| i <= k < n ==> #[trigger] self.stars@[k] == pre_loop.stars@[k],
            decreases n - i,
        {
            let s = self.stars[i];
            let stepped = step_star(s, warp, playing, rng);
            self.stars[i] = stepped;
            i = i + 1;
        }

        if playing {
            let add_roll = rng.next_in(0, 999);
            if add_roll < 50 && self.stars.len() < 250 {
                let star = Star {
                    x: rng.next_in(0, 2000) as i32 - 1000,
                    y: rng.next_in(0, 2000) as i32 - 1000,
                    z: 10,
                    brightness: rng.next_in(200, 999),
                    speed: rng.next_in(5, 19),
                    color: rng.next_in(0, 4) as u8,
                };
                self.stars.push(star);
            }
        } else {
            let remove_roll = rng.next_in(0, 999);
            if remove_roll < 10 && self.stars.len() > 50 {
                self.stars.pop();
            }
        }
    }
}

/// One step of a single star at the given warp speed.
fn step_star(pre: Star, warp: u32, playing: bool, rng: &mut RandomSource) -> (post: Star)
    requires
        star_wf(pre),
        500 <= warp <= 3000,
    ensures
        star_step_ok(pre, post, warp as int, playing),
        star_wf(post),
{
    proof {
        assert(pre.speed * warp <= 60000) by (nonlinear_arith)
            requires
                pre.speed <= 20,
                warp <= 3000,
        ;
    }
    let gain = if playing {
        pre.speed * warp / 1000
    } else {
        pre.speed * warp / 5000
    };
    let advanced = pre.z + gain;
    if advanced > 1000 {
        if playing {
            let color = if rng.next_in(0, 999) < 300 {
                rng.next_in(0, 4) as u8
            } else {
                pre.color
            };
            Star {
                x: rng.next_in(0, 2000) as i32 - 1000,
                y: rng.next_in(0, 2000) as i32 - 1000,
                z: 10,
                brightness: rng.next_in(200, 999),
                speed: rng.next_in(5, 19),
                color,
            }
        } else {
            Star {
                x: rng.next_in(0, 2000) as i32 - 1000,
                y: rng.next_in(0, 2000) as i32 - 1000,
                z: 10,
                ..pre
            }
        }
    } else {
        Star { z: advanced, ..pre }
    }
}

/// A star that passes the far plane on one step sits at depth below
/// 0.02 on the very next frame.
pub proof fn lemma_star_recycling(pre: Star, post: Star, warp: int)
    requires
        star_step_ok(pre, post, warp, true),
        pre.z + star_advance(pre.speed as int, warp, true) > 1000,
    ensures
        post.z < 20,
{
}

/// While paused, the warp speed relaxes towards 500 without ever
/// passing below it, strictly losing ground whenever it is above, and
/// the bass impact decays towards zero the same way.
pub proof fn lemma_idle_decay(w: int, b: int)
    requires
        500 <= w <= 3000,
        0 <= b <= 1000,
    ensures
        500 <= idle_warp(w) <= w,
        w > 500 ==> idle_warp(w) < w,
        0 <= idle_bass(b) <= b,
        b > 0 ==> idle_bass(b) < b,
{
    let d = w - 500;
    assert(d * 95 / 100 >= 0);
    assert(d * 95 / 100 <= d);
    if d > 0 {
        assert(d * 95 < d * 100);
        assert(d * 95 / 100 < d);
    }
    assert(b * 95 / 100 <= b);
    if b > 0 {
        assert(b * 95 < b * 100);
        assert(b * 95 / 100 < b);
    }
}

/// Warp speed after `n` sustained idle steps.
pub open spec fn idle_warp_iter(w: int, n: nat) -> int
    decreases n,
{
    if n == 0 {
        w
    } else {
        idle_warp_iter(idle_warp(w), (n - 1) as nat)
    }
}

/// Bass impact after `n` sustained idle steps.
pub open spec fn idle_bass_iter(b: int, n: nat) -> int
    decreases n,
{
    if n == 0 {
        b
    } else {
        idle_bass_iter(idle_bass(b), (n - 1) as nat)
    }
}

/// A sufficiently long pause brings the warp speed exactly to its rest
/// value and the bass impact exactly to zero: the idle step loses at
/// least one unit per step while away from rest, and never passes it.
pub proof fn lemma_idle_decay_converges(w: int, b: int, n: nat)
    requires
        500 <= w <= 3000,
        0 <= b <= 1000,
        n >= w - 500,
        n >= b,
    ensures
        idle_warp_iter(w, n) == 500,
        idle_bass_iter(b, n) == 0,
    decreases n,
{
    if n > 0 {
        lemma_idle_decay(w, b);
        lemma_idle_decay_converges(idle_warp(w), idle_bass(b), (n - 1) as nat);
    }
}

/// Volume after a run of up keys from `v`: `min(100, v + 5 n)`.
pub open spec fn vol_after_ups(v: int, n: nat) -> int
    decreases n,
{
    if n == 0 {
        v
    } else {
        vol_up(vol_after_ups(v, (n - 1) as nat))
    }
}

/// Volume after a run of down keys from `v`: `max(0, v - 5 n)`.
pub open spec fn vol_after_downs(v: int, n: nat) -> int
    decreases n,
{
    if n == 0 {
        v
    } else {
        vol_down(vol_after_downs(v, (n - 1) as nat))
    }
}

/// After `n` volume-up presses from a clamped volume `v`, the volume is
/// exactly `min(100, v + 5 n)`; after `n` volume-down presses it is
/// exactly `max(0, v - 5 n)`.
pub proof fn lemma_volume_bounds(v: int, n: nat)
    requires
        0 <= v <= 100,
    ensures
        vol_after_ups(v, n) == if v + 5 * n <= 100 { v + 5 * n as int } else { 100 as int },
        vol_after_downs(v, n) == if v - 5 * n >= 0 { v - 5 * n as int } else { 0 as int },
    decreases n,
{
    if n > 0 {
        lemma_volume_bounds(v, (n - 1) as nat);
    }
}

/// Owns the animation state on behalf of the render path; the
/// application shares it behind its own lock and skips a frame when the
/// lock is contended.
pub struct AudioVisualizer {
    pub state: AudioState,
}

impl AudioVisualizer {
    pub fn new(rng: &mut RandomSource) -> (r: Self)
        ensures
            r.state.wf(),
            !r.state.is_playing,
            !r.state.is_muted,
            r.state.volume == 50,
            r.state.stream_info is None,
            r.state.frame_count == 0,
    {
        AudioVisualizer { state: AudioState::new(rng) }
    }

    /// One animation tick.
    pub fn update(&mut self, rng: &mut RandomSource)
        requires
            old(self).state.wf(),
            old(self).state.frame_count < u64::MAX,
        ensures
            final(self).state.wf(),
            final(self).state.frame_count == old(self).state.frame_count + 1,
            final(self).state.is_playing == old(self).state.is_playing,
            final(self).state.is_muted == old(self).state.is_muted,
            final(self).state.volume == old(self).state.volume,
            final(self).state.stream_info == old(self).state.stream_info,
            !old(self).state.is_playing ==> final(self).state.warp_speed == idle_warp(
                old(self).state.warp_speed as int,
            ) && final(self).state.bass_impact == idle_bass(old(self).state.bass_impact as int),
    {
        self.state.update_visualization(rng);
    }

    /// Marks the state playing or paused; pausing clears the stream
    /// information.
    pub fn set_playing(&mut self, playing: bool)
        ensures
            final(self).state == (AudioState {
                is_playing: playing,
                stream_info: if playing { old(self).state.stream_info } else { None },
                ..old(self).state
            }),
    {
        self.state.is_playing = playing;
        if !playing {
            self.state.stream_info = None;
        }
    }

    pub fn set_muted(&mut self, muted: bool)
        ensures
            final(self).state == (AudioState { is_muted: muted, ..old(self).state }),
    {
        self.state.is_muted = muted;
    }

    /// Raises the volume one step, clamped at 100.
    pub fn increase_volume(&mut self)
        ensures
            final(self).state == (AudioState {
                volume: vol_up(old(self).state.volume as int) as u8,
                ..old(self).state
            }),
    {
        if self.state.volume <= 95 {
            self.state.volume = self.state.volume + 5;
        } else {
            self.state.volume = 100;
        }
    }

    /// Lowers the volume one step, clamped at 0.
    pub fn decrease_volume(&mut self)
        ensures
            final(self).state == (AudioState {
                volume: vol_down(old(self).state.volume as int) as u8,
                ..old(self).state
            }),
    {
        if self.state.volume >= 5 {
            self.state.volume = self.state.volume - 5;
        } else {
            self.state.volume = 0;
        }
    }

    pub fn get_volume(&self) -> (r: u8)
        ensures
            r == self.state.volume,
    {
        self.state.volume
    }

    /// Installs fresh stream information for a newly started station.
    pub fn set_stream_info(&mut self, station_name: String, bitrate: String, format: String)
        ensures
            final(self).state == (AudioState {
                stream_info: Some(
                    StreamInfo { bitrate, format, station_name, current_song: None },
                ),
                ..old(self).state
            }),
    {
        self.state.stream_info = Some(
            StreamInfo { bitrate, format, station_name, current_song: None },
        );
    }

    /// Replaces the current song, leaving the rest of the stream
    /// information untouched; does nothing when no stream is known.
    pub fn update_current_song(&mut self, song: Option<String>)
        ensures
            old(self).state.stream_info is None ==> *final(self) == *old(self),
            old(self).state.stream_info is Some ==> final(self).state == (AudioState {
                stream_info: Some(
                    StreamInfo { current_song: song, ..old(self).state.stream_info->0 },
                ),
                ..old(self).state
            }),
    {
        match &mut self.state.stream_info {
            Some(info) => {
                info.current_song = song;
            },
            None => {},
        }
    }
}

} // verus!
