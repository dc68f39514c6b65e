use radio_cli::audio::{AudioState, AudioVisualizer, Star};
use radio_cli::rng::RandomSource;

#[test]
fn fresh_state_defaults() {
    let mut rng = RandomSource::from_seed(1);
    let state = AudioState::new(&mut rng);
    assert_eq!(state.stars.len(), 200);
    assert_eq!(state.volume, 50);
    assert_eq!(state.bass_impact, 0);
    assert_eq!(state.warp_speed, 1000);
    assert_eq!(state.frame_count, 0);
    assert!(!state.is_playing);
    assert!(!state.is_muted);
    assert!(state.stream_info.is_none());
    for star in &state.stars {
        assert!(-1000 <= star.x && star.x <= 1000);
        assert!(-1000 <= star.y && star.y <= 1000);
        assert!(star.z <= 1000);
        assert!(200 <= star.brightness && star.brightness <= 1000);
        assert!(5 <= star.speed && star.speed <= 20);
        assert!(star.color < 5);
    }
}

#[test]
fn volume_up_is_clamped() {
    let mut rng = RandomSource::from_seed(2);
    let mut vis = AudioVisualizer::new(&mut rng);
    assert_eq!(vis.get_volume(), 50);
    for n in 1..=15u32 {
        vis.increase_volume();
        let expected = std::cmp::min(100, 50 + 5 * n);
        assert_eq!(u32::from(vis.get_volume()), expected);
    }
    assert_eq!(vis.get_volume(), 100);
}

#[test]
fn volume_down_is_clamped() {
    let mut rng = RandomSource::from_seed(3);
    let mut vis = AudioVisualizer::new(&mut rng);
    for n in 1..=15i32 {
        vis.decrease_volume();
        let expected = std::cmp::max(0, 50 - 5 * n);
        assert_eq!(i32::from(vis.get_volume()), expected);
    }
    assert_eq!(vis.get_volume(), 0);
}

#[test]
fn star_past_far_plane_recycles_close() {
    let mut rng = RandomSource::from_seed(4);
    let mut state = AudioState::new(&mut rng);
    state.is_playing = true;
    state.stars[0] = Star { x: 0, y: 0, z: 995, brightness: 500, speed: 20, color: 1 };
    state.update_visualization(&mut rng);
    // Whatever warp speed the step drew, the star advanced by at least
    // 20 thousandths, passed 1000 and recycled far away.
    assert!(state.stars[0].z < 20);
    assert_eq!(state.stars[0].z, 10);
}

#[test]
fn idle_decay_approaches_rest_without_overshoot() {
    let mut rng = RandomSource::from_seed(5);
    let mut state = AudioState::new(&mut rng);
    state.is_playing = true;
    for _ in 0..50 {
        state.update_visualization(&mut rng);
    }
    state.is_playing = false;
    let mut prev_warp = state.warp_speed;
    let mut prev_bass = state.bass_impact;
    for _ in 0..400 {
        state.update_visualization(&mut rng);
        assert!(state.warp_speed >= 500);
        assert!(state.warp_speed <= prev_warp);
        assert!(state.bass_impact <= prev_bass);
        prev_warp = state.warp_speed;
        prev_bass = state.bass_impact;
    }
    assert_eq!(state.warp_speed, 500);
    assert_eq!(state.bass_impact, 0);
}

#[test]
fn playing_step_keeps_invariants() {
    let mut rng = RandomSource::from_seed(6);
    let mut state = AudioState::new(&mut rng);
    state.is_playing = true;
    for i in 0..300u64 {
        state.update_visualization(&mut rng);
        assert_eq!(state.frame_count, i + 1);
        assert!(state.bass_impact <= 1000);
        assert!(1000 <= state.warp_speed && state.warp_speed <= 3000);
        assert_eq!(state.warp_speed, 1000 + 2 * state.bass_impact);
        assert!(state.stars.len() <= 250);
        assert!(state.stars.len() >= 200);
    }
}

#[test]
fn paused_step_shrinks_field_to_floor() {
    let mut rng = RandomSource::from_seed(7);
    let mut state = AudioState::new(&mut rng);
    state.is_playing = false;
    for _ in 0..40000 {
        state.update_visualization(&mut rng);
        assert!(state.stars.len() >= 50);
    }
    // With a one-in-a-hundred removal roll per step, forty thousand
    // steps reach the floor.
    assert_eq!(state.stars.len(), 50);
}

#[test]
fn scripted_run_is_reproducible_from_seed() {
    let mut rng_a = RandomSource::from_seed(99);
    let mut rng_b = RandomSource::from_seed(99);
    let mut a = AudioState::new(&mut rng_a);
    let mut b = AudioState::new(&mut rng_b);
    for step in 0..120 {
        let playing = step % 3 != 0;
        a.is_playing = playing;
        b.is_playing = playing;
        a.update_visualization(&mut rng_a);
        b.update_visualization(&mut rng_b);
    }
    assert_eq!(a.stars.len(), b.stars.len());
    assert_eq!(a.bass_impact, b.bass_impact);
    assert_eq!(a.warp_speed, b.warp_speed);
    for (sa, sb) in a.stars.iter().zip(b.stars.iter()) {
        assert_eq!(sa, sb);
    }
}

#[test]
fn seeded_draws_stay_in_range() {
    let mut rng = RandomSource::from_seed(8);
    assert_eq!(rng.next_in(5, 5), 5);
    for _ in 0..1000 {
        let v = rng.next_in(10, 20);
        assert!(10 <= v && v <= 20);
    }
}

#[test]
fn set_playing_false_clears_stream_info() {
    let mut rng = RandomSource::from_seed(9);
    let mut vis = AudioVisualizer::new(&mut rng);
    vis.set_stream_info("KEXP".to_string(), "128 kbps".to_string(), "mp3".to_string());
    assert!(vis.state.stream_info.is_some());
    vis.set_playing(true);
    assert!(vis.state.stream_info.is_some());
    vis.set_playing(false);
    assert!(vis.state.stream_info.is_none());
}

#[test]
fn update_current_song_touches_only_song() {
    let mut rng = RandomSource::from_seed(10);
    let mut vis = AudioVisualizer::new(&mut rng);
    vis.update_current_song(Some("ignored".to_string()));
    assert!(vis.state.stream_info.is_none());
    vis.set_stream_info("WFMU".to_string(), "b".to_string(), "f".to_string());
    vis.update_current_song(Some("Tune".to_string()));
    let info = vis.state.stream_info.as_ref().unwrap();
    assert_eq!(info.station_name, "WFMU");
    assert_eq!(info.current_song.as_deref(), Some("Tune"));
}
