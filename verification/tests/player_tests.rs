use radio_cli::audio::AudioVisualizer;
use radio_cli::player::{
    Player, StartDecision, CROSSFADE_OVERLAP_MS, CROSSFADE_WINDOW_MS,
};
use radio_cli::rng::RandomSource;

fn fresh() -> (Player, AudioVisualizer) {
    let mut rng = RandomSource::from_seed(11);
    (Player::new(), AudioVisualizer::new(&mut rng))
}

#[test]
fn start_on_idle_controller() {
    let (mut player, mut vis) = fresh();
    assert_eq!(player.start_decision(), StartDecision::Immediate);
    let effects = player
        .play_station("A".to_string(), "http://a".to_string(), &mut vis, Ok(1))
        .unwrap();
    assert!(!effects.play_effect);
    assert!(vis.state.is_playing);
    assert!(!player.crossfade_active);
    let info = vis.state.stream_info.as_ref().unwrap();
    assert_eq!(info.station_name, "A");
    assert_eq!(info.bitrate, "Detecting...");
    assert_eq!(info.format, "Detecting...");
    assert_eq!(player.current_player.as_ref().unwrap().handle, 1);
}

#[test]
fn switching_station_crossfades_exactly_once() {
    let (mut player, mut vis) = fresh();
    player
        .play_station("A".to_string(), "http://a".to_string(), &mut vis, Ok(1))
        .unwrap();

    // A second start before any metadata arrived begins a transition.
    assert_eq!(player.start_decision(), StartDecision::Crossfade);
    let effects = player
        .play_station("B".to_string(), "http://b".to_string(), &mut vis, Ok(2))
        .unwrap();
    assert!(effects.play_effect);
    assert_eq!(effects.overlap_ms, CROSSFADE_OVERLAP_MS);
    assert_eq!(effects.overlap_ms, 1500);
    assert_eq!(effects.total_window_ms, CROSSFADE_WINDOW_MS);
    assert_eq!(effects.total_window_ms, 6000);
    assert!(player.crossfade_active);
    assert_eq!(vis.state.stream_info.as_ref().unwrap().station_name, "B");

    // While the window is open a third start is refused outright.
    assert_eq!(player.start_decision(), StartDecision::Rejected);

    // The overlap timer hands the old decoder out exactly once.
    assert_eq!(player.on_overlap_elapsed(), Some(1));
    assert_eq!(player.on_overlap_elapsed(), None);

    // The window timer clears the token; only B's decoder remains.
    player.on_crossfade_window_elapsed();
    assert!(!player.crossfade_active);
    assert_eq!(player.current_player.as_ref().unwrap().handle, 2);
    assert_eq!(player.start_decision(), StartDecision::Crossfade);
}

#[test]
fn spawn_failure_is_reported_and_state_kept() {
    let (mut player, mut vis) = fresh();
    let before_playing = vis.state.is_playing;
    let r = player.play_station(
        "Bad".to_string(),
        "http://bad".to_string(),
        &mut vis,
        Err("no decoder on path".to_string()),
    );
    assert_eq!(r.unwrap_err(), "no decoder on path");
    assert_eq!(vis.state.is_playing, before_playing);
    assert!(player.current_player.is_none());
    assert!(!player.crossfade_active);
    let info = vis.state.stream_info.as_ref().unwrap();
    assert_eq!(info.station_name, "Bad");
    assert_eq!(info.bitrate, "Error");
    assert_eq!(info.format, "Failed to start: no decoder on path");
}

#[test]
fn stop_is_idempotent_and_resets_mute() {
    let (mut player, mut vis) = fresh();
    player
        .play_station("A".to_string(), "http://a".to_string(), &mut vis, Ok(7))
        .unwrap();
    player.toggle_mute(&mut vis).unwrap();
    assert!(player.is_muted);
    let kills = player.stop();
    assert_eq!(kills, (Some(7), None));
    assert!(!player.is_muted);
    assert!(player.current_player.is_none());
    let again = player.stop();
    assert_eq!(again, (None, None));
}

#[test]
fn stop_hands_out_pending_old_decoder() {
    let (mut player, mut vis) = fresh();
    player
        .play_station("A".to_string(), "http://a".to_string(), &mut vis, Ok(1))
        .unwrap();
    player
        .play_station("B".to_string(), "http://b".to_string(), &mut vis, Ok(2))
        .unwrap();
    let kills = player.stop();
    assert_eq!(kills, (Some(2), Some(1)));
}

#[test]
fn controls_err_without_running_player() {
    let (mut player, mut vis) = fresh();
    assert_eq!(
        player.toggle_mute(&mut vis).unwrap_err(),
        "No player is currently running"
    );
    // The mute flag and its mirror still flip, as the interface shows.
    assert!(player.is_muted);
    assert!(vis.state.is_muted);
    assert_eq!(
        player.volume_up(&mut vis).unwrap_err(),
        "No player is currently running"
    );
    assert_eq!(
        player.volume_down(&mut vis).unwrap_err(),
        "No player is currently running"
    );
    assert_eq!(vis.get_volume(), 50);
}

#[test]
fn volume_keys_reach_the_visualizer() {
    let (mut player, mut vis) = fresh();
    player
        .play_station("A".to_string(), "http://a".to_string(), &mut vis, Ok(1))
        .unwrap();
    player.volume_up(&mut vis).unwrap();
    assert_eq!(vis.get_volume(), 55);
    player.volume_down(&mut vis).unwrap();
    player.volume_down(&mut vis).unwrap();
    assert_eq!(vis.get_volume(), 45);
}

#[test]
fn update_metadata_is_a_quiet_no_op() {
    let (mut player, vis) = fresh();
    player.update_metadata(&vis);
    assert!(player.current_player.is_none());
}
