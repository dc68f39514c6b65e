use radio_cli::db::format_play_time;
use radio_cli::sound_effects::SoundEffectManager;
use radio_cli::strutil::{
    concat_str, contains_sub, find_sub, replace_all, rfind_sub, str_eq, to_dec_string,
    to_lowercase_str, trim_str,
};

#[test]
fn play_time_formats_exactly() {
    assert_eq!(format_play_time(0), "0s");
    assert_eq!(format_play_time(45), "45s");
    assert_eq!(format_play_time(59), "59s");
    assert_eq!(format_play_time(60), "1m 0s");
    assert_eq!(format_play_time(125), "2m 5s");
    assert_eq!(format_play_time(3599), "59m 59s");
    assert_eq!(format_play_time(3600), "1h 0m");
    assert_eq!(format_play_time(7384), "2h 3m");
    assert_eq!(format_play_time(86400), "24h 0m");
}

#[test]
fn decimal_rendering() {
    assert_eq!(to_dec_string(0), "0");
    assert_eq!(to_dec_string(7), "7");
    assert_eq!(to_dec_string(90125), "90125");
    assert_eq!(to_dec_string(u64::MAX), "18446744073709551615");
}

#[test]
fn substring_search() {
    assert_eq!(find_sub("hello world", "world"), Some(6));
    assert_eq!(find_sub("hello world", "o"), Some(4));
    assert_eq!(find_sub("hello world", "xyz"), None);
    assert_eq!(find_sub("aaa", "aa"), Some(0));
    assert_eq!(rfind_sub("aaa", "aa"), Some(1));
    assert_eq!(rfind_sub("<h4>x</h4><h4>y", "<h4"), Some(10));
    assert!(contains_sub("FORMAT: mp3", "FORMAT:"));
    assert!(!contains_sub("short", "longer than it"));
}

#[test]
fn trimming_and_equality() {
    assert_eq!(trim_str("  padded  "), "padded");
    assert_eq!(trim_str("\t\n mix \r "), "mix");
    assert_eq!(trim_str("   "), "");
    assert_eq!(trim_str("tight"), "tight");
    assert!(str_eq("same", "same"));
    assert!(!str_eq("same", "sane"));
    assert!(!str_eq("same", "same "));
}

#[test]
fn replacement_scans_left_to_right() {
    assert_eq!(replace_all("a&amp;b&amp;c", "&amp;", "&"), "a&b&c");
    assert_eq!(replace_all("no markers", "&lt;", "<"), "no markers");
    assert_eq!(replace_all("xxx", "xx", "y"), "yx");
    assert_eq!(concat_str("128", " kbps"), "128 kbps");
}

#[test]
fn lowercase_folds_case() {
    // Would fail if the case folding handed its input back unchanged.
    let lowered = to_lowercase_str("Groove SALAD");
    assert_eq!(lowered, "groove salad");
}

#[test]
fn short_fade_is_twenty_linear_steps() {
    let mut sem = SoundEffectManager::new(true);
    sem.play_tuning_sound().unwrap();
    let plan = sem.fade_out_tuning_sound(2000).unwrap();
    assert_eq!(plan.step_ms, 100);
    assert_eq!(plan.volumes.len(), 20);
    assert_eq!(plan.volumes[0], 1000);
    assert_eq!(plan.volumes[10], 500);
    assert_eq!(plan.volumes[19], 50);
    for w in plan.volumes.windows(2) {
        assert_eq!(w[0] - w[1], 50);
    }
}

#[test]
fn long_fade_holds_then_decays() {
    let mut sem = SoundEffectManager::new(true);
    sem.play_tuning_sound().unwrap();
    let plan = sem.fade_out_tuning_sound(6000).unwrap();
    assert_eq!(plan.step_ms, 100);
    assert_eq!(plan.volumes.len(), 60);
    for i in 0..=20 {
        assert_eq!(plan.volumes[i], 1000);
    }
    // 1 - (39/40)^2 of full volume on the last step.
    assert_eq!(plan.volumes[59], 50);
    for w in plan.volumes.windows(2) {
        assert!(w[1] <= w[0]);
    }
}

#[test]
fn effect_without_output_errs() {
    let mut sem = SoundEffectManager::new(false);
    assert_eq!(
        sem.play_tuning_sound().unwrap_err(),
        "Audio output not available"
    );
    assert!(sem.fade_out_tuning_sound(2000).is_none());
}

#[test]
fn one_effect_at_a_time() {
    let mut sem = SoundEffectManager::new(true);
    assert!(sem.fade_out_tuning_sound(1000).is_none());
    sem.play_tuning_sound().unwrap();
    assert!(sem.tuning_active);
    sem.play_tuning_sound().unwrap();
    assert!(sem.tuning_active);
    sem.stop_tuning_sound();
    assert!(!sem.tuning_active);
    assert!(sem.fade_out_tuning_sound(1000).is_none());
}
