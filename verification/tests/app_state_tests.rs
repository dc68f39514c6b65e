use radio_cli::app_state::{
    edit_backspace, edit_insert_char, next_index, prev_index, update_search_results, AppMode,
    AppState,
};
use radio_cli::db::Station;
use radio_cli::rcast::RcastStation;
use radio_cli::visualizations::{VisualizationManager, VisualizationType};

fn station(id: i32, name: &str, desc: Option<&str>) -> Station {
    Station {
        id,
        name: name.to_string(),
        url: format!("http://{}", id),
        favorite: false,
        description: desc.map(|d| d.to_string()),
    }
}

fn rcast(name: &str, desc: Option<&str>) -> RcastStation {
    RcastStation {
        name: name.to_string(),
        url: "https://stream.rcast.net/1".to_string(),
        description: desc.map(|d| d.to_string()),
        bitrate: None,
        genre: None,
        listeners: None,
    }
}

#[test]
fn search_is_case_insensitive_over_name_and_description() {
    let stations = vec![
        station(1, "Groove Salad", Some("chilled beats")),
        station(2, "News Talk", Some("talk radio")),
        station(3, "Quiet", Some("ambient GROOVE textures")),
    ];
    let rcasts = vec![rcast("Groove Lounge", None), rcast("Other", Some("nothing"))];
    let results = update_search_results(&stations, &rcasts, "groove");
    assert_eq!(results.len(), 3);
    assert_eq!(results[0].name, "Groove Salad");
    assert_eq!(results[1].name, "Quiet");
    assert_eq!(results[2].name, "Groove Lounge");
    assert_eq!(results[2].id, 0);
    assert!(!results[2].favorite);
}

#[test]
fn empty_query_yields_nothing() {
    let stations = vec![station(1, "Anything", None)];
    let results = update_search_results(&stations, &Vec::new(), "");
    assert!(results.is_empty());
}

#[test]
fn unmatched_query_yields_nothing() {
    let stations = vec![station(1, "Groove Salad", Some("chill"))];
    let results = update_search_results(&stations, &Vec::new(), "polka");
    assert!(results.is_empty());
}

#[test]
fn typing_into_an_edit_field() {
    let (t1, c1) = edit_insert_char("hllo", 1, 'e');
    assert_eq!(t1, "hello");
    assert_eq!(c1, 2);
    let (t2, c2) = edit_insert_char("abc", 10, '!');
    assert_eq!(t2, "abc!");
    assert_eq!(c2, 11);
    let (t3, c3) = edit_backspace("hello", 5);
    assert_eq!(t3, "hell");
    assert_eq!(c3, 4);
    let (t4, c4) = edit_backspace("hello", 0);
    assert_eq!(t4, "hello");
    assert_eq!(c4, 0);
    let (t5, c5) = edit_backspace("hello", 1);
    assert_eq!(t5, "ello");
    assert_eq!(c5, 0);
}

#[test]
fn list_selection_wraps_both_ways() {
    assert_eq!(next_index(None, 3), 0);
    assert_eq!(next_index(Some(0), 3), 1);
    assert_eq!(next_index(Some(2), 3), 0);
    assert_eq!(prev_index(None, 3), 0);
    assert_eq!(prev_index(Some(0), 3), 2);
    assert_eq!(prev_index(Some(2), 3), 1);
    assert_eq!(next_index(Some(0), 1), 0);
    assert_eq!(prev_index(Some(0), 1), 0);
}

#[test]
fn app_modes_are_distinct() {
    assert_eq!(AppMode::Normal, AppMode::Normal);
    assert_ne!(AppMode::Normal, AppMode::Searching);
    let state = AppState {
        edit_station_name: "n".to_string(),
        edit_station_url: "u".to_string(),
        edit_station_desc: "d".to_string(),
    };
    assert_eq!(state.edit_station_name, "n");
}

#[test]
fn visualization_manager_cycles_variants() {
    let mut vm = VisualizationManager::new();
    assert_eq!(vm.current_type(), VisualizationType::Starfield);
    vm.set_visualization_type(VisualizationType::WaveForms);
    assert_eq!(vm.current_type(), VisualizationType::WaveForms);
    let list = vm.get_available_visualizations();
    assert_eq!(list.len(), 3);
    assert_eq!(list[0].0, VisualizationType::Starfield);
    assert_eq!(list[0].1, "Starfield");
    assert_eq!(list[1].1, "Bar Spectrum");
    assert_eq!(list[1].2, "Audio spectrum visualization with vertical bars");
    assert_eq!(list[2].1, "Wave Forms");
    assert_eq!(VisualizationType::BarSpectrum.label(), "Bar Spectrum");
}
