use better_bar::clock::format_clock;
use better_bar::config::{
    get_config, get_config_mut, init_config, string_to_edge, Config, ConfigStore, ScreenEdge,
};
use better_bar::window::{normalize_title, TitleDebouncer};

#[test]
fn defaults_enable_everything_at_the_top() {
    let c = Config::default();
    assert_eq!(c.panel.position, "Top");
    assert_eq!(c.panel.height, 30);
    assert!(c.modules.clock);
    assert!(c.modules.cpu);
    assert!(c.modules.memory);
    assert!(c.modules.battery);
    assert!(c.modules.network);
    assert!(c.modules.volume);
    assert!(c.modules.window_title);
    assert!(c.modules.workspaces);
}

#[test]
fn the_store_initializes_exactly_once() {
    let mut store = ConfigStore::new();
    assert!(get_config(&store).is_err());
    assert!(init_config(&mut store, Config::default()).is_ok());
    assert!(get_config(&store).is_ok());
    let again = init_config(&mut store, Config::default());
    assert_eq!(again.unwrap_err(), "Config already initialized");
}

#[test]
fn mutable_access_updates_the_snapshot() {
    let mut store = ConfigStore::new();
    assert_eq!(get_config_mut(&mut store).unwrap_err(), "Config not initialized");
    init_config(&mut store, Config::default()).unwrap();
    {
        let c = get_config_mut(&mut store).unwrap();
        c.panel.height = 40;
        c.modules.volume = false;
    }
    let c = get_config(&store).unwrap();
    assert_eq!(c.panel.height, 40);
    assert!(!c.modules.volume);
}

#[test]
fn position_words_map_to_edges_case_insensitively() {
    assert_eq!(string_to_edge("Top"), ScreenEdge::Top);
    assert_eq!(string_to_edge("top"), ScreenEdge::Top);
    assert_eq!(string_to_edge("BOTTOM"), ScreenEdge::Bottom);
    assert_eq!(string_to_edge("left"), ScreenEdge::Left);
    assert_eq!(string_to_edge("Right"), ScreenEdge::Right);
    assert_eq!(string_to_edge("sideways"), ScreenEdge::Top);
    assert_eq!(string_to_edge(""), ScreenEdge::Top);
}

#[test]
fn clock_labels_use_twelve_hours() {
    assert_eq!(format_clock(0, 5), "12:05");
    assert_eq!(format_clock(12, 0), "12:00");
    assert_eq!(format_clock(13, 59), "01:59");
    assert_eq!(format_clock(23, 1), "11:01");
}

#[test]
fn blank_titles_become_the_placeholder() {
    assert_eq!(normalize_title(""), "Desktop");
    assert_eq!(normalize_title("   \t "), "Desktop");
    assert_eq!(normalize_title(" editor "), " editor ");
    assert_eq!(normalize_title("x"), "x");
}

#[test]
fn title_burst_collapses_to_the_latest_value() {
    // several rapid title events inside one debounce window: exactly one
    // update comes out, carrying the latest title of the burst
    let mut d = TitleDebouncer::new(0);
    d.record("one".to_string());
    d.record("two".to_string());
    d.record("three".to_string());
    assert_eq!(d.flush(50), None);
    assert_eq!(d.flush(100), Some("three".to_string()));
    // nothing further pending: the burst produced one update only
    assert_eq!(d.flush(200), None);
}

#[test]
fn title_updates_debounce_to_the_window() {
    let mut d = TitleDebouncer::new(0);
    d.record("a".to_string());
    assert_eq!(d.flush(100), Some("a".to_string()));
    // an event right after the applied update waits out the next window
    d.record("b".to_string());
    assert_eq!(d.flush(150), None);
    assert_eq!(d.flush(250), Some("b".to_string()));
    // a clock that moved backwards counts as no time passed
    d.record("c".to_string());
    assert_eq!(d.flush(10), None);
}
