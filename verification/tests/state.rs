use rosu::replay_log::ReplayLog;
use rosu::screens::{count_objects, length_minutes_seconds, ObjectCategory, ObjectCounts};
use std::time::Instant;

use rosu::hit_objects::{
    combo_colour_indices, head_start_key, missed_head_start_key, release_start_key, slider_holding,
    SliderResultState,
};
use rosu::input::{KeyboardState, OsuInput};
use rosu::replay_viewer::{FrameWindow, ReplayKeys, ReplayViewerSettings};
use rosu::screens::{SettingsScreen, SongSelectScreen};
use rosu::timer::Timer;

#[test]
fn timer_starts_paused_at_zero() {
    let mut clock = Timer::new();
    assert!(clock.is_paused());
    assert_eq!(clock.get_time(), 0);
    assert_eq!(clock.update(), 0);
    assert_eq!(clock.get_time(), 0);
}

#[test]
fn timer_advance_accumulates_and_pause_freezes() {
    let mut clock = Timer::new();
    clock.unpause();
    assert!(!clock.is_paused());
    assert_eq!(clock.advance(Instant::now(), 15), 15);
    assert_eq!(clock.advance(Instant::now(), 5), 20);
    assert_eq!(clock.get_time(), 20);
    let before = clock.update();
    assert!(before >= 20);
    clock.pause();
    assert_eq!(clock.update(), before);
    assert_eq!(clock.update(), before);
    assert_eq!(clock.advance(Instant::now(), u128::MAX), u128::MAX);
}

#[test]
fn settings_toggle_twice_restores() {
    let mut s = SettingsScreen::new();
    assert!(!s.is_open());
    s.toggle();
    assert!(s.is_open());
    s.toggle();
    assert!(!s.is_open());
    s.toggle();
    s.close();
    assert!(!s.is_open());
}

#[test]
fn song_select_scrolling() {
    let mut s = SongSelectScreen::new();
    s.decrement_beatmap();
    assert_eq!(s.scroll_request(), Some(0));
    assert_eq!(s.take_scroll_request(true), Some(0));
    s.increment_beatmap();
    assert_eq!(s.take_scroll_request(true), Some(1));
    assert_eq!(s.take_scroll_request(true), None);
    s.set_scroll_to(7);
    assert_eq!(s.take_scroll_request(false), Some(7));
    assert_eq!(s.scroll_request(), None);
    s.increment_beatmap();
    assert_eq!(s.scroll_request(), Some(2));
    s.set_scroll_to(10);
    s.take_scroll_request(true);
    s.set_loaded_rows(4, 20);
    assert_eq!(s.current_in_cache(), 6);
    s.select(5);
    assert_eq!(s.current_in_cache(), 1);
}

#[test]
fn combo_colour_indices_wrap_after_eight() {
    let flags = vec![true, false, true, true, true, true, true, true, true, false, true];
    assert_eq!(combo_colour_indices(&flags), vec![2, 2, 3, 4, 5, 6, 7, 8, 0, 0, 1]);
    assert_eq!(combo_colour_indices(&vec![false, false]), vec![1, 1]);
}

fn input(keys: KeyboardState, hold: KeyboardState) -> OsuInput<()> {
    OsuInput { ts: 0, pos: (), keys, hold }
}

#[test]
fn slider_key_decisions() {
    let both = KeyboardState { k1: true, k2: true };
    let second = KeyboardState { k1: false, k2: true };
    let none = KeyboardState { k1: false, k2: false };
    assert_eq!(head_start_key(&input(both, none)), 1);
    assert_eq!(head_start_key(&input(both, KeyboardState { k1: true, k2: false })), 2);
    assert_eq!(missed_head_start_key(&input(second, none)), 2);
    assert_eq!(missed_head_start_key(&input(both, both)), 1);
    assert_eq!(release_start_key(2, second), 0);
    assert_eq!(release_start_key(1, second), 1);
    assert_eq!(release_start_key(1, none), 0);
    assert_eq!(release_start_key(0, none), 0);
    assert!(slider_holding(0, &input(second, second)));
    assert!(!slider_holding(1, &input(second, second)));
    assert!(slider_holding(2, &input(second, second)));
    assert_eq!(SliderResultState::default(), SliderResultState::Start);
}

#[test]
fn replay_viewer_window() {
    let mut w = FrameWindow { start: 0, end: 0 };
    w.step_back();
    assert_eq!(w, FrameWindow { start: 0, end: 0 });
    w.step_forward(2);
    assert_eq!(w, FrameWindow { start: 1, end: 1 });
    w.step_forward(2);
    assert_eq!(w, FrameWindow { start: 1, end: 1 });
    let times = vec![0, 10, 20, 30, 40];
    assert_eq!(FrameWindow::at_time(&times, 25, 1), FrameWindow { start: 1, end: 2 });
    assert_eq!(FrameWindow::at_time(&times, 100, 10), FrameWindow { start: 0, end: 4 });
    assert_eq!(FrameWindow::at_time(&times, 0, 10), FrameWindow { start: 0, end: 0 });
    let settings = ReplayViewerSettings::default();
    assert_eq!(settings.frames_to_show, 100);
    assert_eq!(settings.k2_color, [252, 12, 12]);
    let k = ReplayKeys::default();
    assert!(!k.k1 && !k.k2 && !k.m1 && !k.m2);
}

#[test]
fn object_counts_and_length() {
    let kinds = vec![
        ObjectCategory::Circle,
        ObjectCategory::Slider,
        ObjectCategory::Circle,
        ObjectCategory::Hold,
        ObjectCategory::Spinner,
    ];
    assert_eq!(count_objects(&kinds), ObjectCounts { circles: 2, sliders: 1, spinners: 1 });
    assert_eq!(count_objects(&Vec::new()), ObjectCounts { circles: 0, sliders: 0, spinners: 0 });
    assert_eq!(length_minutes_seconds(125_999), (2, 5));
    assert_eq!(length_minutes_seconds(999), (0, 0));
}

#[test]
fn replay_log_last_input_is_last_stored() {
    let mut log: ReplayLog<()> = ReplayLog::default();
    assert!(log.last_input().is_none());
    let none = KeyboardState { k1: false, k2: false };
    log.store_input(OsuInput { ts: 1, pos: (), keys: none, hold: none });
    log.store_input(OsuInput { ts: 2, pos: (), keys: none, hold: none });
    assert_eq!(log.last_input().unwrap().ts, 2);
    assert_eq!(log.last_input().unwrap().ts, 2);
}

#[test]
fn timer_pause_flag_follows_last_toggle() {
    let mut clock = Timer::new();
    clock.unpause();
    clock.advance(Instant::now(), 3);
    clock.pause();
    assert!(clock.is_paused());
    assert_eq!(clock.get_time(), 3);
    assert_eq!(clock.get_time(), 3);
    clock.unpause();
    assert!(!clock.is_paused());
    assert_eq!(clock.get_time(), 3);
}

#[test]
fn timer_new_at_and_unpause_at() {
    let start = Instant::now();
    let mut clock = Timer::new_at(start);
    assert!(clock.is_paused());
    assert_eq!(clock.get_time(), 0);
    clock.unpause_at(Instant::now());
    assert!(!clock.is_paused());
    assert_eq!(clock.get_time(), 0);
    clock.advance(Instant::now(), 7);
    clock.pause();
    clock.unpause_at(Instant::now());
    assert_eq!(clock.advance(Instant::now(), 4), 11);
}
