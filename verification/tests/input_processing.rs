use rosu::input::{KeyboardState, OsuInput};
use rosu::processor::OsuProcessor;

fn k1() -> KeyboardState {
    KeyboardState { k1: true, k2: false }
}

#[test]
fn test_input_released() {
    let mut processor: OsuProcessor<(f64, f64)> = OsuProcessor::new((0.0, 0.0));

    processor.store_keyboard_pressed(100, k1());
    processor.store_keyboard_pressed(150, k1());
    processor.store_keyboard_released(150, k1());

    let last_input = processor.replay_log().last_input().unwrap();
    assert_eq!(last_input.keys.is_keys_hit(), false);

    processor.store_keyboard_released(200, k1());

    let last_input = processor.replay_log().last_input().unwrap();
    assert_eq!(last_input.keys.is_keys_hit(), false);
    assert_eq!(last_input.ts, 150);
}

#[test]
fn keyboard_state_empty_and_default_have_no_key_down() {
    assert!(!KeyboardState::empty().is_keys_hit());
    assert!(!KeyboardState::default().is_keys_hit());
    assert!(KeyboardState { k1: false, k2: true }.is_keys_hit());
}

#[test]
fn input_hold_predicates() {
    let input = OsuInput {
        ts: 0,
        pos: (0.0f64, 0.0f64),
        keys: KeyboardState { k1: true, k2: true },
        hold: KeyboardState { k1: true, k2: false },
    };
    assert!(input.is_keys_hit_no_hold());
    assert!(input.is_keys_hold());
    assert!(input.is_k1_hold());
    assert!(!input.is_k2_hold());

    let held = OsuInput { hold: KeyboardState { k1: true, k2: true }, ..input };
    assert!(!held.is_keys_hit_no_hold());
}

#[test]
fn press_after_press_counts_as_hold() {
    let mut processor = OsuProcessor::new((1.0f64, 2.0f64));
    processor.store_keyboard_pressed(10, k1());
    let first = processor.replay_log().last_input().unwrap();
    assert!(!first.hold.k1 && !first.hold.k2);
    assert_eq!(first.pos, (1.0, 2.0));

    processor.store_keyboard_pressed(20, KeyboardState { k1: true, k2: true });
    let second = processor.replay_log().last_input().unwrap();
    assert!(second.hold.k1);
    assert!(!second.hold.k2);
    assert_eq!(processor.queue().len(), 2);
}

#[test]
fn release_without_previous_input_stores_nothing() {
    let mut processor = OsuProcessor::new((0.0f64, 0.0f64));
    processor.store_keyboard_released(5, k1());
    assert!(processor.replay_log().last_input().is_none());
    assert!(processor.queue().is_empty());
}

#[test]
fn release_keeps_other_key_down() {
    let mut processor = OsuProcessor::new((0.0f64, 0.0f64));
    processor.store_keyboard_pressed(10, KeyboardState { k1: true, k2: true });
    processor.store_keyboard_released(20, k1());
    let last = processor.replay_log().last_input().unwrap();
    assert!(!last.keys.k1);
    assert!(last.keys.k2);
    assert!(!last.hold.k1);
    assert!(last.hold.k2);
}

#[test]
fn cursor_move_keeps_keys_and_moves_cursor() {
    let mut processor = OsuProcessor::new((0.0f64, 0.0f64));
    processor.store_cursor_moved(1, (3.0, 4.0));
    let first = processor.replay_log().last_input().unwrap();
    assert!(!first.keys.is_keys_hit());
    assert_eq!(first.pos, (3.0, 4.0));

    processor.store_keyboard_pressed(2, k1());
    processor.store_cursor_moved(3, (5.0, 6.0));
    let last = processor.replay_log().last_input().unwrap();
    assert!(last.keys.k1);
    assert_eq!(last.pos, (5.0, 6.0));
    assert_eq!(last.ts, 3);

    processor.store_keyboard_pressed(4, k1());
    assert_eq!(processor.replay_log().last_input().unwrap().pos, (5.0, 6.0));
}

#[test]
fn take_queue_empties_queue_and_keeps_log() {
    let mut processor = OsuProcessor::new((0.0f64, 0.0f64));
    processor.store_keyboard_pressed(1, k1());
    processor.store_keyboard_pressed(2, k1());
    let queue = processor.take_queue();
    assert_eq!(queue.len(), 2);
    assert_eq!(queue[1].ts, 2);
    assert!(processor.queue().is_empty());
    assert_eq!(processor.replay_log().last_input().unwrap().ts, 2);
}

#[test]
fn set_cursor_pos_is_used_by_next_press() {
    let mut processor = OsuProcessor::new((0.0f64, 0.0f64));
    processor.set_cursor_pos((7.0, 8.0));
    processor.store_keyboard_pressed(1, k1());
    assert_eq!(processor.replay_log().last_input().unwrap().pos, (7.0, 8.0));
}
