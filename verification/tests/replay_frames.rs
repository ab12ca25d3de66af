use rosu::input::KeyboardState;
use rosu::processor::{OsuProcessor, ReplayFrame};
use rosu::replay::{replay_timeline, FrameTiming};

fn t(delta: i64) -> FrameTiming {
    FrameTiming { delta, is_skip_marker: false }
}

#[test]
fn timeline_sums_deltas() {
    let frames = vec![t(0), t(10), t(5), t(20)];
    assert_eq!(replay_timeline(&frames), vec![(0, 0), (1, 10), (2, 15), (3, 35)]);
}

#[test]
fn timeline_fixes_second_frame_before_first() {
    // times 100, 90, 150: the second lies before the first
    let frames = vec![t(100), t(-10), t(60)];
    assert_eq!(replay_timeline(&frames), vec![(0, 0), (1, 100), (2, 150)]);
}

#[test]
fn timeline_fixes_first_frame_after_third() {
    // times 50, 60, 40: the first lies after the third
    let frames = vec![t(50), t(10), t(-20)];
    assert_eq!(replay_timeline(&frames), vec![(0, 40), (1, 40), (2, 40)]);
}

#[test]
fn timeline_drops_skip_markers() {
    let frames = vec![
        FrameTiming { delta: 0, is_skip_marker: true },
        FrameTiming { delta: 0, is_skip_marker: true },
        t(10),
        t(10),
    ];
    assert_eq!(replay_timeline(&frames), vec![(2, 10), (3, 20)]);
}

#[test]
fn timeline_leaves_out_frames_before_earlier_ones() {
    let frames = vec![t(0), t(10), t(10), t(-15), t(10), t(1)];
    // times 0, 10, 20, 5, 15, 16: 5, 15 and 16 lie before 20
    assert_eq!(replay_timeline(&frames), vec![(0, 0), (1, 10), (2, 20)]);
    let frames = vec![t(0), t(10), t(10), t(-15), t(20)];
    // times 0, 10, 20, 5, 25
    assert_eq!(replay_timeline(&frames), vec![(0, 0), (1, 10), (2, 20), (4, 25)]);
}

#[test]
fn timeline_of_empty_replay_is_empty() {
    assert!(replay_timeline(&Vec::new()).is_empty());
}

#[test]
fn replay_inputs_compute_holds() {
    let down = KeyboardState { k1: true, k2: false };
    let up = KeyboardState { k1: false, k2: false };
    let frame = |delta: i64, keys: KeyboardState| ReplayFrame { timing: t(delta), pos: (delta as f32, 0.0f32), keys };
    let frames = vec![frame(10, down), frame(10, down), frame(10, up), frame(10, down)];
    let mut processor = OsuProcessor::from_replay(&frames, (0.0f32, 0.0f32));
    let inputs = processor.take_queue();
    assert_eq!(inputs.len(), 4);
    assert_eq!(inputs.iter().map(|i| i.ts).collect::<Vec<_>>(), vec![10, 20, 30, 40]);
    assert_eq!(inputs.iter().map(|i| i.hold.k1).collect::<Vec<_>>(), vec![false, true, false, false]);
    assert!(inputs.iter().all(|i| !i.hold.k2));
    assert!(processor.replay_log().last_input().is_none());
}
