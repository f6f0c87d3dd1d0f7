use framecore::camera::CameraEvent;
use framecore::input::{InputAggregator, MotionKey};

#[test]
fn fresh_aggregator_emits_nothing() {
    let mut agg: InputAggregator<(f32, f32)> = InputAggregator::new();
    let events = agg.take_tick_events();
    assert!(events.is_empty());
}

#[test]
fn held_keys_emit_in_fixed_order_every_tick() {
    let mut agg: InputAggregator<(f32, f32)> = InputAggregator::new();
    agg.key_event(MotionKey::Right, true, false);
    agg.key_event(MotionKey::Up, true, false);
    let events = agg.take_tick_events();
    assert_eq!(events, vec![CameraEvent::Up, CameraEvent::Right]);
    // Level-triggered: the next tick emits the same motion events again.
    let events = agg.take_tick_events();
    assert_eq!(events, vec![CameraEvent::Up, CameraEvent::Right]);
    agg.key_event(MotionKey::Up, false, false);
    let events = agg.take_tick_events();
    assert_eq!(events, vec![CameraEvent::Right]);
}

#[test]
fn auto_repeat_transitions_are_ignored() {
    let mut agg: InputAggregator<(f32, f32)> = InputAggregator::new();
    agg.key_event(MotionKey::Down, true, true);
    assert!(!agg.down_held);
    agg.key_event(MotionKey::Down, true, false);
    assert!(agg.down_held);
    agg.key_event(MotionKey::Down, false, true);
    assert!(agg.down_held);
}

#[test]
fn first_drag_sample_only_seeds_the_reference() {
    let mut agg: InputAggregator<(f32, f32)> = InputAggregator::new();
    agg.drag_started();
    assert!(!agg.note_pointer_sample());
    assert!(agg.note_pointer_sample());
    assert!(agg.note_pointer_sample());
}

#[test]
fn samples_outside_a_drag_change_nothing() {
    let mut agg: InputAggregator<(f32, f32)> = InputAggregator::new();
    assert!(!agg.note_pointer_sample());
    assert!(!agg.have_reference);
}

#[test]
fn two_samples_in_one_tick_emit_one_rotation_with_the_last_delta() {
    // A drag with two pointer-move samples before the next redraw: the caller
    // takes the delta of each sample from the previous position, scaled by
    // the fixed sensitivity, and stages it; the tick emits exactly one
    // rotation event, carrying the second sample's delta, not the sum.
    let sensitivity = 0.05_f32;
    let p0 = (100.0_f32, 100.0_f32);
    let p1 = (104.0_f32, 98.0_f32);
    let p2 = (110.0_f32, 92.0_f32);

    let mut agg: InputAggregator<(f32, f32)> = InputAggregator::new();
    agg.drag_started();
    let mut last = p0;
    assert!(!agg.note_pointer_sample());

    for pos in [p1, p2] {
        assert!(agg.note_pointer_sample());
        let delta = ((pos.0 - last.0) * sensitivity, (pos.1 - last.1) * sensitivity);
        last = pos;
        if delta.0 != 0.0 || delta.1 != 0.0 {
            agg.stage_rotation(delta);
        }
    }

    let events = agg.take_tick_events();
    assert_eq!(events.len(), 1);
    let expected = ((p2.0 - p1.0) * sensitivity, (p2.1 - p1.1) * sensitivity);
    assert_eq!(events[0], CameraEvent::RotateXY { delta: expected });
}

#[test]
fn pending_rotation_is_consumed_exactly_once() {
    let mut agg: InputAggregator<(f32, f32)> = InputAggregator::new();
    agg.drag_started();
    agg.note_pointer_sample();
    agg.note_pointer_sample();
    agg.stage_rotation((0.2, -0.1));
    let events = agg.take_tick_events();
    assert_eq!(events, vec![CameraEvent::RotateXY { delta: (0.2, -0.1) }]);
    let events = agg.take_tick_events();
    assert!(events.is_empty());
}

#[test]
fn drag_end_clears_pending_rotation_and_reference() {
    let mut agg: InputAggregator<(f32, f32)> = InputAggregator::new();
    agg.drag_started();
    agg.note_pointer_sample();
    agg.note_pointer_sample();
    agg.stage_rotation((1.0, 1.0));
    agg.drag_ended();
    assert!(!agg.drag_active);
    assert!(!agg.have_reference);
    assert!(agg.take_tick_events().is_empty());
    // A new drag starts over: its first sample seeds a fresh reference.
    agg.drag_started();
    assert!(!agg.note_pointer_sample());
}

#[test]
fn idle_tick_leaves_the_camera_untouched() {
    // No held movement key and no pending rotation: the tick hands the
    // camera no event at all, whatever the elapsed time.
    let mut agg: InputAggregator<(f32, f32)> = InputAggregator::new();
    agg.key_event(MotionKey::Left, true, false);
    agg.key_event(MotionKey::Left, false, false);
    let events = agg.take_tick_events();
    assert!(events.is_empty());
}
