use razer_control::board::AnimatorKeyColour;
use razer_control::effects::BreathSingle;
use razer_control::effects::Effect;
use razer_control::effects::Static;
use razer_control::effects::StaticGradient;
use razer_control::effects::WaveGradient;
use razer_control::effects::effect_from_request_name;
use razer_control::effects::effect_from_save_name;

fn key(e: &Effect, index: usize) -> (u8, u8, u8) {
    let c = e.key_at(index);
    (c.red, c.green, c.blue)
}

#[test]
fn static_effect_paints_whole_board_and_keeps_params() {
    let mut e = Effect::Static(Static::new(&vec![10, 20, 30]));
    assert_eq!(key(&e, 0), (10, 20, 30));
    assert_eq!(key(&e, 89), (10, 20, 30));
    e.update(12345);
    assert_eq!(key(&e, 45), (10, 20, 30));
    assert_eq!(e.get_varargs(), vec![10, 20, 30]);
    assert_eq!(e.get_name(), "Static");
}

#[test]
fn static_gradient_interpolates_across_columns() {
    // colour1 black, colour2 full red: each column adds one fourteenth of
    // the difference (18_214_285 fixed-point units), truncated to bytes.
    let e = Effect::StaticGradient(
        StaticGradient::new(&vec![0, 0, 0, 255, 0, 0, 0]),
    );
    assert_eq!(key(&e, 0), (0, 0, 0));
    assert_eq!(key(&e, 1), (18, 0, 0));
    assert_eq!(key(&e, 7), (127, 0, 0));
    // 14 steps of 255/14 reach the second colour up to fixed-point
    // truncation: 14 * 18_214_285 = 254_999_990, which truncates to 254.
    assert_eq!(key(&e, 14), (254, 0, 0));
    // every row shows the same column colour
    assert_eq!(key(&e, 15 + 7), key(&e, 7));
    assert_eq!(key(&e, 75 + 14), key(&e, 14));
}

#[test]
fn static_gradient_name_and_params() {
    let e = Effect::StaticGradient(
        StaticGradient::new(&vec![1, 2, 3, 4, 5, 6, 0]),
    );
    assert_eq!(e.get_name(), "Static Gradient");
    assert_eq!(e.get_varargs(), vec![1, 2, 3, 4, 5, 6, 0]);
}

#[test]
fn wave_band_rotates_right_by_one_on_update() {
    let mut w = WaveGradient::new(&vec![255, 0, 0, 0, 0, 255, 0]);
    let before: Vec<AnimatorKeyColour> = (0..30).map(|i| w.band_entry(i)).collect();
    w.update();
    for i in 0..30 {
        let after = w.band_entry(i);
        let expected = before[(i + 29) % 30];
        assert_eq!(after.red, expected.red);
        assert_eq!(after.green, expected.green);
        assert_eq!(after.blue, expected.blue);
    }
}

#[test]
fn wave_band_is_a_closed_triangular_band() {
    let w = WaveGradient::new(&vec![255, 0, 0, 0, 0, 255, 0]);
    // first half walks colour1 -> colour2 in fifteenths of the difference
    let first = w.band_entry(0);
    assert_eq!((first.red, first.green, first.blue), (255_000_000, 0, 0));
    let second = w.band_entry(1);
    assert_eq!(second.red, 255_000_000 - 17_000_000);
    assert_eq!(second.blue, 17_000_000);
    // second half walks colour2 -> colour1 with the same step
    let mirror = w.band_entry(15);
    assert_eq!((mirror.red, mirror.green, mirror.blue), (0, 0, 255_000_000));
    let last = w.band_entry(29);
    assert_eq!(last.red, 14 * 17_000_000);
    assert_eq!(last.blue, 255_000_000 - 14 * 17_000_000);
}

#[test]
fn wave_columns_show_first_band_entries_after_update() {
    let mut e = Effect::WaveGradient(WaveGradient::new(&vec![255, 0, 0, 0, 0, 255, 0]));
    e.update(0);
    // column c shows band entry c as it was before the rotation
    assert_eq!(key(&e, 0), (255, 0, 0));
    assert_eq!(key(&e, 1), (238, 0, 17));
    assert_eq!(key(&e, 14), (255 - 14 * 17, 0, 14 * 17));
    // after a second update everything shifts right by one column
    let col1_before = key(&e, 1);
    e.update(33);
    assert_eq!(key(&e, 2), col1_before);
}

#[test]
fn breath_cycle_states_advance_on_elapsed_time() {
    // duration byte 1 = 100 ms per step, 3 whole ticks per step
    let mut b = BreathSingle::new(&vec![80, 70, 60, 1], 0);
    assert_eq!(b.current_step(), 0);
    b.update(0);
    assert_eq!(b.current_step(), 0);
    b.update(99);
    assert_eq!(b.current_step(), 0);
    b.update(100);
    assert_eq!(b.current_step(), 1);
}

#[test]
fn breath_cycle_reaches_target_exactly_and_returns_to_black() {
    let mut e = Effect::BreathSingle(BreathSingle::new(&vec![80, 70, 60, 1], 0));
    let mut s = BreathSingle::new(&vec![80, 70, 60, 1], 0);
    let mut now = 0;
    // leave state 0
    for t in [0u64, 100] {
        e.update(t);
        s.update(t);
        now = t;
    }
    assert_eq!(s.current_step(), 1);
    assert_eq!(key(&e, 0), (0, 0, 0));
    // rising: increments of target / 3 ticks, never past the target
    let target = (80u8, 70u8, 60u8);
    let mut reached = false;
    for _ in 0..10 {
        now += 33;
        e.update(now);
        s.update(now);
        let c = key(&e, 0);
        assert!(c.0 <= target.0 && c.1 <= target.1 && c.2 <= target.2);
        if s.current_step() == 2 {
            // state-2 entry shows the target exactly, no overshoot
            assert_eq!(c, target);
            reached = true;
            break;
        }
    }
    assert!(reached);
    // state 2 holds the target for the step duration
    let entered = now;
    now = entered + 99;
    e.update(now);
    s.update(now);
    assert_eq!(s.current_step(), 2);
    assert_eq!(key(&e, 0), target);
    now = entered + 100;
    e.update(now);
    s.update(now);
    assert_eq!(s.current_step(), 3);
    // falling: back to black exactly at state-0 re-entry
    let mut dark = false;
    for _ in 0..10 {
        now += 33;
        e.update(now);
        s.update(now);
        if s.current_step() == 0 {
            assert_eq!(key(&e, 0), (0, 0, 0));
            dark = true;
            break;
        }
    }
    assert!(dark);
}

#[test]
fn breath_name_and_params() {
    let e = Effect::BreathSingle(BreathSingle::new(&vec![80, 70, 60, 20], 0));
    assert_eq!(e.get_name(), "Breathing Single");
    assert_eq!(e.get_varargs(), vec![80, 70, 60, 20]);
}

#[test]
fn get_state_returns_the_current_board_bytes() {
    let e = Effect::Static(Static::new(&vec![10, 20, 30]));
    let state = e.get_state();
    assert_eq!(state.len(), 270);
    assert_eq!(&state[0..3], &[10, 20, 30]);
    assert_eq!(&state[267..270], &[10, 20, 30]);
}

#[test]
fn request_names_build_their_effects() {
    let e = effect_from_request_name(&"static".to_string(), &vec![1, 2, 3], 0);
    assert_eq!(e.map(|e| e.get_name()), Some("Static".to_string()));
    let e = effect_from_request_name(&"static_gradient".to_string(), &vec![1, 2, 3, 4, 5, 6, 0], 0);
    assert_eq!(e.map(|e| e.get_name()), Some("Static Gradient".to_string()));
    let e = effect_from_request_name(&"wave_gradient".to_string(), &vec![1, 2, 3, 4, 5, 6, 0], 0);
    assert_eq!(e.map(|e| e.get_name()), Some("Wave Gradient".to_string()));
    let e = effect_from_request_name(&"breathing_single".to_string(), &vec![1, 2, 3, 4], 0);
    assert_eq!(e.map(|e| e.get_name()), Some("Breathing Single".to_string()));
}

#[test]
fn unknown_request_name_builds_nothing() {
    assert!(effect_from_request_name(&"sparkle".to_string(), &vec![1, 2, 3], 0).is_none());
    assert!(effect_from_request_name(&"Static".to_string(), &vec![1, 2, 3], 0).is_none());
}

#[test]
fn too_few_params_build_nothing() {
    assert!(effect_from_request_name(&"static".to_string(), &vec![1, 2], 0).is_none());
    assert!(effect_from_request_name(&"wave_gradient".to_string(), &vec![1, 2, 3, 4, 5, 6], 0).is_none());
    assert!(effect_from_request_name(&"breathing_single".to_string(), &vec![1, 2, 3], 0).is_none());
}

#[test]
fn save_names_rebuild_their_effects() {
    let e = effect_from_save_name(&"Static".to_string(), &vec![1, 2, 3], 0);
    assert_eq!(e.map(|e| e.get_name()), Some("Static".to_string()));
    let e = effect_from_save_name(&"Wave Gradient".to_string(), &vec![1, 2, 3, 4, 5, 6, 0], 0);
    assert_eq!(e.map(|e| e.get_name()), Some("Wave Gradient".to_string()));
    assert!(effect_from_save_name(&"static".to_string(), &vec![1, 2, 3], 0).is_none());
}
