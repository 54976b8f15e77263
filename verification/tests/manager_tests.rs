use razer_control::effects::BreathSingle;
use razer_control::effects::Effect;
use razer_control::effects::Static;
use razer_control::manager::EffectManager;
use razer_control::manager::EffectSave;

fn static_effect(r: u8, g: u8, b: u8) -> Effect {
    Effect::Static(Static::new(&vec![r, g, b]))
}

#[test]
fn test_save() {
    let effect1 = Effect::BreathSingle(BreathSingle::new(&vec![80, 70, 60, 20], 0));
    let effect2 = static_effect(255, 255, 255);
    let mut manager = EffectManager::new(0);
    manager.push_effect(effect1, vec![true; 90]);
    manager.push_effect(effect2, vec![false; 90]);
    let save = manager.get_save();
    let manager2 = EffectManager::from_save(&save, 0);
    assert_eq!(manager.get_effect_layer_count(), manager2.get_effect_layer_count());
    let save2 = manager2.get_save();
    for (pos, record) in save.iter().enumerate() {
        assert_eq!(record.mask, save2[pos].mask);
    }
}

#[test]
fn save_load_round_trip_preserves_order_names_params_masks() {
    let mut manager = EffectManager::new(0);
    let mut mask1 = vec![false; 90];
    mask1[0] = true;
    mask1[89] = true;
    let mut mask2 = vec![true; 90];
    mask2[44] = false;
    manager.push_effect(static_effect(1, 2, 3), mask1.clone());
    manager.push_effect(
        Effect::BreathSingle(BreathSingle::new(&vec![9, 8, 7, 5], 123)),
        mask2.clone(),
    );
    let save = manager.get_save();
    assert_eq!(save.len(), 2);
    let rebuilt = EffectManager::from_save(&save, 999);
    assert_eq!(rebuilt.get_effect_layer_count(), 2);
    let save2 = rebuilt.get_save();
    assert_eq!(save2[0].name, "Static");
    assert_eq!(save2[0].params, vec![1, 2, 3]);
    assert_eq!(save2[0].mask, mask1);
    assert_eq!(save2[1].name, "Breathing Single");
    assert_eq!(save2[1].params, vec![9, 8, 7, 5]);
    assert_eq!(save2[1].mask, mask2);
}

#[test]
fn from_save_skips_unknown_records_and_bad_masks() {
    let records = vec![
        EffectSave { name: "Static".to_string(), params: vec![1, 2, 3], mask: vec![true; 90] },
        EffectSave { name: "Sparkle".to_string(), params: vec![1, 2, 3], mask: vec![true; 90] },
        EffectSave { name: "Static".to_string(), params: vec![4, 5, 6], mask: vec![true; 89] },
        EffectSave { name: "Static".to_string(), params: vec![1, 2], mask: vec![true; 90] },
        EffectSave { name: "Wave Gradient".to_string(), params: vec![1, 2, 3, 4, 5, 6, 0], mask: vec![false; 90] },
    ];
    let m = EffectManager::from_save(&records, 0);
    assert_eq!(m.get_effect_layer_count(), 2);
    let save = m.get_save();
    assert_eq!(save[0].name, "Static");
    assert_eq!(save[0].params, vec![1, 2, 3]);
    assert_eq!(save[1].name, "Wave Gradient");
}

#[test]
fn get_map_returns_layer_bytes_and_empty_out_of_range() {
    let mut manager = EffectManager::new(0);
    manager.push_effect(static_effect(10, 20, 30), vec![true; 90]);
    let map = manager.get_map(0);
    assert_eq!(map.len(), 270);
    assert_eq!(&map[0..3], &[10, 20, 30]);
    assert!(manager.get_map(1).is_empty());
    assert!(manager.get_map(5).is_empty());
    assert!(manager.get_map(-1).is_empty());
    assert!(manager.get_map(i32::MAX).is_empty());
}

#[test]
fn update_composites_layers_top_over_bottom() {
    let mut manager = EffectManager::new(0);
    manager.push_effect(static_effect(100, 0, 0), vec![true; 90]);
    let mut top_mask = vec![false; 90];
    top_mask[0] = true;
    top_mask[89] = true;
    manager.push_effect(static_effect(0, 0, 200), top_mask);
    let bytes = manager.update(0);
    assert_eq!(bytes.len(), 270);
    assert_eq!(&bytes[0..3], &[0, 0, 200]);
    assert_eq!(&bytes[267..270], &[0, 0, 200]);
    assert_eq!(&bytes[3..6], &[100, 0, 0]);
    assert_eq!(&bytes[132..135], &[100, 0, 0]);
}

#[test]
fn keys_no_layer_enables_keep_the_render_targets_colour() {
    let mut manager = EffectManager::new(0);
    manager.push_effect(static_effect(1, 2, 3), vec![false; 90]);
    let bytes = manager.update(0);
    // the fresh render target is all white and no mask bit is set
    assert!(bytes.iter().all(|&b| b == 255));
}

#[test]
fn push_and_pop_keep_counts() {
    let mut manager = EffectManager::new(0);
    assert_eq!(manager.get_effect_layer_count(), 0);
    manager.pop_effect();
    assert_eq!(manager.get_effect_layer_count(), 0);
    manager.push_effect(static_effect(1, 1, 1), vec![true; 90]);
    manager.push_effect(static_effect(2, 2, 2), vec![true; 90]);
    assert_eq!(manager.get_effect_layer_count(), 2);
    manager.pop_effect();
    assert_eq!(manager.get_effect_layer_count(), 1);
    let save = manager.get_save();
    assert_eq!(save[0].params, vec![1, 1, 1]);
}

#[test]
fn interleaved_ticks_and_layer_replacement_keep_the_stack_whole() {
    // ticks and pop-then-push replacements interleave in every order the
    // lock allows; the stack must never show a half-replaced layer: the
    // count and every record's mask length stay consistent throughout
    let mut manager = EffectManager::new(0);
    manager.push_effect(static_effect(1, 2, 3), vec![true; 90]);
    let mut now = 0u64;
    for round in 0..50u8 {
        now += 33;
        let bytes = manager.update(now);
        assert_eq!(bytes.len(), 270);
        if round % 3 == 0 {
            manager.pop_effect();
            manager.push_effect(
                Effect::BreathSingle(BreathSingle::new(&vec![round, 2, 3, 1], now)),
                vec![true; 90],
            );
        }
        assert_eq!(manager.get_effect_layer_count(), 1);
        let records = manager.get_save();
        assert_eq!(records.len(), 1);
        assert_eq!(records[0].mask.len(), 90);
        assert!(!records[0].name.is_empty());
    }
}

#[test]
fn update_advances_animated_layers() {
    let mut manager = EffectManager::new(0);
    manager.push_effect(
        Effect::BreathSingle(BreathSingle::new(&vec![80, 70, 60, 1], 0)),
        vec![true; 90],
    );
    // state 0 shows black
    let bytes = manager.update(0);
    assert_eq!(&bytes[0..3], &[0, 0, 0]);
    // after the off step elapses and three rising ticks, the target shows
    manager.update(100);
    let mut last = Vec::new();
    for now in [133u64, 166, 199, 232] {
        last = manager.update(now);
    }
    assert_eq!(&last[0..3], &[80, 70, 60]);
}
