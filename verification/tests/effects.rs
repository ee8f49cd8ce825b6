use saddle_camera_top_down_camera::effects::{
    f32_bits_equal, TopDownCameraCustomEffects, TopDownCameraEffectLayer, Vec3Bits, UNIT_WEIGHT_BITS,
};

fn bits(x: f32, y: f32, z: f32) -> Vec3Bits {
    Vec3Bits { x: x.to_bits(), y: y.to_bits(), z: z.to_bits() }
}

#[test]
fn custom_effects_set_and_get() {
    let mut custom = TopDownCameraCustomEffects::default();
    custom.set("shake", TopDownCameraEffectLayer::anchor(bits(1.0, 0.0, 0.0)));
    assert!(custom.get("shake").is_some());
    assert_eq!(custom.active_count(), 1);
}

#[test]
fn custom_effects_replace_by_name() {
    let mut custom = TopDownCameraCustomEffects::default();
    custom.set("shake", TopDownCameraEffectLayer::anchor(bits(1.0, 0.0, 0.0)));
    custom.set("shake", TopDownCameraEffectLayer::anchor(bits(0.0, 1.0, 0.0)));
    assert_eq!(custom.layers.len(), 1);
    assert_eq!(custom.get("shake").unwrap().anchor_offset, bits(0.0, 1.0, 0.0));
}

#[test]
fn custom_effects_remove() {
    let mut custom = TopDownCameraCustomEffects::default();
    custom.set("shake", TopDownCameraEffectLayer::anchor(bits(1.0, 0.0, 0.0)));
    let removed = custom.remove("shake");
    assert!(removed.is_some());
    assert_eq!(custom.layers.len(), 0);
    assert!(custom.remove("shake").is_none());
}

#[test]
fn default_layer_is_neutral_with_unit_weight() {
    let layer = TopDownCameraEffectLayer::default();
    assert_eq!(f32::from_bits(layer.weight), 1.0);
    assert_eq!(UNIT_WEIGHT_BITS, 1.0f32.to_bits());
    assert_eq!(layer.anchor_offset, bits(0.0, 0.0, 0.0));
    assert_eq!(f32::from_bits(layer.zoom_delta), 0.0);
    assert!(layer.enabled);
}

#[test]
fn constructors_set_only_their_field() {
    let z = TopDownCameraEffectLayer::zoom(0.5f32.to_bits());
    assert_eq!(f32::from_bits(z.zoom_delta), 0.5);
    assert_eq!(z.yaw_delta, 0);
    assert_eq!(z.weight, UNIT_WEIGHT_BITS);
    let y = TopDownCameraEffectLayer::yaw(0.25f32.to_bits());
    assert_eq!(f32::from_bits(y.yaw_delta), 0.25);
    assert_eq!(y.zoom_delta, 0);
    let w = TopDownCameraEffectLayer::weighted(
        bits(4.0, 0.0, 0.0),
        1.0f32.to_bits(),
        2.0f32.to_bits(),
        3.0f32.to_bits(),
        0.5f32.to_bits(),
    );
    assert_eq!(w.anchor_offset, bits(4.0, 0.0, 0.0));
    assert_eq!(f32::from_bits(w.fov_delta), 3.0);
    assert_eq!(f32::from_bits(w.weight), 0.5);
    assert!(w.enabled);
}

#[test]
fn set_keeps_other_layers_and_appends_new_names() {
    let mut custom = TopDownCameraCustomEffects::default();
    custom.set("shake", TopDownCameraEffectLayer::anchor(bits(1.0, 0.0, 0.0)));
    custom.set("sway", TopDownCameraEffectLayer::yaw(0.1f32.to_bits()));
    custom.set("shake", TopDownCameraEffectLayer::zoom(2.0f32.to_bits()));
    assert_eq!(custom.layers.len(), 2);
    assert_eq!(custom.layers[0].name, "shake");
    assert_eq!(custom.layers[1].name, "sway");
    assert_eq!(custom.get("sway").unwrap().yaw_delta, 0.1f32.to_bits());
    assert_eq!(custom.get("shake").unwrap().zoom_delta, 2.0f32.to_bits());
    assert!(custom.get("missing").is_none());
}

#[test]
fn remove_moves_last_layer_into_the_gap() {
    let mut custom = TopDownCameraCustomEffects::default();
    custom.set("a", TopDownCameraEffectLayer::zoom(1.0f32.to_bits()));
    custom.set("b", TopDownCameraEffectLayer::zoom(2.0f32.to_bits()));
    custom.set("c", TopDownCameraEffectLayer::zoom(3.0f32.to_bits()));
    let removed = custom.remove("a").unwrap();
    assert_eq!(removed.zoom_delta, 1.0f32.to_bits());
    let names: Vec<&str> = custom.iter().iter().map(|l| l.name.as_str()).collect();
    assert_eq!(names, vec!["c", "b"]);
}

#[test]
fn get_mut_edits_the_named_layer_in_place() {
    let mut custom = TopDownCameraCustomEffects::default();
    custom.set("shake", TopDownCameraEffectLayer::anchor(bits(1.0, 0.0, 0.0)));
    custom.set("sway", TopDownCameraEffectLayer::default());
    custom.get_mut("sway").unwrap().enabled = false;
    assert!(custom.get_mut("missing").is_none());
    assert!(!custom.get("sway").unwrap().enabled);
    assert!(custom.get("shake").unwrap().enabled);
    assert_eq!(custom.active_count(), 1);
}

#[test]
fn active_count_skips_disabled_layers() {
    let mut custom = TopDownCameraCustomEffects::default();
    assert_eq!(custom.active_count(), 0);
    let mut off = TopDownCameraEffectLayer::default();
    off.enabled = false;
    custom.set("off", off);
    custom.set("on", TopDownCameraEffectLayer::default());
    custom.set("off2", off);
    assert_eq!(custom.active_count(), 1);
    assert_eq!(custom.iter().len(), 3);
}

#[test]
fn layers_compare_their_numbers_as_floats() {
    assert_eq!(bits(0.0, 1.0, 2.0), bits(-0.0, 1.0, 2.0));
    assert_ne!(bits(f32::NAN, 0.0, 0.0), bits(f32::NAN, 0.0, 0.0));
    assert_ne!(bits(1.0, 0.0, 0.0), bits(2.0, 0.0, 0.0));
    let a = TopDownCameraEffectLayer::zoom(0.0f32.to_bits());
    let b = TopDownCameraEffectLayer::zoom((-0.0f32).to_bits());
    assert_eq!(a, b);
    let n = TopDownCameraEffectLayer::yaw(f32::NAN.to_bits());
    assert_ne!(n, n);
    let mut off = a;
    off.enabled = false;
    assert_ne!(a, off);
    for (x, y) in [(0.0f32, -0.0f32), (1.5, 1.5), (f32::NAN, 1.0), (f32::INFINITY, f32::INFINITY), (3.0, -3.0)] {
        assert_eq!(f32_bits_equal(x.to_bits(), y.to_bits()), x == y);
    }
}
