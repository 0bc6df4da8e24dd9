use deferred_engine::lighting::{
    accumulate_lights, blend_light, clear_color, LightColor, ALPHA_CHANNEL_MAX, COLOR_CHANNEL_MAX,
};
use deferred_engine::pipeline::{
    blend_state_for, depth_state_for, SubpassRole, BLEND_FACTOR_ONE, BLEND_OP_ADD, BLEND_OP_MAX,
    COMPARE_OP_LESS_OR_EQUAL,
};

fn rgb(red: u32, green: u32, blue: u32) -> LightColor {
    LightColor { red, green, blue, alpha: ALPHA_CHANNEL_MAX }
}

#[test]
fn zero_light_draws_keep_clear_value() {
    let clear = clear_color();
    let result = accumulate_lights(clear, &vec![]);
    assert_eq!(result, clear);
}

#[test]
fn two_directional_lights_accumulate_additively() {
    let c1 = rgb(100, 200, 300);
    let c2 = rgb(50, 60, 70);
    let result = accumulate_lights(clear_color(), &vec![c1, c2]);
    assert_eq!(result, rgb(150, 260, 370));
}

#[test]
fn accumulation_clamps_at_channel_maximum() {
    let c1 = rgb(600, 1023, 0);
    let c2 = rgb(600, 1, 5);
    let result = accumulate_lights(clear_color(), &vec![c1, c2]);
    assert_eq!(result.red, COLOR_CHANNEL_MAX);
    assert_eq!(result.green, COLOR_CHANNEL_MAX);
    assert_eq!(result.blue, 5);
}

#[test]
fn alpha_blends_by_maximum() {
    let low = LightColor { red: 1, green: 1, blue: 1, alpha: 1 };
    let high = LightColor { red: 1, green: 1, blue: 1, alpha: 3 };
    assert_eq!(blend_light(low, high).alpha, 3);
    assert_eq!(blend_light(high, low).alpha, 3);
}

#[test]
fn three_lights_fold_in_order() {
    let draws = vec![rgb(1, 2, 3), rgb(10, 20, 30), rgb(100, 200, 300)];
    let result = accumulate_lights(clear_color(), &draws);
    assert_eq!(result, rgb(111, 222, 333));
}

#[test]
fn lighting_pipelines_blend_additively() {
    for role in [SubpassRole::AmbientLight, SubpassRole::DirectionalLight] {
        let blend = blend_state_for(role);
        assert!(blend.enable);
        assert_eq!(blend.color_op, BLEND_OP_ADD);
        assert_eq!(blend.src_color_factor, BLEND_FACTOR_ONE);
        assert_eq!(blend.dst_color_factor, BLEND_FACTOR_ONE);
        assert_eq!(blend.alpha_op, BLEND_OP_MAX);
    }
}

#[test]
fn geometry_and_composition_do_not_blend() {
    assert!(!blend_state_for(SubpassRole::Geometry).enable);
    assert!(!blend_state_for(SubpassRole::Composition).enable);
}

#[test]
fn only_geometry_tests_depth() {
    let geometry = depth_state_for(SubpassRole::Geometry);
    assert!(geometry.test_enable);
    assert!(geometry.write_enable);
    assert_eq!(geometry.compare_op, COMPARE_OP_LESS_OR_EQUAL);
    for role in [
        SubpassRole::AmbientLight,
        SubpassRole::DirectionalLight,
        SubpassRole::Composition,
    ] {
        let state = depth_state_for(role);
        assert!(!state.test_enable);
        assert!(!state.write_enable);
    }
}
