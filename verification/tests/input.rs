use bevy::input::keyboard::KeyCode;
use bevy::input::mouse::MouseButton;
use bevy::input::ButtonInput;
use saddle_camera_top_down_camera::input::{
    camera_window_entity, matches_input_target, matches_keyboard_target, matches_pointer_target,
    CameraRenderTarget, CameraWindowState, TopDownCameraInputBindingTable,
    TopDownCameraInputPolicy, TopDownCameraInputTargetFilter, TopDownCameraKeyAxisBinding,
};

fn custom_table() -> TopDownCameraInputBindingTable {
    TopDownCameraInputBindingTable {
        keyboard_pan_x: TopDownCameraKeyAxisBinding::new(vec![KeyCode::KeyJ], vec![KeyCode::KeyL]),
        keyboard_pan_y: TopDownCameraKeyAxisBinding::new(vec![KeyCode::KeyK], vec![KeyCode::KeyI]),
        keyboard_rotate: TopDownCameraKeyAxisBinding::new(vec![KeyCode::KeyU], vec![KeyCode::KeyO]),
        keyboard_zoom: TopDownCameraKeyAxisBinding::new(vec![KeyCode::KeyN], vec![KeyCode::KeyM]),
        mouse_drag_buttons: vec![MouseButton::Right],
    }
}

#[test]
fn binding_table_reads_custom_keys() {
    let bindings = custom_table();

    let mut keys = ButtonInput::default();
    keys.press(KeyCode::KeyL);
    keys.press(KeyCode::KeyI);
    keys.press(KeyCode::KeyU);
    keys.press(KeyCode::KeyM);

    let mut mouse_buttons = ButtonInput::default();
    mouse_buttons.press(MouseButton::Right);

    assert_eq!(bindings.keyboard_pan(&keys), (1, 1));
    assert_eq!(bindings.keyboard_rotate(&keys), -1);
    assert_eq!(bindings.keyboard_zoom(&keys), 1);
    assert!(bindings.mouse_drag_active(&mouse_buttons));
}

#[test]
fn axis_is_zero_when_both_or_neither_side_is_held() {
    let axis = TopDownCameraKeyAxisBinding::new(
        vec![KeyCode::KeyA, KeyCode::ArrowLeft],
        vec![KeyCode::KeyD, KeyCode::ArrowRight],
    );
    let mut keys = ButtonInput::default();
    assert_eq!(axis.value(&keys), 0);
    keys.press(KeyCode::ArrowLeft);
    assert_eq!(axis.value(&keys), -1);
    keys.press(KeyCode::KeyD);
    assert_eq!(axis.value(&keys), 0);
    keys.release(KeyCode::ArrowLeft);
    assert_eq!(axis.value(&keys), 1);
    keys.press(KeyCode::KeyQ);
    assert_eq!(axis.value(&keys), 1);
}

#[test]
fn mouse_drag_needs_a_listed_button() {
    let bindings = custom_table();
    let mut buttons = ButtonInput::default();
    assert!(!bindings.mouse_drag_active(&buttons));
    buttons.press(MouseButton::Middle);
    assert!(!bindings.mouse_drag_active(&buttons));
    buttons.press(MouseButton::Right);
    assert!(bindings.mouse_drag_active(&buttons));
}

#[test]
fn default_filter_is_active_camera() {
    assert_eq!(
        TopDownCameraInputTargetFilter::default(),
        TopDownCameraInputTargetFilter::ActiveCamera
    );
}

fn default_table() -> TopDownCameraInputBindingTable {
    TopDownCameraInputBindingTable {
        keyboard_pan_x: TopDownCameraKeyAxisBinding::new(
            vec![KeyCode::KeyA, KeyCode::ArrowLeft],
            vec![KeyCode::KeyD, KeyCode::ArrowRight],
        ),
        keyboard_pan_y: TopDownCameraKeyAxisBinding::new(
            vec![KeyCode::KeyS, KeyCode::ArrowDown],
            vec![KeyCode::KeyW, KeyCode::ArrowUp],
        ),
        keyboard_rotate: TopDownCameraKeyAxisBinding::new(vec![KeyCode::KeyQ], vec![KeyCode::KeyE]),
        keyboard_zoom: TopDownCameraKeyAxisBinding::new(
            vec![KeyCode::Equal, KeyCode::NumpadAdd],
            vec![KeyCode::Minus, KeyCode::NumpadSubtract],
        ),
        mouse_drag_buttons: vec![MouseButton::Middle],
    }
}

#[test]
fn inactive_cameras_do_not_consume_default_keyboard_input() {
    let policy = TopDownCameraInputPolicy {
        target_filter: TopDownCameraInputTargetFilter::default(),
        bindings: default_table(),
    };
    let mut keys = ButtonInput::default();
    keys.press(KeyCode::KeyD);
    assert_eq!(policy.bindings.keyboard_pan(&keys), (1, 0));
    let window = CameraWindowState::Present { focused: true };
    assert!(matches_keyboard_target(&policy, true, window, false));
    assert!(!matches_keyboard_target(&policy, false, window, true));
}

#[test]
fn default_axis_binding_has_no_keys() {
    let axis = TopDownCameraKeyAxisBinding::default();
    assert!(axis.negative.is_empty());
    assert!(axis.positive.is_empty());
    let mut keys = ButtonInput::default();
    keys.press(KeyCode::KeyA);
    assert_eq!(axis.value(&keys), 0);
}

#[test]
fn target_filters_gate_cameras_windows_and_cursor() {
    let (any, active, viewport) = (
        TopDownCameraInputTargetFilter::AnyCamera,
        TopDownCameraInputTargetFilter::ActiveCamera,
        TopDownCameraInputTargetFilter::ActiveViewport,
    );
    let focused = CameraWindowState::Present { focused: true };
    let unfocused = CameraWindowState::Present { focused: false };
    // AnyCamera ignores activity and focus, but not a missing window.
    assert!(matches_input_target(any, false, unfocused, false, false));
    assert!(!matches_input_target(any, true, CameraWindowState::Missing, false, true));
    // ActiveCamera needs an active camera and a focused window.
    assert!(!matches_input_target(active, true, unfocused, false, true));
    assert!(matches_input_target(active, true, CameraWindowState::NoWindow, false, false));
    // ActiveViewport also needs the cursor inside the viewport.
    assert!(!matches_input_target(viewport, true, focused, false, false));
    assert!(matches_input_target(viewport, true, focused, false, true));
}

#[test]
fn pointer_input_needs_the_cursor_in_the_viewport() {
    let policy = TopDownCameraInputPolicy {
        target_filter: TopDownCameraInputTargetFilter::AnyCamera,
        bindings: custom_table(),
    };
    let window = CameraWindowState::Present { focused: true };
    assert!(!matches_pointer_target(&policy, true, window, false));
    assert!(matches_pointer_target(&policy, true, window, true));
    assert!(matches_keyboard_target(&policy, true, window, false));
}

#[test]
fn camera_window_entity_follows_render_target() {
    assert_eq!(camera_window_entity(None, Some(5)), None);
    assert_eq!(camera_window_entity(Some(CameraRenderTarget::PrimaryWindow), Some(5)), Some(5));
    assert_eq!(camera_window_entity(Some(CameraRenderTarget::PrimaryWindow), None), None);
    assert_eq!(camera_window_entity(Some(CameraRenderTarget::Window(9)), Some(5)), Some(9));
    assert_eq!(camera_window_entity(Some(CameraRenderTarget::Other), Some(5)), None);
}
