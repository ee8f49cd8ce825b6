//! Built-in input controller: key and button bindings, and which cameras may
//! consume input on a frame.
use bevy::input::keyboard::KeyCode;
use bevy::input::mouse::MouseButton;
use bevy::input::ButtonInput;
use vstd::prelude::*;

verus! {

#[verifier::external_type_specification]
#[verifier::external_body]
pub struct ExKeyCode(KeyCode);

#[verifier::external_type_specification]
#[verifier::external_body]
pub struct ExMouseButton(MouseButton);

#[verifier::external_type_specification]
#[verifier::external_body]
#[verifier::reject_recursive_types(T)]
pub struct ExButtonInput<T: Clone + Eq + core::hash::Hash + Send + Sync + 'static>(ButtonInput<T>);

/// The keys that a keyboard input state holds as currently pressed.
pub uninterp spec fn pressed_keys(input: ButtonInput<KeyCode>) -> Set<KeyCode>;

/// The mouse buttons that a mouse input state holds as currently pressed.
pub uninterp spec fn pressed_buttons(input: ButtonInput<MouseButton>) -> Set<MouseButton>;

/// Calls `ButtonInput::<KeyCode>::pressed`, which answers whether `key` is in
/// the input state's set of pressed keys.
#[verifier::external_body]
fn key_pressed(keys: &ButtonInput<KeyCode>, key: KeyCode) -> (r: bool)
    ensures
        r == pressed_keys(*keys).contains(key),
{
    keys.pressed(key)
}

/// Calls `ButtonInput::<MouseButton>::pressed`, which answers whether `button`
/// is in the input state's set of pressed buttons.
#[verifier::external_body]
fn button_pressed(buttons: &ButtonInput<MouseButton>, button: MouseButton) -> (r: bool)
    ensures
        r == pressed_buttons(*buttons).contains(button),
{
    buttons.pressed(button)
}

/// Value of a signed axis: `-1` when only its negative side is held, `1` when
/// only its positive side is held, `0` otherwise.
pub open spec fn axis_value(negative: bool, positive: bool) -> i8 {
    if negative && !positive {
        -1i8
    } else if !negative && positive {
        1i8
    } else {
        0i8
    }
}

/// Some key of `keys` is pressed.
pub open spec fn any_key_held(keys: Seq<KeyCode>, pressed: Set<KeyCode>) -> bool {
    exists|i: int| 0 <= i < keys.len() && pressed.contains(#[trigger] keys[i])
}

/// Some button of `buttons` is pressed.
pub open spec fn any_button_held(buttons: Seq<MouseButton>, pressed: Set<MouseButton>) -> bool {
    exists|i: int| 0 <= i < buttons.len() && pressed.contains(#[trigger] buttons[i])
}

fn any_key_pressed(keys: &Vec<KeyCode>, input: &ButtonInput<KeyCode>) -> (r: bool)
    ensures
        r == any_key_held(keys@, pressed_keys(*input)),
{
    let n = keys.len();
    let mut i: usize = 0;
    while i < n
        invariant
            n == keys@.len(),
            i <= n,
            forall|j: int| 0 <= j < i ==> !pressed_keys(*input).contains(#[trigger] keys@[j]),
        decreases n - i,
    {
        if key_pressed(input, keys[i]) {
            return true;
        }
        i = i + 1;
    }
    false
}

/// Bindable signed keyboard axis used by the built-in camera controller.
#[derive(Clone, Debug, PartialEq, Eq)]
pub struct TopDownCameraKeyAxisBinding {
    pub negative: Vec<KeyCode>,
    pub positive: Vec<KeyCode>,
}

impl TopDownCameraKeyAxisBinding {
    /// Creates an axis from the keys that drive it toward `-1` and toward `1`.
    pub fn new(negative: Vec<KeyCode>, positive: Vec<KeyCode>) -> (r: Self)
        ensures
            r.negative@ == negative@,
            r.positive@ == positive@,
    {
        TopDownCameraKeyAxisBinding { negative, positive }
    }

    /// The axis value under the given keyboard state.
    pub open spec fn value_spec(&self, keys: ButtonInput<KeyCode>) -> i8 {
        axis_value(
            any_key_held(self.negative@, pressed_keys(keys)),
            any_key_held(self.positive@, pressed_keys(keys)),
        )
    }

    /// Reads the axis: `-1`, `0` or `1`.
    pub fn value(&self, keys: &ButtonInput<KeyCode>) -> (r: i8)
        ensures
            r == self.value_spec(*keys),
    {
        let negative = any_key_pressed(&self.negative, keys);
        let positive = any_key_pressed(&self.positive, keys);
        if negative && !positive {
            -1
        } else if !negative && positive {
            1
        } else {
            0
        }
    }
}

impl Default for TopDownCameraKeyAxisBinding {
    /// An axis with no keys on either side.
    fn default() -> (r: Self)
        ensures
            r.negative@.len() == 0,
            r.positive@.len() == 0,
    {
        TopDownCameraKeyAxisBinding { negative: Vec::new(), positive: Vec::new() }
    }
}

/// Keyboard and mouse mapping table used by the built-in controller.
#[derive(Clone, Debug, PartialEq, Eq)]
pub struct TopDownCameraInputBindingTable {
    pub keyboard_pan_x: TopDownCameraKeyAxisBinding,
    pub keyboard_pan_y: TopDownCameraKeyAxisBinding,
    pub keyboard_rotate: TopDownCameraKeyAxisBinding,
    pub keyboard_zoom: TopDownCameraKeyAxisBinding,
    pub mouse_drag_buttons: Vec<MouseButton>,
}

impl TopDownCameraInputBindingTable {
    /// The keyboard pan direction, one signed axis per planar axis.
    pub fn keyboard_pan(&self, keys: &ButtonInput<KeyCode>) -> (r: (i8, i8))
        ensures
            r == (self.keyboard_pan_x.value_spec(*keys), self.keyboard_pan_y.value_spec(*keys)),
    {
        (self.keyboard_pan_x.value(keys), self.keyboard_pan_y.value(keys))
    }

    /// The keyboard rotation axis.
    pub fn keyboard_rotate(&self, keys: &ButtonInput<KeyCode>) -> (r: i8)
        ensures
            r == self.keyboard_rotate.value_spec(*keys),
    {
        self.keyboard_rotate.value(keys)
    }

    /// The keyboard zoom axis.
    pub fn keyboard_zoom(&self, keys: &ButtonInput<KeyCode>) -> (r: i8)
        ensures
            r == self.keyboard_zoom.value_spec(*keys),
    {
        self.keyboard_zoom.value(keys)
    }

    /// Whether any of the drag buttons is pressed.
    pub fn mouse_drag_active(&self, buttons: &ButtonInput<MouseButton>) -> (r: bool)
        ensures
            r == any_button_held(self.mouse_drag_buttons@, pressed_buttons(*buttons)),
    {
        let n = self.mouse_drag_buttons.len();
        let mut i: usize = 0;
        while i < n
            invariant
                n == self.mouse_drag_buttons@.len(),
                i <= n,
                forall|j: int|
                    0 <= j < i ==> !pressed_buttons(*buttons).contains(
                        #[trigger] self.mouse_drag_buttons@[j],
                    ),
            decreases n - i,
        {
            if button_pressed(buttons, self.mouse_drag_buttons[i]) {
                return true;
            }
            i = i + 1;
        }
        false
    }
}

/// Which cameras are allowed to consume built-in input on a frame.
#[derive(Clone, Copy, Debug, PartialEq, Eq, Structural)]
pub enum TopDownCameraInputTargetFilter {
    /// Apply input to every camera with matching input components.
    AnyCamera,
    /// Only apply input to active cameras.
    ActiveCamera,
    /// Only apply input to active cameras whose viewport currently contains the cursor.
    ActiveViewport,
}

impl Default for TopDownCameraInputTargetFilter {
    fn default() -> (r: Self)
        ensures
            r == TopDownCameraInputTargetFilter::ActiveCamera,
    {
        TopDownCameraInputTargetFilter::ActiveCamera
    }
}

/// Built-in input policy: bindings plus camera filtering.
#[derive(Clone, Debug)]
pub struct TopDownCameraInputPolicy {
    pub target_filter: TopDownCameraInputTargetFilter,
    pub bindings: TopDownCameraInputBindingTable,
}

/// What is known of the window that a camera renders to.
#[derive(Clone, Copy, Debug, PartialEq, Eq, Structural)]
pub enum CameraWindowState {
    /// The camera does not render to a window.
    NoWindow,
    /// The camera names a window that does not exist.
    Missing,
    /// The camera's window exists.
    Present { focused: bool },
}

/// Whether a camera may consume input, as the built-in controller decides it.
pub open spec fn input_target_allowed(
    filter: TopDownCameraInputTargetFilter,
    camera_active: bool,
    window: CameraWindowState,
    require_cursor_in_viewport: bool,
    cursor_in_viewport: bool,
) -> bool {
    let any = filter == TopDownCameraInputTargetFilter::AnyCamera;
    &&& any || camera_active
    &&& window != CameraWindowState::Missing
    &&& window matches CameraWindowState::Present { focused } ==> any || focused
    &&& (require_cursor_in_viewport || filter == TopDownCameraInputTargetFilter::ActiveViewport)
        ==> cursor_in_viewport
}

/// Decides whether a camera may consume input this frame.
///
/// Unless the filter is `AnyCamera`, the camera must be active and its window
/// focused. A camera whose window is missing never consumes input. When the
/// input is pointer-driven, or the filter is `ActiveViewport`, the cursor must
/// also lie inside the camera's viewport.
pub fn matches_input_target(
    filter: TopDownCameraInputTargetFilter,
    camera_active: bool,
    window: CameraWindowState,
    require_cursor_in_viewport: bool,
    cursor_in_viewport: bool,
) -> (r: bool)
    ensures
        r == input_target_allowed(filter, camera_active, window, require_cursor_in_viewport, cursor_in_viewport),
{
    let any = matches!(filter, TopDownCameraInputTargetFilter::AnyCamera);
    if !any && !camera_active {
        return false;
    }
    match window {
        CameraWindowState::NoWindow => {},
        CameraWindowState::Missing => {
            return false;
        },
        CameraWindowState::Present { focused } => {
            if !any && !focused {
                return false;
            }
        },
    }
    if require_cursor_in_viewport || matches!(filter, TopDownCameraInputTargetFilter::ActiveViewport) {
        return cursor_in_viewport;
    }
    true
}

/// Whether a camera may consume keyboard input this frame.
pub fn matches_keyboard_target(
    policy: &TopDownCameraInputPolicy,
    camera_active: bool,
    window: CameraWindowState,
    cursor_in_viewport: bool,
) -> (r: bool)
    ensures
        r == input_target_allowed(policy.target_filter, camera_active, window, false, cursor_in_viewport),
{
    matches_input_target(policy.target_filter, camera_active, window, false, cursor_in_viewport)
}

/// Whether a camera may consume pointer input this frame.
pub fn matches_pointer_target(
    policy: &TopDownCameraInputPolicy,
    camera_active: bool,
    window: CameraWindowState,
    cursor_in_viewport: bool,
) -> (r: bool)
    ensures
        r == input_target_allowed(policy.target_filter, camera_active, window, true, cursor_in_viewport),
{
    matches_input_target(policy.target_filter, camera_active, window, true, cursor_in_viewport)
}

/// Where a camera renders, with window entities given by their bits.
#[derive(Clone, Copy, Debug, PartialEq, Eq, Structural)]
pub enum CameraRenderTarget {
    /// The primary window.
    PrimaryWindow,
    /// The window entity with these bits.
    Window(u64),
    /// A target that is not a window (an image or a texture view).
    Other,
}

/// The window entity a camera renders to, if any.
pub fn camera_window_entity(render_target: Option<CameraRenderTarget>, primary_window: Option<u64>) -> (r: Option<u64>)
    ensures
        r == match render_target {
            Some(CameraRenderTarget::PrimaryWindow) => primary_window,
            Some(CameraRenderTarget::Window(e)) => Some(e),
            _ => None,
        },
{
    match render_target {
        Some(CameraRenderTarget::PrimaryWindow) => primary_window,
        Some(CameraRenderTarget::Window(e)) => Some(e),
        _ => None,
    }
}

/// A pointer-driven input is never consumed when the cursor is outside the
/// camera's viewport, whatever the filter.
pub proof fn lemma_pointer_input_needs_cursor(
    filter: TopDownCameraInputTargetFilter,
    camera_active: bool,
    window: CameraWindowState,
)
    ensures
        !input_target_allowed(filter, camera_active, window, true, false),
{
}

/// With a filter other than `AnyCamera`, an inactive camera never consumes
/// input.
pub proof fn lemma_inactive_camera_ignores_input(
    filter: TopDownCameraInputTargetFilter,
    window: CameraWindowState,
    require_cursor_in_viewport: bool,
    cursor_in_viewport: bool,
)
    requires
        filter != TopDownCameraInputTargetFilter::AnyCamera,
    ensures
        !input_target_allowed(filter, false, window, require_cursor_in_viewport, cursor_in_viewport),
{
}

/// With a filter other than `AnyCamera`, a camera whose window is not
/// focused never consumes input; with any filter a camera whose window is
/// missing never does; and under `ActiveViewport` a camera never consumes
/// input while the cursor is outside its viewport.
pub proof fn lemma_unfocused_window_ignores_input(
    filter: TopDownCameraInputTargetFilter,
    camera_active: bool,
    require_cursor_in_viewport: bool,
    cursor_in_viewport: bool,
)
    ensures
        filter != TopDownCameraInputTargetFilter::AnyCamera ==> !input_target_allowed(
            filter,
            camera_active,
            CameraWindowState::Present { focused: false },
            require_cursor_in_viewport,
            cursor_in_viewport,
        ),
        !input_target_allowed(
            filter,
            camera_active,
            CameraWindowState::Missing,
            require_cursor_in_viewport,
            cursor_in_viewport,
        ),
        filter == TopDownCameraInputTargetFilter::ActiveViewport ==> !input_target_allowed(
            filter,
            camera_active,
            CameraWindowState::Present { focused: true },
            require_cursor_in_viewport,
            false,
        ),
{
}

/// The cases in which a camera does consume input: an active camera in a
/// focused window (or with no window) takes keyboard input under
/// `ActiveCamera` and `AnyCamera`, and also pointer input when the cursor is
/// inside its viewport, under every filter; `AnyCamera` takes keyboard input
/// from inactive cameras and unfocused windows too.
pub proof fn lemma_allowed_input_cases(
    filter: TopDownCameraInputTargetFilter,
    window_focused: bool,
    camera_active: bool,
)
    ensures
        filter != TopDownCameraInputTargetFilter::ActiveViewport ==> input_target_allowed(
            filter,
            true,
            CameraWindowState::Present { focused: true },
            false,
            false,
        ),
        input_target_allowed(filter, true, CameraWindowState::Present { focused: true }, true, true),
        input_target_allowed(filter, true, CameraWindowState::NoWindow, true, true),
        input_target_allowed(
            TopDownCameraInputTargetFilter::AnyCamera,
            camera_active,
            CameraWindowState::Present { focused: window_focused },
            false,
            false,
        ),
{
}

/// An axis reads `1` when some key of its positive side is held and none of
/// its negative side, `-1` in the mirror case, and `0` when neither side or
/// both sides are held. Every key of a side counts, not only the first.
pub proof fn lemma_axis_reads_held_keys(binding: TopDownCameraKeyAxisBinding, keys: ButtonInput<KeyCode>)
    ensures
        (exists|i: int|
            0 <= i < binding.positive@.len() && pressed_keys(keys).contains(
                #[trigger] binding.positive@[i],
            )) && (forall|j: int|
            0 <= j < binding.negative@.len() ==> !pressed_keys(keys).contains(
                #[trigger] binding.negative@[j],
            )) ==> binding.value_spec(keys) == 1,
        (exists|i: int|
            0 <= i < binding.negative@.len() && pressed_keys(keys).contains(
                #[trigger] binding.negative@[i],
            )) && (forall|j: int|
            0 <= j < binding.positive@.len() ==> !pressed_keys(keys).contains(
                #[trigger] binding.positive@[j],
            )) ==> binding.value_spec(keys) == -1,
        (forall|j: int|
            0 <= j < binding.positive@.len() ==> !pressed_keys(keys).contains(
                #[trigger] binding.positive@[j],
            )) && (forall|j: int|
            0 <= j < binding.negative@.len() ==> !pressed_keys(keys).contains(
                #[trigger] binding.negative@[j],
            )) ==> binding.value_spec(keys) == 0,
        (exists|i: int|
            0 <= i < binding.positive@.len() && pressed_keys(keys).contains(
                #[trigger] binding.positive@[i],
            )) && (exists|j: int|
            0 <= j < binding.negative@.len() && pressed_keys(keys).contains(
                #[trigger] binding.negative@[j],
            )) ==> binding.value_spec(keys) == 0,
{
}

/// Mouse drag is active exactly when some button of the list is pressed:
/// any listed button enables it, whatever its place in the list, and it is
/// inactive when no listed button is pressed.
pub proof fn lemma_drag_active_iff_listed_button(buttons: Seq<MouseButton>, pressed: Set<MouseButton>)
    ensures
        forall|i: int|
            0 <= i < buttons.len() && pressed.contains(#[trigger] buttons[i]) ==> any_button_held(
                buttons,
                pressed,
            ),
        (forall|i: int| 0 <= i < buttons.len() ==> !pressed.contains(#[trigger] buttons[i]))
            ==> !any_button_held(buttons, pressed),
{
}

/// Each axis reads `0` when both of its sides are held or neither is.
pub proof fn lemma_axis_value_balanced(negative: bool, positive: bool)
    ensures
        negative == positive ==> axis_value(negative, positive) == 0,
        -1 <= axis_value(negative, positive) <= 1,
{
}

} // verus!
