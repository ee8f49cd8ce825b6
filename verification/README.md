# saddle_camera_top_down_camera

A reusable top-down follow camera for Bevy, split in two:

- `src/` is the verified library (Verus). It holds the camera's decision
  logic with contracts:
  - `targets`: automatic follow-target selection (highest enabled priority,
    lower entity index on ties) and explicit-versus-automatic resolution,
    with proofs that the choice does not depend on candidate order;
  - `effects`: the registry of named custom effect layers (set, get,
    get_mut, remove, active_count), with read-after-write and name
    uniqueness laws;
  - `input`: key-axis and mouse-button bindings read from Bevy's
    `ButtonInput`, and the rules deciding which cameras consume input;
  - `runtime`: where a frame's goal anchor comes from, and the debug
    drawing switches.
- `app/` is the Bevy plugin around it: ECS systems, the floating-point
  framing math (dead zone, soft zone, bounds, smoothing, camera placement),
  gizmo drawing, and the component copies that carry Bevy's ECS traits.

`tests/` exercises the library on concrete values.
