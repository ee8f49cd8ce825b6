//! Top-down follow camera: the decision logic of the camera runtime.
pub mod effects;
pub mod input;
pub mod runtime;
pub mod targets;

pub use effects::{NamedEffectLayer, TopDownCameraCustomEffects, TopDownCameraEffectLayer, Vec3Bits};
pub use input::{
    TopDownCameraInputBindingTable, TopDownCameraInputPolicy, TopDownCameraInputTargetFilter,
    TopDownCameraKeyAxisBinding,
};
pub use runtime::{plan_follow, FollowPlan, TopDownCameraDebug};
pub use targets::{resolve_target_candidate, select_auto_target, TargetCandidate, TargetChoice};
