//! Per-frame decisions of the follow runtime, and the debug-drawing switches.
use vstd::prelude::*;

verus! {

/// Where a camera's goal anchor comes from on a frame.
#[derive(Clone, Copy, Debug, PartialEq, Eq, Structural)]
pub enum FollowPlan {
    /// The goal is the camera's desired anchor, left as it is.
    HoldDesired,
    /// The goal is solved from the tracked point (dead zone, soft zone and
    /// bounds), and the desired anchor is moved to it.
    SolveFromTarget,
}

/// Decides where the goal anchor comes from: a camera follows its target
/// only while following is enabled and a target was resolved; otherwise the
/// manually set desired anchor is kept.
pub fn plan_follow(follow_enabled: bool, target_resolved: bool) -> (r: FollowPlan)
    ensures
        r == (if follow_enabled && target_resolved {
            FollowPlan::SolveFromTarget
        } else {
            FollowPlan::HoldDesired
        }),
{
    if !follow_enabled {
        FollowPlan::HoldDesired
    } else if target_resolved {
        FollowPlan::SolveFromTarget
    } else {
        FollowPlan::HoldDesired
    }
}

/// Which debug gizmos are drawn for a camera.
#[derive(Clone, Copy, Debug, PartialEq, Eq, Structural)]
pub struct TopDownCameraDebug {
    pub draw_dead_zone: bool,
    pub draw_bounds: bool,
    pub draw_targets: bool,
}

impl Default for TopDownCameraDebug {
    fn default() -> (r: Self)
        ensures
            r == (TopDownCameraDebug { draw_dead_zone: true, draw_bounds: true, draw_targets: true }),
    {
        TopDownCameraDebug { draw_dead_zone: true, draw_bounds: true, draw_targets: true }
    }
}

} // verus!
