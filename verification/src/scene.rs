//! Frame scheduling: the per-frame decision of whether anything changed
//! since the last rendered frame, and the pacing interval. The render loop
//! around it clears the screen and re-runs the pipeline exactly when this
//! decision says so.

use vstd::prelude::*;
use crate::geometry::Point3;

verus! {

/// The state that drives one rendered frame: where the object stands and
/// how it is rotated (Euler angles, as fixed-point scalars).
#[derive(Clone, Copy, PartialEq, Eq, Structural, Debug)]
pub struct ObjectOrientation {
    pub position: Point3,
    pub rot_x: i64,
    pub rot_y: i64,
    pub rot_z: i64,
}

/// Whether a new frame must be rendered: always for the first frame, and
/// after that exactly when the driving state or the camera changed. When
/// this is false the previous frame is presented again unchanged.
pub fn render_due(
    last_state: Option<ObjectOrientation>,
    new_state: ObjectOrientation,
    camera_modified: bool,
) -> (r: bool)
    ensures
        r == (camera_modified || match last_state {
            Option::None => true,
            Option::Some(o) => o != new_state,
        }),
{
    let state_changed: bool = match last_state {
        Option::None => true,
        Option::Some(o) => !(o == new_state),
    };
    state_changed || camera_modified
}

/// The frame interval, in microseconds, for a frame rate capped at `fps`
/// frames per second. A rate of zero has no interval: the single-frame
/// export path bypasses pacing entirely.
pub fn frame_micros(fps: u64) -> (r: u64)
    requires
        fps > 0,
    ensures
        r == 1_000_000u64 / fps,
{
    1_000_000 / fps
}

} // verus!
