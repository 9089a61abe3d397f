//! Shared per-session resources: the game-mode state machine state, the
//! scrolling camera, the captured frame delta, and the record of obstacles
//! already credited to the score.

use vstd::prelude::*;
use crate::motion::{displacement, scaled_displacement};
use crate::store::EntityId;
use crate::{CAMERA_PAN_SPEED, COORD_LIMIT, DELTA_LIMIT, SPEED_LIMIT, STEP_LIMIT, WINDOW_WIDTH};

verus! {

/// Which mode to return to when an exit prompt is cancelled.
#[derive(Clone, Copy, Debug, PartialEq, Eq, Structural)]
pub enum ResumeGameMode {
    Menu,
    Playing,
}

/// The state of the game-mode state machine. Each frame runs the system
/// schedule of the mode read at the top of that frame.
#[derive(Clone, Copy, Debug, PartialEq, Eq, Structural)]
pub enum GameMode {
    /// An exit prompt is up; on cancel the held mode resumes.
    Exiting(ResumeGameMode),
    Menu,
    Playing,
    GameOver,
    Title,
    Won,
}

/// The single mutable cell holding the current game mode.
#[derive(Clone, Copy, Debug, PartialEq, Eq, Structural)]
pub struct GameState {
    pub mode: GameMode,
}

impl Default for GameState {
    /// A session starts on the title screen.
    fn default() -> (state: GameState)
        ensures
            state.mode == GameMode::Title,
    {
        GameState { mode: GameMode::Title }
    }
}

/// Tracks the horizontal scroll: what the camera has panned past so far.
#[derive(Clone, Copy, Debug, PartialEq, Eq, Structural)]
pub struct Camera {
    pub pan_speed: i64,
    pub left_displacement: i64,
}

impl Default for Camera {
    fn default() -> (camera: Camera)
        ensures
            camera.pan_speed == CAMERA_PAN_SPEED,
            camera.left_displacement == 0,
    {
        Camera { pan_speed: CAMERA_PAN_SPEED, left_displacement: 0 }
    }
}

/// Whether an x position lies inside the camera's window: strictly past the
/// scrolled-off left edge and short of the right edge, one window width
/// further along.
pub open spec fn spec_in_view(camera: Camera, x_displacement: int) -> bool {
    camera.left_displacement < x_displacement && x_displacement < camera.left_displacement
        + WINDOW_WIDTH
}

impl Camera {
    /// Whether an x position is inside the camera's window: strictly past the
    /// scrolled-off left edge and short of the right edge, one window width
    /// further along.
    pub fn in_view(&self, x_displacement: i64) -> (r: bool)
        ensures
            r == spec_in_view(*self, x_displacement as int),
    {
        self.left_displacement < x_displacement
            && (x_displacement as i128) < self.left_displacement as i128 + WINDOW_WIDTH as i128
    }

    /// Advance the scroll by one frame's worth of panning. The offset never
    /// decreases, since the pan speed is nonnegative.
    pub fn update(&mut self, delta_millis: u64)
        requires
            delta_millis <= DELTA_LIMIT,
            0 <= old(self).pan_speed <= SPEED_LIMIT,
            -COORD_LIMIT <= old(self).left_displacement <= COORD_LIMIT,
        ensures
            final(self).pan_speed == old(self).pan_speed,
            final(self).left_displacement == old(self).left_displacement
                + scaled_displacement(delta_millis as int, old(self).pan_speed as int),
            final(self).left_displacement >= old(self).left_displacement,
            final(self).left_displacement
                <= old(self).left_displacement + STEP_LIMIT,
    {
        let step = displacement(delta_millis, self.pan_speed);
        self.left_displacement = self.left_displacement + step;
    }
}

/// The elapsed wall-clock time of the previous frame, captured once per
/// frame, in milliseconds.
#[derive(Clone, Copy, Debug, PartialEq, Eq, Structural)]
pub struct DeltaTime {
    pub millis: u64,
}

impl Default for DeltaTime {
    fn default() -> (delta: DeltaTime)
        ensures
            delta.millis == 0,
    {
        DeltaTime { millis: 0 }
    }
}

/// The obstacles already credited to the score, by entity identity; each
/// obstacle is credited at most once.
#[derive(Debug)]
pub struct ClearedObstacles {
    pub obstacles: Vec<EntityId>,
}

impl Default for ClearedObstacles {
    fn default() -> (cleared: ClearedObstacles)
        ensures
            cleared.obstacles@ == Seq::<EntityId>::empty(),
    {
        ClearedObstacles { obstacles: Vec::new() }
    }
}

impl ClearedObstacles {
    /// Whether an obstacle has already been credited.
    pub fn contains(&self, id: EntityId) -> (r: bool)
        ensures
            r == self.obstacles@.contains(id),
    {
        let mut i: usize = 0;
        while i < self.obstacles.len()
            invariant
                0 <= i <= self.obstacles@.len(),
                forall|j: int| 0 <= j < i ==> self.obstacles@[j] != id,
            decreases self.obstacles@.len() - i,
        {
            if self.obstacles[i] == id {
                return true;
            }
            i = i + 1;
        }
        false
    }
}

} // verus!
