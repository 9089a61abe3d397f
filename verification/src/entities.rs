//! Self-contained game entities: a camera, the player ("flipper"), obstacles
//! and the finish line, each carrying its own geometry, together with the
//! collision predicates over them.

use vstd::prelude::*;
use crate::motion::{displacement, scaled_displacement};
use crate::resources::GameMode;
use crate::{
    CAMERA_PAN_SPEED, COORD_LIMIT, DELTA_LIMIT, FINISH_LINE_WIDTH, FINISH_LINE_X, FLAP_IMPULSE,
    GRAVITY_PER_FRAME, OBSTACLE_WIDTH, PLAYER_BOX_SIZE, PLAYER_SPAWN_X, PLAYER_SPAWN_Y,
    PLAYER_X_VELOCITY, SPEED_LIMIT, TERMINAL_VELOCITY, UPWARD_SPEED_LIMIT, WINDOW_HEIGHT,
    WINDOW_WIDTH,
};

verus! {

/// Tracks the horizontal scroll of the visible window.
#[derive(Clone, Copy, Debug, PartialEq, Eq, Structural)]
pub struct Camera {
    pub pan_speed: i64,
    pub left_displacement: i64,
}

impl Default for Camera {
    fn default() -> (camera: Camera)
        ensures
            camera.pan_speed == CAMERA_PAN_SPEED,
            camera.left_displacement == 0,
    {
        Camera { pan_speed: CAMERA_PAN_SPEED, left_displacement: 0 }
    }
}

impl Camera {
    /// Whether an x position is visible. The upper bound compares the queried
    /// x against itself plus the window width, so it never excludes anything;
    /// this is the comparison the game defines, kept deliberately as it
    /// stands rather than measured from the scroll offset.
    pub fn in_view(&self, x_displacement: i64) -> (r: bool)
        ensures
            r == (self.left_displacement < x_displacement
                && x_displacement < x_displacement + WINDOW_WIDTH),
    {
        self.left_displacement < x_displacement
            && (x_displacement as i128) < x_displacement as i128 + WINDOW_WIDTH as i128
    }

    /// Advance the scroll by one frame's worth of panning.
    pub fn update(&mut self, delta_millis: u64)
        requires
            delta_millis <= DELTA_LIMIT,
            0 <= old(self).pan_speed <= SPEED_LIMIT,
            -COORD_LIMIT <= old(self).left_displacement <= COORD_LIMIT,
        ensures
            final(self).pan_speed == old(self).pan_speed,
            final(self).left_displacement == old(self).left_displacement
                + scaled_displacement(delta_millis as int, old(self).pan_speed as int),
            final(self).left_displacement >= old(self).left_displacement,
    {
        let step = displacement(delta_millis, self.pan_speed);
        self.left_displacement = self.left_displacement + step;
    }
}

/// The player: rises when flapped, falls under gravity, drifts rightward.
#[derive(Clone, Copy, Debug, PartialEq, Eq, Structural)]
pub struct Flipper {
    pub x_displacement: i64,
    pub y_displacement: i64,
    pub acceleration: i64,
    pub x_velocity: i64,
    pub y_velocity: i64,
    pub width: i64,
    pub height: i64,
}

impl Default for Flipper {
    /// A freshly spawned player: at the spawn point, at rest vertically,
    /// drifting rightward, with a square box.
    fn default() -> (flipper: Flipper)
        ensures
            flipper == (Flipper {
                x_displacement: PLAYER_SPAWN_X,
                y_displacement: PLAYER_SPAWN_Y,
                acceleration: FLAP_IMPULSE,
                x_velocity: PLAYER_X_VELOCITY,
                y_velocity: 0,
                width: PLAYER_BOX_SIZE,
                height: PLAYER_BOX_SIZE,
            }),
    {
        Flipper {
            x_displacement: PLAYER_SPAWN_X,
            y_displacement: PLAYER_SPAWN_Y,
            acceleration: FLAP_IMPULSE,
            x_velocity: PLAYER_X_VELOCITY,
            y_velocity: 0,
            width: PLAYER_BOX_SIZE,
            height: PLAYER_BOX_SIZE,
        }
    }
}

impl Flipper {
    /// Apply one flap impulse, unless the player is already rising at the
    /// upward speed limit.
    pub fn flap(&mut self)
        requires
            -SPEED_LIMIT <= old(self).y_velocity <= SPEED_LIMIT,
            -SPEED_LIMIT <= old(self).acceleration <= SPEED_LIMIT,
        ensures
            old(self).y_velocity > UPWARD_SPEED_LIMIT ==> final(self).y_velocity == old(
                self,
            ).y_velocity + old(self).acceleration,
            old(self).y_velocity <= UPWARD_SPEED_LIMIT ==> final(self).y_velocity == old(
                self,
            ).y_velocity,
            *final(self) == (Flipper { y_velocity: final(self).y_velocity, ..*old(self) }),
    {
        if self.y_velocity > UPWARD_SPEED_LIMIT {
            self.y_velocity = self.y_velocity + self.acceleration;
        }
    }

    /// The player's top edge.
    pub fn top(&self) -> (r: i128)
        ensures
            r == self.y_displacement,
    {
        self.y_displacement as i128
    }

    /// The player's bottom edge: the top plus the height.
    pub fn bottom(&self) -> (r: i128)
        ensures
            r == self.y_displacement + self.height,
    {
        self.y_displacement as i128 + self.height as i128
    }

    /// The player's left edge.
    pub fn left(&self) -> (r: i128)
        ensures
            r == self.x_displacement,
    {
        self.x_displacement as i128
    }

    /// The player's right edge: the left plus the width.
    pub fn right(&self) -> (r: i128)
        ensures
            r == self.x_displacement + self.width,
    {
        self.x_displacement as i128 + self.width as i128
    }

    /// One frame of motion: drift rightward, pull downward under gravity up
    /// to the terminal velocity, hold at the floor, and either report that
    /// the player fell off the bottom of the window or integrate the
    /// vertical speed.
    pub fn update(&mut self, delta_millis: u64) -> (outcome: Option<GameMode>)
        requires
            delta_millis <= DELTA_LIMIT,
            -SPEED_LIMIT <= old(self).x_velocity <= SPEED_LIMIT,
            -SPEED_LIMIT <= old(self).y_velocity <= SPEED_LIMIT,
            -COORD_LIMIT <= old(self).x_displacement <= COORD_LIMIT,
            -COORD_LIMIT <= old(self).y_displacement <= COORD_LIMIT,
        ensures
            final(self).x_displacement == old(self).x_displacement
                + scaled_displacement(delta_millis as int, old(self).x_velocity as int),
            final(self).y_velocity == if old(self).y_velocity < TERMINAL_VELOCITY {
                old(self).y_velocity + GRAVITY_PER_FRAME
            } else {
                old(self).y_velocity as int
            },
            old(self).y_displacement > WINDOW_HEIGHT ==> {
                &&& outcome == Some(GameMode::GameOver)
                &&& final(self).y_displacement == old(self).y_displacement
            },
            old(self).y_displacement <= WINDOW_HEIGHT ==> {
                &&& outcome is None
                &&& final(self).y_displacement == (if old(self).y_displacement <= 0 {
                    0int
                } else {
                    old(self).y_displacement as int
                }) + scaled_displacement(delta_millis as int, final(self).y_velocity as int)
            },
            final(self).acceleration == old(self).acceleration,
            final(self).x_velocity == old(self).x_velocity,
            final(self).width == old(self).width,
            final(self).height == old(self).height,
    {
        let x_step = displacement(delta_millis, self.x_velocity);
        self.x_displacement = self.x_displacement + x_step;

        // gravity
        if self.y_velocity < TERMINAL_VELOCITY {
            self.y_velocity = self.y_velocity + GRAVITY_PER_FRAME;
        }

        if self.y_displacement <= 0 {
            self.y_displacement = 0;
        } else if self.y_displacement > WINDOW_HEIGHT {
            return Some(GameMode::GameOver);
        }
        let y_step = displacement(delta_millis, self.y_velocity);
        self.y_displacement = self.y_displacement + y_step;

        None
    }

    pub fn with_x_displacement(&mut self, new_x_displacement: i64) -> (ret: &mut Self)
        ensures
            *ret == (Flipper { x_displacement: new_x_displacement, ..*old(self) }),
            *final(self) == *final(ret),
    {
        self.x_displacement = new_x_displacement;
        self
    }

    pub fn with_y_displacement(&mut self, new_y_displacement: i64) -> (ret: &mut Self)
        ensures
            *ret == (Flipper { y_displacement: new_y_displacement, ..*old(self) }),
            *final(self) == *final(ret),
    {
        self.y_displacement = new_y_displacement;
        self
    }

    pub fn with_width(&mut self, new_width: i64) -> (ret: &mut Self)
        ensures
            *ret == (Flipper { width: new_width, ..*old(self) }),
            *final(self) == *final(ret),
    {
        self.width = new_width;
        self
    }

    pub fn with_height(&mut self, new_height: i64) -> (ret: &mut Self)
        ensures
            *ret == (Flipper { height: new_height, ..*old(self) }),
            *final(self) == *final(ret),
    {
        self.height = new_height;
        self
    }
}

/// A vertical barrier with a passable gap.
#[derive(Clone, Copy, Debug, PartialEq, Eq, Structural)]
pub struct Obstacle {
    pub gap_length: i64,
    pub gap_y_displacement: i64,
    pub width: i64,
    pub x_displacement: i64,
}

impl Obstacle {
    /// An obstacle of the standard width at the given x, with the given gap.
    pub fn new(x_displacement: i64, gap_y_displacement: i64, gap_length: i64) -> (obstacle:
        Obstacle)
        ensures
            obstacle == (Obstacle {
                gap_length,
                gap_y_displacement,
                width: OBSTACLE_WIDTH,
                x_displacement,
            }),
    {
        Obstacle { gap_length, gap_y_displacement, width: OBSTACLE_WIDTH, x_displacement }
    }

    /// Where the gap begins.
    pub fn gap_top(&self) -> (r: i128)
        ensures
            r == self.gap_y_displacement,
    {
        self.gap_y_displacement as i128
    }

    /// Where the gap ends: where it begins plus its length.
    pub fn gap_bottom(&self) -> (r: i128)
        ensures
            r == self.gap_y_displacement + self.gap_length,
    {
        self.gap_y_displacement as i128 + self.gap_length as i128
    }

    /// The obstacle's left edge.
    pub fn left(&self) -> (r: i128)
        ensures
            r == self.x_displacement,
    {
        self.x_displacement as i128
    }

    /// The obstacle's right edge: the left plus the width.
    pub fn right(&self) -> (r: i128)
        ensures
            r == self.x_displacement + self.width,
    {
        self.x_displacement as i128 + self.width as i128
    }

    pub fn with_x_displacement(&mut self, new_x_displacement: i64) -> (ret: &mut Self)
        ensures
            *ret == (Obstacle { x_displacement: new_x_displacement, ..*old(self) }),
            *final(self) == *final(ret),
    {
        self.x_displacement = new_x_displacement;
        self
    }

    pub fn with_width(&mut self, new_width: i64) -> (ret: &mut Self)
        ensures
            *ret == (Obstacle { width: new_width, ..*old(self) }),
            *final(self) == *final(ret),
    {
        self.width = new_width;
        self
    }
}

/// Whether the player is in lethal contact with the obstruction: their
/// horizontal spans strictly overlap, and the player is not strictly
/// inside the gap's vertical span. An exact edge touch is no overlap, and
/// a player whose box merely touches a gap edge is not inside the gap.
pub open spec fn obstruction_collision(flipper: Flipper, obstruction: Obstacle) -> bool {
    if flipper.x_displacement + flipper.width <= obstruction.x_displacement
        || flipper.x_displacement >= obstruction.x_displacement + obstruction.width {
        false
    } else {
        flipper.y_displacement + flipper.height >= obstruction.gap_y_displacement
            + obstruction.gap_length || flipper.y_displacement <= obstruction.gap_y_displacement
    }
}

/// Whether the player has hit the obstruction's solid body rather than
/// passing through its gap.
pub fn flipper_obstruction_collision(flipper: &Flipper, obstruction: &Obstacle) -> (r: bool)
    ensures
        r == obstruction_collision(*flipper, *obstruction),
{
    if flipper.right() <= obstruction.left() || flipper.left() >= obstruction.right() {
        return false;
    }

    flipper.bottom() >= obstruction.gap_bottom() || flipper.top() <= obstruction.gap_top()
}

/// A fixed vertical strip spanning the whole window height; reaching it wins
/// the session.
#[derive(Clone, Copy, Debug, PartialEq, Eq, Structural)]
pub struct FinishLine {
    pub x_displacement: i64,
    pub width: i64,
}

impl Default for FinishLine {
    /// The finish line stands four window widths in.
    fn default() -> (finish_line: FinishLine)
        ensures
            finish_line == (FinishLine {
                x_displacement: FINISH_LINE_X,
                width: FINISH_LINE_WIDTH,
            }),
    {
        FinishLine { x_displacement: FINISH_LINE_X, width: FINISH_LINE_WIDTH }
    }
}

impl FinishLine {
    /// The strip's left edge.
    pub fn left(&self) -> (r: i128)
        ensures
            r == self.x_displacement,
    {
        self.x_displacement as i128
    }

    /// The strip's right edge: the left plus the width.
    pub fn right(&self) -> (r: i128)
        ensures
            r == self.x_displacement + self.width,
    {
        self.x_displacement as i128 + self.width as i128
    }

    pub fn with_x_displacement(&mut self, new_x_displacement: i64) -> (ret: &mut Self)
        ensures
            *ret == (FinishLine { x_displacement: new_x_displacement, ..*old(self) }),
            *final(self) == *final(ret),
    {
        self.x_displacement = new_x_displacement;
        self
    }

    pub fn with_width(&mut self, new_width: i64) -> (ret: &mut Self)
        ensures
            *ret == (FinishLine { width: new_width, ..*old(self) }),
            *final(self) == *final(ret),
    {
        self.width = new_width;
        self
    }
}

/// Whether the player's horizontal span strictly overlaps the finish line's;
/// the strip spans the whole window height, so no vertical test is needed.
pub open spec fn finish_line_collision(flipper: Flipper, finish_line: FinishLine) -> bool {
    flipper.x_displacement + flipper.width > finish_line.x_displacement
        && flipper.x_displacement < finish_line.x_displacement + finish_line.width
}

/// Whether the player has reached the finish line.
pub fn flipper_finish_line_collision(flipper: &Flipper, finish_line: &FinishLine) -> (r: bool)
    ensures
        r == finish_line_collision(*flipper, *finish_line),
{
    flipper.right() > finish_line.left() && flipper.left() < finish_line.right()
}

} // verus!
