//! The world context: the entity store together with every shared resource,
//! the per-frame input snapshot the host hands in, the command output the
//! host carries out, and the well-formedness invariants of a game session.

use vstd::prelude::*;
use vstd::set_lib::{lemma_int_range, lemma_len_subset, set_int_range};
use crate::components::Colour;
use crate::resources::{Camera, ClearedObstacles, DeltaTime, GameState};
use crate::store::{marked_count, EntityId, EntityStore};
use crate::{CAMERA_PAN_SPEED, COORD_LIMIT, COORD_SLACK_LIMIT, DELTA_LIMIT, SPEED_LIMIT};

verus! {

/// Machine limit: sessions keep well under this many entities, so scores and
/// set sizes stay far from their types' ranges.
pub const MAX_ENTITIES: usize = 1_000_000;

/// Everything the simulation reads from the host's input polling for one
/// frame.
#[derive(Clone, Copy, Debug, PartialEq, Eq, Structural)]
pub struct FrameInput {
    /// Elapsed wall-clock time of the previous frame, in milliseconds.
    pub delta_millis: u64,
    /// Elapsed session time, in milliseconds.
    pub session_millis: u64,
    /// The flap key is currently held.
    pub flap_held: bool,
    /// The flap key was released this frame.
    pub flap_released: bool,
    /// The mouse button was pressed this frame.
    pub mouse_pressed: bool,
    /// The escape key was released this frame.
    pub escape_released: bool,
    /// The host received a quit signal.
    pub quit_requested: bool,
    /// The confirm key is currently held.
    pub confirm_held: bool,
}

/// The sounds a session can ask the host to play; absent assets make any of
/// them a silent no-op on the host's side.
#[derive(Clone, Copy, Debug, PartialEq, Eq, Structural)]
pub enum SoundKind {
    Background,
    Flap,
    GameOver,
    ObstacleCleared,
    Victory,
}

/// One audio request to the host.
#[derive(Clone, Copy, Debug, PartialEq, Eq, Structural)]
pub enum SoundCommand {
    PlayOnce(SoundKind),
    StartLoop(SoundKind),
    StopLoop(SoundKind),
}

/// One filled rectangle for the host to draw, in window coordinates (the
/// camera offset is already subtracted).
#[derive(Clone, Copy, Debug, PartialEq, Eq, Structural)]
pub struct DrawCommand {
    pub x: i64,
    pub y: i64,
    pub width: i64,
    pub height: i64,
    pub colour: Colour,
}

/// A recoverable unexpected-state call, reported to the host for logging.
#[derive(Clone, Copy, Debug, PartialEq, Eq, Structural)]
pub enum CoreWarning {
    /// The exit handler ran while no exit prompt was up.
    ExitHandledOutsideExiting,
    /// A quit request arrived while an exit prompt was already up.
    QuitRequestedWhileExiting,
}

/// Everything one frame asks of the host: a background colour, rectangles to
/// draw, sounds to play or stop, warnings to log, and whether to terminate.
pub struct FrameOutput {
    pub background: Colour,
    pub draws: Vec<DrawCommand>,
    pub sounds: Vec<SoundCommand>,
    pub warnings: Vec<CoreWarning>,
    pub terminate: bool,
}

impl FrameOutput {
    /// An output that asks nothing yet.
    pub fn empty(background: Colour) -> (output: FrameOutput)
        ensures
            output.background == background,
            output.draws@ == Seq::<DrawCommand>::empty(),
            output.sounds@ == Seq::<SoundCommand>::empty(),
            output.warnings@ == Seq::<CoreWarning>::empty(),
            !output.terminate,
    {
        FrameOutput {
            background,
            draws: Vec::new(),
            sounds: Vec::new(),
            warnings: Vec::new(),
            terminate: false,
        }
    }
}

/// `next` is `prev` with exactly the given commands appended and nothing
/// else changed.
pub open spec fn output_extended(
    prev: FrameOutput,
    next: FrameOutput,
    sounds: Seq<SoundCommand>,
    draws: Seq<DrawCommand>,
    warnings: Seq<CoreWarning>,
) -> bool {
    &&& next.sounds@ == prev.sounds@ + sounds
    &&& next.draws@ == prev.draws@ + draws
    &&& next.warnings@ == prev.warnings@ + warnings
    &&& next.background == prev.background
    &&& next.terminate == prev.terminate
}

/// An output whose command lists and flags are unchanged extends the old
/// one by nothing.
pub proof fn lemma_output_extended_trivial(prev: FrameOutput, next: FrameOutput)
    requires
        next.sounds@ == prev.sounds@,
        next.draws@ == prev.draws@,
        next.warnings@ == prev.warnings@,
        next.background == prev.background,
        next.terminate == prev.terminate,
    ensures
        output_extended(
            prev,
            next,
            Seq::<SoundCommand>::empty(),
            Seq::<DrawCommand>::empty(),
            Seq::<CoreWarning>::empty(),
        ),
{
    assert(prev.sounds@ + Seq::<SoundCommand>::empty() =~= prev.sounds@);
    assert(prev.draws@ + Seq::<DrawCommand>::empty() =~= prev.draws@);
    assert(prev.warnings@ + Seq::<CoreWarning>::empty() =~= prev.warnings@);
}

/// Two extensions in a row extend by the two commands lists, concatenated.
pub proof fn lemma_output_extended_compose(
    first: FrameOutput,
    second: FrameOutput,
    third: FrameOutput,
    sounds1: Seq<SoundCommand>,
    draws1: Seq<DrawCommand>,
    warnings1: Seq<CoreWarning>,
    sounds2: Seq<SoundCommand>,
    draws2: Seq<DrawCommand>,
    warnings2: Seq<CoreWarning>,
)
    requires
        output_extended(first, second, sounds1, draws1, warnings1),
        output_extended(second, third, sounds2, draws2, warnings2),
    ensures
        output_extended(first, third, sounds1 + sounds2, draws1 + draws2, warnings1 + warnings2),
{
    assert((first.sounds@ + sounds1) + sounds2 =~= first.sounds@ + (sounds1 + sounds2));
    assert((first.draws@ + draws1) + draws2 =~= first.draws@ + (draws1 + draws2));
    assert((first.warnings@ + warnings1) + warnings2 =~= first.warnings@ + (warnings1 + warnings2));
}

/// There is exactly one player entity, and it carries a position, a
/// velocity, a rectangle shape and a score, but no obstacle shape and no
/// finish line marker.
pub open spec fn flipper_entity_ok(s: EntityStore) -> bool {
    &&& marked_count(s.flipper_markers@, s.entity_count()) == 1
    &&& s.is_flipper(s.flipper_index())
    &&& s.positions@[s.flipper_index()] is Some
    &&& s.velocities@[s.flipper_index()] is Some
    &&& s.rectangle_shapes@[s.flipper_index()] is Some
    &&& s.scores@[s.flipper_index()] is Some
    &&& s.obstacle_shapes@[s.flipper_index()] is None
    &&& !s.finish_line_markers@[s.flipper_index()]
}

/// There is exactly one finish line entity, and it carries a position and a
/// rectangle shape, but no obstacle shape and no player marker.
pub open spec fn finish_line_entity_ok(s: EntityStore) -> bool {
    &&& marked_count(s.finish_line_markers@, s.entity_count()) == 1
    &&& s.is_finish_line(s.finish_line_index())
    &&& s.positions@[s.finish_line_index()] is Some
    &&& s.rectangle_shapes@[s.finish_line_index()] is Some
    &&& s.obstacle_shapes@[s.finish_line_index()] is None
    &&& !s.flipper_markers@[s.finish_line_index()]
}

/// Every obstacle has a position.
pub open spec fn obstacles_ok(s: EntityStore) -> bool {
    forall|i: int| s.is_obstacle(i) ==> s.positions@[i] is Some
}

/// The store holds the session's entities in the shape the data model asks
/// for.
pub open spec fn store_ok(s: EntityStore) -> bool {
    &&& s.tables_consistent()
    &&& s.entity_count() <= MAX_ENTITIES
    &&& flipper_entity_ok(s)
    &&& finish_line_entity_ok(s)
    &&& obstacles_ok(s)
}

/// The cleared-obstacles record names distinct obstacle entities.
pub open spec fn cleared_ok(s: EntityStore, cleared: Seq<EntityId>) -> bool {
    &&& cleared.no_duplicates()
    &&& forall|k: int| 0 <= k < cleared.len() ==> s.is_obstacle(cleared[k].index as int)
}

/// The player's score counts exactly the cleared obstacles.
pub open spec fn score_matches_cleared(s: EntityStore, cleared: Seq<EntityId>) -> bool {
    s.scores@[s.flipper_index()].unwrap().value == cleared.len()
}

/// Distinct entity identities below `count` cannot number more than `count`.
pub proof fn lemma_distinct_ids_bounded(ids: Seq<EntityId>, count: int)
    requires
        ids.no_duplicates(),
        forall|k: int| 0 <= k < ids.len() ==> 0 <= #[trigger] ids[k].index < count,
        0 <= count,
    ensures
        ids.len() <= count,
{
    let to_int = |id: EntityId| id.index as int;
    let ints = ids.map_values(to_int);
    ids.lemma_no_duplicates_injective(to_int);
    ints.unique_seq_to_set();
    lemma_int_range(0, count);
    assert forall|e: int| ints.to_set().contains(e) implies set_int_range(0, count).contains(
        e,
    ) by {
        let k = choose|k: int| 0 <= k < ints.len() && ints[k] == e;
        assert(0 <= ids[k].index < count);
    }
    lemma_len_subset(ints.to_set(), set_int_range(0, count));
}

/// Every present x coordinate is within the given bound.
pub open spec fn positions_x_bounded(s: EntityStore, coord_bound: int) -> bool {
    forall|i: int|
        s.valid_index(i) && s.positions@[i] is Some ==> {
            let p = #[trigger] s.positions@[i].unwrap();
            -coord_bound <= p.x <= coord_bound
        }
}

/// Every present y coordinate is within the given bound.
pub open spec fn positions_y_bounded(s: EntityStore, coord_bound: int) -> bool {
    forall|i: int|
        s.valid_index(i) && s.positions@[i] is Some ==> {
            let p = #[trigger] s.positions@[i].unwrap();
            -coord_bound <= p.y <= coord_bound
        }
}

/// Every present velocity is within the speed limit.
pub open spec fn velocities_bounded(s: EntityStore) -> bool {
    forall|i: int|
        s.valid_index(i) && s.velocities@[i] is Some ==> {
            let v = #[trigger] s.velocities@[i].unwrap();
            -SPEED_LIMIT <= v.x <= SPEED_LIMIT && -SPEED_LIMIT <= v.y <= SPEED_LIMIT
        }
}

/// Every rectangle extent is within the coordinate limit.
pub open spec fn rectangle_shapes_bounded(s: EntityStore) -> bool {
    forall|i: int|
        s.valid_index(i) && s.rectangle_shapes@[i] is Some ==> {
            let r = #[trigger] s.rectangle_shapes@[i].unwrap();
            -COORD_LIMIT <= r.width <= COORD_LIMIT && -COORD_LIMIT <= r.height <= COORD_LIMIT
        }
}

/// Every obstacle extent is within the coordinate limit.
pub open spec fn obstacle_shapes_bounded(s: EntityStore) -> bool {
    forall|i: int|
        s.valid_index(i) && s.obstacle_shapes@[i] is Some ==> {
            let o = #[trigger] s.obstacle_shapes@[i].unwrap();
            &&& -COORD_LIMIT <= o.gap_length <= COORD_LIMIT
            &&& -COORD_LIMIT <= o.gap_y_displacement <= COORD_LIMIT
            &&& -COORD_LIMIT <= o.width <= COORD_LIMIT
        }
}

/// A bound on the x coordinates still holds at any looser bound.
pub proof fn lemma_positions_x_weaken(s: EntityStore, tight: int, loose: int)
    requires
        positions_x_bounded(s, tight),
        tight <= loose,
    ensures
        positions_x_bounded(s, loose),
{
    assert forall|i: int| s.valid_index(i) && s.positions@[i] is Some implies {
        let p = #[trigger] s.positions@[i].unwrap();
        -loose <= p.x <= loose
    } by {
        assert(-tight <= s.positions@[i].unwrap().x <= tight);
    }
}

/// A bound on the y coordinates still holds at any looser bound.
pub proof fn lemma_positions_y_weaken(s: EntityStore, tight: int, loose: int)
    requires
        positions_y_bounded(s, tight),
        tight <= loose,
    ensures
        positions_y_bounded(s, loose),
{
    assert forall|i: int| s.valid_index(i) && s.positions@[i] is Some implies {
        let p = #[trigger] s.positions@[i].unwrap();
        -loose <= p.y <= loose
    } by {
        assert(-tight <= s.positions@[i].unwrap().y <= tight);
    }
}

/// Positions, velocities and shape extents within the given coordinate
/// bound: what keeps one frame's arithmetic inside `i64`.
pub open spec fn entity_bounds(s: EntityStore, coord_bound: int) -> bool {
    &&& positions_x_bounded(s, coord_bound)
    &&& positions_y_bounded(s, coord_bound)
    &&& velocities_bounded(s)
    &&& rectangle_shapes_bounded(s)
    &&& obstacle_shapes_bounded(s)
}

/// The whole mutable state of one game session.
pub struct GameWorld {
    pub entities: EntityStore,
    pub camera: Camera,
    pub state: GameState,
    pub delta_time: DeltaTime,
    pub cleared_obstacles: ClearedObstacles,
}

impl GameWorld {
    /// The session invariant: the store, the cleared-obstacles record, the
    /// score and the camera are in the shape every system relies on.
    pub open spec fn well_formed(self) -> bool {
        &&& store_ok(self.entities)
        &&& cleared_ok(self.entities, self.cleared_obstacles.obstacles@)
        &&& score_matches_cleared(self.entities, self.cleared_obstacles.obstacles@)
        &&& self.camera.pan_speed == CAMERA_PAN_SPEED
        &&& self.delta_time.millis <= DELTA_LIMIT
    }

    /// Coordinates are within the strict bound a frame may start from.
    pub open spec fn within_bounds(self) -> bool {
        &&& entity_bounds(self.entities, COORD_LIMIT as int)
        &&& -COORD_LIMIT <= self.camera.left_displacement <= COORD_LIMIT
    }

    /// Coordinates may overshoot the strict bound by at most one frame's
    /// displacement: what holds when a frame ends.
    pub open spec fn within_relaxed_bounds(self) -> bool {
        &&& entity_bounds(self.entities, COORD_SLACK_LIMIT as int)
        &&& -COORD_SLACK_LIMIT <= self.camera.left_displacement <= COORD_SLACK_LIMIT
    }

    /// A fresh session: the spawned entity course, the camera at the
    /// origin, the title screen up, no time elapsed and nothing cleared.
    pub fn new() -> (world: GameWorld)
        ensures
            world.well_formed(),
            world.within_bounds(),
            crate::systems::initial_entities(world.entities),
            world.state.mode == crate::resources::GameMode::Title,
            world.camera.pan_speed == CAMERA_PAN_SPEED,
            world.camera.left_displacement == 0,
            world.delta_time.millis == 0,
            world.cleared_obstacles.obstacles@ == Seq::<EntityId>::empty(),
    {
        let mut entities = EntityStore::new();
        crate::systems::spawn_entities(&mut entities);
        let world = GameWorld {
            entities,
            camera: Camera::default(),
            state: GameState::default(),
            delta_time: DeltaTime::default(),
            cleared_obstacles: ClearedObstacles::default(),
        };
        proof {
            let s = world.entities;
            assert(s.entity_count() == 6);
            assert(marked_count(s.flipper_markers@, 6) == 1) by {
                reveal_with_fuel(marked_count, 8);
            }
            assert(marked_count(s.finish_line_markers@, 6) == 1) by {
                reveal_with_fuel(marked_count, 8);
            }
            assert(s.is_flipper(0));
            assert(exists|i: int| s.is_flipper(i));
            crate::store::lemma_marked_count_unique(
                s.flipper_markers@,
                s.flipper_index(),
                0,
                6,
            );
            assert(s.flipper_index() == 0);
            assert(s.is_finish_line(1));
            assert(exists|i: int| s.is_finish_line(i));
            crate::store::lemma_marked_count_unique(
                s.finish_line_markers@,
                s.finish_line_index(),
                1,
                6,
            );
            assert(s.finish_line_index() == 1);
            assert(flipper_entity_ok(s));
            assert(finish_line_entity_ok(s));
            assert forall|i: int| s.is_obstacle(i) implies s.positions@[i] is Some by {
                assert(0 <= i < 6);
            }
            assert(store_ok(s));
            assert(cleared_ok(s, world.cleared_obstacles.obstacles@));
            assert(score_matches_cleared(s, world.cleared_obstacles.obstacles@));
            assert(world.well_formed());
            assert forall|i: int|
                s.valid_index(i) && s.positions@[i] is Some implies {
                    let p = #[trigger] s.positions@[i].unwrap();
                    -COORD_LIMIT <= p.x <= COORD_LIMIT && -COORD_LIMIT <= p.y <= COORD_LIMIT
                } by {
                assert(0 <= i < 6);
            }
            assert(world.within_bounds());
        }
        world
    }

    /// Whether the session's coordinates are still within the strict bound,
    /// so that another frame may run. The host checks this before each
    /// frame.
    pub fn in_simulation_bounds(&self) -> (r: bool)
        requires
            self.entities.tables_consistent(),
        ensures
            r == self.within_bounds(),
    {
        if !(-COORD_LIMIT <= self.camera.left_displacement
            && self.camera.left_displacement <= COORD_LIMIT) {
            return false;
        }
        let store = &self.entities;
        let mut i: usize = 0;
        while i < store.positions.len()
            invariant
                store.tables_consistent(),
                store == self.entities,
                0 <= i <= store.entity_count(),
                -COORD_LIMIT <= self.camera.left_displacement <= COORD_LIMIT,
                forall|j: int|
                    0 <= j < i && store.positions@[j] is Some ==> {
                        let p = #[trigger] store.positions@[j].unwrap();
                        -COORD_LIMIT <= p.x <= COORD_LIMIT && -COORD_LIMIT <= p.y <= COORD_LIMIT
                    },
                forall|j: int|
                    0 <= j < i && store.velocities@[j] is Some ==> {
                        let v = #[trigger] store.velocities@[j].unwrap();
                        -SPEED_LIMIT <= v.x <= SPEED_LIMIT && -SPEED_LIMIT <= v.y <= SPEED_LIMIT
                    },
                forall|j: int|
                    0 <= j < i && store.rectangle_shapes@[j] is Some ==> {
                        let r = #[trigger] store.rectangle_shapes@[j].unwrap();
                        &&& -COORD_LIMIT <= r.width <= COORD_LIMIT
                        &&& -COORD_LIMIT <= r.height <= COORD_LIMIT
                    },
                forall|j: int|
                    0 <= j < i && store.obstacle_shapes@[j] is Some ==> {
                        let o = #[trigger] store.obstacle_shapes@[j].unwrap();
                        &&& -COORD_LIMIT <= o.gap_length <= COORD_LIMIT
                        &&& -COORD_LIMIT <= o.gap_y_displacement <= COORD_LIMIT
                        &&& -COORD_LIMIT <= o.width <= COORD_LIMIT
                    },
            decreases store.entity_count() - i,
        {
            if let Some(p) = &store.positions[i] {
                if !(-COORD_LIMIT <= p.x && p.x <= COORD_LIMIT && -COORD_LIMIT <= p.y && p.y
                    <= COORD_LIMIT) {
                    return false;
                }
            }
            if let Some(v) = &store.velocities[i] {
                if !(-SPEED_LIMIT <= v.x && v.x <= SPEED_LIMIT && -SPEED_LIMIT <= v.y && v.y
                    <= SPEED_LIMIT) {
                    return false;
                }
            }
            if let Some(r) = &store.rectangle_shapes[i] {
                if !(-COORD_LIMIT <= r.width && r.width <= COORD_LIMIT && -COORD_LIMIT <= r.height
                    && r.height <= COORD_LIMIT) {
                    return false;
                }
            }
            if let Some(o) = &store.obstacle_shapes[i] {
                if !(-COORD_LIMIT <= o.gap_length && o.gap_length <= COORD_LIMIT && -COORD_LIMIT
                    <= o.gap_y_displacement && o.gap_y_displacement <= COORD_LIMIT && -COORD_LIMIT
                    <= o.width && o.width <= COORD_LIMIT) {
                    return false;
                }
            }
            i = i + 1;
        }
        true
    }
}

} // verus!
