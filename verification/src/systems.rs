//! The per-frame simulation systems and the frame driver.
//!
//! Each system is a pure mutator over components and shared resources; a
//! frame runs the ordered system set of the mode read at the top of the
//! frame. Transitions requested mid-frame take effect from the next frame:
//! the remaining systems of the current schedule still run.

use vstd::prelude::*;
use crate::components::{
    columbia_blue, dark_pastel_green, yinmn_blue, Colour, ObstacleShape, Position,
    RectangleShape, Score, Velocity,
};
use crate::motion::{displacement, flap_step, gravity_step, scaled_displacement};
use crate::resources::{
    spec_in_view, Camera, ClearedObstacles, DeltaTime, GameMode, GameState, ResumeGameMode,
};
use crate::store::{
    lemma_marked_count_unique, marked_count, ComponentBundle, EntityId, EntityStore,
};
use crate::world::{
    output_extended, lemma_output_extended_trivial, CoreWarning, DrawCommand, FrameInput,
    FrameOutput, GameWorld, SoundCommand, SoundKind,
};
use crate::{
    COORD_LIMIT, DELTA_LIMIT, FINISH_LINE_WIDTH, FINISH_LINE_X, FLAP_IMPULSE, GRAVITY_PER_FRAME,
    OBSTACLE_WIDTH, PLAYER_BOX_SIZE, PLAYER_SPAWN_X, PLAYER_SPAWN_Y, PLAYER_X_VELOCITY,
    SPEED_LIMIT, TERMINAL_VELOCITY, TITLE_TIMEOUT_MILLIS, UPWARD_SPEED_LIMIT, WINDOW_HEIGHT,
};

verus! {

/// How a frame classifies the player against one obstacle it overlaps
/// horizontally: through the gap, or into the solid body.
#[derive(Clone, Copy, Debug, PartialEq, Eq, Structural)]
pub enum FlipperObstacleCollision {
    Gap,
    Obstacle,
}

/// The collision rule: no classification without horizontal overlap;
/// with it, the safe gap requires the player wholly inside the gap's
/// vertical span, and anything else is a lethal hit.
pub open spec fn obstacle_collision_class(
    obstacle_shape: ObstacleShape,
    obstacle_position: Position,
    flipper_shape: RectangleShape,
    flipper_position: Position,
) -> Option<FlipperObstacleCollision> {
    let horizontal_overlap = flipper_position.x + flipper_shape.width > obstacle_position.x
        && flipper_position.x < obstacle_position.x + obstacle_shape.width;
    if !horizontal_overlap {
        None
    } else if flipper_position.y + flipper_shape.height < obstacle_shape.gap_y_displacement
        + obstacle_shape.gap_length && flipper_position.y > obstacle_shape.gap_y_displacement {
        Some(FlipperObstacleCollision::Gap)
    } else {
        Some(FlipperObstacleCollision::Obstacle)
    }
}

/// Classify the player against one obstacle: `None` without horizontal
/// overlap, the gap when the player is wholly inside the gap's vertical
/// span, and the solid body otherwise.
pub fn obstacle_flipper_collision(
    obstacle_shape: &ObstacleShape,
    obstacle_position: &Position,
    flipper_shape: &RectangleShape,
    flipper_position: &Position,
) -> (r: Option<FlipperObstacleCollision>)
    ensures
        r == obstacle_collision_class(
            *obstacle_shape,
            *obstacle_position,
            *flipper_shape,
            *flipper_position,
        ),
{
    let horizontal_overlap = flipper_shape.right(flipper_position) > obstacle_shape.left(
        obstacle_position,
    ) && flipper_shape.left(flipper_position) < obstacle_shape.right(obstacle_position);

    if !horizontal_overlap {
        return None;
    }

    if flipper_shape.bottom(flipper_position) < obstacle_shape.gap_bottom() && flipper_shape.top(
        flipper_position,
    ) > obstacle_shape.gap_top() {
        Some(FlipperObstacleCollision::Gap)
    } else {
        Some(FlipperObstacleCollision::Obstacle)
    }
}

/// Every table except the velocities reads the same.
pub open spec fn non_velocity_tables_unchanged(a: EntityStore, b: EntityStore) -> bool {
    &&& b.positions@ == a.positions@
    &&& b.rectangle_shapes@ == a.rectangle_shapes@
    &&& b.obstacle_shapes@ == a.obstacle_shapes@
    &&& b.colours@ == a.colours@
    &&& b.scores@ == a.scores@
    &&& b.flipper_markers@ == a.flipper_markers@
    &&& b.finish_line_markers@ == a.finish_line_markers@
}

/// Every table except the positions reads the same.
pub open spec fn non_position_tables_unchanged(a: EntityStore, b: EntityStore) -> bool {
    &&& b.velocities@ == a.velocities@
    &&& b.rectangle_shapes@ == a.rectangle_shapes@
    &&& b.obstacle_shapes@ == a.obstacle_shapes@
    &&& b.colours@ == a.colours@
    &&& b.scores@ == a.scores@
    &&& b.flipper_markers@ == a.flipper_markers@
    &&& b.finish_line_markers@ == a.finish_line_markers@
}

/// Every table except the positions and velocities reads the same.
pub open spec fn non_motion_tables_unchanged(a: EntityStore, b: EntityStore) -> bool {
    &&& b.rectangle_shapes@ == a.rectangle_shapes@
    &&& b.obstacle_shapes@ == a.obstacle_shapes@
    &&& b.colours@ == a.colours@
    &&& b.scores@ == a.scores@
    &&& b.flipper_markers@ == a.flipper_markers@
    &&& b.finish_line_markers@ == a.finish_line_markers@
}

/// Every table except the scores reads the same.
pub open spec fn non_score_tables_unchanged(a: EntityStore, b: EntityStore) -> bool {
    &&& b.positions@ == a.positions@
    &&& b.velocities@ == a.velocities@
    &&& b.rectangle_shapes@ == a.rectangle_shapes@
    &&& b.obstacle_shapes@ == a.obstacle_shapes@
    &&& b.colours@ == a.colours@
    &&& b.flipper_markers@ == a.flipper_markers@
    &&& b.finish_line_markers@ == a.finish_line_markers@
}

/// Nothing in the store reads differently.
pub open spec fn all_tables_unchanged(a: EntityStore, b: EntityStore) -> bool {
    &&& b.positions@ == a.positions@
    &&& non_position_tables_unchanged(a, b)
}

/// The row index of the unique player entity.
fn find_flipper(store: &EntityStore) -> (idx: usize)
    requires
        store.tables_consistent(),
        marked_count(store.flipper_markers@, store.entity_count()) == 1,
        store.is_flipper(store.flipper_index()),
    ensures
        idx as int == store.flipper_index(),
        store.is_flipper(idx as int),
{
    let mut i: usize = 0;
    while i < store.flipper_markers.len()
        invariant
            store.tables_consistent(),
            marked_count(store.flipper_markers@, store.entity_count()) == 1,
            store.is_flipper(store.flipper_index()),
            0 <= i <= store.entity_count(),
            forall|j: int| 0 <= j < i ==> !store.flipper_markers@[j],
        decreases store.entity_count() - i,
    {
        if store.flipper_markers[i] {
            proof {
                lemma_marked_count_unique(
                    store.flipper_markers@,
                    i as int,
                    store.flipper_index(),
                    store.entity_count(),
                );
            }
            return i;
        }
        i = i + 1;
    }
    proof {
        assert(!store.flipper_markers@[store.flipper_index()]);
    }
    vstd::pervasive::unreached()
}

/// The row index of the unique finish line entity.
fn find_finish_line(store: &EntityStore) -> (idx: usize)
    requires
        store.tables_consistent(),
        marked_count(store.finish_line_markers@, store.entity_count()) == 1,
        store.is_finish_line(store.finish_line_index()),
    ensures
        idx as int == store.finish_line_index(),
        store.is_finish_line(idx as int),
{
    let mut i: usize = 0;
    while i < store.finish_line_markers.len()
        invariant
            store.tables_consistent(),
            marked_count(store.finish_line_markers@, store.entity_count()) == 1,
            store.is_finish_line(store.finish_line_index()),
            0 <= i <= store.entity_count(),
            forall|j: int| 0 <= j < i ==> !store.finish_line_markers@[j],
        decreases store.entity_count() - i,
    {
        if store.finish_line_markers[i] {
            proof {
                lemma_marked_count_unique(
                    store.finish_line_markers@,
                    i as int,
                    store.finish_line_index(),
                    store.entity_count(),
                );
            }
            return i;
        }
        i = i + 1;
    }
    proof {
        assert(!store.finish_line_markers@[store.finish_line_index()]);
    }
    vstd::pervasive::unreached()
}

/// Capture the host's frame delta into the shared resource.
pub fn update_delta_time(delta_time: &mut DeltaTime, input: &FrameInput)
    requires
        input.delta_millis <= DELTA_LIMIT,
    ensures
        final(delta_time).millis == input.delta_millis,
{
    delta_time.millis = input.delta_millis;
}

/// Advance the camera by one frame of panning.
pub fn update_camera(delta_time: &DeltaTime, camera: &mut Camera)
    requires
        delta_time.millis <= DELTA_LIMIT,
        0 <= old(camera).pan_speed <= SPEED_LIMIT,
        -COORD_LIMIT <= old(camera).left_displacement <= COORD_LIMIT,
    ensures
        final(camera).pan_speed == old(camera).pan_speed,
        final(camera).left_displacement == old(camera).left_displacement + scaled_displacement(
            delta_time.millis as int,
            old(camera).pan_speed as int,
        ),
        final(camera).left_displacement >= old(camera).left_displacement,
        final(camera).left_displacement <= old(camera).left_displacement + crate::STEP_LIMIT,
{
    camera.update(delta_time.millis);
}

/// On flap input, play the flap sound and, below the upward speed limit,
/// apply one flap impulse to the player.
pub fn handle_flipper_controls(
    store: &mut EntityStore,
    input: &FrameInput,
    output: &mut FrameOutput,
)
    requires
        old(store).tables_consistent(),
        marked_count(old(store).flipper_markers@, old(store).entity_count()) == 1,
        old(store).is_flipper(old(store).flipper_index()),
        old(store).velocities@[old(store).flipper_index()] is Some,
        ({
            let v = old(store).velocities@[old(store).flipper_index()].unwrap();
            -SPEED_LIMIT <= v.y <= SPEED_LIMIT
        }),
    ensures
        final(store).tables_consistent(),
        non_velocity_tables_unchanged(*old(store), *final(store)),
        ({
            let fi = old(store).flipper_index();
            let v = old(store).velocities@[fi].unwrap();
            let new_y = if input.flap_held {
                flap_step(v.y as int)
            } else {
                v.y as int
            };
            final(store).velocities@ == old(store).velocities@.update(
                fi,
                Some(Velocity { x: v.x, y: new_y as i64 }),
            )
        }),
        output_extended(
            *old(output),
            *final(output),
            if input.flap_held {
                seq![SoundCommand::PlayOnce(SoundKind::Flap)]
            } else {
                Seq::<SoundCommand>::empty()
            },
            Seq::<crate::world::DrawCommand>::empty(),
            Seq::<CoreWarning>::empty(),
        ),
{
    let fi = find_flipper(store);
    let ghost old_velocities = store.velocities@;
    if input.flap_held {
        output.sounds.push(SoundCommand::PlayOnce(SoundKind::Flap));
        proof {
            assert(old(output).sounds@.push(SoundCommand::PlayOnce(SoundKind::Flap)) =~= old(
                output,
            ).sounds@ + seq![SoundCommand::PlayOnce(SoundKind::Flap)]);
            assert(old(output).draws@ + Seq::<crate::world::DrawCommand>::empty() =~= old(
                output,
            ).draws@);
            assert(old(output).warnings@ + Seq::<CoreWarning>::empty() =~= old(output).warnings@);
        }
        let v = store.velocities[fi].unwrap();
        if v.y > UPWARD_SPEED_LIMIT {
            store.velocities[fi] = Some(Velocity { x: v.x, y: v.y + FLAP_IMPULSE });
        } else {
            proof {
                assert(store.velocities@ =~= old_velocities.update(
                    fi as int,
                    Some(old_velocities[fi as int].unwrap()),
                ));
            }
        }
    } else {
        proof {
            lemma_output_extended_trivial(*old(output), *output);
            assert(store.velocities@ =~= old_velocities.update(
                fi as int,
                Some(old_velocities[fi as int].unwrap()),
            ));
        }
    }
}

/// On replay input, reset the session in place: camera to the origin, the
/// player to its spawn position and motion, the score to zero, the
/// cleared-obstacles record to empty, and the mode to the menu.
pub fn handle_replay(
    store: &mut EntityStore,
    camera: &mut Camera,
    cleared_obstacles: &mut ClearedObstacles,
    game_state: &mut GameState,
    input: &FrameInput,
)
    requires
        old(store).tables_consistent(),
        marked_count(old(store).flipper_markers@, old(store).entity_count()) == 1,
        old(store).is_flipper(old(store).flipper_index()),
    ensures
        final(store).tables_consistent(),
        ({
            let fi = old(store).flipper_index();
            if input.flap_released {
                &&& final(camera).left_displacement == 0
                &&& final(camera).pan_speed == old(camera).pan_speed
                &&& final(store).positions@ == old(store).positions@.update(
                    fi,
                    Some(Position { x: PLAYER_SPAWN_X, y: PLAYER_SPAWN_Y }),
                )
                &&& final(store).velocities@ == old(store).velocities@.update(
                    fi,
                    Some(Velocity { x: PLAYER_X_VELOCITY, y: 0 }),
                )
                &&& final(store).scores@ == old(store).scores@.update(
                    fi,
                    Some(Score { value: 0 }),
                )
                &&& final(store).rectangle_shapes@ == old(store).rectangle_shapes@
                &&& final(store).obstacle_shapes@ == old(store).obstacle_shapes@
                &&& final(store).colours@ == old(store).colours@
                &&& final(store).flipper_markers@ == old(store).flipper_markers@
                &&& final(store).finish_line_markers@ == old(store).finish_line_markers@
                &&& final(cleared_obstacles).obstacles@ == Seq::<EntityId>::empty()
                &&& final(game_state).mode == GameMode::Menu
            } else {
                &&& *final(camera) == *old(camera)
                &&& all_tables_unchanged(*old(store), *final(store))
                &&& final(cleared_obstacles).obstacles@ == old(cleared_obstacles).obstacles@
                &&& final(game_state).mode == old(game_state).mode
            }
        }),
{
    if input.flap_released {
        // reset camera position
        camera.left_displacement = 0;

        // reset flipper position, motion and score
        let fi = find_flipper(store);
        store.scores[fi] = Some(Score { value: 0 });
        store.positions[fi] = Some(Position { x: PLAYER_SPAWN_X, y: PLAYER_SPAWN_Y });
        store.velocities[fi] = Some(Velocity { x: PLAYER_X_VELOCITY, y: 0 });

        // reset cleared obstacles
        cleared_obstacles.obstacles = Vec::new();

        // update game mode
        game_state.mode = GameMode::Menu;
    }
}

/// Leave the title screen on flap or click input, or once the title timeout
/// has passed.
pub fn handle_skip_title(game_state: &mut GameState, input: &FrameInput)
    ensures
        final(game_state).mode == if input.flap_released || input.mouse_pressed
            || input.session_millis > TITLE_TIMEOUT_MILLIS {
            GameMode::Menu
        } else {
            old(game_state).mode
        },
{
    if input.flap_released || input.mouse_pressed || input.session_millis > TITLE_TIMEOUT_MILLIS {
        game_state.mode = GameMode::Menu;
    }
}

/// On quit input, put up the exit prompt, remembering where to resume:
/// playing resumes playing, every other mode resumes at the menu. A quit
/// request while the prompt is already up is unexpected; it is logged and
/// recovered by returning to the menu.
pub fn handle_request_quit(
    game_state: &mut GameState,
    input: &FrameInput,
    output: &mut FrameOutput,
)
    ensures
        final(game_state).mode == spec_requested_quit_mode(
            old(game_state).mode,
            input.escape_released || input.quit_requested,
        ),
        output_extended(
            *old(output),
            *final(output),
            Seq::<SoundCommand>::empty(),
            Seq::<crate::world::DrawCommand>::empty(),
            if (input.escape_released || input.quit_requested) && old(
                game_state,
            ).mode is Exiting {
                seq![CoreWarning::QuitRequestedWhileExiting]
            } else {
                Seq::<CoreWarning>::empty()
            },
        ),
{
    if input.escape_released || input.quit_requested {
        match &game_state.mode {
            GameMode::Playing => {
                game_state.mode = GameMode::Exiting(ResumeGameMode::Playing);
                proof {
                    lemma_output_extended_trivial(*old(output), *output);
                }
            },
            GameMode::Exiting(_) => {
                output.warnings.push(CoreWarning::QuitRequestedWhileExiting);
                game_state.mode = GameMode::Menu;
                proof {
                    assert(old(output).warnings@.push(CoreWarning::QuitRequestedWhileExiting)
                        =~= old(output).warnings@ + seq![
                        CoreWarning::QuitRequestedWhileExiting,
                    ]);
                    assert(old(output).sounds@ + Seq::<SoundCommand>::empty() =~= old(
                        output,
                    ).sounds@);
                    assert(old(output).draws@ + Seq::<crate::world::DrawCommand>::empty()
                        =~= old(output).draws@);
                }
            },
            _ => {
                game_state.mode = GameMode::Exiting(ResumeGameMode::Menu);
                proof {
                    lemma_output_extended_trivial(*old(output), *output);
                }
            },
        }
    } else {
        proof {
            lemma_output_extended_trivial(*old(output), *output);
        }
    }
}

/// Where a quit request takes the state machine from each mode.
pub open spec fn spec_requested_quit_mode(mode: GameMode, quitting: bool) -> GameMode {
    if !quitting {
        mode
    } else {
        match mode {
            GameMode::Playing => GameMode::Exiting(ResumeGameMode::Playing),
            GameMode::Exiting(_) => GameMode::Menu,
            _ => GameMode::Exiting(ResumeGameMode::Menu),
        }
    }
}

/// On flap input at the menu, start the looped background audio and begin
/// playing.
pub fn handle_start_game(game_state: &mut GameState, input: &FrameInput, output: &mut FrameOutput)
    ensures
        final(game_state).mode == if input.flap_held {
            GameMode::Playing
        } else {
            old(game_state).mode
        },
        output_extended(
            *old(output),
            *final(output),
            if input.flap_held {
                seq![SoundCommand::StartLoop(SoundKind::Background)]
            } else {
                Seq::<SoundCommand>::empty()
            },
            Seq::<crate::world::DrawCommand>::empty(),
            Seq::<CoreWarning>::empty(),
        ),
{
    if input.flap_held {
        output.sounds.push(SoundCommand::StartLoop(SoundKind::Background));
        game_state.mode = GameMode::Playing;
        proof {
            assert(old(output).sounds@.push(SoundCommand::StartLoop(SoundKind::Background))
                =~= old(output).sounds@ + seq![SoundCommand::StartLoop(SoundKind::Background)]);
            assert(old(output).draws@ + Seq::<crate::world::DrawCommand>::empty() =~= old(
                output,
            ).draws@);
            assert(old(output).warnings@ + Seq::<CoreWarning>::empty() =~= old(output).warnings@);
        }
    } else {
        proof {
            lemma_output_extended_trivial(*old(output), *output);
        }
    }
}

/// Where a cancelled exit prompt takes the state machine from each mode.
pub open spec fn spec_exit_cancel_mode(mode: GameMode, cancelled: bool) -> GameMode {
    if !cancelled {
        mode
    } else {
        match mode {
            GameMode::Exiting(ResumeGameMode::Playing) => GameMode::Playing,
            GameMode::Exiting(ResumeGameMode::Menu) => GameMode::Menu,
            _ => GameMode::Menu,
        }
    }
}

/// On cancel input at the exit prompt, resume the mode the prompt holds.
/// Running this outside the exit prompt is unexpected; it is logged and
/// recovered by returning to the menu.
pub fn handle_exit(game_state: &mut GameState, input: &FrameInput, output: &mut FrameOutput)
    ensures
        final(game_state).mode == spec_exit_cancel_mode(
            old(game_state).mode,
            input.escape_released,
        ),
        output_extended(
            *old(output),
            *final(output),
            Seq::<SoundCommand>::empty(),
            Seq::<crate::world::DrawCommand>::empty(),
            if input.escape_released && !(old(game_state).mode is Exiting) {
                seq![CoreWarning::ExitHandledOutsideExiting]
            } else {
                Seq::<CoreWarning>::empty()
            },
        ),
{
    if input.escape_released {
        match &game_state.mode {
            GameMode::Exiting(resume) => {
                match resume {
                    ResumeGameMode::Playing => {
                        game_state.mode = GameMode::Playing;
                    },
                    ResumeGameMode::Menu => {
                        game_state.mode = GameMode::Menu;
                    },
                }
                proof {
                    lemma_output_extended_trivial(*old(output), *output);
                }
            },
            _ => {
                output.warnings.push(CoreWarning::ExitHandledOutsideExiting);
                game_state.mode = GameMode::Menu;
                proof {
                    assert(old(output).warnings@.push(CoreWarning::ExitHandledOutsideExiting)
                        =~= old(output).warnings@ + seq![CoreWarning::ExitHandledOutsideExiting]);
                    assert(old(output).sounds@ + Seq::<SoundCommand>::empty() =~= old(
                        output,
                    ).sounds@);
                    assert(old(output).draws@ + Seq::<crate::world::DrawCommand>::empty()
                        =~= old(output).draws@);
                }
            },
        }
    } else {
        proof {
            lemma_output_extended_trivial(*old(output), *output);
        }
    }
}

/// The position column after one frame of horizontal motion: each entity
/// that has both a position and a velocity moves by its velocity scaled to
/// the frame delta; every other row stays as it was.
pub open spec fn positions_after_scroll(
    positions: Seq<Option<Position>>,
    velocities: Seq<Option<Velocity>>,
    delta_millis: int,
) -> Seq<Option<Position>> {
    Seq::new(
        positions.len(),
        |i: int|
            if positions[i] is Some && velocities[i] is Some {
                let p = positions[i].unwrap();
                let v = velocities[i].unwrap();
                Some(
                    Position {
                        x: (p.x + scaled_displacement(delta_millis, v.x as int)) as i64,
                        y: p.y,
                    },
                )
            } else {
                positions[i]
            },
    )
}

/// Advance every moving entity horizontally by one frame: entities without
/// a velocity (the obstacles and the finish line) stay where they are.
pub fn update_positions(store: &mut EntityStore, delta_time: &DeltaTime)
    requires
        old(store).tables_consistent(),
        delta_time.millis <= DELTA_LIMIT,
        crate::world::positions_x_bounded(*old(store), COORD_LIMIT as int),
        crate::world::velocities_bounded(*old(store)),
    ensures
        final(store).tables_consistent(),
        non_position_tables_unchanged(*old(store), *final(store)),
        final(store).positions@ == positions_after_scroll(
            old(store).positions@,
            old(store).velocities@,
            delta_time.millis as int,
        ),
{
    let ghost old_store = *store;
    let n = store.positions.len();
    let mut i: usize = 0;
    while i < n
        invariant
            store.tables_consistent(),
            n == store.entity_count(),
            0 <= i <= n,
            non_position_tables_unchanged(old_store, *store),
            store.positions@.len() == old_store.positions@.len(),
            delta_time.millis <= DELTA_LIMIT,
            crate::world::positions_x_bounded(old_store, COORD_LIMIT as int),
            crate::world::velocities_bounded(old_store),
            forall|j: int|
                i <= j < n ==> store.positions@[j] == old_store.positions@[j],
            forall|j: int|
                0 <= j < i ==> store.positions@[j] == (
                if old_store.positions@[j] is Some && old_store.velocities@[j] is Some {
                    let p = old_store.positions@[j].unwrap();
                    let v = old_store.velocities@[j].unwrap();
                    Some(
                        Position {
                            x: (p.x + scaled_displacement(
                                delta_time.millis as int,
                                v.x as int,
                            )) as i64,
                            y: p.y,
                        },
                    )
                } else {
                    old_store.positions@[j]
                }),
        decreases n - i,
    {
        let has_velocity = store.velocities[i].is_some();
        let has_position = store.positions[i].is_some();
        if has_position && has_velocity {
            let p = store.positions[i].unwrap();
            let v = store.velocities[i].unwrap();
            let step = displacement(delta_time.millis, v.x);
            store.positions[i] = Some(Position { x: p.x + step, y: p.y });
        }
        i = i + 1;
    }
    proof {
        assert(store.positions@ =~= positions_after_scroll(
            old_store.positions@,
            old_store.velocities@,
            delta_time.millis as int,
        ));
    }
}

/// One frame of the player's vertical motion: gravity pulls up to the
/// terminal velocity; falling past the bottom of the window requests the
/// game-over mode and leaves the vertical position where it was; otherwise
/// the vertical position, held at the floor, integrates the new speed.
pub fn update_flipper_vertical_position(
    store: &mut EntityStore,
    delta_time: &DeltaTime,
    game_state: &mut GameState,
)
    requires
        old(store).tables_consistent(),
        marked_count(old(store).flipper_markers@, old(store).entity_count()) == 1,
        old(store).is_flipper(old(store).flipper_index()),
        old(store).positions@[old(store).flipper_index()] is Some,
        old(store).velocities@[old(store).flipper_index()] is Some,
        delta_time.millis <= DELTA_LIMIT,
        ({
            let p = old(store).positions@[old(store).flipper_index()].unwrap();
            let v = old(store).velocities@[old(store).flipper_index()].unwrap();
            &&& -COORD_LIMIT <= p.y <= COORD_LIMIT
            &&& -SPEED_LIMIT <= v.y <= SPEED_LIMIT
        }),
    ensures
        final(store).tables_consistent(),
        non_motion_tables_unchanged(*old(store), *final(store)),
        ({
            let fi = old(store).flipper_index();
            let p = old(store).positions@[fi].unwrap();
            let v = old(store).velocities@[fi].unwrap();
            let new_vy = gravity_step(v.y as int);
            let new_y = if p.y > WINDOW_HEIGHT {
                p.y as int
            } else {
                (if p.y <= 0 {
                    0int
                } else {
                    p.y as int
                }) + scaled_displacement(delta_time.millis as int, new_vy)
            };
            &&& final(store).velocities@ == old(store).velocities@.update(
                fi,
                Some(Velocity { x: v.x, y: new_vy as i64 }),
            )
            &&& final(store).positions@ == old(store).positions@.update(
                fi,
                Some(Position { x: p.x, y: new_y as i64 }),
            )
            &&& final(game_state).mode == if p.y > WINDOW_HEIGHT {
                GameMode::GameOver
            } else {
                old(game_state).mode
            }
        }),
{
    let fi = find_flipper(store);
    let v = store.velocities[fi].unwrap();
    let new_vy = if v.y < TERMINAL_VELOCITY {
        v.y + GRAVITY_PER_FRAME
    } else {
        v.y
    };
    store.velocities[fi] = Some(Velocity { x: v.x, y: new_vy });

    let p = store.positions[fi].unwrap();
    let mut new_y = p.y;
    if p.y <= 0 {
        new_y = displacement(delta_time.millis, new_vy);
    } else if p.y > WINDOW_HEIGHT {
        game_state.mode = GameMode::GameOver;
    } else {
        new_y = p.y + displacement(delta_time.millis, new_vy);
    }
    store.positions[fi] = Some(Position { x: p.x, y: new_y });
}

/// The rectangles one frame draws for the plain rectangle entities: each
/// in-view one, filled with its colour, at its position less the camera's
/// scroll.
pub open spec fn rectangle_draws(s: EntityStore, camera: Camera, n: int) -> Seq<DrawCommand>
    decreases n,
{
    if n <= 0 {
        Seq::empty()
    } else {
        let i = n - 1;
        rectangle_draws(s, camera, i) + rectangle_draw_for(s, camera, i)
    }
}

/// The rectangle drawn for one entity: nothing unless it has a position, a
/// rectangle shape and a colour, and is in view.
pub open spec fn rectangle_draw_for(s: EntityStore, camera: Camera, i: int) -> Seq<DrawCommand> {
    if s.positions@[i] is Some && s.rectangle_shapes@[i] is Some && s.colours@[i] is Some
        && spec_in_view(camera, s.positions@[i].unwrap().x as int) {
        let p = s.positions@[i].unwrap();
        let r = s.rectangle_shapes@[i].unwrap();
        seq![
            DrawCommand {
                x: (p.x - camera.left_displacement) as i64,
                y: p.y,
                width: r.width,
                height: r.height,
                colour: s.colours@[i].unwrap(),
            },
        ]
    } else {
        Seq::empty()
    }
}

/// Emit one frame's draw commands for every in-view rectangle entity.
pub fn draw_rectangles(store: &EntityStore, camera: &Camera, output: &mut FrameOutput)
    requires
        store.tables_consistent(),
        crate::world::positions_x_bounded(*store, crate::COORD_SLACK_LIMIT as int),
        -crate::COORD_SLACK_LIMIT <= camera.left_displacement <= crate::COORD_SLACK_LIMIT,
    ensures
        output_extended(
            *old(output),
            *final(output),
            Seq::<SoundCommand>::empty(),
            rectangle_draws(*store, *camera, store.entity_count()),
            Seq::<CoreWarning>::empty(),
        ),
{
    let n = store.positions.len();
    let mut i: usize = 0;
    proof {
        assert(old(output).draws@ + rectangle_draws(*store, *camera, 0) =~= old(output).draws@);
    }
    while i < n
        invariant
            store.tables_consistent(),
            n == store.entity_count(),
            0 <= i <= n,
            crate::world::positions_x_bounded(*store, crate::COORD_SLACK_LIMIT as int),
            -crate::COORD_SLACK_LIMIT <= camera.left_displacement <= crate::COORD_SLACK_LIMIT,
            output.sounds@ == old(output).sounds@,
            output.warnings@ == old(output).warnings@,
            output.background == old(output).background,
            output.terminate == old(output).terminate,
            output.draws@ == old(output).draws@ + rectangle_draws(*store, *camera, i as int),
        decreases n - i,
    {
        let has_all = store.positions[i].is_some() && store.rectangle_shapes[i].is_some()
            && store.colours[i].is_some();
        if has_all {
            let p = store.positions[i].unwrap();
            if camera.in_view(p.x) {
                let r = store.rectangle_shapes[i].unwrap();
                let colour = store.colours[i].unwrap();
                output.draws.push(
                    DrawCommand {
                        x: p.x - camera.left_displacement,
                        y: p.y,
                        width: r.width,
                        height: r.height,
                        colour,
                    },
                );
            }
        }
        proof {
            assert(output.draws@ =~= old(output).draws@ + rectangle_draws(
                *store,
                *camera,
                i + 1,
            ));
        }
        i = i + 1;
    }
}

/// The rectangles one frame draws for one obstacle: nothing unless it has a
/// position, an obstacle shape and a colour and is in view; otherwise the
/// solid body above the gap (when the gap starts below the top) and the
/// solid body below the gap (when the gap ends above the bottom), at its
/// position less the camera's scroll.
pub open spec fn obstacle_draws_for(s: EntityStore, camera: Camera, i: int) -> Seq<DrawCommand> {
    if s.positions@[i] is Some && s.obstacle_shapes@[i] is Some && s.colours@[i] is Some
        && spec_in_view(camera, s.positions@[i].unwrap().x as int) {
        let p = s.positions@[i].unwrap();
        let o = s.obstacle_shapes@[i].unwrap();
        let colour = s.colours@[i].unwrap();
        let top_section = if o.gap_y_displacement > 0 {
            seq![
                DrawCommand {
                    x: (p.x - camera.left_displacement) as i64,
                    y: 0,
                    width: o.width,
                    height: o.gap_y_displacement,
                    colour,
                },
            ]
        } else {
            Seq::<DrawCommand>::empty()
        };
        let gap_bottom = o.gap_y_displacement + o.gap_length;
        let bottom_section = if gap_bottom < WINDOW_HEIGHT {
            seq![
                DrawCommand {
                    x: (p.x - camera.left_displacement) as i64,
                    y: gap_bottom as i64,
                    width: o.width,
                    height: (WINDOW_HEIGHT - gap_bottom) as i64,
                    colour,
                },
            ]
        } else {
            Seq::<DrawCommand>::empty()
        };
        top_section + bottom_section
    } else {
        Seq::empty()
    }
}

/// The rectangles one frame draws for the obstacles.
pub open spec fn obstacle_draws(s: EntityStore, camera: Camera, n: int) -> Seq<DrawCommand>
    decreases n,
{
    if n <= 0 {
        Seq::empty()
    } else {
        let i = n - 1;
        obstacle_draws(s, camera, i) + obstacle_draws_for(s, camera, i)
    }
}

/// Emit one frame's draw commands for every in-view obstacle: its solid
/// body above and below the gap.
pub fn draw_obstacles(store: &EntityStore, camera: &Camera, output: &mut FrameOutput)
    requires
        store.tables_consistent(),
        crate::world::positions_x_bounded(*store, crate::COORD_SLACK_LIMIT as int),
        crate::world::obstacle_shapes_bounded(*store),
        -crate::COORD_SLACK_LIMIT <= camera.left_displacement <= crate::COORD_SLACK_LIMIT,
    ensures
        output_extended(
            *old(output),
            *final(output),
            Seq::<SoundCommand>::empty(),
            obstacle_draws(*store, *camera, store.entity_count()),
            Seq::<CoreWarning>::empty(),
        ),
{
    let n = store.positions.len();
    let mut i: usize = 0;
    proof {
        assert(old(output).draws@ + obstacle_draws(*store, *camera, 0) =~= old(output).draws@);
    }
    while i < n
        invariant
            store.tables_consistent(),
            n == store.entity_count(),
            0 <= i <= n,
            crate::world::positions_x_bounded(*store, crate::COORD_SLACK_LIMIT as int),
            crate::world::obstacle_shapes_bounded(*store),
            -crate::COORD_SLACK_LIMIT <= camera.left_displacement <= crate::COORD_SLACK_LIMIT,
            output.sounds@ == old(output).sounds@,
            output.warnings@ == old(output).warnings@,
            output.background == old(output).background,
            output.terminate == old(output).terminate,
            output.draws@ == old(output).draws@ + obstacle_draws(*store, *camera, i as int),
        decreases n - i,
    {
        let has_all = store.positions[i].is_some() && store.obstacle_shapes[i].is_some()
            && store.colours[i].is_some();
        if has_all {
            let p = store.positions[i].unwrap();
            if camera.in_view(p.x) {
                let o = store.obstacle_shapes[i].unwrap();
                let colour = store.colours[i].unwrap();
                if o.gap_y_displacement > 0 {
                    output.draws.push(
                        DrawCommand {
                            x: p.x - camera.left_displacement,
                            y: 0,
                            width: o.width,
                            height: o.gap_y_displacement,
                            colour,
                        },
                    );
                }
                let bottom_section_top = o.gap_y_displacement + o.gap_length;
                if bottom_section_top < WINDOW_HEIGHT {
                    output.draws.push(
                        DrawCommand {
                            x: p.x - camera.left_displacement,
                            y: bottom_section_top,
                            width: o.width,
                            height: WINDOW_HEIGHT - bottom_section_top,
                            colour,
                        },
                    );
                }
            }
        }
        proof {
            assert(output.draws@ =~= old(output).draws@ + obstacle_draws(
                *store,
                *camera,
                i + 1,
            ));
        }
        i = i + 1;
    }
}

/// Before the session is won: stop the looped background audio and play the
/// victory sound.
fn handle_before_transition_to_won(output: &mut FrameOutput)
    ensures
        output_extended(
            *old(output),
            *final(output),
            seq![
                SoundCommand::StopLoop(SoundKind::Background),
                SoundCommand::PlayOnce(SoundKind::Victory),
            ],
            Seq::<DrawCommand>::empty(),
            Seq::<CoreWarning>::empty(),
        ),
{
    output.sounds.push(SoundCommand::StopLoop(SoundKind::Background));
    output.sounds.push(SoundCommand::PlayOnce(SoundKind::Victory));
    proof {
        assert(output.sounds@ =~= old(output).sounds@ + seq![
            SoundCommand::StopLoop(SoundKind::Background),
            SoundCommand::PlayOnce(SoundKind::Victory),
        ]);
        assert(old(output).draws@ + Seq::<DrawCommand>::empty() =~= old(output).draws@);
        assert(old(output).warnings@ + Seq::<CoreWarning>::empty() =~= old(output).warnings@);
    }
}

/// Before the session is lost: stop the looped background audio and play
/// the game-over sound.
fn handle_before_transition_to_game_over(output: &mut FrameOutput)
    ensures
        output_extended(
            *old(output),
            *final(output),
            seq![
                SoundCommand::StopLoop(SoundKind::Background),
                SoundCommand::PlayOnce(SoundKind::GameOver),
            ],
            Seq::<DrawCommand>::empty(),
            Seq::<CoreWarning>::empty(),
        ),
{
    output.sounds.push(SoundCommand::StopLoop(SoundKind::Background));
    output.sounds.push(SoundCommand::PlayOnce(SoundKind::GameOver));
    proof {
        assert(output.sounds@ =~= old(output).sounds@ + seq![
            SoundCommand::StopLoop(SoundKind::Background),
            SoundCommand::PlayOnce(SoundKind::GameOver),
        ]);
        assert(old(output).draws@ + Seq::<DrawCommand>::empty() =~= old(output).draws@);
        assert(old(output).warnings@ + Seq::<CoreWarning>::empty() =~= old(output).warnings@);
    }
}

/// Whether the player's horizontal span strictly overlaps the finish
/// line's; the strip spans the whole window height, so no vertical test is
/// needed.
pub open spec fn finish_line_overlap_at(
    flipper_position: Position,
    flipper_shape: RectangleShape,
    finish_line_position: Position,
    finish_line_shape: RectangleShape,
) -> bool {
    flipper_position.x + flipper_shape.width > finish_line_position.x && flipper_position.x
        < finish_line_position.x + finish_line_shape.width
}

/// Whether the player overlaps the store's finish line.
pub open spec fn finish_line_overlap(s: EntityStore) -> bool {
    finish_line_overlap_at(
        s.positions@[s.flipper_index()].unwrap(),
        s.rectangle_shapes@[s.flipper_index()].unwrap(),
        s.positions@[s.finish_line_index()].unwrap(),
        s.rectangle_shapes@[s.finish_line_index()].unwrap(),
    )
}

/// When the player reaches the finish line, win the session: request the
/// won mode, stop the background audio and play the victory sound.
pub fn handle_flipper_finish_line_collision(
    store: &EntityStore,
    game_state: &mut GameState,
    output: &mut FrameOutput,
)
    requires
        store.tables_consistent(),
        marked_count(store.flipper_markers@, store.entity_count()) == 1,
        store.is_flipper(store.flipper_index()),
        store.positions@[store.flipper_index()] is Some,
        store.rectangle_shapes@[store.flipper_index()] is Some,
        marked_count(store.finish_line_markers@, store.entity_count()) == 1,
        store.is_finish_line(store.finish_line_index()),
        store.positions@[store.finish_line_index()] is Some,
        store.rectangle_shapes@[store.finish_line_index()] is Some,
    ensures
        final(game_state).mode == if finish_line_overlap(*store) {
            GameMode::Won
        } else {
            old(game_state).mode
        },
        output_extended(
            *old(output),
            *final(output),
            if finish_line_overlap(*store) {
                seq![
                    SoundCommand::StopLoop(SoundKind::Background),
                    SoundCommand::PlayOnce(SoundKind::Victory),
                ]
            } else {
                Seq::<SoundCommand>::empty()
            },
            Seq::<DrawCommand>::empty(),
            Seq::<CoreWarning>::empty(),
        ),
{
    let fi = find_flipper(store);
    let li = find_finish_line(store);
    let flipper_position = store.positions[fi].unwrap();
    let flipper_shape = store.rectangle_shapes[fi].unwrap();
    let finish_line_position = store.positions[li].unwrap();
    let finish_line_shape = store.rectangle_shapes[li].unwrap();
    if flipper_shape.right(&flipper_position) > finish_line_shape.left(&finish_line_position)
        && flipper_shape.left(&flipper_position) < finish_line_shape.right(
        &finish_line_position,
    ) {
        game_state.mode = GameMode::Won;
        handle_before_transition_to_won(output);
    } else {
        proof {
            lemma_output_extended_trivial(*old(output), *output);
        }
    }
}

/// What one obstacle row does to the running (score, cleared record, mode,
/// sounds) of a collision pass: an uncleared obstacle the player overlaps
/// either ends the session (solid body) or is credited once (gap).
pub open spec fn collision_step(
    obstacle_shapes: Seq<Option<ObstacleShape>>,
    positions: Seq<Option<Position>>,
    flipper_shape: RectangleShape,
    flipper_position: Position,
    acc: (int, Seq<EntityId>, GameMode, Seq<SoundCommand>),
    i: int,
) -> (int, Seq<EntityId>, GameMode, Seq<SoundCommand>) {
    if obstacle_shapes[i] is Some && positions[i] is Some && !acc.1.contains(
        EntityId { index: i as usize },
    ) {
        match obstacle_collision_class(
            obstacle_shapes[i].unwrap(),
            positions[i].unwrap(),
            flipper_shape,
            flipper_position,
        ) {
            Option::None => acc,
            Option::Some(FlipperObstacleCollision::Obstacle) => (
                acc.0,
                acc.1,
                GameMode::GameOver,
                acc.3 + seq![
                    SoundCommand::StopLoop(SoundKind::Background),
                    SoundCommand::PlayOnce(SoundKind::GameOver),
                ],
            ),
            Option::Some(FlipperObstacleCollision::Gap) => (
                acc.0 + 1,
                acc.1.push(EntityId { index: i as usize }),
                acc.2,
                acc.3 + seq![SoundCommand::PlayOnce(SoundKind::ObstacleCleared)],
            ),
        }
    } else {
        acc
    }
}

/// The (score, cleared record, mode, sounds) after running the collision
/// rule over the first `n` rows, starting from the given score, cleared
/// record and mode.
pub open spec fn collision_pass(
    obstacle_shapes: Seq<Option<ObstacleShape>>,
    positions: Seq<Option<Position>>,
    flipper_shape: RectangleShape,
    flipper_position: Position,
    init_score: int,
    init_cleared: Seq<EntityId>,
    init_mode: GameMode,
    n: int,
) -> (int, Seq<EntityId>, GameMode, Seq<SoundCommand>)
    decreases n,
{
    if n <= 0 {
        (init_score, init_cleared, init_mode, Seq::empty())
    } else {
        collision_step(
            obstacle_shapes,
            positions,
            flipper_shape,
            flipper_position,
            collision_pass(
                obstacle_shapes,
                positions,
                flipper_shape,
                flipper_position,
                init_score,
                init_cleared,
                init_mode,
                n - 1,
            ),
            n - 1,
        )
    }
}

/// Resolve the player against every not-yet-cleared obstacle: a lethal hit
/// stops the background audio, plays the game-over sound and requests the
/// game-over mode; a safe pass through the gap credits the obstacle once,
/// marks it cleared and plays the cleared sound.
pub fn handle_obstacle_flipper_collision(
    store: &mut EntityStore,
    game_state: &mut GameState,
    cleared_obstacles: &mut ClearedObstacles,
    output: &mut FrameOutput,
)
    requires
        old(store).tables_consistent(),
        old(store).entity_count() <= crate::world::MAX_ENTITIES,
        marked_count(old(store).flipper_markers@, old(store).entity_count()) == 1,
        old(store).is_flipper(old(store).flipper_index()),
        old(store).positions@[old(store).flipper_index()] is Some,
        old(store).rectangle_shapes@[old(store).flipper_index()] is Some,
        old(store).scores@[old(store).flipper_index()] is Some,
        crate::world::cleared_ok(*old(store), old(cleared_obstacles).obstacles@),
        crate::world::score_matches_cleared(*old(store), old(cleared_obstacles).obstacles@),
    ensures
        final(store).tables_consistent(),
        non_score_tables_unchanged(*old(store), *final(store)),
        crate::world::cleared_ok(*old(store), final(cleared_obstacles).obstacles@),
        ({
            let fi = old(store).flipper_index();
            let result = collision_pass(
                old(store).obstacle_shapes@,
                old(store).positions@,
                old(store).rectangle_shapes@[fi].unwrap(),
                old(store).positions@[fi].unwrap(),
                old(store).scores@[fi].unwrap().value as int,
                old(cleared_obstacles).obstacles@,
                old(game_state).mode,
                old(store).entity_count(),
            );
            &&& final(store).scores@ == old(store).scores@.update(
                fi,
                Some(Score { value: result.0 as u32 }),
            )
            &&& final(cleared_obstacles).obstacles@ == result.1
            &&& result.0 == final(cleared_obstacles).obstacles@.len()
            &&& final(game_state).mode == result.2
            &&& output_extended(
                *old(output),
                *final(output),
                result.3,
                Seq::<DrawCommand>::empty(),
                Seq::<CoreWarning>::empty(),
            )
        }),
{
    let fi = find_flipper(store);
    let ghost s0 = *store;
    let ghost init_cleared = cleared_obstacles.obstacles@;
    let ghost init_mode = game_state.mode;
    let flipper_position = store.positions[fi].unwrap();
    let flipper_shape = store.rectangle_shapes[fi].unwrap();
    let mut score: u32 = store.scores[fi].unwrap().value;
    let ghost init_score = score as int;
    let n = store.positions.len();
    let mut i: usize = 0;
    proof {
        lemma_output_extended_trivial(*old(output), *output);
    }
    while i < n
        invariant
            *store == s0,
            store.tables_consistent(),
            n == store.entity_count(),
            n <= crate::world::MAX_ENTITIES,
            0 <= i <= n,
            store.is_flipper(store.flipper_index()),
            store.positions@[store.flipper_index()] is Some,
            store.rectangle_shapes@[store.flipper_index()] is Some,
            flipper_position == store.positions@[store.flipper_index()].unwrap(),
            flipper_shape == store.rectangle_shapes@[store.flipper_index()].unwrap(),
            ({
                let acc = collision_pass(
                    s0.obstacle_shapes@,
                    s0.positions@,
                    flipper_shape,
                    flipper_position,
                    init_score,
                    init_cleared,
                    init_mode,
                    i as int,
                );
                &&& score as int == acc.0
                &&& cleared_obstacles.obstacles@ == acc.1
                &&& game_state.mode == acc.2
                &&& output_extended(
                    *old(output),
                    *output,
                    acc.3,
                    Seq::<DrawCommand>::empty(),
                    Seq::<CoreWarning>::empty(),
                )
            }),
            crate::world::cleared_ok(*store, cleared_obstacles.obstacles@),
            score as int == cleared_obstacles.obstacles@.len(),
        decreases n - i,
    {
        let ghost acc = collision_pass(
            s0.obstacle_shapes@,
            s0.positions@,
            flipper_shape,
            flipper_position,
            init_score,
            init_cleared,
            init_mode,
            i as int,
        );
        let has_obstacle = store.obstacle_shapes[i].is_some() && store.positions[i].is_some();
        if has_obstacle {
            let id = EntityId { index: i };
            if !cleared_obstacles.contains(id) {
                let obstacle_shape = store.obstacle_shapes[i].unwrap();
                let obstacle_position = store.positions[i].unwrap();
                match obstacle_flipper_collision(
                    &obstacle_shape,
                    &obstacle_position,
                    &flipper_shape,
                    &flipper_position,
                ) {
                    Some(FlipperObstacleCollision::Obstacle) => {
                        let ghost out_before = *output;
                        handle_before_transition_to_game_over(output);
                        game_state.mode = GameMode::GameOver;
                        proof {
                            crate::world::lemma_output_extended_compose(
                                *old(output),
                                out_before,
                                *output,
                                acc.3,
                                Seq::<DrawCommand>::empty(),
                                Seq::<CoreWarning>::empty(),
                                seq![
                                    SoundCommand::StopLoop(SoundKind::Background),
                                    SoundCommand::PlayOnce(SoundKind::GameOver),
                                ],
                                Seq::<DrawCommand>::empty(),
                                Seq::<CoreWarning>::empty(),
                            );
                        }
                    },
                    Some(FlipperObstacleCollision::Gap) => {
                        proof {
                            crate::world::lemma_distinct_ids_bounded(
                                cleared_obstacles.obstacles@,
                                store.entity_count(),
                            );
                        }
                        score = score + 1;
                        cleared_obstacles.obstacles.push(id);
                        output.sounds.push(
                            SoundCommand::PlayOnce(SoundKind::ObstacleCleared),
                        );
                        proof {
                            assert(cleared_obstacles.obstacles@.no_duplicates());
                        }
                    },
                    None => {},
                }
            }
        }
        proof {
            let next = collision_pass(
                s0.obstacle_shapes@,
                s0.positions@,
                flipper_shape,
                flipper_position,
                init_score,
                init_cleared,
                init_mode,
                i + 1,
            );
            assert(next == collision_step(
                s0.obstacle_shapes@,
                s0.positions@,
                flipper_shape,
                flipper_position,
                acc,
                i as int,
            ));
            assert(output.sounds@ =~= old(output).sounds@ + next.3);
            assert(output.draws@ =~= old(output).draws@ + Seq::<DrawCommand>::empty());
            assert(output.warnings@ =~= old(output).warnings@ + Seq::<CoreWarning>::empty());
        }
        i = i + 1;
    }
    store.scores[fi] = Some(Score { value: score });
}

/// The entity layout a session starts from: the player at its spawn point,
/// the finish line four window widths in, and the fixed obstacle course.
pub open spec fn initial_entities(s: EntityStore) -> bool {
    &&& s.positions@ == seq![
        Some(Position { x: PLAYER_SPAWN_X, y: PLAYER_SPAWN_Y }),
        Some(Position { x: FINISH_LINE_X, y: 0 }),
        Some(Position { x: 600, y: 0 }),
        Some(Position { x: 900, y: 0 }),
        Some(Position { x: 1200, y: 0 }),
        Some(Position { x: 1500, y: 0 }),
    ]
    &&& s.velocities@ == seq![
        Some(Velocity { x: PLAYER_X_VELOCITY, y: 0 }),
        None, None, None, None, None,
    ]
    &&& s.rectangle_shapes@ == seq![
        Some(RectangleShape { width: PLAYER_BOX_SIZE, height: PLAYER_BOX_SIZE }),
        Some(RectangleShape { width: FINISH_LINE_WIDTH, height: WINDOW_HEIGHT }),
        None, None, None, None,
    ]
    &&& s.obstacle_shapes@ == seq![
        None,
        None,
        Some(ObstacleShape { gap_length: 100, gap_y_displacement: 300, width: OBSTACLE_WIDTH }),
        Some(ObstacleShape { gap_length: 75, gap_y_displacement: 350, width: OBSTACLE_WIDTH }),
        Some(ObstacleShape { gap_length: 75, gap_y_displacement: 300, width: OBSTACLE_WIDTH }),
        Some(ObstacleShape { gap_length: 75, gap_y_displacement: 300, width: OBSTACLE_WIDTH }),
    ]
    &&& s.colours@ == seq![
        Some(yinmn_blue()),
        Some(columbia_blue()),
        Some(dark_pastel_green()),
        Some(dark_pastel_green()),
        Some(dark_pastel_green()),
        Some(dark_pastel_green()),
    ]
    &&& s.scores@ == seq![Some(Score { value: 0 }), None, None, None, None, None]
    &&& s.flipper_markers@ == seq![true, false, false, false, false, false]
    &&& s.finish_line_markers@ == seq![false, true, false, false, false, false]
}

/// Populate a fresh store with the session's entities: the player, the
/// finish line, and the fixed obstacle course.
pub fn spawn_entities(world: &mut EntityStore)
    requires
        old(world).tables_consistent(),
        old(world).entity_count() == 0,
    ensures
        final(world).tables_consistent(),
        final(world).entity_count() == 6,
        initial_entities(*final(world)),
        final(world).positions@ == seq![
            Some(Position { x: PLAYER_SPAWN_X, y: PLAYER_SPAWN_Y }),
            Some(Position { x: FINISH_LINE_X, y: 0 }),
            Some(Position { x: 600, y: 0 }),
            Some(Position { x: 900, y: 0 }),
            Some(Position { x: 1200, y: 0 }),
            Some(Position { x: 1500, y: 0 }),
        ],
        final(world).velocities@ == seq![
            Some(Velocity { x: PLAYER_X_VELOCITY, y: 0 }),
            None, None, None, None, None,
        ],
        final(world).rectangle_shapes@ == seq![
            Some(RectangleShape { width: PLAYER_BOX_SIZE, height: PLAYER_BOX_SIZE }),
            Some(RectangleShape { width: FINISH_LINE_WIDTH, height: WINDOW_HEIGHT }),
            None, None, None, None,
        ],
        final(world).obstacle_shapes@ == seq![
            None,
            None,
            Some(ObstacleShape { gap_length: 100, gap_y_displacement: 300, width: OBSTACLE_WIDTH }),
            Some(ObstacleShape { gap_length: 75, gap_y_displacement: 350, width: OBSTACLE_WIDTH }),
            Some(ObstacleShape { gap_length: 75, gap_y_displacement: 300, width: OBSTACLE_WIDTH }),
            Some(ObstacleShape { gap_length: 75, gap_y_displacement: 300, width: OBSTACLE_WIDTH }),
        ],
        final(world).colours@ == seq![
            Some(yinmn_blue()),
            Some(columbia_blue()),
            Some(dark_pastel_green()),
            Some(dark_pastel_green()),
            Some(dark_pastel_green()),
            Some(dark_pastel_green()),
        ],
        final(world).scores@ == seq![Some(Score { value: 0 }), None, None, None, None, None],
        final(world).flipper_markers@ == seq![true, false, false, false, false, false],
        final(world).finish_line_markers@ == seq![false, true, false, false, false, false],
{
    let _flipper_entity = world.spawn(
        ComponentBundle {
            position: Some(Position { x: PLAYER_SPAWN_X, y: PLAYER_SPAWN_Y }),
            velocity: Some(Velocity { x: PLAYER_X_VELOCITY, y: 0 }),
            rectangle_shape: Some(
                RectangleShape { width: PLAYER_BOX_SIZE, height: PLAYER_BOX_SIZE },
            ),
            obstacle_shape: None,
            colour: Some(Colour::yinmn_blue()),
            score: Some(Score { value: 0 }),
            flipper: true,
            finish_line: false,
        },
    );
    let _finish_line_entity = world.spawn(
        ComponentBundle {
            position: Some(Position { x: FINISH_LINE_X, y: 0 }),
            velocity: None,
            rectangle_shape: Some(
                RectangleShape { width: FINISH_LINE_WIDTH, height: WINDOW_HEIGHT },
            ),
            obstacle_shape: None,
            colour: Some(Colour::columbia_blue()),
            score: None,
            flipper: false,
            finish_line: true,
        },
    );
    world.spawn(
        ComponentBundle {
            position: Some(Position { x: 600, y: 0 }),
            velocity: None,
            rectangle_shape: None,
            obstacle_shape: Some(
                ObstacleShape { gap_length: 100, gap_y_displacement: 300, width: OBSTACLE_WIDTH },
            ),
            colour: Some(Colour::dark_pastel_green()),
            score: None,
            flipper: false,
            finish_line: false,
        },
    );
    world.spawn(
        ComponentBundle {
            position: Some(Position { x: 900, y: 0 }),
            velocity: None,
            rectangle_shape: None,
            obstacle_shape: Some(
                ObstacleShape { gap_length: 75, gap_y_displacement: 350, width: OBSTACLE_WIDTH },
            ),
            colour: Some(Colour::dark_pastel_green()),
            score: None,
            flipper: false,
            finish_line: false,
        },
    );
    world.spawn(
        ComponentBundle {
            position: Some(Position { x: 1200, y: 0 }),
            velocity: None,
            rectangle_shape: None,
            obstacle_shape: Some(
                ObstacleShape { gap_length: 75, gap_y_displacement: 300, width: OBSTACLE_WIDTH },
            ),
            colour: Some(Colour::dark_pastel_green()),
            score: None,
            flipper: false,
            finish_line: false,
        },
    );
    world.spawn(
        ComponentBundle {
            position: Some(Position { x: 1500, y: 0 }),
            velocity: None,
            rectangle_shape: None,
            obstacle_shape: Some(
                ObstacleShape { gap_length: 75, gap_y_displacement: 300, width: OBSTACLE_WIDTH },
            ),
            colour: Some(Colour::dark_pastel_green()),
            score: None,
            flipper: false,
            finish_line: false,
        },
    );
    proof {
        assert(world.positions@ =~= seq![
            Some(Position { x: PLAYER_SPAWN_X, y: PLAYER_SPAWN_Y }),
            Some(Position { x: FINISH_LINE_X, y: 0 }),
            Some(Position { x: 600, y: 0 }),
            Some(Position { x: 900, y: 0 }),
            Some(Position { x: 1200, y: 0 }),
            Some(Position { x: 1500, y: 0 }),
        ]);
        assert(world.velocities@ =~= seq![
            Some(Velocity { x: PLAYER_X_VELOCITY, y: 0 }),
            None, None, None, None, None,
        ]);
        assert(world.rectangle_shapes@ =~= seq![
            Some(RectangleShape { width: PLAYER_BOX_SIZE, height: PLAYER_BOX_SIZE }),
            Some(RectangleShape { width: FINISH_LINE_WIDTH, height: WINDOW_HEIGHT }),
            None, None, None, None,
        ]);
        assert(world.obstacle_shapes@ =~= seq![
            None,
            None,
            Some(ObstacleShape { gap_length: 100, gap_y_displacement: 300, width: OBSTACLE_WIDTH }),
            Some(ObstacleShape { gap_length: 75, gap_y_displacement: 350, width: OBSTACLE_WIDTH }),
            Some(ObstacleShape { gap_length: 75, gap_y_displacement: 300, width: OBSTACLE_WIDTH }),
            Some(ObstacleShape { gap_length: 75, gap_y_displacement: 300, width: OBSTACLE_WIDTH }),
        ]);
        assert(world.colours@ =~= seq![
            Some(yinmn_blue()),
            Some(columbia_blue()),
            Some(dark_pastel_green()),
            Some(dark_pastel_green()),
            Some(dark_pastel_green()),
            Some(dark_pastel_green()),
        ]);
        assert(world.scores@ =~= seq![
            Some(Score { value: 0 }), None, None, None, None, None,
        ]);
        assert(world.flipper_markers@ =~= seq![true, false, false, false, false, false]);
        assert(world.finish_line_markers@ =~= seq![
            false, true, false, false, false, false,
        ]);
    }
}

/// The core systems a schedule can list, in the dispatch table of the
/// state machine. Drawing text is the host's: it never appears here.
#[derive(Clone, Copy, Debug, PartialEq, Eq, Structural)]
pub enum SystemKind {
    UpdateDeltaTime,
    UpdateCamera,
    UpdatePositions,
    UpdateFlipperVerticalPosition,
    HandleFlipperControls,
    HandleObstacleFlipperCollision,
    HandleFlipperFinishLineCollision,
    HandleReplay,
    HandleSkipTitle,
    HandleRequestQuit,
    HandleStartGame,
    HandleExit,
    DrawRectangles,
    DrawObstacles,
}

/// The ordered system set of the playing mode.
pub open spec fn playing_schedule() -> Seq<SystemKind> {
    seq![
        SystemKind::HandleRequestQuit,
        SystemKind::UpdateDeltaTime,
        SystemKind::UpdateCamera,
        SystemKind::DrawRectangles,
        SystemKind::DrawObstacles,
        SystemKind::HandleFlipperControls,
        SystemKind::UpdateFlipperVerticalPosition,
        SystemKind::HandleObstacleFlipperCollision,
        SystemKind::HandleFlipperFinishLineCollision,
        SystemKind::UpdatePositions,
    ]
}

pub fn create_playing_schedule() -> (schedule: Vec<SystemKind>)
    ensures
        schedule@ == playing_schedule(),
{
    let mut result: Vec<SystemKind> = Vec::new();
    result.push(SystemKind::HandleRequestQuit);
    result.push(SystemKind::UpdateDeltaTime);
    result.push(SystemKind::UpdateCamera);
    result.push(SystemKind::DrawRectangles);
    result.push(SystemKind::DrawObstacles);
    result.push(SystemKind::HandleFlipperControls);
    result.push(SystemKind::UpdateFlipperVerticalPosition);
    result.push(SystemKind::HandleObstacleFlipperCollision);
    result.push(SystemKind::HandleFlipperFinishLineCollision);
    result.push(SystemKind::UpdatePositions);
    proof {
        assert(result@ =~= playing_schedule());
    }
    result
}

/// The ordered system set of the exit prompt.
pub open spec fn exiting_schedule() -> Seq<SystemKind> {
    seq![SystemKind::HandleExit]
}

pub fn create_exiting_schedule() -> (schedule: Vec<SystemKind>)
    ensures
        schedule@ == exiting_schedule(),
{
    let mut result: Vec<SystemKind> = Vec::new();
    result.push(SystemKind::HandleExit);
    proof {
        assert(result@ =~= exiting_schedule());
    }
    result
}

/// The ordered system set of the title screen.
pub open spec fn title_schedule() -> Seq<SystemKind> {
    seq![SystemKind::HandleSkipTitle, SystemKind::HandleRequestQuit]
}

pub fn create_title_schedule() -> (schedule: Vec<SystemKind>)
    ensures
        schedule@ == title_schedule(),
{
    let mut result: Vec<SystemKind> = Vec::new();
    result.push(SystemKind::HandleSkipTitle);
    result.push(SystemKind::HandleRequestQuit);
    proof {
        assert(result@ =~= title_schedule());
    }
    result
}

/// The ordered system set of the menu.
pub open spec fn menu_schedule() -> Seq<SystemKind> {
    seq![SystemKind::HandleStartGame, SystemKind::HandleRequestQuit]
}

pub fn create_menu_schedule() -> (schedule: Vec<SystemKind>)
    ensures
        schedule@ == menu_schedule(),
{
    let mut result: Vec<SystemKind> = Vec::new();
    result.push(SystemKind::HandleStartGame);
    result.push(SystemKind::HandleRequestQuit);
    proof {
        assert(result@ =~= menu_schedule());
    }
    result
}

/// The ordered system set of the victory screen.
pub open spec fn victory_schedule() -> Seq<SystemKind> {
    seq![SystemKind::HandleRequestQuit, SystemKind::HandleReplay]
}

pub fn create_victory_schedule() -> (schedule: Vec<SystemKind>)
    ensures
        schedule@ == victory_schedule(),
{
    let mut result: Vec<SystemKind> = Vec::new();
    result.push(SystemKind::HandleRequestQuit);
    result.push(SystemKind::HandleReplay);
    proof {
        assert(result@ =~= victory_schedule());
    }
    result
}

/// The ordered system set of the game-over screen.
pub open spec fn game_over_schedule() -> Seq<SystemKind> {
    seq![SystemKind::HandleRequestQuit, SystemKind::HandleReplay]
}

pub fn create_game_over_schedule() -> (schedule: Vec<SystemKind>)
    ensures
        schedule@ == game_over_schedule(),
{
    let mut result: Vec<SystemKind> = Vec::new();
    result.push(SystemKind::HandleRequestQuit);
    result.push(SystemKind::HandleReplay);
    proof {
        assert(result@ =~= game_over_schedule());
    }
    result
}

/// The background colour each mode clears the window to.
pub open spec fn background_for(mode: GameMode) -> Colour {
    match mode {
        GameMode::Exiting(_) => crate::components::maize(),
        GameMode::Title => crate::components::maize(),
        GameMode::Menu => dark_pastel_green(),
        GameMode::Playing => crate::components::deep_sky_blue(),
        GameMode::GameOver => columbia_blue(),
        GameMode::Won => yinmn_blue(),
    }
}

/// The store, resources and mode all read as they did.
pub open spec fn world_unchanged(pre: GameWorld, post: GameWorld) -> bool {
    &&& all_tables_unchanged(pre.entities, post.entities)
    &&& post.camera == pre.camera
    &&& post.delta_time == pre.delta_time
    &&& post.cleared_obstacles.obstacles@ == pre.cleared_obstacles.obstacles@
    &&& post.state == pre.state
}

/// What one title-screen frame does to the world: leave for the menu on
/// flap or click input or after the timeout, then answer any quit request.
pub open spec fn title_frame_post(pre: GameWorld, input: FrameInput, post: GameWorld) -> bool {
    let skipped = if input.flap_released || input.mouse_pressed || input.session_millis
        > TITLE_TIMEOUT_MILLIS {
        GameMode::Menu
    } else {
        pre.state.mode
    };
    &&& post.state.mode == spec_requested_quit_mode(
        skipped,
        input.escape_released || input.quit_requested,
    )
    &&& all_tables_unchanged(pre.entities, post.entities)
    &&& post.camera == pre.camera
    &&& post.delta_time == pre.delta_time
    &&& post.cleared_obstacles.obstacles@ == pre.cleared_obstacles.obstacles@
}

/// What one menu frame does to the world: start playing on flap input, then
/// answer any quit request.
pub open spec fn menu_frame_post(pre: GameWorld, input: FrameInput, post: GameWorld) -> bool {
    let started = if input.flap_held {
        GameMode::Playing
    } else {
        pre.state.mode
    };
    &&& post.state.mode == spec_requested_quit_mode(
        started,
        input.escape_released || input.quit_requested,
    )
    &&& all_tables_unchanged(pre.entities, post.entities)
    &&& post.camera == pre.camera
    &&& post.delta_time == pre.delta_time
    &&& post.cleared_obstacles.obstacles@ == pre.cleared_obstacles.obstacles@
}

/// What one exit-prompt frame does to the world when the prompt is not
/// confirmed: resume the held mode on cancel input.
pub open spec fn exiting_frame_post(pre: GameWorld, input: FrameInput, post: GameWorld) -> bool {
    &&& post.state.mode == spec_exit_cancel_mode(pre.state.mode, input.escape_released)
    &&& all_tables_unchanged(pre.entities, post.entities)
    &&& post.camera == pre.camera
    &&& post.delta_time == pre.delta_time
    &&& post.cleared_obstacles.obstacles@ == pre.cleared_obstacles.obstacles@
}

/// What one game-over or victory frame does to the world: answer any quit
/// request; on replay input, reset the session in place and return to the
/// menu.
pub open spec fn replay_frame_post(pre: GameWorld, input: FrameInput, post: GameWorld) -> bool {
    let quitting = input.escape_released || input.quit_requested;
    let fi = pre.entities.flipper_index();
    &&& if input.flap_released {
        &&& post.state.mode == GameMode::Menu
        &&& post.camera == (Camera { pan_speed: pre.camera.pan_speed, left_displacement: 0 })
        &&& post.entities.positions@ == pre.entities.positions@.update(
            fi,
            Some(Position { x: PLAYER_SPAWN_X, y: PLAYER_SPAWN_Y }),
        )
        &&& post.entities.velocities@ == pre.entities.velocities@.update(
            fi,
            Some(Velocity { x: PLAYER_X_VELOCITY, y: 0 }),
        )
        &&& post.entities.scores@ == pre.entities.scores@.update(fi, Some(Score { value: 0 }))
        &&& post.cleared_obstacles.obstacles@ == Seq::<EntityId>::empty()
    } else {
        &&& post.state.mode == spec_requested_quit_mode(pre.state.mode, quitting)
        &&& post.camera == pre.camera
        &&& post.entities.positions@ == pre.entities.positions@
        &&& post.entities.velocities@ == pre.entities.velocities@
        &&& post.entities.scores@ == pre.entities.scores@
        &&& post.cleared_obstacles.obstacles@ == pre.cleared_obstacles.obstacles@
    }
    &&& post.entities.rectangle_shapes@ == pre.entities.rectangle_shapes@
    &&& post.entities.obstacle_shapes@ == pre.entities.obstacle_shapes@
    &&& post.entities.colours@ == pre.entities.colours@
    &&& post.entities.flipper_markers@ == pre.entities.flipper_markers@
    &&& post.entities.finish_line_markers@ == pre.entities.finish_line_markers@
    &&& post.delta_time == pre.delta_time
}

/// The player's vertical speed after one playing frame's flap input and
/// gravity.
pub open spec fn playing_vertical_speed(pre: GameWorld, input: FrameInput) -> int {
    let fi = pre.entities.flipper_index();
    let v0 = pre.entities.velocities@[fi].unwrap();
    let vy1 = if input.flap_held {
        flap_step(v0.y as int)
    } else {
        v0.y as int
    };
    gravity_step(vy1)
}

/// Where the player stands after one playing frame's vertical motion; on
/// the frame the player falls out of the window, the vertical position is
/// left where it was.
pub open spec fn playing_flipper_mid(pre: GameWorld, input: FrameInput) -> Position {
    let fi = pre.entities.flipper_index();
    let p0 = pre.entities.positions@[fi].unwrap();
    let new_y = if p0.y > WINDOW_HEIGHT {
        p0.y as int
    } else {
        (if p0.y <= 0 {
            0int
        } else {
            p0.y as int
        }) + scaled_displacement(input.delta_millis as int, playing_vertical_speed(pre, input))
    };
    Position { x: p0.x, y: new_y as i64 }
}

/// The camera after one playing frame of panning.
pub open spec fn playing_camera_after(pre: GameWorld, input: FrameInput) -> Camera {
    Camera {
        pan_speed: pre.camera.pan_speed,
        left_displacement: (pre.camera.left_displacement + scaled_displacement(
            input.delta_millis as int,
            pre.camera.pan_speed as int,
        )) as i64,
    }
}

/// The (score, cleared record, mode, sounds) the collision pass of one
/// playing frame produces, run after the vertical motion with the mode the
/// earlier systems left.
pub open spec fn playing_collision_result(pre: GameWorld, input: FrameInput) -> (
    int,
    Seq<EntityId>,
    GameMode,
    Seq<SoundCommand>,
) {
    let s = pre.entities;
    let fi = s.flipper_index();
    let quitting = input.escape_released || input.quit_requested;
    let mode1 = spec_requested_quit_mode(pre.state.mode, quitting);
    let p0 = s.positions@[fi].unwrap();
    let mode2 = if p0.y > WINDOW_HEIGHT {
        GameMode::GameOver
    } else {
        mode1
    };
    let flipper_mid = playing_flipper_mid(pre, input);
    collision_pass(
        s.obstacle_shapes@,
        s.positions@.update(fi, Some(flipper_mid)),
        s.rectangle_shapes@[fi].unwrap(),
        flipper_mid,
        s.scores@[fi].unwrap().value as int,
        pre.cleared_obstacles.obstacles@,
        mode2,
        s.entity_count(),
    )
}

/// Whether the player overlaps the finish line when the finish-line rule
/// runs, after the frame's vertical motion.
pub open spec fn playing_finish_overlap(pre: GameWorld, input: FrameInput) -> bool {
    let s = pre.entities;
    let fi = s.flipper_index();
    let li = s.finish_line_index();
    finish_line_overlap_at(
        playing_flipper_mid(pre, input),
        s.rectangle_shapes@[fi].unwrap(),
        s.positions@[li].unwrap(),
        s.rectangle_shapes@[li].unwrap(),
    )
}

/// What one playing frame does to the world: answer any quit request,
/// capture the delta, pan the camera, flap and fall, resolve obstacle and
/// finish-line collisions, and scroll every moving entity.
pub open spec fn playing_frame_post(pre: GameWorld, input: FrameInput, post: GameWorld) -> bool {
    let s = pre.entities;
    let fi = s.flipper_index();
    let v0 = s.velocities@[fi].unwrap();
    let flipper_mid = playing_flipper_mid(pre, input);
    let positions1 = s.positions@.update(fi, Some(flipper_mid));
    let velocities1 = s.velocities@.update(
        fi,
        Some(Velocity { x: v0.x, y: playing_vertical_speed(pre, input) as i64 }),
    );
    let result = playing_collision_result(pre, input);
    &&& post.camera == playing_camera_after(pre, input)
    &&& post.delta_time.millis == input.delta_millis
    &&& post.state.mode == if playing_finish_overlap(pre, input) {
        GameMode::Won
    } else {
        result.2
    }
    &&& post.cleared_obstacles.obstacles@ == result.1
    &&& post.entities.velocities@ == velocities1
    &&& post.entities.scores@ == s.scores@.update(fi, Some(Score { value: result.0 as u32 }))
    &&& post.entities.positions@ == positions_after_scroll(
        positions1,
        velocities1,
        input.delta_millis as int,
    )
    &&& post.entities.rectangle_shapes@ == s.rectangle_shapes@
    &&& post.entities.obstacle_shapes@ == s.obstacle_shapes@
    &&& post.entities.colours@ == s.colours@
    &&& post.entities.flipper_markers@ == s.flipper_markers@
    &&& post.entities.finish_line_markers@ == s.finish_line_markers@
}

/// The sounds one playing frame asks for, in order: the flap, then
/// whatever the collision pass raised, then the victory fanfare.
pub open spec fn playing_frame_sounds(pre: GameWorld, input: FrameInput) -> Seq<SoundCommand> {
    (if input.flap_held {
        seq![SoundCommand::PlayOnce(SoundKind::Flap)]
    } else {
        Seq::<SoundCommand>::empty()
    }) + playing_collision_result(pre, input).3 + (if playing_finish_overlap(pre, input) {
        seq![
            SoundCommand::StopLoop(SoundKind::Background),
            SoundCommand::PlayOnce(SoundKind::Victory),
        ]
    } else {
        Seq::<SoundCommand>::empty()
    })
}

/// The rectangles one playing frame draws: every in-view rectangle entity,
/// then every in-view obstacle, as seen by the freshly panned camera.
pub open spec fn playing_frame_draws(pre: GameWorld, input: FrameInput) -> Seq<DrawCommand> {
    let camera1 = playing_camera_after(pre, input);
    rectangle_draws(pre.entities, camera1, pre.entities.entity_count()) + obstacle_draws(
        pre.entities,
        camera1,
        pre.entities.entity_count(),
    )
}

/// One playing frame: the playing schedule, run in its declared order.
#[verifier::rlimit(100)]
fn run_playing_frame(world: &mut GameWorld, input: &FrameInput, output: &mut FrameOutput)
    requires
        old(world).well_formed(),
        old(world).within_bounds(),
        input.delta_millis <= DELTA_LIMIT,
        old(world).state.mode == GameMode::Playing,
    ensures
        final(world).well_formed(),
        final(world).within_relaxed_bounds(),
        playing_frame_post(*old(world), *input, *final(world)),
        output_extended(
            *old(output),
            *final(output),
            playing_frame_sounds(*old(world), *input),
            playing_frame_draws(*old(world), *input),
            Seq::<CoreWarning>::empty(),
        ),
{
    let ghost pre = *old(world);
    let ghost s0 = pre.entities;
    let ghost fi = s0.flipper_index();
    let ghost li = s0.finish_line_index();
    let ghost v0 = s0.velocities@[fi].unwrap();
    let ghost p0 = s0.positions@[fi].unwrap();
    let ghost vy1: int = if input.flap_held && v0.y > UPWARD_SPEED_LIMIT {
        v0.y + FLAP_IMPULSE
    } else {
        v0.y as int
    };
    let ghost vy2: int = playing_vertical_speed(pre, *input);
    let ghost flipper_mid = playing_flipper_mid(pre, *input);
    let ghost positions1 = s0.positions@.update(fi, Some(flipper_mid));
    let ghost velocities1 = s0.velocities@.update(
        fi,
        Some(Velocity { x: v0.x, y: vy2 as i64 }),
    );
    let ghost result = playing_collision_result(pre, *input);
    let ghost out0 = *old(output);
    proof {
        assert(li != fi);
    }

    handle_request_quit(&mut world.state, input, output);
    let ghost out1 = *output;
    let ghost mode1 = world.state.mode;

    update_delta_time(&mut world.delta_time, input);
    update_camera(&world.delta_time, &mut world.camera);
    proof {
        assert(world.camera == playing_camera_after(pre, *input));
        crate::world::lemma_positions_x_weaken(
            world.entities,
            COORD_LIMIT as int,
            crate::COORD_SLACK_LIMIT as int,
        );
    }

    draw_rectangles(&world.entities, &world.camera, output);
    let ghost out2 = *output;
    draw_obstacles(&world.entities, &world.camera, output);
    let ghost out3 = *output;
    let ghost rdraws = rectangle_draws(s0, playing_camera_after(pre, *input), s0.entity_count());
    let ghost odraws = obstacle_draws(s0, playing_camera_after(pre, *input), s0.entity_count());

    handle_flipper_controls(&mut world.entities, input, output);
    let ghost out4 = *output;
    let ghost s1 = world.entities;
    proof {
        crate::store::lemma_same_flipper_index(s0, s1);
        assert(s1.velocities@ == s0.velocities@.update(
            fi,
            Some(Velocity { x: v0.x, y: vy1 as i64 }),
        ));
        assert(s1.velocities@[fi] is Some);
        assert(s1.velocities@[fi].unwrap().y == vy1 as i64);
        assert(-SPEED_LIMIT <= vy1 <= SPEED_LIMIT);
    }

    update_flipper_vertical_position(&mut world.entities, &world.delta_time, &mut world.state);
    let ghost s2 = world.entities;
    proof {
        crate::store::lemma_same_flipper_index(s0, s2);
        assert(s2.velocities@ =~= velocities1);
        assert(s2.positions@[fi] == Some(flipper_mid));
        assert(s2.positions@ =~= positions1);
        assert(world.state.mode == if p0.y > WINDOW_HEIGHT {
            GameMode::GameOver
        } else {
            mode1
        });
        assert(crate::world::cleared_ok(s2, world.cleared_obstacles.obstacles@)) by {
            assert(forall|k: int|
                0 <= k < pre.cleared_obstacles.obstacles@.len() ==> s0.is_obstacle(
                    #[trigger] pre.cleared_obstacles.obstacles@[k].index as int,
                ));
            assert(forall|j: int| s0.is_obstacle(j) ==> s2.is_obstacle(j));
        }
        assert(crate::world::score_matches_cleared(s2, world.cleared_obstacles.obstacles@));
    }

    handle_obstacle_flipper_collision(
        &mut world.entities,
        &mut world.state,
        &mut world.cleared_obstacles,
        output,
    );
    let ghost out5 = *output;
    let ghost s3 = world.entities;
    proof {
        assert(s2.obstacle_shapes@ == s0.obstacle_shapes@);
        assert(s2.rectangle_shapes@[fi] == s0.rectangle_shapes@[fi]);
        assert(s2.scores@[fi] == s0.scores@[fi]);
        assert(s3.scores@ == s0.scores@.update(fi, Some(Score { value: result.0 as u32 })));
        assert(world.cleared_obstacles.obstacles@ == result.1);
        assert(world.state.mode == result.2);
        crate::store::lemma_same_flipper_index(s0, s3);
        crate::store::lemma_same_finish_line_index(s0, s3);
        assert(s3.positions@[fi].unwrap() == flipper_mid);
        assert(s3.positions@[li] == s0.positions@[li]);
        assert(finish_line_overlap(s3) == playing_finish_overlap(pre, *input));
    }

    handle_flipper_finish_line_collision(&world.entities, &mut world.state, output);
    let ghost out6 = *output;
    proof {
        assert(world.state.mode == if playing_finish_overlap(pre, *input) {
            GameMode::Won
        } else {
            result.2
        });
        assert(crate::world::positions_x_bounded(s3, COORD_LIMIT as int)) by {
            assert(forall|i: int|
                s3.valid_index(i) && i != fi ==> s3.positions@[i] == s0.positions@[i]);
            assert(flipper_mid.x == p0.x);
        }
        assert(crate::world::velocities_bounded(s3)) by {
            assert(forall|i: int|
                s3.valid_index(i) && i != fi ==> s3.velocities@[i] == s0.velocities@[i]);
            assert(-SPEED_LIMIT <= vy2 <= SPEED_LIMIT);
        }
    }

    update_positions(&mut world.entities, &world.delta_time);
    proof {
        let post = *world;
        assert(post.entities.positions@ == positions_after_scroll(
            positions1,
            velocities1,
            input.delta_millis as int,
        ));
        assert(playing_frame_post(pre, *input, post));

        // the session invariant carries over to the new frame state
        crate::store::lemma_same_flipper_index(s0, post.entities);
        crate::store::lemma_same_finish_line_index(s0, post.entities);
        assert(post.entities.positions@.len() == s0.positions@.len());
        assert(post.entities.positions@[fi] is Some);
        assert(post.entities.positions@[li] is Some);
        assert(crate::world::flipper_entity_ok(post.entities));
        assert(crate::world::finish_line_entity_ok(post.entities));
        assert forall|i: int| post.entities.is_obstacle(i) implies post.entities.positions@[i]
            is Some by {
            assert(s0.obstacle_shapes@[i] is Some);
            assert(s0.is_obstacle(i));
            assert(s0.positions@[i] is Some);
            assert(positions1[i] is Some);
        }
        assert(crate::world::obstacles_ok(post.entities));
        assert(crate::world::store_ok(post.entities));
        assert(crate::world::cleared_ok(post.entities, result.1)) by {
            assert(forall|k: int|
                0 <= k < result.1.len() ==> s2.is_obstacle(
                    #[trigger] result.1[k].index as int,
                ));
            assert(forall|j: int| s2.is_obstacle(j) ==> post.entities.is_obstacle(j));
        }
        crate::world::lemma_distinct_ids_bounded(result.1, s0.entity_count());
        assert(result.0 == result.1.len());
        assert(post.entities.scores@[fi].unwrap().value == result.0 as u32);
        assert(crate::world::score_matches_cleared(post.entities, result.1));
        assert(post.well_formed());

        // relaxed coordinate bounds for the frame's end
        assert(crate::world::positions_x_bounded(
            post.entities,
            crate::COORD_SLACK_LIMIT as int,
        )) by {
            assert forall|i: int|
                post.entities.valid_index(i) && post.entities.positions@[i] is Some implies {
                    let p = #[trigger] post.entities.positions@[i].unwrap();
                    -crate::COORD_SLACK_LIMIT <= p.x <= crate::COORD_SLACK_LIMIT
                } by {
                if positions1[i] is Some && velocities1[i] is Some {
                    crate::motion::lemma_scaled_displacement_bounds(
                        input.delta_millis as int,
                        velocities1[i].unwrap().x as int,
                    );
                }
            }
        }
        assert(crate::world::positions_y_bounded(
            post.entities,
            crate::COORD_SLACK_LIMIT as int,
        )) by {
            crate::motion::lemma_scaled_displacement_bounds(input.delta_millis as int, vy2);
            assert(-crate::COORD_SLACK_LIMIT <= flipper_mid.y <= crate::COORD_SLACK_LIMIT);
            assert forall|i: int|
                post.entities.valid_index(i) && post.entities.positions@[i] is Some implies {
                    let p = #[trigger] post.entities.positions@[i].unwrap();
                    -crate::COORD_SLACK_LIMIT <= p.y <= crate::COORD_SLACK_LIMIT
                } by {
                assert(post.entities.positions@[i].unwrap().y == positions1[i].unwrap().y);
            }
        }
        assert(post.within_relaxed_bounds());

        // the frame's commands, assembled in schedule order
        crate::world::lemma_output_extended_compose(
            out0,
            out1,
            out2,
            Seq::<SoundCommand>::empty(),
            Seq::<DrawCommand>::empty(),
            Seq::<CoreWarning>::empty(),
            Seq::<SoundCommand>::empty(),
            rdraws,
            Seq::<CoreWarning>::empty(),
        );
        crate::world::lemma_output_extended_compose(
            out0,
            out2,
            out3,
            Seq::<SoundCommand>::empty(),
            Seq::<DrawCommand>::empty() + rdraws,
            Seq::<CoreWarning>::empty() + Seq::<CoreWarning>::empty(),
            Seq::<SoundCommand>::empty(),
            odraws,
            Seq::<CoreWarning>::empty(),
        );
        let flap_sounds = if input.flap_held {
            seq![SoundCommand::PlayOnce(SoundKind::Flap)]
        } else {
            Seq::<SoundCommand>::empty()
        };
        crate::world::lemma_output_extended_compose(
            out0,
            out3,
            out4,
            Seq::<SoundCommand>::empty() + Seq::<SoundCommand>::empty(),
            (Seq::<DrawCommand>::empty() + rdraws) + odraws,
            (Seq::<CoreWarning>::empty() + Seq::<CoreWarning>::empty())
                + Seq::<CoreWarning>::empty(),
            flap_sounds,
            Seq::<DrawCommand>::empty(),
            Seq::<CoreWarning>::empty(),
        );
        crate::world::lemma_output_extended_compose(
            out0,
            out4,
            out5,
            (Seq::<SoundCommand>::empty() + Seq::<SoundCommand>::empty()) + flap_sounds,
            ((Seq::<DrawCommand>::empty() + rdraws) + odraws) + Seq::<DrawCommand>::empty(),
            ((Seq::<CoreWarning>::empty() + Seq::<CoreWarning>::empty())
                + Seq::<CoreWarning>::empty()) + Seq::<CoreWarning>::empty(),
            result.3,
            Seq::<DrawCommand>::empty(),
            Seq::<CoreWarning>::empty(),
        );
        let victory_sounds = if playing_finish_overlap(pre, *input) {
            seq![
                SoundCommand::StopLoop(SoundKind::Background),
                SoundCommand::PlayOnce(SoundKind::Victory),
            ]
        } else {
            Seq::<SoundCommand>::empty()
        };
        crate::world::lemma_output_extended_compose(
            out0,
            out5,
            out6,
            ((Seq::<SoundCommand>::empty() + Seq::<SoundCommand>::empty()) + flap_sounds)
                + result.3,
            (((Seq::<DrawCommand>::empty() + rdraws) + odraws) + Seq::<DrawCommand>::empty())
                + Seq::<DrawCommand>::empty(),
            (((Seq::<CoreWarning>::empty() + Seq::<CoreWarning>::empty())
                + Seq::<CoreWarning>::empty()) + Seq::<CoreWarning>::empty())
                + Seq::<CoreWarning>::empty(),
            victory_sounds,
            Seq::<DrawCommand>::empty(),
            Seq::<CoreWarning>::empty(),
        );
        assert((((Seq::<SoundCommand>::empty() + Seq::<SoundCommand>::empty()) + flap_sounds)
            + result.3) + victory_sounds =~= playing_frame_sounds(pre, *input));
        assert(((((Seq::<DrawCommand>::empty() + rdraws) + odraws)
            + Seq::<DrawCommand>::empty()) + Seq::<DrawCommand>::empty())
            + Seq::<DrawCommand>::empty() =~= playing_frame_draws(pre, *input));
        assert(((((Seq::<CoreWarning>::empty() + Seq::<CoreWarning>::empty())
            + Seq::<CoreWarning>::empty()) + Seq::<CoreWarning>::empty())
            + Seq::<CoreWarning>::empty()) + Seq::<CoreWarning>::empty()
            =~= Seq::<CoreWarning>::empty());
        assert(output_extended(
            out0,
            *output,
            playing_frame_sounds(pre, *input),
            playing_frame_draws(pre, *input),
            Seq::<CoreWarning>::empty(),
        ));
    }
}

/// Run one frame: read the mode at the top of the frame, pick its
/// background and its ordered system set, and run the whole set; a
/// transition requested mid-frame takes effect from the next frame. At the
/// exit prompt, confirm input asks the host to terminate instead of
/// running any system.
pub fn run_frame(world: &mut GameWorld, input: &FrameInput) -> (output: FrameOutput)
    requires
        old(world).well_formed(),
        old(world).within_bounds(),
        input.delta_millis <= DELTA_LIMIT,
    ensures
        final(world).well_formed(),
        final(world).within_relaxed_bounds(),
        output.background == background_for(old(world).state.mode),
        output.terminate == (old(world).state.mode is Exiting && input.confirm_held),
        output.terminate ==> world_unchanged(*old(world), *final(world)),
        old(world).state.mode is Title ==> {
            &&& title_frame_post(*old(world), *input, *final(world))
            &&& output.sounds@ == Seq::<SoundCommand>::empty()
            &&& output.draws@ == Seq::<DrawCommand>::empty()
            &&& output.warnings@ == Seq::<CoreWarning>::empty()
        },
        old(world).state.mode is Menu ==> {
            &&& menu_frame_post(*old(world), *input, *final(world))
            &&& output.sounds@ == if input.flap_held {
                seq![SoundCommand::StartLoop(SoundKind::Background)]
            } else {
                Seq::<SoundCommand>::empty()
            }
            &&& output.draws@ == Seq::<DrawCommand>::empty()
            &&& output.warnings@ == Seq::<CoreWarning>::empty()
        },
        old(world).state.mode is Exiting && !input.confirm_held ==> {
            &&& exiting_frame_post(*old(world), *input, *final(world))
            &&& output.sounds@ == Seq::<SoundCommand>::empty()
            &&& output.draws@ == Seq::<DrawCommand>::empty()
            &&& output.warnings@ == Seq::<CoreWarning>::empty()
        },
        (old(world).state.mode is GameOver || old(world).state.mode is Won) ==> {
            &&& replay_frame_post(*old(world), *input, *final(world))
            &&& output.sounds@ == Seq::<SoundCommand>::empty()
            &&& output.draws@ == Seq::<DrawCommand>::empty()
            &&& output.warnings@ == Seq::<CoreWarning>::empty()
        },
        old(world).state.mode is Playing ==> {
            &&& playing_frame_post(*old(world), *input, *final(world))
            &&& output.sounds@ == playing_frame_sounds(*old(world), *input)
            &&& output.draws@ == playing_frame_draws(*old(world), *input)
            &&& output.warnings@ == Seq::<CoreWarning>::empty()
        },
{
    let ghost pre = *old(world);
    match world.state.mode {
        GameMode::Exiting(_) => {
            let mut output = FrameOutput::empty(Colour::maize());
            if input.confirm_held {
                output.terminate = true;
            } else {
                handle_exit(&mut world.state, input, &mut output);
                proof {
                    assert(output.sounds@ =~= Seq::<SoundCommand>::empty());
                    assert(output.draws@ =~= Seq::<DrawCommand>::empty());
                    assert(output.warnings@ =~= Seq::<CoreWarning>::empty());
                }
            }
            proof {
                lemma_bounds_relax(*world);
            }
            output
        },
        GameMode::Title => {
            let mut output = FrameOutput::empty(Colour::maize());
            handle_skip_title(&mut world.state, input);
            handle_request_quit(&mut world.state, input, &mut output);
            proof {
                assert(output.sounds@ =~= Seq::<SoundCommand>::empty());
                assert(output.draws@ =~= Seq::<DrawCommand>::empty());
                assert(output.warnings@ =~= Seq::<CoreWarning>::empty());
                lemma_bounds_relax(*world);
            }
            output
        },
        GameMode::Menu => {
            let mut output = FrameOutput::empty(Colour::dark_pastel_green());
            handle_start_game(&mut world.state, input, &mut output);
            handle_request_quit(&mut world.state, input, &mut output);
            proof {
                if input.flap_held {
                    assert(output.sounds@ =~= seq![
                        SoundCommand::StartLoop(SoundKind::Background),
                    ]);
                } else {
                    assert(output.sounds@ =~= Seq::<SoundCommand>::empty());
                }
                assert(output.draws@ =~= Seq::<DrawCommand>::empty());
                assert(output.warnings@ =~= Seq::<CoreWarning>::empty());
                lemma_bounds_relax(*world);
            }
            output
        },
        GameMode::Playing => {
            let mut output = FrameOutput::empty(Colour::deep_sky_blue());
            run_playing_frame(world, input, &mut output);
            proof {
                assert(output.sounds@ =~= playing_frame_sounds(pre, *input));
                assert(output.draws@ =~= playing_frame_draws(pre, *input));
                assert(output.warnings@ =~= Seq::<CoreWarning>::empty());
            }
            output
        },
        GameMode::GameOver => {
            let mut output = FrameOutput::empty(Colour::columbia_blue());
            handle_request_quit(&mut world.state, input, &mut output);
            handle_replay(
                &mut world.entities,
                &mut world.camera,
                &mut world.cleared_obstacles,
                &mut world.state,
                input,
            );
            proof {
                assert(output.sounds@ =~= Seq::<SoundCommand>::empty());
                assert(output.draws@ =~= Seq::<DrawCommand>::empty());
                assert(output.warnings@ =~= Seq::<CoreWarning>::empty());
                lemma_replay_frame_invariant(pre, *input, *world);
            }
            output
        },
        GameMode::Won => {
            let mut output = FrameOutput::empty(Colour::yinmn_blue());
            handle_request_quit(&mut world.state, input, &mut output);
            handle_replay(
                &mut world.entities,
                &mut world.camera,
                &mut world.cleared_obstacles,
                &mut world.state,
                input,
            );
            proof {
                assert(output.sounds@ =~= Seq::<SoundCommand>::empty());
                assert(output.draws@ =~= Seq::<DrawCommand>::empty());
                assert(output.warnings@ =~= Seq::<CoreWarning>::empty());
                lemma_replay_frame_invariant(pre, *input, *world);
            }
            output
        },
    }
}

/// Strict coordinate bounds meet the frame-end relaxed bounds.
proof fn lemma_bounds_relax(world: GameWorld)
    requires
        world.within_bounds(),
    ensures
        world.within_relaxed_bounds(),
{
    crate::world::lemma_positions_x_weaken(
        world.entities,
        COORD_LIMIT as int,
        crate::COORD_SLACK_LIMIT as int,
    );
    crate::world::lemma_positions_y_weaken(
        world.entities,
        COORD_LIMIT as int,
        crate::COORD_SLACK_LIMIT as int,
    );
}

/// A frame that at most resets the session in place keeps the session
/// invariant and the strict coordinate bounds.
proof fn lemma_replay_frame_invariant(pre: GameWorld, input: FrameInput, post: GameWorld)
    requires
        pre.well_formed(),
        pre.within_bounds(),
        replay_frame_post(pre, input, post),
        post.entities.tables_consistent(),
    ensures
        post.well_formed(),
        post.within_bounds(),
        post.within_relaxed_bounds(),
{
    let s0 = pre.entities;
    let fi = s0.flipper_index();
    crate::store::lemma_same_flipper_index(s0, post.entities);
    crate::store::lemma_same_finish_line_index(s0, post.entities);
    assert(post.entities.positions@.len() == s0.positions@.len());
    if input.flap_released {
        assert(crate::world::flipper_entity_ok(post.entities));
        assert(crate::world::finish_line_entity_ok(post.entities)) by {
            assert(s0.finish_line_index() != fi);
        }
        assert forall|i: int| post.entities.is_obstacle(i) implies post.entities.positions@[i]
            is Some by {
            assert(s0.obstacle_shapes@[i] is Some);
            assert(s0.is_obstacle(i));
            assert(s0.positions@[i] is Some);
            assert(i != fi);
        }
        assert(crate::world::obstacles_ok(post.entities));
        assert(crate::world::cleared_ok(
            post.entities,
            post.cleared_obstacles.obstacles@,
        ));
        assert(crate::world::score_matches_cleared(
            post.entities,
            post.cleared_obstacles.obstacles@,
        ));
        assert(crate::world::positions_x_bounded(post.entities, COORD_LIMIT as int)) by {
            assert(forall|i: int|
                post.entities.valid_index(i) && i != fi ==> post.entities.positions@[i]
                    == s0.positions@[i]);
        }
        assert(crate::world::positions_y_bounded(post.entities, COORD_LIMIT as int)) by {
            assert(forall|i: int|
                post.entities.valid_index(i) && i != fi ==> post.entities.positions@[i]
                    == s0.positions@[i]);
        }
        assert(crate::world::velocities_bounded(post.entities)) by {
            assert(forall|i: int|
                post.entities.valid_index(i) && i != fi ==> post.entities.velocities@[i]
                    == s0.velocities@[i]);
        }
    } else {
        assert(crate::world::flipper_entity_ok(post.entities));
        assert(crate::world::finish_line_entity_ok(post.entities));
        assert forall|i: int| post.entities.is_obstacle(i) implies post.entities.positions@[i]
            is Some by {
            assert(s0.obstacle_shapes@[i] is Some);
            assert(s0.is_obstacle(i));
            assert(s0.positions@[i] is Some);
        }
        assert(crate::world::obstacles_ok(post.entities));
        assert(crate::world::cleared_ok(
            post.entities,
            post.cleared_obstacles.obstacles@,
        )) by {
            assert(forall|k: int|
                0 <= k < pre.cleared_obstacles.obstacles@.len() ==> s0.is_obstacle(
                    #[trigger] pre.cleared_obstacles.obstacles@[k].index as int,
                ));
        }
        assert(crate::world::score_matches_cleared(
            post.entities,
            post.cleared_obstacles.obstacles@,
        ));
        assert(crate::world::positions_x_bounded(post.entities, COORD_LIMIT as int));
        assert(crate::world::positions_y_bounded(post.entities, COORD_LIMIT as int));
        assert(crate::world::velocities_bounded(post.entities));
    }
    crate::world::lemma_positions_x_weaken(
        post.entities,
        COORD_LIMIT as int,
        crate::COORD_SLACK_LIMIT as int,
    );
    crate::world::lemma_positions_y_weaken(
        post.entities,
        COORD_LIMIT as int,
        crate::COORD_SLACK_LIMIT as int,
    );
}

} // verus!
