use flipper::components::{Colour, ObstacleShape, Position, RectangleShape, Score, Velocity};
use flipper::resources::{Camera, DeltaTime, GameMode, GameState};
use flipper::store::{ComponentBundle, EntityStore, QueryError};
use flipper::systems::{
    create_exiting_schedule, create_game_over_schedule, create_menu_schedule,
    create_playing_schedule, create_title_schedule, create_victory_schedule,
    draw_obstacles, draw_rectangles, handle_exit, handle_request_quit, obstacle_flipper_collision,
    spawn_entities, update_camera, update_delta_time, FlipperObstacleCollision, SystemKind,
};
use flipper::motion::displacement;
use flipper::world::{CoreWarning, FrameInput, FrameOutput};

fn idle_input() -> FrameInput {
    FrameInput {
        delta_millis: 16,
        session_millis: 0,
        flap_held: false,
        flap_released: false,
        mouse_pressed: false,
        escape_released: false,
        quit_requested: false,
        confirm_held: false,
    }
}

#[test]
fn flipper_obstacle_collision_successfully_reports_miss() {
    // arrange
    let obstacle_shape = ObstacleShape {
        gap_length: 200,
        gap_y_displacement: 150,
        width: 15,
    };
    let obstacle_position = Position { x: 500, y: 0 };
    let flipper_shape = RectangleShape {
        width: 20,
        height: 20,
    };
    let flipper_position = Position { x: 100, y: 120 };

    // act
    let result = obstacle_flipper_collision(
        &obstacle_shape,
        &obstacle_position,
        &flipper_shape,
        &flipper_position,
    );

    // assert
    assert_eq!(result, None);
}

#[test]
fn flipper_obstacle_collision_successfully_reports_collision() {
    // arrange
    let obstacle_shape = ObstacleShape {
        gap_length: 200,
        gap_y_displacement: 150,
        width: 15,
    };
    let obstacle_position = Position { x: 90, y: 0 };
    let flipper_shape = RectangleShape {
        width: 20,
        height: 20,
    };
    let flipper_position = Position { x: 100, y: 120 };

    // act
    let result = obstacle_flipper_collision(
        &obstacle_shape,
        &obstacle_position,
        &flipper_shape,
        &flipper_position,
    );

    // assert
    assert_eq!(result, Some(FlipperObstacleCollision::Obstacle));
}

#[test]
fn flipper_obstacle_collision_reports_safe_gap() {
    let obstacle_shape = ObstacleShape {
        gap_length: 200,
        gap_y_displacement: 150,
        width: 15,
    };
    let obstacle_position = Position { x: 90, y: 0 };
    let flipper_shape = RectangleShape {
        width: 20,
        height: 20,
    };
    // the player's box spans 200 to 220, inside the gap from 150 to 350
    let flipper_position = Position { x: 100, y: 200 };
    let result = obstacle_flipper_collision(
        &obstacle_shape,
        &obstacle_position,
        &flipper_shape,
        &flipper_position,
    );
    assert_eq!(result, Some(FlipperObstacleCollision::Gap));
}

#[test]
fn collision_classification_is_unchanged_by_horizontal_translation() {
    let obstacle_shape = ObstacleShape {
        gap_length: 200,
        gap_y_displacement: 150,
        width: 15,
    };
    let flipper_shape = RectangleShape {
        width: 20,
        height: 20,
    };
    for x_offset in [-1000, -1, 0, 7, 350, 10_000] {
        for (obstacle_x, flipper_y) in [(500_i64, 120_i64), (90, 120), (90, 200)] {
            let plain = obstacle_flipper_collision(
                &obstacle_shape,
                &Position { x: obstacle_x, y: 0 },
                &flipper_shape,
                &Position { x: 100, y: flipper_y },
            );
            let shifted = obstacle_flipper_collision(
                &obstacle_shape,
                &Position {
                    x: obstacle_x + x_offset,
                    y: 0,
                },
                &flipper_shape,
                &Position {
                    x: 100 + x_offset,
                    y: flipper_y,
                },
            );
            assert_eq!(plain, shifted);
        }
    }
}

#[test]
fn displacement_scales_speed_to_the_frame_delta() {
    // 16 ms at 240 units per second: 3.84 units, rounded toward zero
    assert_eq!(displacement(16, 240), 3);
    assert_eq!(displacement(16, -240), -3);
    assert_eq!(displacement(1000, 240), 240);
    assert_eq!(displacement(0, 240), 0);
    assert_eq!(displacement(500, 6), 3);
}

#[test]
fn spawn_entities_builds_the_session_course() {
    let mut store = EntityStore::new();
    spawn_entities(&mut store);
    assert_eq!(store.positions.len(), 6);
    assert_eq!(store.positions[0], Some(Position { x: 20, y: 290 }));
    assert_eq!(store.velocities[0], Some(Velocity { x: 240, y: 0 }));
    assert_eq!(
        store.rectangle_shapes[0],
        Some(RectangleShape {
            width: 20,
            height: 20
        })
    );
    assert_eq!(store.scores[0], Some(Score { value: 0 }));
    assert!(store.flipper_markers[0]);
    assert_eq!(store.positions[1], Some(Position { x: 3200, y: 0 }));
    assert_eq!(
        store.rectangle_shapes[1],
        Some(RectangleShape {
            width: 5,
            height: 600
        })
    );
    assert!(store.finish_line_markers[1]);
    let obstacle_xs: Vec<i64> = (2..6)
        .map(|i| store.positions[i].unwrap().x)
        .collect();
    assert_eq!(obstacle_xs, vec![600, 900, 1200, 1500]);
    assert_eq!(
        store.obstacle_shapes[2],
        Some(ObstacleShape {
            gap_length: 100,
            gap_y_displacement: 300,
            width: 15
        })
    );
    assert_eq!(
        store.obstacle_shapes[3],
        Some(ObstacleShape {
            gap_length: 75,
            gap_y_displacement: 350,
            width: 15
        })
    );
}

#[test]
fn query_single_flipper_reports_the_player() {
    let mut store = EntityStore::new();
    spawn_entities(&mut store);
    let id = store.query_single_flipper().unwrap();
    assert_eq!(id.index, 0);
}

#[test]
fn query_single_flipper_reports_no_match_on_an_empty_store() {
    let store = EntityStore::new();
    assert_eq!(store.query_single_flipper(), Err(QueryError::NoMatch));
}

#[test]
fn query_single_flipper_reports_multiple_matches() {
    let mut store = EntityStore::new();
    spawn_entities(&mut store);
    store.spawn(ComponentBundle {
        position: Some(Position { x: 0, y: 0 }),
        velocity: Some(Velocity { x: 0, y: 0 }),
        rectangle_shape: None,
        obstacle_shape: None,
        colour: None,
        score: Some(Score { value: 0 }),
        flipper: true,
        finish_line: false,
    });
    assert_eq!(
        store.query_single_flipper(),
        Err(QueryError::MultipleMatches)
    );
}

#[test]
fn schedules_list_the_core_systems_in_order() {
    assert_eq!(
        create_playing_schedule(),
        vec![
            SystemKind::HandleRequestQuit,
            SystemKind::UpdateDeltaTime,
            SystemKind::UpdateCamera,
            SystemKind::DrawRectangles,
            SystemKind::DrawObstacles,
            SystemKind::HandleFlipperControls,
            SystemKind::UpdateFlipperVerticalPosition,
            SystemKind::HandleObstacleFlipperCollision,
            SystemKind::HandleFlipperFinishLineCollision,
            SystemKind::UpdatePositions,
        ]
    );
    assert_eq!(create_exiting_schedule(), vec![SystemKind::HandleExit]);
    assert_eq!(
        create_title_schedule(),
        vec![SystemKind::HandleSkipTitle, SystemKind::HandleRequestQuit]
    );
    assert_eq!(
        create_menu_schedule(),
        vec![SystemKind::HandleStartGame, SystemKind::HandleRequestQuit]
    );
    assert_eq!(
        create_victory_schedule(),
        vec![SystemKind::HandleRequestQuit, SystemKind::HandleReplay]
    );
    assert_eq!(
        create_game_over_schedule(),
        vec![SystemKind::HandleRequestQuit, SystemKind::HandleReplay]
    );
}

#[test]
fn update_delta_time_captures_the_frame_delta() {
    let mut delta_time = DeltaTime::default();
    let mut input = idle_input();
    input.delta_millis = 42;
    update_delta_time(&mut delta_time, &input);
    assert_eq!(delta_time.millis, 42);
}

#[test]
fn update_camera_scales_the_pan_to_the_delta() {
    let mut camera = Camera::default();
    let delta_time = DeltaTime { millis: 16 };
    update_camera(&delta_time, &mut camera);
    // 16 ms at 240 units per second: 3.84 units, rounded toward zero
    assert_eq!(camera.left_displacement, 3);
}

#[test]
fn resources_camera_in_view_is_bounded_by_the_window() {
    let camera = Camera {
        pan_speed: 240,
        left_displacement: 100,
    };
    assert!(!camera.in_view(100));
    assert!(camera.in_view(101));
    assert!(camera.in_view(899));
    assert!(!camera.in_view(900));
}

#[test]
fn request_quit_while_exiting_recovers_to_menu_with_a_warning() {
    let mut game_state = GameState {
        mode: GameMode::Exiting(flipper::resources::ResumeGameMode::Playing),
    };
    let mut output = FrameOutput::empty(Colour::maize());
    let mut input = idle_input();
    input.escape_released = true;
    handle_request_quit(&mut game_state, &input, &mut output);
    assert_eq!(game_state.mode, GameMode::Menu);
    assert_eq!(
        output.warnings,
        vec![CoreWarning::QuitRequestedWhileExiting]
    );
}

#[test]
fn handle_exit_outside_exiting_recovers_to_menu_with_a_warning() {
    let mut game_state = GameState {
        mode: GameMode::Playing,
    };
    let mut output = FrameOutput::empty(Colour::maize());
    let mut input = idle_input();
    input.escape_released = true;
    handle_exit(&mut game_state, &input, &mut output);
    assert_eq!(game_state.mode, GameMode::Menu);
    assert_eq!(output.warnings, vec![CoreWarning::ExitHandledOutsideExiting]);
}

#[test]
fn draw_systems_cull_and_offset_by_the_camera() {
    let mut store = EntityStore::new();
    spawn_entities(&mut store);
    let camera = Camera {
        pan_speed: 240,
        left_displacement: 10,
    };
    let mut output = FrameOutput::empty(Colour::deep_sky_blue());
    draw_rectangles(&store, &camera, &mut output);
    // the player at x 20 and nothing else: the finish line at 3200 is out of view
    assert_eq!(output.draws.len(), 1);
    assert_eq!(output.draws[0].x, 10);
    assert_eq!(output.draws[0].y, 290);
    assert_eq!(output.draws[0].width, 20);
    assert_eq!(output.draws[0].height, 20);

    draw_obstacles(&store, &camera, &mut output);
    // the obstacle at x 600 is in view: its two solid segments follow
    assert_eq!(output.draws.len(), 3);
    assert_eq!(output.draws[1].x, 590);
    assert_eq!(output.draws[1].y, 0);
    assert_eq!(output.draws[1].height, 300);
    assert_eq!(output.draws[2].y, 400);
    assert_eq!(output.draws[2].height, 200);

    assert!(output.sounds.is_empty());
}
