use flipper::components::Position;
use flipper::resources::{GameMode, ResumeGameMode};
use flipper::systems::run_frame;
use flipper::world::{FrameInput, GameWorld, SoundCommand, SoundKind};

fn idle_input() -> FrameInput {
    FrameInput {
        delta_millis: 16,
        session_millis: 1000,
        flap_held: false,
        flap_released: false,
        mouse_pressed: false,
        escape_released: false,
        quit_requested: false,
        confirm_held: false,
    }
}

#[test]
fn a_new_session_opens_on_the_title_screen() {
    let world = GameWorld::new();
    assert_eq!(world.state.mode, GameMode::Title);
    assert_eq!(world.camera.left_displacement, 0);
    assert!(world.cleared_obstacles.obstacles.is_empty());
    assert!(world.in_simulation_bounds());
    assert_eq!(world.entities.scores[0].unwrap().value, 0);
}

#[test]
fn title_screen_waits_for_input_before_the_timeout() {
    let mut world = GameWorld::new();
    let input = idle_input();
    let output = run_frame(&mut world, &input);
    assert_eq!(world.state.mode, GameMode::Title);
    assert!(!output.terminate);
    assert!(output.sounds.is_empty());
}

#[test]
fn title_screen_gives_way_to_the_menu_on_flap() {
    let mut world = GameWorld::new();
    let mut input = idle_input();
    input.flap_released = true;
    run_frame(&mut world, &input);
    assert_eq!(world.state.mode, GameMode::Menu);
}

#[test]
fn title_screen_times_out_into_the_menu() {
    let mut world = GameWorld::new();
    let mut input = idle_input();
    input.session_millis = 5001;
    run_frame(&mut world, &input);
    assert_eq!(world.state.mode, GameMode::Menu);
}

#[test]
fn menu_starts_the_game_and_the_background_loop_on_flap() {
    let mut world = GameWorld::new();
    world.state.mode = GameMode::Menu;
    let mut input = idle_input();
    input.flap_held = true;
    let output = run_frame(&mut world, &input);
    assert_eq!(world.state.mode, GameMode::Playing);
    assert_eq!(
        output.sounds,
        vec![SoundCommand::StartLoop(SoundKind::Background)]
    );
}

#[test]
fn quit_request_while_playing_prompts_with_playing_resume() {
    let mut world = GameWorld::new();
    world.state.mode = GameMode::Playing;
    let mut input = idle_input();
    input.escape_released = true;
    run_frame(&mut world, &input);
    assert_eq!(world.state.mode, GameMode::Exiting(ResumeGameMode::Playing));
}

#[test]
fn quit_request_at_the_menu_prompts_with_menu_resume() {
    let mut world = GameWorld::new();
    world.state.mode = GameMode::Menu;
    let mut input = idle_input();
    input.quit_requested = true;
    run_frame(&mut world, &input);
    assert_eq!(world.state.mode, GameMode::Exiting(ResumeGameMode::Menu));
}

#[test]
fn cancelling_the_exit_prompt_resumes_the_held_mode() {
    let mut world = GameWorld::new();
    world.state.mode = GameMode::Exiting(ResumeGameMode::Playing);
    let mut input = idle_input();
    input.escape_released = true;
    run_frame(&mut world, &input);
    assert_eq!(world.state.mode, GameMode::Playing);
}

#[test]
fn confirming_the_exit_prompt_terminates() {
    let mut world = GameWorld::new();
    world.state.mode = GameMode::Exiting(ResumeGameMode::Menu);
    let mut input = idle_input();
    input.confirm_held = true;
    let output = run_frame(&mut world, &input);
    assert!(output.terminate);
    assert_eq!(world.state.mode, GameMode::Exiting(ResumeGameMode::Menu));
}

#[test]
fn one_playing_frame_integrates_motion() {
    let mut world = GameWorld::new();
    world.state.mode = GameMode::Playing;
    let mut input = idle_input();
    input.delta_millis = 1000;
    run_frame(&mut world, &input);
    // camera panned one second; the player drifted with it and fell
    assert_eq!(world.camera.left_displacement, 240);
    let player = world.entities.positions[0].unwrap();
    assert_eq!(player.x, 20 + 240);
    assert_eq!(player.y, 290 + 6);
    assert_eq!(world.entities.velocities[0].unwrap().y, 6);
    assert_eq!(world.state.mode, GameMode::Playing);
}

#[test]
fn gravity_stops_at_terminal_velocity_over_many_frames() {
    let mut world = GameWorld::new();
    world.state.mode = GameMode::Playing;
    // keep the player aloft so only the speed is of interest
    let mut input = idle_input();
    input.delta_millis = 0;
    for _ in 0..20 {
        run_frame(&mut world, &input);
    }
    assert_eq!(world.entities.velocities[0].unwrap().y, 30);
}

#[test]
fn flapping_plays_the_flap_sound_and_lifts_the_player() {
    let mut world = GameWorld::new();
    world.state.mode = GameMode::Playing;
    let mut input = idle_input();
    input.delta_millis = 0;
    input.flap_held = true;
    let output = run_frame(&mut world, &input);
    assert_eq!(output.sounds, vec![SoundCommand::PlayOnce(SoundKind::Flap)]);
    // one flap and one frame of gravity
    assert_eq!(world.entities.velocities[0].unwrap().y, -30 + 6);
}

#[test]
fn repeated_flaps_stop_at_the_upward_speed_limit() {
    let mut world = GameWorld::new();
    world.state.mode = GameMode::Playing;
    let mut input = idle_input();
    input.delta_millis = 0;
    input.flap_held = true;
    for _ in 0..100 {
        run_frame(&mut world, &input);
        let vy = world.entities.velocities[0].unwrap().y;
        assert!(vy >= -204);
        assert!(vy <= 30);
    }
}

#[test]
fn falling_out_of_the_window_ends_the_game() {
    let mut world = GameWorld::new();
    world.state.mode = GameMode::Playing;
    world.entities.positions[0] = Some(Position { x: 20, y: 601 });
    let mut input = idle_input();
    input.delta_millis = 1000;
    run_frame(&mut world, &input);
    assert_eq!(world.state.mode, GameMode::GameOver);
    // the game-over frame does not integrate the vertical position
    assert_eq!(world.entities.positions[0].unwrap().y, 601);
}

#[test]
fn passing_through_a_gap_scores_exactly_once() {
    let mut world = GameWorld::new();
    world.state.mode = GameMode::Playing;
    // inside the first obstacle's gap, which spans 300 to 400
    world.entities.positions[0] = Some(Position { x: 595, y: 320 });
    let mut input = idle_input();
    input.delta_millis = 0;
    let output = run_frame(&mut world, &input);
    assert_eq!(world.entities.scores[0].unwrap().value, 1);
    assert_eq!(world.cleared_obstacles.obstacles.len(), 1);
    assert_eq!(world.cleared_obstacles.obstacles[0].index, 2);
    assert_eq!(
        output.sounds,
        vec![SoundCommand::PlayOnce(SoundKind::ObstacleCleared)]
    );
    assert_eq!(world.state.mode, GameMode::Playing);

    // a second frame in the same gap must not credit the obstacle again
    let output2 = run_frame(&mut world, &input);
    assert_eq!(world.entities.scores[0].unwrap().value, 1);
    assert_eq!(world.cleared_obstacles.obstacles.len(), 1);
    assert!(output2.sounds.is_empty());
}

#[test]
fn hitting_an_obstacle_body_ends_the_game_with_its_sounds() {
    let mut world = GameWorld::new();
    world.state.mode = GameMode::Playing;
    // level with the first obstacle but above its gap
    world.entities.positions[0] = Some(Position { x: 595, y: 100 });
    let mut input = idle_input();
    input.delta_millis = 0;
    let output = run_frame(&mut world, &input);
    assert_eq!(world.state.mode, GameMode::GameOver);
    assert_eq!(
        output.sounds,
        vec![
            SoundCommand::StopLoop(SoundKind::Background),
            SoundCommand::PlayOnce(SoundKind::GameOver),
        ]
    );
    assert_eq!(world.entities.scores[0].unwrap().value, 0);
}

#[test]
fn reaching_the_finish_line_wins_with_the_victory_sounds() {
    let mut world = GameWorld::new();
    world.state.mode = GameMode::Playing;
    world.entities.positions[0] = Some(Position { x: 3195, y: 300 });
    let mut input = idle_input();
    input.delta_millis = 0;
    let output = run_frame(&mut world, &input);
    assert_eq!(world.state.mode, GameMode::Won);
    assert_eq!(
        output.sounds,
        vec![
            SoundCommand::StopLoop(SoundKind::Background),
            SoundCommand::PlayOnce(SoundKind::Victory),
        ]
    );
}

#[test]
fn replay_resets_the_session_in_place() {
    let mut world = GameWorld::new();
    world.state.mode = GameMode::Playing;
    world.entities.positions[0] = Some(Position { x: 595, y: 320 });
    let mut input = idle_input();
    input.delta_millis = 0;
    run_frame(&mut world, &input);
    assert_eq!(world.entities.scores[0].unwrap().value, 1);
    world.state.mode = GameMode::GameOver;
    world.camera.left_displacement = 777;

    let mut replay = idle_input();
    replay.flap_released = true;
    run_frame(&mut world, &replay);
    assert_eq!(world.state.mode, GameMode::Menu);
    assert_eq!(world.camera.left_displacement, 0);
    assert_eq!(world.entities.scores[0].unwrap().value, 0);
    assert_eq!(world.entities.positions[0].unwrap(), Position { x: 20, y: 290 });
    assert!(world.cleared_obstacles.obstacles.is_empty());
}

#[test]
fn replay_twice_leaves_the_same_state_as_once() {
    let mut world = GameWorld::new();
    world.state.mode = GameMode::Playing;
    world.entities.positions[0] = Some(Position { x: 595, y: 320 });
    let mut input = idle_input();
    input.delta_millis = 0;
    run_frame(&mut world, &input);
    world.state.mode = GameMode::GameOver;

    let mut replay = idle_input();
    replay.flap_released = true;
    run_frame(&mut world, &replay);
    let once_score = world.entities.scores[0].unwrap();
    let once_position = world.entities.positions[0].unwrap();
    let once_velocity = world.entities.velocities[0].unwrap();
    let once_camera = world.camera;
    let once_mode = world.state.mode;
    let once_cleared = world.cleared_obstacles.obstacles.clone();

    world.state.mode = GameMode::GameOver;
    run_frame(&mut world, &replay);
    assert_eq!(world.state.mode, GameMode::Menu);
    assert_eq!(once_mode, GameMode::Menu);
    assert_eq!(world.entities.scores[0].unwrap(), once_score);
    assert_eq!(world.entities.positions[0].unwrap(), once_position);
    assert_eq!(world.entities.velocities[0].unwrap(), once_velocity);
    assert_eq!(world.camera, once_camera);
    assert_eq!(world.cleared_obstacles.obstacles, once_cleared);
}

#[test]
fn score_never_decreases_across_a_playing_run() {
    let mut world = GameWorld::new();
    world.state.mode = GameMode::Playing;
    let mut input = idle_input();
    input.delta_millis = 40;
    input.flap_held = true;
    let mut last_score = 0u32;
    for frame in 0..400 {
        if !world.in_simulation_bounds() || world.state.mode != GameMode::Playing {
            break;
        }
        // alternate flapping so the player crosses the course
        input.flap_held = frame % 4 == 0;
        run_frame(&mut world, &input);
        let score = world.entities.scores[0].unwrap().value;
        assert!(score >= last_score);
        assert!(score >= world.cleared_obstacles.obstacles.len() as u32);
        last_score = score;
    }
}

#[test]
fn background_colour_follows_the_mode() {
    let mut world = GameWorld::new();
    let input = idle_input();
    let output = run_frame(&mut world, &input);
    // the title screen clears to maize
    assert_eq!(output.background.r, 254);
    assert_eq!(output.background.g, 228);
    assert_eq!(output.background.b, 64);
    world.state.mode = GameMode::Playing;
    let output2 = run_frame(&mut world, &input);
    // the playing field clears to deep sky blue
    assert_eq!(output2.background.r, 0);
    assert_eq!(output2.background.g, 187);
    assert_eq!(output2.background.b, 249);
}

#[test]
fn out_of_range_coordinates_fail_the_bounds_check() {
    let mut world = GameWorld::new();
    assert!(world.in_simulation_bounds());
    world.entities.positions[0] = Some(Position {
        x: 2_000_000_000_000,
        y: 290,
    });
    assert!(!world.in_simulation_bounds());
}
