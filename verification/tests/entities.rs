use flipper::entities::{
    flipper_finish_line_collision, flipper_obstruction_collision, Camera, FinishLine, Flipper,
    Obstacle,
};
use flipper::resources::GameMode;

#[test]
fn obstacle_left_returns_expected_value() {
    // arrange
    let mut obstacle = Obstacle::new(1000, 200, 150);
    obstacle.with_width(15);

    // act
    let result = obstacle.left();

    // assert
    assert_eq!(result, 1000);
}

#[test]
fn mod_obstacle_right_returns_expected_value() {
    // arrange
    let mut obstacle = Obstacle::new(1000, 200, 150);
    obstacle.with_width(15);

    // act
    let result = obstacle.right();

    // assert
    assert_eq!(result, 1015);
}

#[test]
fn mod_obstacle_gap_top_returns_expected_value() {
    // arrange
    let gap_top = 200_i64;
    let gap_length = 150_i64;
    let mut obstacle = Obstacle::new(1000, gap_top, gap_length);
    obstacle.with_width(15);

    // act
    let result = obstacle.gap_top();

    // assert
    assert_eq!(result, gap_top as i128);
}

#[test]
fn mod_obstacle_gap_bottom_returns_expected_value() {
    // arrange
    let gap_top = 200_i64;
    let gap_length = 150_i64;
    let mut obstacle = Obstacle::new(1000, gap_top, gap_length);
    obstacle.with_width(15);

    // act
    let result = obstacle.gap_bottom();

    // assert
    assert_eq!(result, (gap_top + gap_length) as i128);
}

#[test]
fn finish_line_left_returns_expected_value() {
    // arrange
    let mut finish_line = FinishLine::default();
    finish_line.with_x_displacement(50).with_width(10);

    // act
    let result = finish_line.left();

    // assert
    assert_eq!(result, 50);
}

#[test]
fn finish_line_right_returns_expected_value() {
    // arrange
    let mut finish_line = FinishLine::default();
    finish_line.with_x_displacement(50).with_width(10);

    // act
    let result = finish_line.right();

    // assert
    assert_eq!(result, 60);
}

#[test]
fn flipper_top_returns_expected_value() {
    // arrange
    let mut flipper = Flipper::default();
    flipper
        .with_x_displacement(100)
        .with_y_displacement(150)
        .with_width(30)
        .with_height(50);

    // act
    let result = flipper.top();

    // assert
    assert_eq!(result, 150);
}

#[test]
fn flipper_bottom_returns_expected_value() {
    // arrange
    let mut flipper = Flipper::default();
    flipper
        .with_x_displacement(100)
        .with_y_displacement(150)
        .with_width(30)
        .with_height(50);

    // act
    let result = flipper.bottom();

    // assert
    assert_eq!(result, 200);
}

#[test]
fn flipper_left_returns_expected_value() {
    // arrange
    let mut flipper = Flipper::default();
    flipper.with_x_displacement(100).with_width(30);

    // act
    let result = flipper.left();

    // assert
    assert_eq!(result, 100);
}

#[test]
fn flipper_right_returns_expected_value() {
    // arrange
    let mut flipper = Flipper::default();
    flipper.with_x_displacement(100).with_width(30);

    // act
    let result = flipper.right();

    // assert
    assert_eq!(result, 130);
}

#[test]
fn flipper_finish_line_collision_successfully_reports_miss() {
    // arrange
    let mut flipper = Flipper::default();
    flipper.with_x_displacement(0);

    let mut finish_line = FinishLine::default();
    finish_line.with_x_displacement(100);

    // act
    let result = flipper_finish_line_collision(&flipper, &finish_line);

    // assert
    assert!(!result);
}

#[test]
fn flipper_finish_line_collision_successfully_reports_collision() {
    // arrange
    let mut flipper = Flipper::default();
    flipper.with_x_displacement(100);

    let mut finish_line = FinishLine::default();
    finish_line.with_x_displacement(100);

    // act
    let result = flipper_finish_line_collision(&flipper, &finish_line);

    // assert
    assert!(result);
}

#[test]
fn flipper_default_starts_at_spawn() {
    let flipper = Flipper::default();
    assert_eq!(flipper.x_displacement, 20);
    assert_eq!(flipper.y_displacement, 290);
    assert_eq!(flipper.x_velocity, 240);
    assert_eq!(flipper.y_velocity, 0);
    assert_eq!(flipper.width, 20);
    assert_eq!(flipper.height, 20);
    assert_eq!(flipper.acceleration, -30);
}

#[test]
fn finish_line_default_stands_four_window_widths_in() {
    let finish_line = FinishLine::default();
    assert_eq!(finish_line.x_displacement, 3200);
    assert_eq!(finish_line.width, 5);
}

#[test]
fn flipper_flap_applies_impulse_until_upward_limit() {
    let mut flipper = Flipper::default();
    flipper.flap();
    assert_eq!(flipper.y_velocity, -30);
    for _ in 0..10 {
        flipper.flap();
    }
    // six flaps reach the upward speed limit; further flaps are ignored
    assert_eq!(flipper.y_velocity, -180);
}

#[test]
fn flipper_update_applies_gravity_and_motion() {
    let mut flipper = Flipper::default();
    // one second: drift 240 to the right, gain one frame of gravity, fall 6
    let outcome = flipper.update(1000);
    assert_eq!(outcome, None);
    assert_eq!(flipper.x_displacement, 20 + 240);
    assert_eq!(flipper.y_velocity, 6);
    assert_eq!(flipper.y_displacement, 290 + 6);
}

#[test]
fn flipper_update_reports_game_over_below_window() {
    let mut flipper = Flipper::default();
    flipper.with_y_displacement(601);
    let outcome = flipper.update(16);
    assert_eq!(outcome, Some(GameMode::GameOver));
    // the vertical position is left where it was
    assert_eq!(flipper.y_displacement, 601);
}

#[test]
fn flipper_update_holds_at_the_floor() {
    let mut flipper = Flipper::default();
    flipper.with_y_displacement(-5);
    let outcome = flipper.update(0);
    assert_eq!(outcome, None);
    assert_eq!(flipper.y_displacement, 0);
}

#[test]
fn flipper_obstruction_collision_hits_the_solid_body() {
    let mut flipper = Flipper::default();
    flipper.with_x_displacement(1000).with_y_displacement(100);
    let obstacle = Obstacle::new(1000, 200, 150);
    assert!(flipper_obstruction_collision(&flipper, &obstacle));
}

#[test]
fn flipper_obstruction_collision_passes_through_the_gap() {
    let mut flipper = Flipper::default();
    flipper.with_x_displacement(1000).with_y_displacement(250);
    let obstacle = Obstacle::new(1000, 200, 150);
    // the player's box spans 250 to 270, inside the gap from 200 to 350
    assert!(!flipper_obstruction_collision(&flipper, &obstacle));
}

#[test]
fn flipper_obstruction_collision_ignores_an_exact_edge_touch() {
    // the player's right edge exactly touches the obstruction's left edge;
    // overlap is strict, so even outside the gap there is no interaction
    let mut flipper = Flipper::default();
    flipper.with_x_displacement(980).with_y_displacement(100);
    let obstacle = Obstacle::new(1000, 200, 150);
    assert!(!flipper_obstruction_collision(&flipper, &obstacle));
}

#[test]
fn flipper_obstruction_collision_hits_at_the_gap_bottom_edge() {
    // the player's bottom sits exactly at the gap's bottom: not strictly
    // inside the gap, so the contact is lethal
    let mut flipper = Flipper::default();
    flipper.with_x_displacement(1000).with_y_displacement(330);
    let obstacle = Obstacle::new(1000, 200, 150);
    assert!(flipper_obstruction_collision(&flipper, &obstacle));
}

#[test]
fn entity_camera_in_view_ignores_its_right_bound() {
    let camera = Camera::default();
    // behind the scroll offset: out of view
    assert!(!camera.in_view(0));
    assert!(camera.in_view(1));
    // the comparison measures the right bound from the queried x itself,
    // so no positive x to the right is ever excluded
    assert!(camera.in_view(800));
    assert!(camera.in_view(100_000));
}

#[test]
fn entity_camera_update_advances_by_pan_speed() {
    let mut camera = Camera::default();
    camera.update(1000);
    assert_eq!(camera.left_displacement, 240);
    camera.update(500);
    assert_eq!(camera.left_displacement, 360);
}
