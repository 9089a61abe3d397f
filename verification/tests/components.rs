use flipper::components::{Colour, ObstacleShape, Position, RectangleShape};

#[test]
fn obstacle_shape_left_returns_expected_value() {
    // arrange
    let shape = ObstacleShape {
        gap_length: 200,
        gap_y_displacement: 150,
        width: 15,
    };

    // act
    let result = shape.left(&Position { x: 1000, y: 0 });

    // assert
    assert_eq!(result, 1000);
}

#[test]
fn components_obstacle_right_returns_expected_value() {
    // arrange
    let shape = ObstacleShape {
        gap_length: 200,
        gap_y_displacement: 150,
        width: 15,
    };

    // act
    let result = shape.right(&Position { x: 1000, y: 0 });

    // assert
    assert_eq!(result, 1015);
}

#[test]
fn components_obstacle_gap_top_returns_expected_value() {
    // arrange
    let shape = ObstacleShape {
        gap_length: 150,
        gap_y_displacement: 200,
        width: 15,
    };

    // act
    let result = shape.gap_top();

    // assert
    assert_eq!(result, 200);
}

#[test]
fn components_obstacle_gap_bottom_returns_expected_value() {
    // arrange
    let shape = ObstacleShape {
        gap_length: 150,
        gap_y_displacement: 200,
        width: 15,
    };

    // act
    let result = shape.gap_bottom();

    // assert
    assert_eq!(result, 350);
}

#[test]
fn rectangle_shape_left_returns_expected_value() {
    // arrange
    let shape = RectangleShape {
        width: 10,
        height: 600,
    };
    let position = Position { x: 1000, y: 0 };

    // act
    let result = shape.left(&position);

    // assert
    assert_eq!(result, 1000);
}

#[test]
fn rectangle_shape_right_returns_expected_value() {
    // arrange
    let shape = RectangleShape {
        width: 10,
        height: 600,
    };
    let position = Position { x: 1000, y: 0 };

    // act
    let result = shape.right(&position);

    // assert
    assert_eq!(result, 1010);
}

#[test]
fn rectangle_shape_top_returns_expected_value() {
    // arrange
    let shape = RectangleShape {
        width: 10,
        height: 600,
    };
    let position = Position { x: 1000, y: 500 };

    // act
    let result = shape.top(&position);

    // assert
    assert_eq!(result, 500);
}

#[test]
fn rectangle_shape_bottom_returns_expected_value() {
    // arrange
    let shape = RectangleShape {
        width: 10,
        height: 100,
    };
    let position = Position { x: 1000, y: 500 };

    // act
    let result = shape.bottom(&position);

    // assert
    assert_eq!(result, 600);
}

#[test]
fn colour_new_sets_all_channels() {
    let colour = Colour::new(39, 76, 119, 255);
    assert_eq!(colour.r, 39);
    assert_eq!(colour.g, 76);
    assert_eq!(colour.b, 119);
    assert_eq!(colour.a, 255);
}

#[test]
fn gap_bottom_lies_below_gap_top_for_positive_gap_length() {
    let shape = ObstacleShape {
        gap_length: 1,
        gap_y_displacement: 250,
        width: 15,
    };
    assert!(shape.gap_bottom() > shape.gap_top());
}
