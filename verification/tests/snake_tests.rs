use snake_game::grid::{Point, WalkDirection};
use snake_game::snake::Snake;

#[test]
fn walk_four_directions() {
    // Create snake
    let mut cobra = Snake::new(20, 20, 40, 40);

    // UP
    cobra.walk(WalkDirection::Up, true);
    let head = cobra.body.first().unwrap();
    assert_eq!(head, &Point::new(20, 19));

    // RIGHT
    cobra.walk(WalkDirection::Right, true);
    let head = cobra.body.first().unwrap();
    assert_eq!(head, &Point::new(21, 19));

    // DOWN
    cobra.walk(WalkDirection::Down, true);
    let head = cobra.body.first().unwrap();
    assert_eq!(head, &Point::new(21, 20));

    // DOWN
    cobra.walk(WalkDirection::Down, true);
    let head = cobra.body.first().unwrap();
    assert_eq!(head, &Point::new(21, 21));

    // LEFT
    cobra.walk(WalkDirection::Left, true);
    let head = cobra.body.first().unwrap();
    assert_eq!(head, &Point::new(20, 21));
}

#[test]
fn grow_snake_body() {
    let mut cobra = Snake::new(20, 20, 40, 40);

    cobra.walk(WalkDirection::Up, true);
    cobra.walk(WalkDirection::Up, true);
    cobra.walk(WalkDirection::Up, true);
    cobra.walk(WalkDirection::Up, true);

    assert_eq!(cobra.body.len(), 5);
}

#[test]
fn not_grow_snake_body() {
    let mut cobra = Snake::new(20, 20, 40, 40);

    cobra.walk(WalkDirection::Up, false);
    cobra.walk(WalkDirection::Up, false);
    cobra.walk(WalkDirection::Up, false);
    cobra.walk(WalkDirection::Up, false);

    assert_eq!(cobra.body.len(), 1);
}

#[test]
fn should_not_lose_if_head_go_back() {
    // Create snake
    let mut cobra = Snake::new(20, 20, 40, 40);

    // UP
    cobra.walk(WalkDirection::Up, true);
    assert_eq!(cobra.walk(WalkDirection::Down, true), true);
}

// The growth sequence Up, Right, Down, Down, Left from a single segment
// at (20, 20) in a 40x40 grid, checking every head and the final length:
// each of the five growth steps adds one segment to the starting one.
#[test]
fn growth_sequence_heads_and_length() {
    let mut cobra = Snake::new(20, 20, 40, 40);

    assert!(cobra.walk(WalkDirection::Up, true));
    assert_eq!(cobra.body.first().unwrap(), &Point::new(20, 19));
    assert!(cobra.walk(WalkDirection::Right, true));
    assert_eq!(cobra.body.first().unwrap(), &Point::new(21, 19));
    assert!(cobra.walk(WalkDirection::Down, true));
    assert_eq!(cobra.body.first().unwrap(), &Point::new(21, 20));
    assert!(cobra.walk(WalkDirection::Down, true));
    assert_eq!(cobra.body.first().unwrap(), &Point::new(21, 21));
    assert!(cobra.walk(WalkDirection::Left, true));
    assert_eq!(cobra.body.first().unwrap(), &Point::new(20, 21));

    assert_eq!(cobra.body.len(), 6);
}

// One growth step in each direction from a fresh interior snake: the head
// moves by exactly one cell and the body gains one segment.
#[test]
fn growth_step_from_interior_point() {
    let mut up = Snake::new(20, 20, 40, 40);
    assert!(up.walk(WalkDirection::Up, true));
    assert_eq!(up.body.first().unwrap(), &Point::new(20, 19));
    assert_eq!(up.body.len(), 2);

    let mut down = Snake::new(20, 20, 40, 40);
    assert!(down.walk(WalkDirection::Down, true));
    assert_eq!(down.body.first().unwrap(), &Point::new(20, 21));
    assert_eq!(down.body.len(), 2);

    let mut left = Snake::new(20, 20, 40, 40);
    assert!(left.walk(WalkDirection::Left, true));
    assert_eq!(left.body.first().unwrap(), &Point::new(19, 20));
    assert_eq!(left.body.len(), 2);

    let mut right = Snake::new(20, 20, 40, 40);
    assert!(right.walk(WalkDirection::Right, true));
    assert_eq!(right.body.first().unwrap(), &Point::new(21, 20));
    assert_eq!(right.body.len(), 2);
}

// Moving Left from the zero column wraps to the far edge instead of
// underflowing; the untouched row is kept.
#[test]
fn left_from_zero_wraps_to_far_edge() {
    let mut cobra = Snake::new(0, 5, 40, 40);
    assert!(cobra.walk(WalkDirection::Left, false));
    assert_eq!(cobra.body.first().unwrap(), &Point::new(40, 5));
}

// Moving Right from the axis maximum wraps to zero.
#[test]
fn right_from_max_wraps_to_zero() {
    let mut cobra = Snake::new(40, 20, 40, 40);
    assert!(cobra.walk(WalkDirection::Right, false));
    assert_eq!(cobra.body.first().unwrap(), &Point::new(0, 20));
}

// Moving Down from the axis maximum wraps to zero.
#[test]
fn down_from_max_wraps_to_zero() {
    let mut cobra = Snake::new(20, 40, 40, 40);
    assert!(cobra.walk(WalkDirection::Down, false));
    assert_eq!(cobra.body.first().unwrap(), &Point::new(20, 0));
}

// Moving Up from the zero row is guarded against underflow and the wrap
// sends the head to the bottom edge.
#[test]
fn up_from_zero_row_wraps_to_bottom() {
    let mut cobra = Snake::new(10, 0, 40, 40);
    assert!(cobra.walk(WalkDirection::Up, false));
    assert_eq!(cobra.body.first().unwrap(), &Point::new(10, 40));
}

// The asymmetric wrap kept from the game's rules: a raw coordinate of
// zero jumps to the axis maximum, so moving Up from row one lands at the
// bottom edge, not at row zero.
#[test]
fn up_from_row_one_wraps_to_bottom() {
    let mut cobra = Snake::new(20, 1, 40, 40);
    assert!(cobra.walk(WalkDirection::Up, false));
    assert_eq!(cobra.body.first().unwrap(), &Point::new(20, 40));
}

// The wrap applies to both axes on every step, so a snake in the zero
// column jumps to the far column even on a vertical move.
#[test]
fn zero_column_jumps_on_vertical_move() {
    let mut cobra = Snake::new(0, 5, 40, 40);
    assert!(cobra.walk(WalkDirection::Up, false));
    assert_eq!(cobra.body.first().unwrap(), &Point::new(40, 4));
}

// Stepping onto a segment beyond the head and the neck is refused: the
// walk returns false and the body is left exactly as it was — and a
// second identical walk fails the same way.
#[test]
fn collision_refuses_move_and_keeps_body() {
    let mut cobra = Snake::new(20, 20, 40, 40);
    assert!(cobra.walk(WalkDirection::Right, true));
    assert!(cobra.walk(WalkDirection::Up, true));
    assert!(cobra.walk(WalkDirection::Left, true));
    // body is now (20,19), (21,19), (21,20), (20,20); Down targets (20,20)
    let before: Vec<Point> = cobra.body.clone();
    assert_eq!(cobra.walk(WalkDirection::Down, false), false);
    assert_eq!(cobra.body, before);
    assert_eq!(cobra.walk(WalkDirection::Down, false), false);
    assert_eq!(cobra.body, before);
}

// A long run of non-growing steps keeps the length constant while the
// head keeps advancing, wrap-around included.
#[test]
fn long_run_without_growth_keeps_length() {
    let mut cobra = Snake::new(20, 20, 40, 40);
    assert!(cobra.walk(WalkDirection::Up, true));
    assert!(cobra.walk(WalkDirection::Up, true));
    assert!(cobra.walk(WalkDirection::Up, true));
    assert_eq!(cobra.body.len(), 4);

    let mut i: u16 = 0;
    while i < 50 {
        assert!(cobra.walk(WalkDirection::Right, false));
        assert_eq!(cobra.body.len(), 4);
        i += 1;
    }
}
