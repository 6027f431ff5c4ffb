use snake_game::food::place_food;
use snake_game::game::Position;

fn pos(x: i32, y: i32) -> Position {
    Position { x, y }
}

#[test]
fn place_food_in_interior_off_body() {
    let body = vec![pos(5, 5), pos(4, 5), pos(3, 5)];
    for _ in 0..50 {
        let p = place_food(&body, 10, 10).unwrap();
        assert!(p.x > 0 && p.x < 9);
        assert!(p.y > 0 && p.y < 9);
        assert!(!body.contains(&p));
    }
}

#[test]
fn place_food_takes_the_last_free_cell() {
    // a 5x5 grid has the nine interior cells (1..=3)x(1..=3); with eight of
    // them taken, only (3,3) can come back
    let body = vec![
        pos(1, 1),
        pos(2, 1),
        pos(3, 1),
        pos(1, 2),
        pos(2, 2),
        pos(3, 2),
        pos(1, 3),
        pos(2, 3),
    ];
    assert_eq!(place_food(&body, 5, 5), Some(pos(3, 3)));
}

#[test]
fn place_food_none_on_a_full_board() {
    // a 4x4 grid has four interior cells; with all of them taken there is
    // nowhere to put food
    let body = vec![pos(1, 1), pos(2, 1), pos(1, 2), pos(2, 2)];
    assert_eq!(place_food(&body, 4, 4), None);
}

#[test]
fn place_food_smallest_grid() {
    // a 3x3 grid has the single interior cell (1,1)
    assert_eq!(place_food(&Vec::new(), 3, 3), Some(pos(1, 1)));
    assert_eq!(place_food(&vec![pos(1, 1)], 3, 3), None);
}
