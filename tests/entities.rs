use tower_takedown::entities::{target_cell, Actor, Character, Enemy, Entity};
use tower_takedown::geometry::Point;
use tower_takedown::grid::{Direction, HexGrid};

fn grid3() -> HexGrid {
    HexGrid::new(Point::new(400, 300), 3, vec![0; 5])
}

fn character_at(map: &HexGrid, x: i8, y: i8) -> Character {
    Character { posx: x, posy: y, hex: map.grid[y as usize][x as usize], sprite: 0 }
}

#[test]
fn move_within_grid_then_rejected_at_edge() {
    let map = grid3();
    let mut c = character_at(&map, 2, 3);
    c.move_on_map(1, 1, &map);
    assert_eq!((c.posx, c.posy), (3, 4));
    assert_eq!(c.hex, map.grid[4][3]);
    c.move_on_map(1, 1, &map);
    assert_eq!((c.posx, c.posy), (3, 4));
    assert_eq!(c.hex, map.grid[4][3]);
}

#[test]
fn in_bounds_move_updates_coordinates_and_cell() {
    let map = grid3();
    let mut c = character_at(&map, 0, 0);
    c.move_on_map(4, 2, &map);
    assert_eq!((c.posx, c.posy), (4, 2));
    assert_eq!(c.hex, map.grid[2][4]);
    assert_eq!(c.sprite, 0);
    c.move_on_map(-4, -2, &map);
    assert_eq!((c.posx, c.posy), (0, 0));
    assert_eq!(c.hex, map.grid[0][0]);
}

#[test]
fn out_of_bounds_moves_change_nothing() {
    let map = grid3();
    let start = character_at(&map, 0, 4);
    for (dx, dy) in [(-1, 0), (0, 1), (5, 0), (0, -5), (127, 127), (-128, -128)] {
        let mut c = start;
        c.move_on_map(dx, dy, &map);
        assert_eq!(c, start);
        c.move_on_map(dx, dy, &map);
        assert_eq!(c, start);
    }
}

#[test]
fn enemy_moves_like_character() {
    let map = grid3();
    let mut e = Enemy { posx: 1, posy: 1, hex: map.grid[1][1], sprite: 7 };
    e.move_on_map(2, 0, &map);
    assert_eq!((e.posx, e.posy), (3, 1));
    assert_eq!(e.hex, map.grid[1][3]);
    assert_eq!(e.sprite, 7);
    e.move_on_map(2, 0, &map);
    assert_eq!((e.posx, e.posy), (3, 1));
}

#[test]
fn move_to_hex_jumps_anywhere() {
    let map = HexGrid::new(Point::new(0, 0), 5, vec![9; 9]);
    let mut c = character_at(&map, 0, 0);
    c.move_to_hex(&map.grid[8][7]);
    assert_eq!((c.posx, c.posy), (7, 8));
    assert_eq!(c.hex, map.grid[8][7]);
    c.move_to_hex(&map.grid[0][0]);
    assert_eq!((c.posx, c.posy), (0, 0));
    assert_eq!(c.hex, map.grid[0][0]);
}

#[test]
fn move_direction_scales_by_distance() {
    let map = grid3();
    let mut c = character_at(&map, 2, 2);
    c.move_direction(Direction::DownRight, 2, &map);
    assert_eq!((c.posx, c.posy), (4, 4));
    c.move_direction(Direction::UpLeft, 3, &map);
    assert_eq!((c.posx, c.posy), (1, 1));
    c.move_direction(Direction::UpRight, 1, &map);
    assert_eq!((c.posx, c.posy), (1, 0));
    c.move_direction(Direction::UpRight, 1, &map);
    assert_eq!((c.posx, c.posy), (1, 0));
    c.move_direction(Direction::Right, -1, &map);
    assert_eq!((c.posx, c.posy), (0, 0));
    c.move_direction(Direction::DownLeft, 4, &map);
    assert_eq!((c.posx, c.posy), (0, 4));
    c.move_direction(Direction::Left, 1, &map);
    assert_eq!((c.posx, c.posy), (0, 4));
    assert_eq!(c.hex, map.grid[4][0]);
}

#[test]
fn actor_dispatches_to_its_piece() {
    let map = grid3();
    let mut a = Actor::Character(character_at(&map, 2, 3));
    a.move_on_map(1, 1, &map);
    match a {
        Actor::Character(c) => assert_eq!((c.posx, c.posy), (3, 4)),
        Actor::Enemy(_) => panic!("variant changed"),
    }
    assert!(!a.needs_updating());
}

#[test]
fn target_cell_checks_both_axes() {
    let map = grid3();
    assert_eq!(target_cell(&map, 2, 3, 1, 1), Some((3, 4)));
    assert_eq!(target_cell(&map, 3, 4, 1, 1), None);
    assert_eq!(target_cell(&map, 0, 0, -1, 0), None);
    assert_eq!(target_cell(&map, 0, 0, 0, -1), None);
    assert_eq!(target_cell(&map, 127, 127, 127, 127), None);
}

#[test]
fn click_on_a_cell_moves_the_piece_there() {
    let map = grid3();
    let mut c = character_at(&map, 0, 0);
    let target = map.grid[2][3];
    map.process_click(Point::new(target.pos.x + 10, target.pos.y - 10), &mut c);
    assert_eq!((c.posx, c.posy), (3, 2));
    assert_eq!(c.hex, target);
}

#[test]
fn click_between_cells_moves_nothing() {
    let map = grid3();
    let start = character_at(&map, 1, 1);
    let mut c = start;
    map.process_click(Point::new(-10_000, -10_000), &mut c);
    assert_eq!(c, start);
}

#[test]
fn hex_click_outside_radius_is_ignored() {
    let map = grid3();
    let start = character_at(&map, 1, 1);
    let mut c = start;
    let h = map.grid[0][0];
    h.process_click(Point::new(h.pos.x + 36, h.pos.y), &mut c);
    assert_eq!(c, start);
    h.process_click(Point::new(h.pos.x + 35, h.pos.y), &mut c);
    assert_eq!((c.posx, c.posy), (0, 0));
}
