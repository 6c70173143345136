use tower_takedown::entities::{Actor, Character, Enemy};
use tower_takedown::game::{Game, Turn, TURN_INTERVAL_MS};
use tower_takedown::geometry::{Point, Rect};
use tower_takedown::grid::HexGrid;
use tower_takedown::ui::{Clickable, UIButton, UIMenu, HUD};

fn button(y: i64, text: &str) -> UIButton {
    UIButton { rect: Rect::new(50, y, 200, 50), text: text.to_string(), font_size: 48, toggle: false }
}

fn new_game() -> Game {
    let map = HexGrid::new(Point::new(400, 300), 3, vec![9; 5]);
    let hero = Character { posx: 2, posy: 3, hex: map.grid[3][2], sprite: 0 };
    Game {
        map,
        entities: vec![Actor::Character(hero)],
        ui: vec![button(125, "Reset")],
        select: 0,
        turn: Turn::Player,
    }
}

fn hero(g: &Game) -> Character {
    match g.entities[g.select] {
        Actor::Character(c) => c,
        Actor::Enemy(_) => panic!("selected piece is not the character"),
    }
}

#[test]
fn button_press_flips_state() {
    let mut b = button(50, "Menu");
    b.press();
    assert!(b.toggle);
    b.press();
    assert!(!b.toggle);
    assert_eq!(b.text, "Menu");
}

#[test]
fn button_click_inside_and_outside() {
    let mut b = button(50, "Menu");
    b.process_click(Point::new(10, 10));
    assert!(!b.toggle);
    b.process_click(Point::new(60, 60));
    assert!(b.toggle);
    b.process_click(Point::new(250, 60));
    assert!(b.toggle);
}

#[test]
fn click_on_cell_moves_selected_piece() {
    let mut g = new_game();
    let target = g.map.grid[1][4];
    g.process_input(Some(target.pos));
    let c = hero(&g);
    assert_eq!((c.posx, c.posy), (4, 1));
    assert_eq!(c.hex, target);
    assert!(!g.ui[0].toggle);
}

#[test]
fn click_on_button_presses_it_and_leaves_piece() {
    let mut g = new_game();
    g.process_input(Some(Point::new(100, 150)));
    assert!(g.ui[0].toggle);
    let c = hero(&g);
    assert_eq!((c.posx, c.posy), (2, 3));
}

#[test]
fn no_click_changes_nothing() {
    let mut g = new_game();
    g.process_input(None);
    assert!(!g.ui[0].toggle);
    assert_eq!((hero(&g).posx, hero(&g).posy), (2, 3));
}

#[test]
fn ai_phase_leaves_the_game_as_it_is() {
    let mut g = new_game();
    g.spawn_entity(Actor::Enemy(Enemy { posx: 0, posy: 0, hex: g.map.grid[0][0], sprite: 1 }));
    let before = g.entities.clone();
    g.process_ai();
    assert_eq!(g.entities, before);
}

#[test]
fn spawn_appends_a_piece() {
    let mut g = new_game();
    let e = Actor::Enemy(Enemy { posx: 1, posy: 0, hex: g.map.grid[0][1], sprite: 1 });
    g.spawn_entity(e);
    assert_eq!(g.entities.len(), 2);
    assert_eq!(g.entities[1], e);
    assert_eq!(g.select, 0);
}

#[test]
fn turn_waits_for_the_interval() {
    let mut g = new_game();
    let target = g.map.grid[0][0];
    assert!(!g.run_turn(TURN_INTERVAL_MS, Some(target.pos)));
    assert_eq!((hero(&g).posx, hero(&g).posy), (2, 3));
    assert!(g.run_turn(1501, Some(target.pos)));
    assert_eq!((hero(&g).posx, hero(&g).posy), (0, 0));
}

#[test]
fn ai_turn_ignores_clicks() {
    let mut g = new_game();
    g.turn = Turn::AI;
    let target = g.map.grid[0][0];
    assert!(g.run_turn(2000, Some(target.pos)));
    assert_eq!((hero(&g).posx, hero(&g).posy), (2, 3));
    assert_eq!(g.turn, Turn::AI);
}

#[test]
fn menu_and_hud_hold_their_layout() {
    let menu = UIMenu { rect: Rect::new(0, 0, 300, 400), buttons: vec![button(50, "Menu"), button(125, "Reset")] };
    assert_eq!(menu.buttons.len(), 2);
    let hud = HUD { rect: Rect::new(0, 0, 100, 20) };
    assert_eq!(hud.rect.w, 100);
}
