use kitten_grid::controller::Direction;
use kitten_grid::playground::{Object, Player, Playground, Point};

fn object_at(x: i32, y: i32, description: &str, is_kitten: bool) -> Object {
    Object {
        symbol: '&',
        description: String::from(description),
        coordinate: Point { x, y },
        fg_color: 7,
        is_kitten,
    }
}

fn world(square: Point, player_at: Point, objects: Vec<Object>) -> Playground {
    Playground {
        square,
        objects,
        player: Player {
            object: Object {
                symbol: '#',
                description: String::new(),
                coordinate: player_at,
                fg_color: 15,
                is_kitten: false,
            },
        },
        status: String::new(),
    }
}

#[test]
fn construction_structure() {
    let pg = Playground::new(Point { x: 40, y: 20 });
    assert_eq!(pg.square, Point { x: 40, y: 20 });
    assert_eq!(pg.player.object.coordinate, Point { x: 20, y: 10 });
    assert_eq!(pg.player.object.symbol, '#');
    assert_eq!(pg.player.object.fg_color, 15);
    assert_eq!(pg.status, "");
    // 40 * 20 / 50 random objects, plus the goal.
    assert_eq!(pg.objects.len(), 17);
    let goals = pg.objects.iter().filter(|o| o.is_kitten).count();
    assert_eq!(goals, 1);
    let last = pg.objects.last().unwrap();
    assert!(last.is_kitten);
    assert_eq!(last.description, "Kitten!");
    for obj in pg.objects.iter() {
        assert!(1 <= obj.coordinate.x && obj.coordinate.x <= 39);
        assert!(1 <= obj.coordinate.y && obj.coordinate.y <= 19);
        let c = obj.symbol as u32;
        assert!(0x21 <= c && c <= 0x7e);
        assert!(1 <= obj.fg_color && obj.fg_color <= 15);
    }
}

#[test]
fn construction_small_world() {
    let pg = Playground::new(Point { x: 2, y: 2 });
    // 2 * 2 / 50 == 0 random objects: only the goal remains.
    assert_eq!(pg.objects.len(), 1);
    assert!(pg.objects[0].is_kitten);
    assert_eq!(pg.objects[0].coordinate, Point { x: 1, y: 1 });
    assert_eq!(pg.player.object.coordinate, Point { x: 1, y: 1 });
}

#[test]
fn moves_sequence_lands_exactly() {
    // bounds (40, 20), player at the center, no objects anywhere:
    // [Up, Up, Left] ends at (19, 8).
    let mut pg = world(Point { x: 40, y: 20 }, Point { x: 20, y: 10 }, vec![]);
    assert!(pg.move_player(Direction::Up).is_none());
    assert_eq!(pg.player.object.coordinate, Point { x: 20, y: 9 });
    assert!(pg.move_player(Direction::Up).is_none());
    assert_eq!(pg.player.object.coordinate, Point { x: 20, y: 8 });
    assert!(pg.move_player(Direction::Left).is_none());
    assert_eq!(pg.player.object.coordinate, Point { x: 19, y: 8 });
}

#[test]
fn move_rejected_at_left_edge() {
    // x would become -1: nothing changes, nothing is found.
    let mut pg = world(Point { x: 40, y: 20 }, Point { x: 0, y: 5 }, vec![]);
    pg.status = String::from("untouched");
    let found = pg.move_player(Direction::Left);
    assert!(found.is_none());
    assert_eq!(pg.player.object.coordinate, Point { x: 0, y: 5 });
    assert_eq!(pg.status, "untouched");
}

#[test]
fn move_rejected_on_every_edge() {
    let square = Point { x: 4, y: 3 };
    let mut pg = world(square, Point { x: 0, y: 0 }, vec![]);
    assert!(pg.move_player(Direction::Up).is_none());
    assert_eq!(pg.player.object.coordinate, Point { x: 0, y: 0 });
    assert!(pg.move_player(Direction::Left).is_none());
    assert_eq!(pg.player.object.coordinate, Point { x: 0, y: 0 });

    let mut pg = world(square, Point { x: 4, y: 3 }, vec![]);
    assert!(pg.move_player(Direction::Right).is_none());
    assert_eq!(pg.player.object.coordinate, Point { x: 4, y: 3 });
    assert!(pg.move_player(Direction::Down).is_none());
    assert_eq!(pg.player.object.coordinate, Point { x: 4, y: 3 });

    // Moving onto the border line itself is allowed: the border is inclusive.
    let mut pg = world(square, Point { x: 3, y: 3 }, vec![]);
    assert!(pg.move_player(Direction::Right).is_none());
    assert_eq!(pg.player.object.coordinate, Point { x: 4, y: 3 });
}

#[test]
fn blocked_move_reports_object_and_sets_status() {
    let obj = object_at(12, 7, "A slightly dented teapot.", false);
    let mut pg = world(Point { x: 40, y: 20 }, Point { x: 11, y: 7 }, vec![obj]);
    let found = pg.move_player(Direction::Right);
    let found = found.expect("the occupied cell must report its object");
    assert_eq!(found.description, "A slightly dented teapot.");
    assert!(!found.is_kitten);
    // The player did not pass through, and the status line was updated.
    assert_eq!(pg.player.object.coordinate, Point { x: 11, y: 7 });
    assert_eq!(pg.status, "A slightly dented teapot.");
    // The object itself stays on the grid: stepping again re-triggers it.
    let again = pg.move_player(Direction::Right);
    assert!(again.is_some());
    assert_eq!(pg.player.object.coordinate, Point { x: 11, y: 7 });
}

#[test]
fn first_object_in_insertion_order_wins() {
    let first = object_at(5, 5, "first", false);
    let second = object_at(5, 5, "second", true);
    let mut pg = world(Point { x: 10, y: 10 }, Point { x: 4, y: 5 }, vec![first, second]);
    let found = pg.move_player(Direction::Right).unwrap();
    assert_eq!(found.description, "first");
    assert!(!found.is_kitten);
    assert_eq!(pg.status, "first");
}

#[test]
fn ansi_color_strings() {
    let mut obj = object_at(1, 1, "", false);
    obj.fg_color = 15;
    assert_eq!(obj.fg_ansi_color_str(), "5;15");
    obj.fg_color = 7;
    assert_eq!(obj.fg_ansi_color_str(), "5;7");
    obj.fg_color = 0;
    assert_eq!(obj.fg_ansi_color_str(), "5;0");
    obj.fg_color = 215;
    assert_eq!(obj.fg_ansi_color_str(), "5;215");
    obj.fg_color = 100;
    assert_eq!(obj.fg_ansi_color_str(), "5;100");
}
