use kitten_grid::gui::{Command, DisplayPoint, RenderError, GUI};
use kitten_grid::playground::{Object, Player, Playground, Point};

fn world(square: Point, player_at: Point, objects: Vec<Object>) -> Playground {
    Playground {
        square,
        objects,
        player: Player {
            object: Object {
                symbol: '#',
                description: String::new(),
                coordinate: player_at,
                fg_color: 15,
                is_kitten: false,
            },
        },
        status: String::new(),
    }
}

#[test]
fn engine_setup() {
    let pg = world(Point { x: 40, y: 20 }, Point { x: 20, y: 10 }, vec![]);
    let gui = GUI::new(&pg);
    assert_eq!(gui.border, DisplayPoint { x: 42, y: 22 });
    assert_eq!(gui.header_height, 3);
    assert_eq!(gui.prev_player_pos, DisplayPoint { x: 1, y: 1 });
    assert_eq!(gui.top_string, "Use 'hjkl' to move; 'q' to quit");
}

#[test]
fn render_full_is_idempotent() {
    let mut pg = Playground::new(Point { x: 40, y: 20 });
    pg.status = String::from("A rubber duck, staring back.");
    let gui = GUI::new(&pg);
    let first = gui.show(&pg).expect("a well-formed world renders");
    let second = gui.show(&pg).expect("a well-formed world renders");
    assert_eq!(first, second);
}

#[test]
fn full_render_structure() {
    let pg = world(Point { x: 2, y: 2 }, Point { x: 1, y: 1 }, vec![]);
    let gui = GUI::new(&pg);
    let cmds = gui.show(&pg).unwrap();
    // The frame starts by clearing the screen.
    assert_eq!(cmds[0], Command::ClearAll);
    // The border of a (4, 4) display rectangle with 3 header rows: rows
    // 0, 3 and 7 fully starred (5 cells each), rows 1, 2, 4, 5, 6 starred
    // at both ends (2 cells each): 25 cells, two commands per cell.
    let stars = cmds
        .iter()
        .filter(|c| matches!(c, Command::PrintGreen('*')))
        .count();
    // 25 border stars plus one at each end of the two header lines with
    // short text: the instruction line is longer than the border width, so
    // it gets only the left star; the empty status line gets both.
    assert_eq!(stars, 25 + 1 + 2);
    // The player is drawn at display position (1 + 1, 1 + 1 + 3).
    assert!(cmds
        .windows(2)
        .any(|w| w[0] == Command::MoveTo(2, 5) && w[1] == Command::PrintColored('#', 15)));
    // The cursor parks below the playfield.
    assert_eq!(cmds.last().unwrap(), &Command::MoveTo(0, 8));
}

#[test]
fn incremental_redraw_exact_commands() {
    let pg = world(Point { x: 2, y: 2 }, Point { x: 1, y: 1 }, vec![]);
    let gui = GUI::new(&pg);
    let cmds = gui.draw_updates(&pg).unwrap();
    let expected = vec![
        // Blank the previous player cell.
        Command::MoveTo(1, 1),
        Command::PrintChar(' '),
        // Redraw the player at its display position.
        Command::MoveTo(2, 5),
        Command::PrintColored('#', 15),
        // The instruction line: longer than the border width, no right star.
        Command::MoveTo(0, 1),
        Command::ClearCurrentLine,
        Command::PrintGreen('*'),
        Command::MoveTo(2, 1),
        Command::PrintText(String::from("Use 'hjkl' to move; 'q' to quit")),
        // The status line: empty, so the right border star is redrawn.
        Command::MoveTo(0, 2),
        Command::ClearCurrentLine,
        Command::PrintGreen('*'),
        Command::MoveTo(2, 2),
        Command::PrintText(String::new()),
        Command::MoveTo(4, 2),
        Command::PrintGreen('*'),
        // Park the cursor below the playfield.
        Command::MoveTo(0, 8),
    ];
    assert_eq!(cmds, expected);
}

#[test]
fn negative_coordinate_is_a_render_error() {
    let pg = world(Point { x: 10, y: 10 }, Point { x: -1, y: 2 }, vec![]);
    let gui = GUI::new(&pg);
    assert_eq!(gui.draw_updates(&pg), Err(RenderError::NegativePoint));
    assert_eq!(gui.show(&pg), Err(RenderError::NegativePoint));

    let bad_object = Object {
        symbol: '&',
        description: String::new(),
        coordinate: Point { x: 3, y: -2 },
        fg_color: 7,
        is_kitten: false,
    };
    let pg = world(Point { x: 10, y: 10 }, Point { x: 5, y: 5 }, vec![bad_object]);
    assert_eq!(gui.show(&pg), Err(RenderError::NegativePoint));
    // Only the full render draws objects, so the incremental path succeeds.
    assert!(gui.draw_updates(&pg).is_ok());

    assert_eq!(RenderError::NegativePoint.message(), "Negative point to display");
}

#[test]
fn display_round_trip() {
    let pg = world(Point { x: 40, y: 20 }, Point { x: 20, y: 10 }, vec![]);
    let mut gui = GUI::new(&pg);
    gui.remember_player_position(&Point { x: 5, y: 7 });
    assert_eq!(gui.prev_player_pos, DisplayPoint { x: 6, y: 11 });
    // Subtracting the fixed offsets recovers the grid coordinate exactly.
    assert_eq!(gui.prev_player_pos.x as i32 - 1, 5);
    assert_eq!(gui.prev_player_pos.y as i32 - 1 - gui.header_height as i32, 7);
}

#[test]
fn meeting_paddings() {
    assert_eq!(GUI::compose_meeting_paddings(2, 5), (String::from("  "), String::from("   ")));
    assert_eq!(GUI::compose_meeting_paddings(0, 3), (String::new(), String::from("   ")));
    assert_eq!(GUI::compose_meeting_paddings(4, 4), (String::from("    "), String::new()));
}

#[test]
fn meeting_animation_frames() {
    let pg = world(Point { x: 40, y: 20 }, Point { x: 20, y: 10 }, vec![]);
    let gui = GUI::new(&pg);
    let kitten = Object {
        symbol: 'K',
        description: String::from("Kitten!"),
        coordinate: Point { x: 12, y: 7 },
        fg_color: 3,
        is_kitten: true,
    };
    let frames = gui.show_meeting_animation(&kitten);
    assert_eq!(frames.len(), 5);
    let expected_first = vec![
        Command::MoveTo(2, 2),
        Command::PrintSpaces(1),
        Command::PrintChar('#'),
        Command::PrintSpaces(4),
        Command::PrintSpaces(4),
        Command::PrintColored('K', 3),
        Command::PrintSpaces(1),
        Command::MoveTo(0, 26),
    ];
    assert_eq!(frames[0], expected_first);
    let expected_last = vec![
        Command::MoveTo(2, 2),
        Command::PrintSpaces(5),
        Command::PrintChar('#'),
        Command::PrintSpaces(0),
        Command::PrintSpaces(0),
        Command::PrintColored('K', 3),
        Command::PrintSpaces(5),
        Command::MoveTo(0, 26),
    ];
    assert_eq!(frames[4], expected_last);
}
