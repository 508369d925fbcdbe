//! The world model: a bounded grid, a list of decorated objects, the player,
//! and a status line.  Movement, occupancy resolution and world construction
//! live here; random content is drawn through small trusted wrappers and the
//! structure built from it is verified.

use vstd::prelude::*;
use vstd::string::StringExecFns;
use rand::Rng;

use crate::controller::Direction;

verus! {

/// A grid-space coordinate.  Transiently negative values are possible and
/// are treated as invalid for display.
#[derive(Clone, Copy, PartialEq, Eq, Structural, Debug)]
pub struct Point {
    pub x: i32,
    pub y: i32,
}

impl Point {
    /// Componentwise sum of two points.
    pub fn plus(self, rhs: Point) -> (r: Point)
        requires
            i32::MIN <= self.x + rhs.x <= i32::MAX,
            i32::MIN <= self.y + rhs.y <= i32::MAX,
        ensures
            r.x == self.x + rhs.x,
            r.y == self.y + rhs.y,
    {
        Point { x: self.x + rhs.x, y: self.y + rhs.y }
    }
}

/// One decorated object on the grid.  Objects never move and are never
/// removed; stepping onto one only reveals its description.
pub struct Object {
    pub symbol: char,
    pub description: String,
    pub coordinate: Point,
    pub fg_color: u8,
    pub is_kitten: bool,
}

impl Clone for Object {
    fn clone(&self) -> (r: Object)
        ensures
            r == *self,
    {
        Object {
            symbol: self.symbol,
            description: self.description.clone(),
            coordinate: self.coordinate,
            fg_color: self.fg_color,
            is_kitten: self.is_kitten,
        }
    }
}

/// The digit character for one decimal digit.
pub open spec fn digit_char(d: int) -> char {
    if d == 0 {
        '0'
    } else if d == 1 {
        '1'
    } else if d == 2 {
        '2'
    } else if d == 3 {
        '3'
    } else if d == 4 {
        '4'
    } else if d == 5 {
        '5'
    } else if d == 6 {
        '6'
    } else if d == 7 {
        '7'
    } else if d == 8 {
        '8'
    } else {
        '9'
    }
}

/// The decimal rendering, without leading zeros, of a byte-sized number.
pub open spec fn dec_of_u8(n: int) -> Seq<char> {
    if n < 10 {
        seq![digit_char(n)]
    } else if n < 100 {
        seq![digit_char(n / 10), digit_char(n % 10)]
    } else {
        seq![digit_char(n / 100), digit_char((n / 10) % 10), digit_char(n % 10)]
    }
}

/// The ANSI-256 foreground color selector for a palette index: `"5;<n>"`.
pub open spec fn ansi_color_seq(n: int) -> Seq<char> {
    seq!['5', ';'] + dec_of_u8(n)
}

fn digit_str(d: u8) -> (r: &'static str)
    requires
        d <= 9,
    ensures
        r@ =~= seq![digit_char(d as int)],
{
    match d {
        0 => {
            proof {
                reveal_strlit("0");
            }
            "0"
        },
        1 => {
            proof {
                reveal_strlit("1");
            }
            "1"
        },
        2 => {
            proof {
                reveal_strlit("2");
            }
            "2"
        },
        3 => {
            proof {
                reveal_strlit("3");
            }
            "3"
        },
        4 => {
            proof {
                reveal_strlit("4");
            }
            "4"
        },
        5 => {
            proof {
                reveal_strlit("5");
            }
            "5"
        },
        6 => {
            proof {
                reveal_strlit("6");
            }
            "6"
        },
        7 => {
            proof {
                reveal_strlit("7");
            }
            "7"
        },
        8 => {
            proof {
                reveal_strlit("8");
            }
            "8"
        },
        _ => {
            proof {
                reveal_strlit("9");
            }
            "9"
        },
    }
}

impl Object {
    /// The default object: an `&` glyph at (10, 10) with the brightest
    /// palette color, no description, not the goal.
    pub fn new() -> (r: Object)
        ensures
            r.symbol == '&',
            r.description@ =~= Seq::<char>::empty(),
            r.coordinate == (Point { x: 10, y: 10 }),
            r.fg_color == 15,
            !r.is_kitten,
    {
        proof {
            reveal_strlit("");
        }
        Object {
            symbol: '&',
            description: String::from_str(""),
            coordinate: Point { x: 10, y: 10 },
            fg_color: 15,
            is_kitten: false,
        }
    }

    fn ansi_color_str(color: u8) -> (r: String)
        ensures
            r@ =~= ansi_color_seq(color as int),
    {
        let mut s = String::from_str("5;");
        proof {
            reveal_strlit("5;");
        }
        if color >= 100 {
            s.append(digit_str(color / 100));
            s.append(digit_str((color / 10) % 10));
            s.append(digit_str(color % 10));
        } else if color >= 10 {
            s.append(digit_str(color / 10));
            s.append(digit_str(color % 10));
        } else {
            s.append(digit_str(color));
        }
        s
    }

    /// The color selector string for this object's foreground color.
    pub fn fg_ansi_color_str(&self) -> (r: String)
        ensures
            r@ =~= ansi_color_seq(self.fg_color as int),
    {
        Self::ansi_color_str(self.fg_color)
    }
}

/// The controllable entity; its coordinate is the only field that changes
/// during play.
pub struct Player {
    pub object: Object,
}

/// The world: inclusive bounds anchored at (0, 0), the placed objects, the
/// player, and the status line from the most recent blocked move.
pub struct Playground {
    pub square: Point,
    pub objects: Vec<Object>,
    pub player: Player,
    pub status: String,
}

/// The unit displacement of one move.
pub open spec fn unit_vector(dir: Direction) -> Point {
    match dir {
        Direction::Left => Point { x: -1i32, y: 0i32 },
        Direction::Up => Point { x: 0i32, y: -1i32 },
        Direction::Right => Point { x: 1i32, y: 0i32 },
        Direction::Down => Point { x: 0i32, y: 1i32 },
    }
}

/// Whether a point lies within the inclusive rectangle `[0, square]`.
pub open spec fn within_border(square: Point, pt: Point) -> bool {
    0 <= pt.x <= square.x && 0 <= pt.y <= square.y
}

/// The lowest index at or after `i` whose object occupies `pt`, or the
/// sequence length when none does.
pub open spec fn first_hit_from(objects: Seq<Object>, pt: Point, i: int) -> int
    decreases objects.len() - i,
{
    if i < 0 || i >= objects.len() {
        objects.len() as int
    } else if objects[i].coordinate == pt {
        i
    } else {
        first_hit_from(objects, pt, i + 1)
    }
}

/// The first object in insertion order occupying `pt`, as an index; the
/// sequence length when the cell is free.
pub open spec fn first_hit_index(objects: Seq<Object>, pt: Point) -> int {
    first_hit_from(objects, pt, 0)
}

/// The cell the player would move to.
pub open spec fn target_of(pg: Playground, dir: Direction) -> Point {
    Point {
        x: (pg.player.object.coordinate.x + unit_vector(dir).x) as i32,
        y: (pg.player.object.coordinate.y + unit_vector(dir).y) as i32,
    }
}

/// The full effect of one move: the world afterwards and the encountered
/// object, if any.  A target outside the border leaves everything unchanged;
/// an occupied target blocks the move and sets the status line to the first
/// occupant's description; a free target moves the player.
pub open spec fn spec_move(pg: Playground, dir: Direction) -> (Playground, Option<Object>) {
    let target = target_of(pg, dir);
    if !within_border(pg.square, target) {
        (pg, None)
    } else {
        let k = first_hit_index(pg.objects@, target);
        if k < pg.objects@.len() {
            (Playground { status: pg.objects@[k].description, ..pg }, Some(pg.objects@[k]))
        } else {
            (
                Playground {
                    player: Player { object: Object { coordinate: target, ..pg.player.object } },
                    ..pg
                },
                None,
            )
        }
    }
}

impl Playground {
    /// Well-formedness: bounds at least 2 on each axis and small enough for
    /// the area computation, player within the inclusive border.
    pub open spec fn wf(self) -> bool {
        &&& 2 <= self.square.x
        &&& 2 <= self.square.y
        &&& self.square.x * self.square.y <= i32::MAX
        &&& within_border(self.square, self.player.object.coordinate)
    }

    /// Builds the world: the player at the center, `area / 50` random
    /// objects strictly inside the border ring, then one more random object
    /// promoted to the goal with the fixed label.
    pub fn new(square: Point) -> (pg: Playground)
        requires
            2 <= square.x,
            2 <= square.y,
            square.x * square.y <= i32::MAX,
        ensures
            pg.wf(),
            pg.square == square,
            pg.player.object.coordinate == (Point { x: (square.x / 2) as i32, y: (square.y / 2) as i32 }),
            pg.player.object.symbol == '#',
            pg.player.object.fg_color == 15,
            !pg.player.object.is_kitten,
            pg.status@ =~= Seq::<char>::empty(),
            pg.objects@.len() == square.x * square.y / 50 + 1,
            forall|i: int|
                0 <= i < pg.objects@.len() ==> 1 <= #[trigger] pg.objects@[i].coordinate.x
                    <= square.x - 1 && 1 <= pg.objects@[i].coordinate.y <= square.y - 1,
            forall|i: int| 0 <= i < pg.objects@.len() - 1 ==> !(#[trigger] pg.objects@[i].is_kitten),
            pg.objects@[pg.objects@.len() - 1].is_kitten,
            pg.objects@[pg.objects@.len() - 1].description@ =~= "Kitten!"@,
    {
        let mut player_object = Object::new();
        player_object.coordinate = Point { x: square.x / 2, y: square.y / 2 };
        player_object.symbol = '#';
        player_object.fg_color = 15;

        let mut pg = Playground {
            square,
            objects: Vec::new(),
            player: Player { object: player_object },
            status: String::new(),
        };

        let obj_count = (pg.square.x * pg.square.y) / 50;
        let mut n: i32 = 0;
        while n < obj_count
            invariant
                0 <= n <= obj_count,
                obj_count == square.x * square.y / 50,
                pg.square == square,
                2 <= square.x,
                2 <= square.y,
                square.x * square.y <= i32::MAX,
                pg.player.object.coordinate == (Point {
                    x: (square.x / 2) as i32,
                    y: (square.y / 2) as i32,
                }),
                pg.player.object.symbol == '#',
                pg.player.object.fg_color == 15,
                !pg.player.object.is_kitten,
                pg.status@ =~= Seq::<char>::empty(),
                pg.objects@.len() == n,
                forall|i: int|
                    0 <= i < pg.objects@.len() ==> 1 <= #[trigger] pg.objects@[i].coordinate.x
                        <= square.x - 1 && 1 <= pg.objects@[i].coordinate.y <= square.y - 1,
                forall|i: int| 0 <= i < pg.objects@.len() ==> !(#[trigger] pg.objects@[i].is_kitten),
            decreases obj_count - n,
        {
            let obj = pg.generate_random_object();
            pg.objects.push(obj);
            n = n + 1;
        }

        let mut kitten = pg.generate_random_object();
        kitten.is_kitten = true;
        kitten.description = String::from_str("Kitten!");
        proof {
            reveal_strlit("Kitten!");
        }
        pg.objects.push(kitten);

        pg
    }

    /// One random object: coordinate uniform in `[1, square - 1]` on each
    /// axis, a random printable symbol, a random palette color, and a random
    /// entry of the description table.  Never the goal.
    fn generate_random_object(&self) -> (r: Object)
        requires
            2 <= self.square.x,
            2 <= self.square.y,
        ensures
            1 <= r.coordinate.x <= self.square.x - 1,
            1 <= r.coordinate.y <= self.square.y - 1,
            0x21 <= r.symbol as u32 <= 0x7e,
            1 <= r.fg_color <= 15,
            !r.is_kitten,
    {
        let mut result = Object::new();
        result.coordinate.x = random_i32_in(1, self.square.x);
        result.coordinate.y = random_i32_in(1, self.square.y);
        // The symbol range includes '#', so an object may share the player's glyph.
        result.symbol = random_symbol_char();
        result.fg_color = random_i32_in(1, 16) as u8;
        result.description = description_text(random_i32_in(1, DESCRIPTION_COUNT));
        result
    }

    /// Whether `pt` lies within the inclusive playing rectangle.
    pub fn is_within_border(&self, pt: &Point) -> (r: bool)
        ensures
            r == within_border(self.square, *pt),
    {
        pt.x >= 0 && pt.x <= self.square.x && pt.y >= 0 && pt.y <= self.square.y
    }

    /// The first object in insertion order occupying `pt`, copied out, or
    /// `None` when the cell is free.
    pub fn check_object(&self, pt: &Point) -> (r: Option<Object>)
        ensures
            ({
                let k = first_hit_index(self.objects@, *pt);
                if k < self.objects@.len() {
                    r == Some(self.objects@[k])
                } else {
                    r is None
                }
            }),
    {
        let n = self.objects.len();
        let mut i: usize = 0;
        while i < n
            invariant
                0 <= i <= n,
                n == self.objects@.len(),
                first_hit_from(self.objects@, *pt, 0) == first_hit_from(self.objects@, *pt, i as int),
            decreases n - i,
        {
            let obj = &self.objects[i];
            if obj.coordinate == *pt {
                return Some(obj.clone());
            }
            i = i + 1;
        }
        None
    }

    /// Applies one directional move, exactly as `spec_move` describes: a
    /// rejected or blocked move leaves the player in place, and an accepted
    /// move lands on exactly the adjacent target cell.
    pub fn move_player(&mut self, dir: Direction) -> (r: Option<Object>)
        requires
            old(self).wf(),
        ensures
            final(self).wf(),
            *final(self) == spec_move(*old(self), dir).0,
            r == spec_move(*old(self), dir).1,
            final(self).player.object.coordinate == old(self).player.object.coordinate
                || final(self).player.object.coordinate == target_of(*old(self), dir),
    {
        let move_vector = match dir {
            Direction::Left => Point { x: -1, y: 0 },
            Direction::Up => Point { x: 0, y: -1 },
            Direction::Right => Point { x: 1, y: 0 },
            Direction::Down => Point { x: 0, y: 1 },
        };
        proof {
            assert(self.square.x < i32::MAX && self.square.y < i32::MAX) by (nonlinear_arith)
                requires
                    2 <= self.square.x,
                    2 <= self.square.y,
                    self.square.x * self.square.y <= i32::MAX,
            ;
        }
        let target_point = self.player.object.coordinate.plus(move_vector);

        if !self.is_within_border(&target_point) {
            return None;
        }
        let obj_opt = self.check_object(&target_point);
        match &obj_opt {
            Some(obj) => {
                self.status = obj.description.clone();
            },
            None => {
                self.player.object.coordinate = target_point;
            },
        }
        obj_opt
    }
}

/// How many entries the description table has; valid random indices are
/// `1 ..= DESCRIPTION_COUNT - 1`, leaving index 0 unused.
pub const DESCRIPTION_COUNT: i32 = 8;

/// The fixed flavor-text table for non-goal objects.
fn description_text(i: i32) -> (r: String) {
    match i {
        1 => String::from_str("A tin of expired sardines."),
        2 => String::from_str("An abandoned sock puppet."),
        3 => String::from_str("A pile of yesterday's newspapers."),
        4 => String::from_str("A slightly dented teapot."),
        5 => String::from_str("A map of somewhere else entirely."),
        6 => String::from_str("A rubber duck, staring back."),
        7 => String::from_str("A half-finished crossword puzzle."),
        _ => String::from_str("Nothing of interest."),
    }
}

/// Law: a move whose target lies within the border either leaves the player
/// in place (exactly when the target cell is occupied) or lands it on
/// exactly the adjacent target cell — never anywhere else.
pub proof fn lemma_move_one_cell(pg: Playground, dir: Direction)
    requires
        within_border(pg.square, target_of(pg, dir)),
    ensures
        first_hit_index(pg.objects@, target_of(pg, dir)) < pg.objects@.len() ==> spec_move(
            pg,
            dir,
        ).0.player == pg.player,
        first_hit_index(pg.objects@, target_of(pg, dir)) == pg.objects@.len() ==> spec_move(
            pg,
            dir,
        ).0.player.object.coordinate == target_of(pg, dir),
{
}

/// Law: a move whose target falls outside the inclusive border is a no-op:
/// the whole world is unchanged and nothing is found.
pub proof fn lemma_move_rejected_outside(pg: Playground, dir: Direction)
    requires
        !within_border(pg.square, target_of(pg, dir)),
    ensures
        spec_move(pg, dir).0 == pg,
        spec_move(pg, dir).1 is None,
{
}

/// Relies on `rand::Rng::gen_range` over the half-open `i32` range
/// `lo..hi`: the sample lies in `[lo, hi)`; the range must be non-empty,
/// since `gen_range` panics on an empty range.
#[verifier::external_body]
fn random_i32_in(lo: i32, hi: i32) -> (r: i32)
    requires
        lo < hi,
    ensures
        lo <= r < hi,
{
    rand::thread_rng().gen_range(lo..hi)
}

/// Relies on `rand::Rng::gen_range` over the inclusive char range
/// `'!'..='~'`: the sample is one of those printable ASCII characters.
#[verifier::external_body]
fn random_symbol_char() -> (r: char)
    ensures
        0x21 <= r as u32 <= 0x7e,
{
    rand::thread_rng().gen_range('!'..='~')
}

} // verus!
