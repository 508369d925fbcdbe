//! The render engine, as a planner: every draw operation is computed here as
//! a sequence of terminal commands, exactly the writes the original screen
//! update performs, and an unverified shell interprets them against the real
//! terminal.  The full render, the incremental update and the goal animation
//! are all deterministic functions of the engine state and the world.

use vstd::prelude::*;
use vstd::string::StrSliceExecFns;
use vstd::string::StringExecFns;

use crate::playground::{Object, Playground, Point};

verus! {

/// A screen-space coordinate: column `x`, row `y`, origin top-left.
#[derive(Clone, Copy, PartialEq, Eq, Structural, Debug)]
pub struct DisplayPoint {
    pub x: u16,
    pub y: u16,
}

impl DisplayPoint {
    /// A grid point is displayable only when both components are
    /// non-negative.
    pub fn from(pt: &Point) -> (r: Option<DisplayPoint>)
        requires
            pt.x <= u16::MAX,
            pt.y <= u16::MAX,
        ensures
            match r {
                Some(dp) => pt.x >= 0 && pt.y >= 0 && dp.x == pt.x && dp.y == pt.y,
                None => pt.x < 0 || pt.y < 0,
            },
    {
        if pt.x < 0 || pt.y < 0 {
            None
        } else {
            Some(DisplayPoint { x: pt.x as u16, y: pt.y as u16 })
        }
    }
}

/// One terminal operation.  The unverified shell interprets these in order:
/// cursor movement, screen and line clearing, and styled or plain output.
#[derive(PartialEq, Eq, Debug)]
pub enum Command {
    /// Move the cursor to (column, row).
    MoveTo(u16, u16),
    /// Clear the whole screen.
    ClearAll,
    /// Clear the line the cursor is on.
    ClearCurrentLine,
    /// Print one character styled with an ANSI-256 foreground color index.
    PrintColored(char, u8),
    /// Print one character styled green (the border and frame decoration).
    PrintGreen(char),
    /// Print one plain character.
    PrintChar(char),
    /// Print that many blanks.
    PrintSpaces(u16),
    /// Print a plain string.
    PrintText(String),
}

/// The one render-time invariant violation: a coordinate that converts to a
/// negative display coordinate.
#[derive(Clone, Copy, PartialEq, Eq, Structural, Debug)]
pub enum RenderError {
    NegativePoint,
}

impl RenderError {
    /// A short description of the violation, for the fatal error path.
    pub fn message(&self) -> (r: &'static str)
        ensures
            r@ =~= "Negative point to display"@,
    {
        proof {
            reveal_strlit("Negative point to display");
        }
        "Negative point to display"
    }
}

/// The render engine state: the fixed header height reserved above the
/// playfield, the fixed instruction line, the player's previous display
/// position (the cell an incremental redraw blanks), and the border
/// rectangle's lower-right corner in display space.
pub struct GUI {
    pub header_height: u16,
    pub top_string: String,
    pub prev_player_pos: DisplayPoint,
    pub border: DisplayPoint,
}

/// The display coordinate of a grid point: one column in for the border,
/// one row down past the border below the header rows.
pub open spec fn display_of(g: GUI, pt: Point) -> (int, int) {
    (pt.x + 1, pt.y + 1 + g.header_height)
}

/// The commands that draw one object at its display position.
pub open spec fn object_cmds(g: GUI, o: Object) -> Seq<Command> {
    seq![
        Command::MoveTo(display_of(g, o.coordinate).0 as u16, display_of(g, o.coordinate).1 as u16),
        Command::PrintColored(o.symbol, o.fg_color),
    ]
}

/// The commands that draw every object of `objs` from index `i` on, in
/// insertion order.
pub open spec fn objects_cmds_from(g: GUI, objs: Seq<Object>, i: int) -> Seq<Command>
    decreases objs.len() - i,
{
    if i < 0 || i >= objs.len() {
        Seq::empty()
    } else {
        object_cmds(g, objs[i]) + objects_cmds_from(g, objs, i + 1)
    }
}

/// Whether (column, row) lies on one of the four border lines or on the
/// header separator line.
pub open spec fn on_border(g: GUI, x: u16, y: u16) -> bool {
    y == 0 || y == g.header_height || y == g.header_height + g.border.y || x == 0 || x == g.border.x
}

/// The commands for one border cell: a green `*` where the cell lies on a
/// border line, nothing elsewhere.
pub open spec fn border_cell_cmds(g: GUI, x: u16, y: u16) -> Seq<Command> {
    if on_border(g, x, y) {
        seq![Command::MoveTo(x, y), Command::PrintGreen('*')]
    } else {
        Seq::empty()
    }
}

/// The border commands of row `y`, columns `x` through `g.border.x`.
pub open spec fn border_row_from(g: GUI, y: u16, x: int) -> Seq<Command>
    decreases g.border.x + 1 - x,
{
    if x < 0 || x > g.border.x {
        Seq::empty()
    } else {
        border_cell_cmds(g, x as u16, y) + border_row_from(g, y, x + 1)
    }
}

/// The border commands of rows `y` through the bottom line, row-major.
pub open spec fn border_rows_from(g: GUI, y: int) -> Seq<Command>
    decreases g.header_height + g.border.y + 1 - y,
{
    if y < 0 || y > g.header_height + g.border.y {
        Seq::empty()
    } else {
        border_row_from(g, y as u16, 0) + border_rows_from(g, y + 1)
    }
}

/// The commands that draw the whole frame decoration.
pub open spec fn border_cmds(g: GUI) -> Seq<Command> {
    border_rows_from(g, 0)
}

/// The commands that rewrite one header text line: clear the row, redraw
/// the border stars at both ends (the right one only while the text leaves
/// room for it), and print the text.
pub open spec fn status_cmds(g: GUI, row: u16, s: String) -> Seq<Command> {
    let base = seq![
        Command::MoveTo(0u16, row),
        Command::ClearCurrentLine,
        Command::PrintGreen('*'),
        Command::MoveTo(2u16, row),
        Command::PrintText(s),
    ];
    if s@.len() < g.border.x {
        base + seq![Command::MoveTo(g.border.x, row), Command::PrintGreen('*')]
    } else {
        base
    }
}

/// The command that blanks one display cell.
pub open spec fn clear_cell_cmds(pt: DisplayPoint) -> Seq<Command> {
    seq![Command::MoveTo(pt.x, pt.y), Command::PrintChar(' ')]
}

/// The command that parks the cursor on the first row below the playfield.
pub open spec fn park_cmd(g: GUI) -> Seq<Command> {
    seq![Command::MoveTo(0u16, (g.header_height + g.border.y + 1) as u16)]
}

/// The whole visible frame of a full render: clear, border, every object,
/// the player on top, both header lines, cursor parked.
pub open spec fn show_seq(g: GUI, pg: Playground) -> Seq<Command> {
    seq![Command::ClearAll] + border_cmds(g) + objects_cmds_from(g, pg.objects@, 0) + object_cmds(
        g,
        pg.player.object,
    ) + status_cmds(g, 1, g.top_string) + status_cmds(g, 2, pg.status) + park_cmd(g)
}

/// An incremental update: blank the player's previous cell, redraw the
/// player, rewrite both header lines, park the cursor.  The border and the
/// objects are never touched.
pub open spec fn updates_seq(g: GUI, pg: Playground) -> Seq<Command> {
    clear_cell_cmds(g.prev_player_pos) + object_cmds(g, pg.player.object) + status_cmds(
        g,
        1,
        g.top_string,
    ) + status_cmds(g, 2, pg.status) + park_cmd(g)
}

/// One frame of the goal animation, iteration `i` of 5: two converging
/// runs of blanks walk the player glyph and the goal glyph toward each
/// other along a fixed row.
pub open spec fn meeting_frame_seq(g: GUI, obj: Object, i: int) -> Seq<Command> {
    seq![
        Command::MoveTo(2u16, 2u16),
        Command::PrintSpaces((i + 1) as u16),
        Command::PrintChar('#'),
        Command::PrintSpaces((4 - i) as u16),
        Command::PrintSpaces((4 - i) as u16),
        Command::PrintColored(obj.symbol, obj.fg_color),
        Command::PrintSpaces((i + 1) as u16),
    ] + park_cmd(g)
}

impl GUI {
    /// Well-formedness: the fixed header height, and a border small enough
    /// that every display row of the frame fits a terminal coordinate.
    pub open spec fn wf(self) -> bool {
        &&& self.header_height == 3
        &&& self.border.x + 1 <= u16::MAX
        &&& self.border.y + self.header_height + 1 <= u16::MAX
    }

    /// Sets up the engine for a world: border at the world bounds plus a
    /// (2, 2) margin, three header rows, the fixed instruction line, and
    /// the previous player position primed inside the playfield.
    pub fn new(pg: &Playground) -> (g: GUI)
        requires
            pg.square.x >= -2,
            pg.square.y >= -2,
            pg.square.x + 3 <= u16::MAX,
            pg.square.y + 6 <= u16::MAX,
        ensures
            g.wf(),
            g.border.x == pg.square.x + 2,
            g.border.y == pg.square.y + 2,
            g.header_height == 3,
            g.prev_player_pos == (DisplayPoint { x: 1u16, y: 1u16 }),
            g.top_string@ =~= "Use 'hjkl' to move; 'q' to quit"@,
    {
        let border_pt = pg.square.plus(Point { x: 2, y: 2 });
        let border = match DisplayPoint::from(&border_pt) {
            Some(pt) => pt,
            None => {
                proof {
                    assert(false);
                }
                DisplayPoint { x: 0, y: 0 }
            },
        };
        GUI {
            header_height: 3,
            top_string: String::from_str("Use 'hjkl' to move; 'q' to quit"),
            prev_player_pos: DisplayPoint { x: 1, y: 1 },
            border,
        }
    }

    /// Appends the commands that draw `object` at its display position, or
    /// reports the invariant violation when that position would be
    /// negative.
    fn draw_object_in_its_place(&self, cmds: &mut Vec<Command>, object: &Object) -> (r: Result<
        (),
        RenderError,
    >)
        requires
            self.wf(),
            object.coordinate.x + 1 <= u16::MAX,
            object.coordinate.y + 1 + self.header_height <= u16::MAX,
        ensures
            match r {
                Ok(_) => object.coordinate.x >= 0 && object.coordinate.y >= 0 && final(cmds)@
                    == old(cmds)@ + object_cmds(*self, *object),
                Err(e) => (object.coordinate.x < 0 || object.coordinate.y < 0) && final(cmds)@
                    == old(cmds)@ && e == RenderError::NegativePoint,
            },
    {
        let dp = match DisplayPoint::from(&object.coordinate) {
            Some(pt) => pt,
            None => {
                return Err(RenderError::NegativePoint);
            },
        };
        cmds.push(Command::MoveTo(dp.x + 1, dp.y + 1 + self.header_height));
        cmds.push(Command::PrintColored(object.symbol, object.fg_color));
        proof {
            assert(final(cmds)@ =~= old(cmds)@ + object_cmds(*self, *object));
        }
        Ok(())
    }

    /// Appends the commands that rewrite the header text line of row
    /// `pt.y`.
    fn print_status_string(&self, cmds: &mut Vec<Command>, pt: &DisplayPoint, s: &String)
        ensures
            final(cmds)@ == old(cmds)@ + status_cmds(*self, pt.y, *s),
    {
        cmds.push(Command::MoveTo(0, pt.y));
        cmds.push(Command::ClearCurrentLine);
        cmds.push(Command::PrintGreen('*'));
        cmds.push(Command::MoveTo(2, pt.y));
        cmds.push(Command::PrintText(s.clone()));
        if s.as_str().unicode_len() < self.border.x as usize {
            cmds.push(Command::MoveTo(self.border.x, pt.y));
            cmds.push(Command::PrintGreen('*'));
        }
        proof {
            assert(final(cmds)@ =~= old(cmds)@ + status_cmds(*self, pt.y, *s));
        }
    }

    /// Appends the instruction line (row 1).
    fn print_top_string(&self, cmds: &mut Vec<Command>, s: &String)
        ensures
            final(cmds)@ == old(cmds)@ + status_cmds(*self, 1u16, *s),
    {
        self.print_status_string(cmds, &DisplayPoint { x: 2, y: 1 }, s)
    }

    /// Appends the status line (row 2).
    fn print_bottom_string(&self, cmds: &mut Vec<Command>, s: &String)
        ensures
            final(cmds)@ == old(cmds)@ + status_cmds(*self, 2u16, *s),
    {
        self.print_status_string(cmds, &DisplayPoint { x: 2, y: 2 }, s)
    }

    /// Appends the commands that draw the frame decoration: a green `*` on
    /// every cell whose row or column is one of the border lines.
    fn draw_border(&self, cmds: &mut Vec<Command>)
        requires
            self.wf(),
        ensures
            final(cmds)@ == old(cmds)@ + border_cmds(*self),
    {
        let ymax = self.header_height + self.border.y;
        let mut y: u16 = 0;
        while y <= ymax
            invariant
                self.wf(),
                ymax == self.header_height + self.border.y,
                y <= ymax + 1,
                cmds@ + border_rows_from(*self, y as int) == old(cmds)@ + border_cmds(*self),
            decreases ymax + 1 - y,
        {
            let mut x: u16 = 0;
            while x <= self.border.x
                invariant
                    self.wf(),
                    ymax == self.header_height + self.border.y,
                    y <= ymax,
                    x <= self.border.x + 1,
                    cmds@ + border_row_from(*self, y, x as int) + border_rows_from(
                        *self,
                        y as int + 1,
                    ) == old(cmds)@ + border_cmds(*self),
                decreases self.border.x + 1 - x,
            {
                if y == 0 || y == self.header_height || y == self.header_height + self.border.y
                    || x == 0 || x == self.border.x {
                    cmds.push(Command::MoveTo(x, y));
                    cmds.push(Command::PrintGreen('*'));
                }
                proof {
                    assert(cmds@ + border_row_from(*self, y, x as int + 1) + border_rows_from(
                        *self,
                        y as int + 1,
                    ) =~= old(cmds)@ + border_cmds(*self));
                }
                x = x + 1;
            }
            proof {
                assert(cmds@ + border_rows_from(*self, y as int + 1) =~= old(cmds)@ + border_cmds(
                    *self,
                ));
            }
            y = y + 1;
        }
        proof {
            assert(cmds@ =~= old(cmds)@ + border_cmds(*self));
        }
    }

    /// Appends the command that blanks one display cell.
    fn clear_cell(&self, cmds: &mut Vec<Command>, pt: &DisplayPoint)
        ensures
            final(cmds)@ == old(cmds)@ + clear_cell_cmds(*pt),
    {
        cmds.push(Command::MoveTo(pt.x, pt.y));
        cmds.push(Command::PrintChar(' '));
        proof {
            assert(final(cmds)@ =~= old(cmds)@ + clear_cell_cmds(*pt));
        }
    }

    /// Appends the command that parks the cursor below the playfield.
    fn finalize_cursor_position(&self, cmds: &mut Vec<Command>)
        requires
            self.wf(),
        ensures
            final(cmds)@ == old(cmds)@ + park_cmd(*self),
    {
        cmds.push(Command::MoveTo(0, self.header_height + self.border.y + 1));
        proof {
            assert(final(cmds)@ =~= old(cmds)@ + park_cmd(*self));
        }
    }

    /// Records the display cell the player occupies now, so the next
    /// incremental redraw can blank it.
    pub fn remember_player_position(&mut self, pos: &Point)
        requires
            pos.x + 1 >= 0,
            pos.y + old(self).header_height + 1 >= 0,
            pos.x + 1 <= u16::MAX,
            pos.y + old(self).header_height + 1 <= u16::MAX,
        ensures
            final(self).prev_player_pos.x == pos.x + 1,
            final(self).prev_player_pos.y == pos.y + old(self).header_height + 1,
            final(self).header_height == old(self).header_height,
            final(self).top_string == old(self).top_string,
            final(self).border == old(self).border,
    {
        let player_pos = pos.plus(Point { x: 1, y: self.header_height as i32 + 1 });
        self.prev_player_pos = match DisplayPoint::from(&player_pos) {
            Some(pt) => pt,
            None => {
                proof {
                    assert(false);
                }
                DisplayPoint { x: 0, y: 0 }
            },
        };
    }

    /// Plans a full render, the only path that draws the border and the
    /// objects.  Succeeds exactly when every object and the player sit on
    /// displayable (non-negative) coordinates; the one failure is the
    /// invariant violation of a negative display point.
    pub fn show(&self, playground: &Playground) -> (r: Result<Vec<Command>, RenderError>)
        requires
            self.wf(),
            playground.player.object.coordinate.x + 1 <= u16::MAX,
            playground.player.object.coordinate.y + 1 + self.header_height <= u16::MAX,
            forall|i: int|
                0 <= i < playground.objects@.len()
                    ==> (#[trigger] playground.objects@[i].coordinate).x + 1 <= u16::MAX
                    && playground.objects@[i].coordinate.y + 1 + self.header_height <= u16::MAX,
        ensures
            r is Ok <==> (playground.player.object.coordinate.x >= 0
                && playground.player.object.coordinate.y >= 0 && forall|i: int|
                0 <= i < playground.objects@.len()
                    ==> (#[trigger] playground.objects@[i].coordinate).x >= 0
                    && playground.objects@[i].coordinate.y >= 0),
            r matches Ok(cmds) ==> cmds@ == show_seq(*self, *playground),
            r matches Err(e) ==> e == RenderError::NegativePoint,
    {
        let mut cmds: Vec<Command> = Vec::new();
        cmds.push(Command::ClearAll);
        self.draw_border(&mut cmds);

        let ghost prefix = seq![Command::ClearAll] + border_cmds(*self);
        proof {
            assert(cmds@ =~= prefix);
        }

        let n = playground.objects.len();
        let mut i: usize = 0;
        while i < n
            invariant
                self.wf(),
                n == playground.objects@.len(),
                i <= n,
                forall|j: int|
                    0 <= j < n ==> (#[trigger] playground.objects@[j].coordinate).x + 1
                        <= u16::MAX && playground.objects@[j].coordinate.y + 1
                        + self.header_height <= u16::MAX,
                forall|j: int|
                    0 <= j < i ==> (#[trigger] playground.objects@[j].coordinate).x >= 0
                        && playground.objects@[j].coordinate.y >= 0,
                cmds@ + objects_cmds_from(*self, playground.objects@, i as int) == prefix
                    + objects_cmds_from(*self, playground.objects@, 0),
            decreases n - i,
        {
            let obj = &playground.objects[i];
            match self.draw_object_in_its_place(&mut cmds, obj) {
                Ok(_) => {},
                Err(e) => {
                    return Err(e);
                },
            }
            proof {
                assert(cmds@ + objects_cmds_from(*self, playground.objects@, i as int + 1)
                    =~= prefix + objects_cmds_from(*self, playground.objects@, 0));
            }
            i = i + 1;
        }
        proof {
            assert(cmds@ =~= prefix + objects_cmds_from(*self, playground.objects@, 0));
        }

        match self.draw_object_in_its_place(&mut cmds, &playground.player.object) {
            Ok(_) => {},
            Err(e) => {
                return Err(e);
            },
        }

        self.print_top_string(&mut cmds, &self.top_string);
        self.print_bottom_string(&mut cmds, &playground.status);
        self.finalize_cursor_position(&mut cmds);

        proof {
            assert(cmds@ =~= show_seq(*self, *playground));
        }
        Ok(cmds)
    }

    /// Plans an incremental redraw: blank the player's previous cell,
    /// redraw the player, rewrite both header lines, park the cursor.
    /// Succeeds exactly when the player sits on a displayable coordinate.
    pub fn draw_updates(&self, playground: &Playground) -> (r: Result<Vec<Command>, RenderError>)
        requires
            self.wf(),
            playground.player.object.coordinate.x + 1 <= u16::MAX,
            playground.player.object.coordinate.y + 1 + self.header_height <= u16::MAX,
        ensures
            r is Ok <==> playground.player.object.coordinate.x >= 0
                && playground.player.object.coordinate.y >= 0,
            r matches Ok(cmds) ==> cmds@ == updates_seq(*self, *playground),
            r matches Err(e) ==> e == RenderError::NegativePoint,
    {
        let mut cmds: Vec<Command> = Vec::new();
        let prev = self.prev_player_pos;
        self.clear_cell(&mut cmds, &prev);
        match self.draw_object_in_its_place(&mut cmds, &playground.player.object) {
            Ok(_) => {},
            Err(e) => {
                return Err(e);
            },
        }
        self.print_top_string(&mut cmds, &self.top_string);
        self.print_bottom_string(&mut cmds, &playground.status);
        self.finalize_cursor_position(&mut cmds);
        proof {
            assert(cmds@ =~= updates_seq(*self, *playground));
        }
        Ok(cmds)
    }

    /// The two runs of blanks of one animation step: `i` blanks outside,
    /// `out_of - i` blanks inside, on each side of the converging glyphs.
    pub fn compose_meeting_paddings(i: u16, out_of: u16) -> (r: (String, String))
        requires
            i <= out_of,
        ensures
            r.0@ =~= Seq::new(i as nat, |k: int| ' '),
            r.1@ =~= Seq::new((out_of - i) as nat, |k: int| ' '),
    {
        proof {
            reveal_strlit(" ");
        }
        let mut outer_string = String::new();
        let mut n: u16 = 0;
        while n < i
            invariant
                n <= i,
                outer_string@ =~= Seq::new(n as nat, |k: int| ' '),
            decreases i - n,
        {
            outer_string.append(" ");
            proof {
                reveal_strlit(" ");
                assert(outer_string@ =~= Seq::new(n as nat + 1, |k: int| ' '));
            }
            n = n + 1;
        }
        let mut inner_string = String::new();
        let mut m: u16 = 0;
        while m < out_of - i
            invariant
                i <= out_of,
                m <= out_of - i,
                inner_string@ =~= Seq::new(m as nat, |k: int| ' '),
            decreases out_of - i - m,
        {
            inner_string.append(" ");
            proof {
                reveal_strlit(" ");
                assert(inner_string@ =~= Seq::new(m as nat + 1, |k: int| ' '));
            }
            m = m + 1;
        }
        (outer_string, inner_string)
    }

    /// Plans the goal animation: five frames, each to be shown after a
    /// one-second pause, walking the player glyph and the goal glyph
    /// toward each other along a fixed row.
    pub fn show_meeting_animation(&self, obj: &Object) -> (frames: Vec<Vec<Command>>)
        requires
            self.wf(),
        ensures
            frames@.len() == 5,
            forall|i: int|
                0 <= i < 5 ==> (#[trigger] frames@[i])@ == meeting_frame_seq(*self, *obj, i),
    {
        let mut frames: Vec<Vec<Command>> = Vec::new();
        let iterations: u16 = 5;
        let mut i: u16 = 0;
        while i < iterations
            invariant
                self.wf(),
                iterations == 5,
                i <= 5,
                frames@.len() == i,
                forall|j: int|
                    0 <= j < i ==> (#[trigger] frames@[j])@ == meeting_frame_seq(*self, *obj, j),
            decreases iterations - i,
        {
            let mut frame: Vec<Command> = Vec::new();
            frame.push(Command::MoveTo(2, 2));
            frame.push(Command::PrintSpaces(i + 1));
            frame.push(Command::PrintChar('#'));
            frame.push(Command::PrintSpaces(iterations - (i + 1)));
            frame.push(Command::PrintSpaces(iterations - (i + 1)));
            frame.push(Command::PrintColored(obj.symbol, obj.fg_color));
            frame.push(Command::PrintSpaces(i + 1));
            self.finalize_cursor_position(&mut frame);
            proof {
                assert(frame@ =~= meeting_frame_seq(*self, *obj, i as int));
            }
            frames.push(frame);
            i = i + 1;
        }
        frames
    }
}

/// Law: a full render is a pure function of the engine and the world, so
/// two successive renders with no intervening mutation produce the same
/// visible frame.
pub proof fn lemma_render_full_idempotent(g: GUI, pg: Playground, c1: Seq<Command>, c2: Seq<Command>)
    requires
        c1 == show_seq(g, pg),
        c2 == show_seq(g, pg),
    ensures
        c1 == c2,
{
}

/// Law: display conversion is reversible — subtracting the fixed border
/// and header offsets from the display coordinate of a non-negative grid
/// point recovers the grid point exactly.
pub proof fn lemma_display_round_trip(g: GUI, pt: Point)
    requires
        0 <= pt.x,
        0 <= pt.y,
    ensures
        display_of(g, pt).0 - 1 == pt.x,
        display_of(g, pt).1 - 1 - g.header_height == pt.y,
{
}

} // verus!
