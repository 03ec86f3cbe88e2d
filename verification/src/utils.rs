//! Windows as plain values: the base window, the yes/no window and the
//! message box. Each computes what is to be drawn and decides on keys; none
//! draws or reads.

use vstd::prelude::*;
use vstd::string::*;
use crate::geometry::{
    fits_i32, halve, narrow, quot, BOT_BW, FOCUS_COLOR, LEFT_BW, NORM_COLOR, NO_FOCUS_COLOR,
    RIGHT_BW, TOP_BW, YESNO_NSEL_COLOR, YESNO_SEL_COLOR,
};
use crate::keys::KeyCodes;
use crate::layout::LayoutError;
use crate::text::{
    byte_len, lemma_widest_bounds, lines, lines_of, text_len, texts_of, widest, widest_of,
};

verus! {

/// The title as a window shows it: with a blank on each side, unless it is
/// empty.
pub open spec fn padded_title(title: Seq<char>) -> Seq<char> {
    if title.len() == 0 {
        title
    } else {
        seq![' '] + title + seq![' ']
    }
}

/// A rectangular window: its title, its size and place, whether it has the
/// focus, and where its cursor rests.
#[derive(Clone, Debug, PartialEq, Eq)]
pub struct Win {
    pub title: String,
    pub height: i32,
    pub width: i32,
    pub x_offs: i32,
    pub y_offs: i32,
    pub focus: bool,
    pub xcurs: i32,
    pub ycurs: i32,
}

/// What `Win::print` asks to be drawn, in this order: the row `clear_row`
/// emptied, if there is one; `msg` at row `y` and column `x` in `color`; the
/// border in `border_color`; the title at column `title_x` of the top
/// border; the cursor back where it rests.
#[derive(Clone, Debug, PartialEq, Eq)]
pub struct Print {
    pub clear_row: Option<i32>,
    pub y: i32,
    pub x: i32,
    pub color: i16,
    pub msg: String,
    pub border_color: i16,
    pub title_x: i32,
    pub ycurs: i32,
    pub xcurs: i32,
}

impl Win {
    /// A window with the cursor inside its top left corner. A title that is
    /// not empty gets a blank on each side.
    pub fn new(title_orig: String, focus: bool, height: i32, width: i32, x_offs: i32, y_offs: i32) -> (w:
        Self)
        ensures
            w.title@ == padded_title(title_orig@),
            w.focus == focus,
            w.height == height,
            w.width == width,
            w.x_offs == x_offs,
            w.y_offs == y_offs,
            w.xcurs == LEFT_BW,
            w.ycurs == TOP_BW,
    {
        let title: String = if title_orig.as_str().unicode_len() == 0 {
            title_orig
        } else {
            proof {
                reveal_strlit(" ");
                assert(" "@ =~= seq![' ']);
            }
            let mut t: String = String::from_str(" ");
            t.append(title_orig.as_str());
            t.append(" ");
            t
        };
        Win {
            title: title,
            height: height,
            width: width,
            x_offs: x_offs,
            y_offs: y_offs,
            focus: focus,
            xcurs: LEFT_BW,
            ycurs: TOP_BW,
        }
    }

    /// The colour of the border: one for the window in focus, one for the
    /// others.
    pub open spec fn border_color(&self) -> i16 {
        if self.focus {
            FOCUS_COLOR
        } else {
            NO_FOCUS_COLOR
        }
    }

    /// The column of the title, which is centred on the top border.
    pub open spec fn title_column(&self) -> int {
        quot(self.width - text_len(self.title@), 2)
    }

    /// The column of the title, or `None` where the title is longer than the
    /// machine's integers count.
    pub fn title_x(&self) -> (r: Option<i32>)
        ensures
            r is Some <==> text_len(self.title@) <= i32::MAX,
            r is Some ==> r->0 == self.title_column(),
    {
        let len: usize = byte_len(self.title.as_str());
        if len > 2147483647 {
            return None;
        }
        narrow(halve(self.width as i64 - len as i64))
    }

    /// Empties the window: the cursor goes back inside the top left corner.
    pub fn erase(&mut self)
        ensures
            *final(self) == (Win { xcurs: LEFT_BW, ycurs: TOP_BW, ..*old(self) }),
    {
        self.xcurs = LEFT_BW;
        self.ycurs = TOP_BW;
    }

    /// The colour in which the border is drawn.
    pub fn box_(&self) -> (c: i16)
        ensures
            c == self.border_color(),
    {
        if self.focus {
            FOCUS_COLOR
        } else {
            NO_FOCUS_COLOR
        }
    }

    /// Gives the window the focus or takes it away.
    pub fn set_focus(&mut self, f: bool)
        ensures
            *final(self) == (Win { focus: f, ..*old(self) }),
    {
        self.focus = f;
    }

    /// Whether the window has the focus.
    pub fn get_focus(&self) -> (f: bool)
        ensures
            f == self.focus,
    {
        self.focus
    }

    /// Moves the cursor to row `y` and column `x`.
    pub fn set_cursor(&mut self, y: i32, x: i32)
        ensures
            *final(self) == (Win { xcurs: x, ycurs: y, ..*old(self) }),
    {
        self.xcurs = x;
        self.ycurs = y;
    }

    /// The cursor's row and column.
    pub fn get_cursor(&self) -> (c: (i32, i32))
        ensures
            c == (self.ycurs, self.xcurs),
    {
        (self.ycurs, self.xcurs)
    }

    /// The column at which `print` writes: `x` columns inside the left
    /// border, or the middle of the window for a negative `x`.
    pub open spec fn print_column(&self, x: int) -> int {
        (if x < 0 {
            quot(self.width - LEFT_BW - RIGHT_BW, 2)
        } else {
            x
        }) + LEFT_BW
    }

    /// The row at which `print` writes: `y` rows below the top border, or
    /// the middle of the window for a negative `y`.
    pub open spec fn print_row(&self, y: int) -> int {
        (if y < 0 {
            quot(self.height - BOT_BW - TOP_BW, 2)
        } else {
            y
        }) + TOP_BW
    }

    /// Whether a text can be printed at `x`, `y` within the machine's
    /// integers.
    pub open spec fn prints(&self, x: int, y: int) -> bool {
        &&& fits_i32(self.print_column(x))
        &&& fits_i32(self.print_row(y))
        &&& text_len(self.title@) <= i32::MAX
    }

    /// `p` is what is drawn to print `msg` in `color` at `x`, `y`: the text
    /// at its column and row, the row emptied first if `clear` says so, then
    /// the border in the window's colour, the title at its column, and the
    /// cursor where it rests.
    pub open spec fn printed(
        &self,
        p: Print,
        clear: bool,
        x: int,
        y: int,
        color: i16,
        msg: Seq<char>,
    ) -> bool {
        &&& p.x == self.print_column(x)
        &&& p.y == self.print_row(y)
        &&& p.clear_row == if clear {
            Some(p.y)
        } else {
            None
        }
        &&& p.color == color
        &&& p.msg@ == msg
        &&& p.border_color == self.border_color()
        &&& p.title_x == self.title_column()
        &&& p.ycurs == self.ycurs
        &&& p.xcurs == self.xcurs
    }

    /// What is drawn to print `msg` in `color` at column `x` and row `y`
    /// inside the border, a negative coordinate standing for the middle.
    /// With `clear` the row is emptied first.
    pub fn print(&self, clear: bool, x: i32, y: i32, color: i16, msg: String) -> (r: Result<
        Print,
        LayoutError,
    >)
        ensures
            match r {
                Ok(p) => {
                    &&& self.prints(x as int, y as int)
                    &&& self.printed(p, clear, x as int, y as int, color, msg@)
                },
                Err(e) => e == LayoutError::TooLarge && !self.prints(x as int, y as int),
            },
    {
        let col: i64 = (if x < 0 {
            halve(self.width as i64 - LEFT_BW as i64 - RIGHT_BW as i64)
        } else {
            x as i64
        }) + LEFT_BW as i64;
        let row: i64 = (if y < 0 {
            halve(self.height as i64 - BOT_BW as i64 - TOP_BW as i64)
        } else {
            y as i64
        }) + TOP_BW as i64;
        let title_x: Option<i32> = self.title_x();
        let px: Option<i32> = narrow(col);
        let py: Option<i32> = narrow(row);
        if title_x.is_none() || px.is_none() || py.is_none() {
            return Err(LayoutError::TooLarge);
        }
        let at: i32 = py.unwrap();
        Ok(
            Print {
                clear_row: if clear {
                    Some(at)
                } else {
                    None
                },
                y: at,
                x: px.unwrap(),
                color: color,
                msg: msg,
                border_color: self.box_(),
                title_x: title_x.unwrap(),
                ycurs: self.ycurs,
                xcurs: self.xcurs,
            },
        )
    }
}

/// Height of the yes/no window.
pub const YESNO_HEIGHT: i32 = 8;

/// Width of the two buttons of the yes/no window together.
pub const YESNO_WIDTH: i32 = 16;

/// Row of the question in the yes/no window.
pub const MSG_LINE: i32 = 1;

/// Row of the buttons in the yes/no window.
pub const YESNO_LINE: i32 = 4;

/// Distance from the yes button to the no button.
pub const NO_OFFS: i32 = 9;

/// The larger of the two.
pub open spec fn larger(a: int, b: int) -> int {
    if a >= b {
        a
    } else {
        b
    }
}

/// A window that asks a question and offers yes and no; `yes` is the
/// answer that is selected.
#[derive(Clone, Debug, PartialEq, Eq)]
pub struct Yesnowin {
    pub title: String,
    pub exit_msg: String,
    pub win: Win,
    pub yesno_height: i32,
    pub yesno_width: i32,
    pub msg_line: i32,
    pub yesno_line: i32,
    pub no_offs: i32,
    pub yes: bool,
}

/// What `Yesnowin::draw_yesno` asks to be drawn: the row `clear_row`
/// emptied from the column `clear_from`, then the two buttons.
#[derive(Clone, Debug, PartialEq, Eq)]
pub struct Buttons {
    pub clear_row: i32,
    pub clear_from: i32,
    pub yes: Print,
    pub no: Print,
}

impl Yesnowin {
    /// The width of the window for a title and a question.
    pub open spec fn width_for(title: Seq<char>, exit_msg: Seq<char>) -> int {
        larger(text_len(title) + 4, text_len(exit_msg)) + 6
    }

    /// The column of the window on a screen of `cols` columns.
    pub open spec fn column_for(title: Seq<char>, exit_msg: Seq<char>, cols: int) -> int {
        quot(
            cols - LEFT_BW - RIGHT_BW - larger(text_len(title) + 4, text_len(exit_msg) - 4),
            2,
        ) + LEFT_BW
    }

    /// The row of the window on a screen of `rows` rows.
    pub open spec fn row_for(rows: int) -> int {
        quot(rows - TOP_BW - BOT_BW - YESNO_HEIGHT, 2) + TOP_BW
    }

    /// Whether the window can be held in the machine's integers: the
    /// question has at least four bytes, and the width and the place fit.
    pub open spec fn fits(title: Seq<char>, exit_msg: Seq<char>, cols: int, rows: int) -> bool {
        &&& text_len(exit_msg) >= 4
        &&& fits_i32(Yesnowin::width_for(title, exit_msg))
        &&& fits_i32(Yesnowin::column_for(title, exit_msg, cols))
        &&& fits_i32(Yesnowin::row_for(rows))
    }

    /// The yes/no window for a title and a question, in the middle of a
    /// screen of `cols` columns and `rows` rows, with yes selected.
    pub fn new(title: String, exit_msg: String, cols: i32, rows: i32) -> (r: Result<
        Self,
        LayoutError,
    >)
        ensures
            match r {
                Ok(w) => {
                    &&& Yesnowin::fits(title@, exit_msg@, cols as int, rows as int)
                    &&& w.title@ == title@
                    &&& w.exit_msg@ == exit_msg@
                    &&& w.win.title@ == padded_title(title@)
                    &&& !w.win.focus
                    &&& w.win.height == YESNO_HEIGHT
                    &&& w.win.width == Yesnowin::width_for(title@, exit_msg@)
                    &&& w.win.x_offs == Yesnowin::column_for(title@, exit_msg@, cols as int)
                    &&& w.win.y_offs == Yesnowin::row_for(rows as int)
                    &&& w.win.xcurs == LEFT_BW
                    &&& w.win.ycurs == TOP_BW
                    &&& w.yesno_height == YESNO_HEIGHT
                    &&& w.yesno_width == YESNO_WIDTH
                    &&& w.msg_line == MSG_LINE
                    &&& w.yesno_line == YESNO_LINE
                    &&& w.no_offs == NO_OFFS
                    &&& w.yes
                },
                Err(e) => e == LayoutError::TooLarge && !Yesnowin::fits(
                    title@,
                    exit_msg@,
                    cols as int,
                    rows as int,
                ),
            },
    {
        let tl: usize = byte_len(title.as_str());
        let ml: usize = byte_len(exit_msg.as_str());
        if ml < 4 || ml > 2147483647 || tl > 2147483647 {
            return Err(LayoutError::TooLarge);
        }
        let wide: i64 = (if tl + 4 >= ml {
            tl as i64 + 4
        } else {
            ml as i64
        }) + 6;
        let inner: i64 = if tl + 4 >= ml - 4 {
            tl as i64 + 4
        } else {
            ml as i64 - 4
        };
        let left: i64 = halve(cols as i64 - LEFT_BW as i64 - RIGHT_BW as i64 - inner) + LEFT_BW as i64;
        let top: i64 = halve(rows as i64 - TOP_BW as i64 - BOT_BW as i64 - YESNO_HEIGHT as i64)
            + TOP_BW as i64;
        let width: Option<i32> = narrow(wide);
        let x: Option<i32> = narrow(left);
        let y: Option<i32> = narrow(top);
        if width.is_none() || x.is_none() || y.is_none() {
            return Err(LayoutError::TooLarge);
        }
        let win = Win::new(title.clone(), false, YESNO_HEIGHT, width.unwrap(), x.unwrap(), y.unwrap());
        Ok(
            Yesnowin {
                title: title,
                exit_msg: exit_msg,
                win: win,
                yesno_height: YESNO_HEIGHT,
                yesno_width: YESNO_WIDTH,
                msg_line: MSG_LINE,
                yesno_line: YESNO_LINE,
                no_offs: NO_OFFS,
                yes: true,
            },
        )
    }
}

/// Whether the key toggles the selection: an arrow to the side or the
/// tabulator.
pub open spec fn toggles(ch: int, codes: KeyCodes) -> bool {
    ch == codes.left || ch == codes.right || ch == 9
}

/// The answer that the key gives while `yes` is selected, if it gives one:
/// `Y` and `N`, small or capital, answer by themselves, Enter confirms the
/// selection, and a key that toggles answers nothing.
pub open spec fn answer(yes: bool, ch: int, codes: KeyCodes) -> Option<bool> {
    if toggles(ch, codes) {
        None
    } else if ch == 89 || ch == 121 {
        Some(true)
    } else if ch == 78 || ch == 110 {
        Some(false)
    } else if ch == codes.enter || ch == 10 || ch == 13 {
        Some(yes)
    } else {
        None
    }
}

impl Yesnowin {
    /// The column of the yes button, counted inside the border.
    pub open spec fn yes_column(&self) -> int {
        quot(self.win.width - self.yesno_width, 2)
    }

    /// Whether the buttons can be drawn within the machine's integers.
    pub open spec fn draws(&self) -> bool {
        &&& fits_i32(self.yesno_line - TOP_BW)
        &&& fits_i32(self.win.width - self.yesno_width)
        &&& fits_i32(self.yes_column() + self.no_offs)
        &&& self.win.prints(self.yes_column(), self.yesno_line as int)
        &&& self.win.prints(self.yes_column() + self.no_offs, self.yesno_line as int)
    }

    /// What is drawn for the question.
    pub fn opening(&self) -> (r: Result<Print, LayoutError>)
        ensures
            match r {
                Ok(p) => self.win.prints(2, 1) && self.win.printed(
                    p,
                    false,
                    2,
                    1,
                    NORM_COLOR,
                    self.exit_msg@,
                ),
                Err(e) => e == LayoutError::TooLarge && !self.win.prints(2, 1),
            },
    {
        self.win.print(false, 2, 1, NORM_COLOR, self.exit_msg.clone())
    }

    /// What is drawn for the two buttons: the row above them emptied, then
    /// yes and no side by side, the selected one in the colour of the
    /// selection.
    pub fn draw_yesno(&self) -> (r: Result<Buttons, LayoutError>)
        ensures
            match r {
                Ok(b) => {
                    &&& self.draws()
                    &&& b.clear_row == self.yesno_line - TOP_BW
                    &&& b.clear_from == LEFT_BW
                    &&& self.win.printed(
                        b.yes,
                        false,
                        self.yes_column(),
                        self.yesno_line as int,
                        if self.yes {
                            YESNO_SEL_COLOR
                        } else {
                            YESNO_NSEL_COLOR
                        },
                        "[ Yes ]"@,
                    )
                    &&& self.win.printed(
                        b.no,
                        false,
                        self.yes_column() + self.no_offs,
                        self.yesno_line as int,
                        if self.yes {
                            YESNO_NSEL_COLOR
                        } else {
                            YESNO_SEL_COLOR
                        },
                        "[ No ]"@,
                    )
                },
                Err(e) => e == LayoutError::TooLarge && !self.draws(),
            },
    {
        let clear_row: Option<i32> = narrow(self.yesno_line as i64 - TOP_BW as i64);
        let span: Option<i32> = narrow(self.win.width as i64 - self.yesno_width as i64);
        if clear_row.is_none() || span.is_none() {
            return Err(LayoutError::TooLarge);
        }
        let yes_x: i32 = span.unwrap() / 2;
        let no_x: i32 = match narrow(yes_x as i64 + self.no_offs as i64) {
            Some(v) => v,
            None => {
                return Err(LayoutError::TooLarge);
            },
        };
        let yes_color: i16 = if self.yes {
            YESNO_SEL_COLOR
        } else {
            YESNO_NSEL_COLOR
        };
        let no_color: i16 = if self.yes {
            YESNO_NSEL_COLOR
        } else {
            YESNO_SEL_COLOR
        };
        let yes = match self.win.print(false, yes_x, self.yesno_line, yes_color, "[ Yes ]".to_owned()) {
            Ok(p) => p,
            Err(e) => {
                return Err(e);
            },
        };
        let no = match self.win.print(false, no_x, self.yesno_line, no_color, "[ No ]".to_owned()) {
            Ok(p) => p,
            Err(e) => {
                return Err(e);
            },
        };
        Ok(Buttons { clear_row: clear_row.unwrap(), clear_from: LEFT_BW, yes: yes, no: no })
    }

    /// Takes one key: toggles the selection, or gives the answer.
    pub fn key(&mut self, ch: i32, codes: &KeyCodes) -> (r: Option<bool>)
        ensures
            r == answer(old(self).yes, ch as int, *codes),
            *final(self) == (Yesnowin {
                yes: if toggles(ch as int, *codes) {
                    !old(self).yes
                } else if r is Some {
                    r->0
                } else {
                    old(self).yes
                },
                ..*old(self)
            }),
    {
        if ch == codes.left || ch == codes.right || ch == 9 {
            self.yes = !self.yes;
            None
        } else if ch == 89 || ch == 121 {
            self.yes = true;
            Some(true)
        } else if ch == 78 || ch == 110 {
            self.yes = false;
            Some(false)
        } else if ch == codes.enter || ch == 10 || ch == 13 {
            Some(self.yes)
        } else {
            None
        }
    }
}

/// A window that shows a text of several lines, with an acknowledgement
/// button below it if `ok_box` says so.
#[derive(Clone, Debug, PartialEq, Eq)]
pub struct Msgbox {
    pub title: String,
    pub msg: Vec<String>,
    pub win: Win,
    pub msg_height: i32,
    pub msg_width: i32,
    pub ok_box: bool,
}

impl Msgbox {
    /// The height of the box for a text: its lines, a blank row above and
    /// below, the border, and two rows more for the button.
    pub open spec fn height_for(msg: Seq<char>, ok_box: bool) -> int {
        lines_of(msg).len() + 2 + TOP_BW + BOT_BW + if ok_box {
            2int
        } else {
            0int
        }
    }

    /// The width of the box for a title and a text: the widest of the title
    /// and the lines, a blank column on each side, and the border.
    pub open spec fn width_for(title: Seq<char>, msg: Seq<char>) -> int {
        widest(text_len(title), lines_of(msg)) + 2 + LEFT_BW + LEFT_BW
    }

    /// Whether the box can be held in the machine's integers on a screen of
    /// `cols` columns and `rows` rows.
    pub open spec fn fits(
        title: Seq<char>,
        msg: Seq<char>,
        ok_box: bool,
        cols: int,
        rows: int,
    ) -> bool {
        let h = Msgbox::height_for(msg, ok_box);
        let w = Msgbox::width_for(title, msg);
        &&& fits_i32(h)
        &&& fits_i32(w)
        &&& fits_i32(quot(cols - LEFT_BW - RIGHT_BW - w, 2) + LEFT_BW)
        &&& fits_i32(quot(rows - TOP_BW - BOT_BW - h, 2) + TOP_BW)
    }

    /// The message box for a title and a text, in the middle of a screen of
    /// `cols` columns and `rows` rows.
    pub fn new(title: String, msg_s: String, ok_box: bool, cols: i32, rows: i32) -> (r: Result<
        Self,
        LayoutError,
    >)
        ensures
            match r {
                Ok(b) => {
                    &&& Msgbox::fits(title@, msg_s@, ok_box, cols as int, rows as int)
                    &&& b.title@ == title@
                    &&& texts_of(b.msg@) == lines_of(msg_s@)
                    &&& b.ok_box == ok_box
                    &&& b.msg_height == Msgbox::height_for(msg_s@, ok_box)
                    &&& b.msg_width == Msgbox::width_for(title@, msg_s@)
                    &&& b.win.title@ == padded_title(title@)
                    &&& !b.win.focus
                    &&& b.win.height == b.msg_height
                    &&& b.win.width == b.msg_width
                    &&& b.win.x_offs == quot(cols - LEFT_BW - RIGHT_BW - b.msg_width, 2) + LEFT_BW
                    &&& b.win.y_offs == quot(rows - TOP_BW - BOT_BW - b.msg_height, 2) + TOP_BW
                    &&& b.win.xcurs == LEFT_BW
                    &&& b.win.ycurs == TOP_BW
                },
                Err(e) => e == LayoutError::TooLarge && !Msgbox::fits(
                    title@,
                    msg_s@,
                    ok_box,
                    cols as int,
                    rows as int,
                ),
            },
    {
        let msg: Vec<String> = lines(msg_s.as_str());
        let tl: usize = byte_len(title.as_str());
        let wide: usize = widest_of(tl, &msg);
        if msg.len() > 2147483647 || wide > 2147483647 {
            return Err(LayoutError::TooLarge);
        }
        let high: i64 = msg.len() as i64 + 2 + TOP_BW as i64 + BOT_BW as i64 + if ok_box {
            2i64
        } else {
            0i64
        };
        let full: i64 = wide as i64 + 2 + LEFT_BW as i64 + LEFT_BW as i64;
        let left: i64 = halve(cols as i64 - LEFT_BW as i64 - RIGHT_BW as i64 - full) + LEFT_BW as i64;
        let top: i64 = halve(rows as i64 - TOP_BW as i64 - BOT_BW as i64 - high) + TOP_BW as i64;
        let msg_height: Option<i32> = narrow(high);
        let msg_width: Option<i32> = narrow(full);
        let x: Option<i32> = narrow(left);
        let y: Option<i32> = narrow(top);
        if msg_height.is_none() || msg_width.is_none() || x.is_none() || y.is_none() {
            return Err(LayoutError::TooLarge);
        }
        let win = Win::new(
            title.clone(),
            false,
            msg_height.unwrap(),
            msg_width.unwrap(),
            x.unwrap(),
            y.unwrap(),
        );
        Ok(
            Msgbox {
                title: title,
                msg: msg,
                win: win,
                msg_height: msg_height.unwrap(),
                msg_width: msg_width.unwrap(),
                ok_box: ok_box,
            },
        )
    }

    /// The column of the button, counted inside the border.
    pub open spec fn ok_column(&self) -> int {
        quot(self.win.width - text_len("[ OK ]"@), 2)
    }

    /// Whether the box can be drawn within the machine's integers.
    pub open spec fn draws(&self) -> bool {
        &&& self.msg.len() + 2 <= i32::MAX
        &&& text_len(self.win.title@) <= i32::MAX
        &&& self.ok_box ==> {
            &&& text_len("[ OK ]"@) <= i32::MAX
            &&& fits_i32(self.win.width - text_len("[ OK ]"@))
            &&& self.win.prints(self.ok_column(), self.msg.len() + 2)
        }
    }

    /// What is drawn for the box: line `i` of the text one column inside
    /// the border on row `i + 1`, and behind the lines, if the box has one,
    /// the button, centred, a blank row below the text.
    pub fn run(&self) -> (r: Result<Vec<Print>, LayoutError>)
        ensures
            match r {
                Ok(v) => {
                    &&& self.draws()
                    &&& v.len() == self.msg.len() + if self.ok_box {
                        1int
                    } else {
                        0int
                    }
                    &&& forall|i: int|
                        0 <= i < self.msg.len() ==> self.win.printed(
                            #[trigger] v[i],
                            false,
                            1,
                            i + 1,
                            NORM_COLOR,
                            self.msg[i]@,
                        )
                    &&& self.ok_box ==> self.win.printed(
                        v[self.msg.len() as int],
                        false,
                        self.ok_column(),
                        self.msg.len() + 2,
                        YESNO_SEL_COLOR,
                        "[ OK ]"@,
                    )
                },
                Err(e) => e == LayoutError::TooLarge && !self.draws(),
            },
    {
        if self.msg.len() > 2147483645 {
            return Err(LayoutError::TooLarge);
        }
        let mut out: Vec<Print> = Vec::new();
        let mut y: i32 = 1;
        let mut i: usize = 0;
        while i < self.msg.len()
            invariant
                i <= self.msg.len() <= 2147483645,
                y == i + 1,
                out.len() == i,
                i > 0 ==> text_len(self.win.title@) <= i32::MAX,
                forall|k: int|
                    0 <= k < i ==> self.win.printed(
                        #[trigger] out[k],
                        false,
                        1,
                        k + 1,
                        NORM_COLOR,
                        self.msg[k]@,
                    ),
            decreases self.msg.len() - i,
        {
            match self.win.print(false, 1, y, NORM_COLOR, self.msg[i].clone()) {
                Ok(p) => {
                    out.push(p);
                },
                Err(e) => {
                    return Err(e);
                },
            }
            y += 1;
            i += 1;
        }
        if self.ok_box {
            let ok: String = "[ OK ]".to_owned();
            let len: usize = byte_len(ok.as_str());
            if len > 2147483647 {
                return Err(LayoutError::TooLarge);
            }
            let x: i32 = match narrow(self.win.width as i64 - len as i64) {
                Some(v) => v / 2,
                None => {
                    return Err(LayoutError::TooLarge);
                },
            };
            match self.win.print(false, x, y + 1, YESNO_SEL_COLOR, ok) {
                Ok(p) => {
                    out.push(p);
                },
                Err(e) => {
                    return Err(e);
                },
            }
        } else if byte_len(self.win.title.as_str()) > 2147483647 {
            return Err(LayoutError::TooLarge);
        }
        Ok(out)
    }
}

/// A message box holds its text: each line, written one column inside the
/// border, ends before the blank column that the box keeps inside the right
/// border, on a row above the blank row that it keeps inside the bottom
/// border; and the title is no wider than the lines may be.
pub proof fn lemma_message_box_holds_its_text(
    title: Seq<char>,
    msg: Seq<char>,
    ok_box: bool,
    i: int,
)
    requires
        0 <= i < lines_of(msg).len(),
    ensures
        LEFT_BW + 1 + text_len(lines_of(msg)[i]) <= Msgbox::width_for(title, msg) - LEFT_BW - 1,
        TOP_BW + 1 + i <= Msgbox::height_for(msg, ok_box) - BOT_BW - 2,
        text_len(title) <= Msgbox::width_for(title, msg) - 2 * LEFT_BW - 2,
{
    lemma_widest_bounds(text_len(title), lines_of(msg));
}

} // verus!
