//! The letter box: one cell of the grid.

use vstd::prelude::*;
use crate::geometry::{
    BOT_BW, FOCUS_COLOR, IN_PLACE_COLOR, LEFT_BW, NOT_IN_PLACE_COLOR, NOT_IN_WORD_COLOR,
    NO_FOCUS_COLOR, RIGHT_BW, TOP_BW, UNKNOWN_COLOR,
};
use crate::text::{ascii_upper, upper_ascii};
use crate::utils::Win;

verus! {

/// Width of a letter box, in columns.
pub const LB_WIDTH: i32 = 3;

/// Height of a letter box, in rows.
pub const LB_HEIGHT: i32 = 3;

/// The character of a box that holds no letter.
pub const BLANK: char = ' ';

/// What is known of a letter: nothing yet, or how it relates to the secret
/// word.
#[derive(Clone, Copy, Debug, PartialEq, Eq, Structural)]
pub enum Role {
    UnknownYet,
    NotInWord,
    NotInPlace,
    InPlace,
}

/// The colour pair that a role is shown in.
pub open spec fn role_color(role: Role) -> i16 {
    match role {
        Role::UnknownYet => UNKNOWN_COLOR,
        Role::NotInWord => NOT_IN_WORD_COLOR,
        Role::NotInPlace => NOT_IN_PLACE_COLOR,
        Role::InPlace => IN_PLACE_COLOR,
    }
}

/// A letter box: its window, its letter and the letter's role.
#[derive(Clone, Debug, PartialEq, Eq)]
pub struct Lb {
    pub win: Win,
    pub border: bool,
    pub c: char,
    pub role: Role,
    pub left_bw: i32,
    pub right_bw: i32,
    pub top_bw: i32,
    pub bot_bw: i32,
}

/// What a letter box looks like: `fill_rows` rows of `pad_width` blanks in
/// `fill_color` from row `top` and column `left`, the letter in the middle,
/// and a border in `border_color` if there is one.
#[derive(Clone, Copy, Debug, PartialEq, Eq)]
pub struct Picture {
    pub fill_color: i16,
    pub top: i32,
    pub left: i32,
    pub pad_width: i32,
    pub fill_rows: i32,
    pub letter_y: i32,
    pub letter_x: i32,
    pub letter: char,
    pub border_color: Option<i16>,
}

impl Lb {
    /// The widths that a box keeps free for its border: those of a window's
    /// border if it has one of its own, else none.
    pub open spec fn borders_match(&self) -> bool {
        &&& self.left_bw == if self.border { LEFT_BW } else { 0 }
        &&& self.right_bw == if self.border { RIGHT_BW } else { 0 }
        &&& self.top_bw == if self.border { TOP_BW } else { 0 }
        &&& self.bot_bw == if self.border { BOT_BW } else { 0 }
    }

    /// The letter in the box, if it holds one.
    pub open spec fn letter(&self) -> Option<char> {
        if self.c == BLANK {
            None
        } else {
            Some(self.c)
        }
    }

    /// An empty box at column `x` and row `y` of the screen.
    pub fn new(border: bool, focus: bool, x: i32, y: i32) -> (lb: Self)
        ensures
            lb.borders_match(),
            lb.border == border,
            lb.c == BLANK,
            lb.role == Role::UnknownYet,
            lb.win.focus == focus,
            lb.win.title@ == Seq::<char>::empty(),
            lb.win.height == LB_HEIGHT,
            lb.win.width == LB_WIDTH,
            lb.win.x_offs == x,
            lb.win.y_offs == y,
            lb.win.xcurs == LEFT_BW,
            lb.win.ycurs == TOP_BW,
    {
        let win = Win::new(String::new(), focus, LB_HEIGHT, LB_WIDTH, x, y);
        Lb {
            win: win,
            border: border,
            c: BLANK,
            role: Role::UnknownYet,
            left_bw: if border {
                LEFT_BW
            } else {
                0
            },
            right_bw: if border {
                RIGHT_BW
            } else {
                0
            },
            top_bw: if border {
                TOP_BW
            } else {
                0
            },
            bot_bw: if border {
                BOT_BW
            } else {
                0
            },
        }
    }

    /// Puts `c` into the box, a small ASCII letter as its capital, with the
    /// role `role`.
    pub fn set(&mut self, c: char, role: Role)
        ensures
            *final(self) == (Lb { c: upper_ascii(c), role: role, ..*old(self) }),
    {
        self.c = ascii_upper(c);
        self.role = role;
    }

    /// The colour of the border that is drawn round the box: the window's,
    /// if the box has a border of its own or its letter's role is not known
    /// yet; none once the role is known.
    pub open spec fn frame_color(&self) -> Option<i16> {
        if self.border || self.role == Role::UnknownYet {
            Some(self.win.border_color())
        } else {
            None
        }
    }

    /// What the box looks like: filled in the colour of its role inside
    /// the room that it keeps for a border of its own, the letter in the
    /// middle.
    pub open spec fn picture(&self) -> Picture {
        Picture {
            fill_color: role_color(self.role),
            top: self.top_bw,
            left: self.left_bw,
            pad_width: (LB_WIDTH - self.left_bw - self.right_bw) as i32,
            fill_rows: (LB_WIDTH - self.top_bw - self.bot_bw) as i32,
            letter_y: 1,
            letter_x: 1,
            letter: self.c,
            border_color: self.frame_color(),
        }
    }

    /// What the box looks like.
    pub fn refresh(&self) -> (p: Picture)
        requires
            self.borders_match(),
        ensures
            p == self.picture(),
    {
        let fill_color: i16 = match self.role {
            Role::UnknownYet => UNKNOWN_COLOR,
            Role::NotInWord => NOT_IN_WORD_COLOR,
            Role::NotInPlace => NOT_IN_PLACE_COLOR,
            Role::InPlace => IN_PLACE_COLOR,
        };
        let border_color: Option<i16> = if self.border {
            Some(self.win.box_())
        } else if matches!(self.role, Role::UnknownYet) {
            Some(
                if self.win.get_focus() {
                    FOCUS_COLOR
                } else {
                    NO_FOCUS_COLOR
                },
            )
        } else {
            None
        };
        Picture {
            fill_color: fill_color,
            top: self.top_bw,
            left: self.left_bw,
            pad_width: LB_WIDTH - self.left_bw - self.right_bw,
            fill_rows: LB_WIDTH - self.top_bw - self.bot_bw,
            letter_y: LB_HEIGHT / 2,
            letter_x: LB_WIDTH / 2,
            letter: self.c,
            border_color: border_color,
        }
    }

    /// Gives the letter in the box the role `role`.
    pub fn set_role(&mut self, role: Role)
        ensures
            *final(self) == (Lb { c: upper_ascii(old(self).c), role: role, ..*old(self) }),
    {
        let c: char = self.c;
        self.set(c, role);
    }

    /// The character in the box, a blank if it holds no letter.
    pub fn get(&self) -> (c: char)
        ensures
            c == self.c,
    {
        self.c
    }
}

} // verus!
