//! The grid of letter boxes and the events that change it.

use vstd::prelude::*;
use crate::keys::Key;
use crate::lb::{Lb, Picture, Role, BLANK, LB_HEIGHT, LB_WIDTH};
use crate::text::{alphabetic, ascii_upper, is_alphabetic, lemma_upper_ascii_twice, upper_ascii};
use crate::geometry::{fits_i32, narrow, quot, BOT_BW, LEFT_BW, RIGHT_BW, TOP_BW};
use crate::utils::Win;

verus! {

/// One attempt: a row of letter boxes.
#[derive(Clone, Debug, PartialEq, Eq)]
pub struct Line {
    pub lb: Vec<Lb>,
}

/// The grid: one line for each attempt, and the cursor. `x_focus` is the
/// column of the next letter, which is one past the last box when the line is
/// complete; `y_focus` is the line of the current attempt.
#[derive(Clone, Debug, PartialEq, Eq)]
pub struct Screen {
    pub lines: Vec<Line>,
    pub x_focus: usize,
    pub y_focus: usize,
}

/// The box with the focus given or taken away.
pub open spec fn with_focus(cell: Lb, f: bool) -> Lb {
    Lb { win: Win { focus: f, ..cell.win }, ..cell }
}

/// The box holding `c` (a small ASCII letter as its capital) with the role
/// `role`.
pub open spec fn with_letter(cell: Lb, c: char, role: Role) -> Lb {
    Lb { c: upper_ascii(c), role: role, ..cell }
}

/// The boxes `f` with `ch` and `role` in the box at line `r`, column `c`.
pub open spec fn set_face(f: Seq<Seq<Lb>>, r: int, c: int, ch: char, role: Role) -> Seq<Seq<Lb>> {
    f.update(r, f[r].update(c, with_letter(f[r][c], ch, role)))
}

/// The box apart from the focus.
pub open spec fn face(cell: Lb) -> Lb {
    with_focus(cell, false)
}

impl Screen {
    /// The boxes, line by line.
    pub open spec fn cells(&self) -> Seq<Seq<Lb>> {
        Seq::new(self.lines.len() as nat, |r: int| self.lines[r].lb@)
    }

    /// The boxes apart from the focus: their letters, roles and windows.
    pub open spec fn faces(&self) -> Seq<Seq<Lb>> {
        Seq::new(
            self.lines.len() as nat,
            |r: int| Seq::new(self.lines[r].lb.len() as nat, |c: int| face(self.lines[r].lb[c])),
        )
    }

    /// The number of attempts.
    pub open spec fn height(&self) -> int {
        self.lines.len() as int
    }

    /// The length of the word.
    pub open spec fn width(&self) -> int {
        self.lines[0].lb.len() as int
    }

    /// The column of the box that has the focus: the cursor's, or the last
    /// one when the cursor stands behind the complete line.
    pub open spec fn focus_col(&self) -> int {
        if self.x_focus < self.width() {
            self.x_focus as int
        } else {
            self.width() - 1
        }
    }

    /// Whether the current line is complete and waits to be checked.
    pub open spec fn ready(&self) -> bool {
        self.x_focus == self.width()
    }

    /// The grid is a rectangle with at least one box, the cursor is inside
    /// it or just behind a line, every box keeps its letter as a capital,
    /// and the box under the cursor has the focus and no other has.
    pub open spec fn wf(&self) -> bool {
        &&& self.height() >= 1
        &&& self.width() >= 1
        &&& self.y_focus < self.height()
        &&& self.x_focus <= self.width()
        &&& forall|r: int| 0 <= r < self.height() ==> (#[trigger] self.lines[r]).lb.len() == self.width()
        &&& forall|r: int, c: int|
            0 <= r < self.height() && 0 <= c < self.width() ==> {
                let cell = #[trigger] self.lines[r].lb[c];
                &&& cell.borders_match()
                &&& upper_ascii(cell.c) == cell.c
                &&& cell.win.focus == (r == self.y_focus && c == self.focus_col())
            }
    }

    /// The letters of line `r`, blanks included.
    pub open spec fn word(&self, r: int) -> Seq<char> {
        Seq::new(self.lines[r].lb.len() as nat, |c: int| self.lines[r].lb[c].c)
    }

    /// The roles of line `r`.
    pub open spec fn roles(&self, r: int) -> Seq<Role> {
        Seq::new(self.lines[r].lb.len() as nat, |c: int| self.lines[r].lb[c].role)
    }
}

/// In a well-formed grid exactly one box has the focus: the one in the
/// cursor's line at the focus column.
pub proof fn lemma_one_focus(s: Screen)
    requires
        s.wf(),
    ensures
        0 <= s.y_focus < s.height(),
        0 <= s.focus_col() < s.width(),
        s.cells()[s.y_focus as int][s.focus_col()].win.focus,
        forall|r: int, c: int|
            0 <= r < s.height() && 0 <= c < s.width() && (#[trigger] s.cells()[r][c]).win.focus
                ==> r == s.y_focus && c == s.focus_col(),
{
    assert(s.lines[s.y_focus as int].lb[s.focus_col()].win.focus);
    assert forall|r: int, c: int|
        0 <= r < s.height() && 0 <= c < s.width() && (#[trigger] s.cells()[r][c]).win.focus
        implies r == s.y_focus && c == s.focus_col() by {
        assert(s.lines[r].lb[c].win.focus);
    }
}

impl Screen {
    /// The length of the word.
    pub fn word_len(&self) -> (w: usize)
        requires
            self.height() >= 1,
        ensures
            w == self.width(),
    {
        self.lines[0].lb.len()
    }

    /// Whether the current line is complete and waits to be checked.
    pub fn is_ready(&self) -> (b: bool)
        requires
            self.wf(),
        ensures
            b == self.ready(),
    {
        self.x_focus >= self.lines[self.y_focus].lb.len()
    }

    /// Gives the box at line `r`, column `c` the focus or takes it away.
    fn set_cell_focus(&mut self, r: usize, c: usize, f: bool)
        requires
            r < old(self).lines.len(),
            c < old(self).lines[r as int].lb.len(),
        ensures
            final(self).x_focus == old(self).x_focus,
            final(self).y_focus == old(self).y_focus,
            final(self).lines.len() == old(self).lines.len(),
            forall|k: int|
                0 <= k < old(self).lines.len() && k != r ==> final(self).lines[k] == old(
                    self,
                ).lines[k],
            final(self).lines[r as int].lb@ == old(self).lines[r as int].lb@.update(
                c as int,
                with_focus(old(self).lines[r as int].lb[c as int], f),
            ),
    {
        self.lines[r].lb[c].win.set_focus(f);
        assert(self.lines[r as int].lb@ =~= old(self).lines[r as int].lb@.update(
            c as int,
            with_focus(old(self).lines[r as int].lb[c as int], f),
        ));
    }

    /// Puts `ch` with the role `role` into the box at line `r`, column `c`.
    fn put(&mut self, r: usize, c: usize, ch: char, role: Role)
        requires
            r < old(self).lines.len(),
            c < old(self).lines[r as int].lb.len(),
        ensures
            final(self).x_focus == old(self).x_focus,
            final(self).y_focus == old(self).y_focus,
            final(self).lines.len() == old(self).lines.len(),
            forall|k: int|
                0 <= k < old(self).lines.len() && k != r ==> final(self).lines[k] == old(
                    self,
                ).lines[k],
            final(self).lines[r as int].lb@ == old(self).lines[r as int].lb@.update(
                c as int,
                with_letter(old(self).lines[r as int].lb[c as int], ch, role),
            ),
    {
        self.lines[r].lb[c].set(ch, role);
        assert(self.lines[r as int].lb@ =~= old(self).lines[r as int].lb@.update(
            c as int,
            with_letter(old(self).lines[r as int].lb[c as int], ch, role),
        ));
    }

    /// Moves the cursor to column `x` of line `y`, and the focus with it.
    pub(crate) fn move_to(&mut self, x: usize, y: usize)
        requires
            old(self).wf(),
            y < old(self).height(),
            x <= old(self).width(),
        ensures
            final(self).wf(),
            final(self).x_focus == x,
            final(self).y_focus == y,
            final(self).faces() == old(self).faces(),
            final(self).height() == old(self).height(),
            final(self).width() == old(self).width(),
    {
        let w: usize = self.word_len();
        let from: usize = if self.x_focus < w {
            self.x_focus
        } else {
            w - 1
        };
        let to: usize = if x < w {
            x
        } else {
            w - 1
        };
        let row: usize = self.y_focus;
        self.set_cell_focus(row, from, false);
        let ghost mid = *self;
        self.x_focus = x;
        self.y_focus = y;
        self.set_cell_focus(y, to, true);
        proof {
            assert forall|r: int| 0 <= r < self.height() implies (#[trigger] self.lines[r]).lb.len()
                == self.width() by {
                assert(old(self).lines[r].lb.len() == old(self).width());
                assert(mid.lines[r].lb.len() == old(self).width());
            }
            assert forall|r: int, c: int| 0 <= r < self.height() && 0 <= c < self.width() implies {
                let cell = #[trigger] self.lines[r].lb[c];
                &&& cell.borders_match()
                &&& upper_ascii(cell.c) == cell.c
                &&& cell.win.focus == (r == self.y_focus && c == self.focus_col())
                &&& face(cell) == face(old(self).lines[r].lb[c])
            } by {
                let before = old(self).lines[r].lb[c];
                let between = mid.lines[r].lb[c];
                assert(before.borders_match());
                assert(between == if r == row && c == from {
                    with_focus(before, false)
                } else {
                    before
                });
            }
            assert(self.faces() =~~= old(self).faces());
        }
    }
}

impl Screen {
    /// Moves the cursor one box to the right, unless it stands on the last
    /// box or behind it.
    pub fn right(&mut self)
        requires
            old(self).wf(),
        ensures
            final(self).wf(),
            final(self).faces() == old(self).faces(),
            final(self).height() == old(self).height(),
            final(self).width() == old(self).width(),
            final(self).y_focus == old(self).y_focus,
            final(self).x_focus == if old(self).x_focus + 1 < old(self).width() {
                old(self).x_focus + 1
            } else {
                old(self).x_focus as int
            },
    {
        if self.x_focus < self.lines[0].lb.len() - 1 {
            let x: usize = self.x_focus + 1;
            let y: usize = self.y_focus;
            self.move_to(x, y);
        }
    }

    /// Moves the cursor one box to the left, unless it stands on the first
    /// box.
    pub fn left(&mut self)
        requires
            old(self).wf(),
        ensures
            final(self).wf(),
            final(self).faces() == old(self).faces(),
            final(self).height() == old(self).height(),
            final(self).width() == old(self).width(),
            final(self).y_focus == old(self).y_focus,
            final(self).x_focus == if old(self).x_focus > 0 {
                old(self).x_focus - 1
            } else {
                0
            },
    {
        if self.x_focus > 0 {
            let x: usize = self.x_focus - 1;
            let y: usize = self.y_focus;
            self.move_to(x, y);
        }
    }

    /// Moves the cursor one line up, unless it stands in the first line.
    pub fn up(&mut self)
        requires
            old(self).wf(),
        ensures
            final(self).wf(),
            final(self).faces() == old(self).faces(),
            final(self).height() == old(self).height(),
            final(self).width() == old(self).width(),
            final(self).x_focus == old(self).x_focus,
            final(self).y_focus == if old(self).y_focus > 0 {
                old(self).y_focus - 1
            } else {
                0
            },
    {
        if self.y_focus > 0 {
            let x: usize = self.x_focus;
            let y: usize = self.y_focus - 1;
            self.move_to(x, y);
        }
    }

    /// Moves the cursor one line down, unless it stands in the last line.
    pub fn down(&mut self)
        requires
            old(self).wf(),
        ensures
            final(self).wf(),
            final(self).faces() == old(self).faces(),
            final(self).height() == old(self).height(),
            final(self).width() == old(self).width(),
            final(self).x_focus == old(self).x_focus,
            final(self).y_focus == if old(self).y_focus + 1 < old(self).height() {
                old(self).y_focus + 1
            } else {
                old(self).y_focus as int
            },
    {
        if self.y_focus < self.lines.len() - 1 {
            let x: usize = self.x_focus;
            let y: usize = self.y_focus + 1;
            self.move_to(x, y);
        }
    }

    /// Changes the letter and the role of the box at line `r`, column `c`,
    /// and keeps the grid well-formed.
    pub(crate) fn write(&mut self, r: usize, c: usize, ch: char, role: Role)
        requires
            old(self).wf(),
            r < old(self).height(),
            c < old(self).width(),
        ensures
            final(self).wf(),
            final(self).x_focus == old(self).x_focus,
            final(self).y_focus == old(self).y_focus,
            final(self).height() == old(self).height(),
            final(self).width() == old(self).width(),
            final(self).faces() == set_face(old(self).faces(), r as int, c as int, ch, role),
    {
        assert(old(self).lines[r as int].lb.len() == old(self).width());
        self.put(r, c, ch, role);
        proof {
            lemma_upper_ascii_twice(ch);
            assert forall|k: int| 0 <= k < self.height() implies (#[trigger] self.lines[k]).lb.len()
                == self.width() by {
                assert(old(self).lines[k].lb.len() == old(self).width());
            }
            assert forall|k: int, j: int| 0 <= k < self.height() && 0 <= j < self.width() implies {
                let cell = #[trigger] self.lines[k].lb[j];
                &&& cell.borders_match()
                &&& upper_ascii(cell.c) == cell.c
                &&& cell.win.focus == (k == self.y_focus && j == self.focus_col())
            } by {
                let before = old(self).lines[k].lb[j];
                assert(before.borders_match());
            }
            assert(self.faces() =~~= old(self).faces().update(
                r as int,
                old(self).faces()[r as int].update(
                    c as int,
                    with_letter(old(self).faces()[r as int][c as int], ch, role),
                ),
            ));
        }
    }
}

impl Screen {
    /// The boxes with `c` in the box under the cursor, its role not known
    /// yet. Behind a complete line nothing changes.
    pub open spec fn put_faces(&self, c: char) -> Seq<Seq<Lb>> {
        if self.x_focus < self.width() {
            set_face(self.faces(), self.y_focus as int, self.x_focus as int, c, Role::UnknownYet)
        } else {
            self.faces()
        }
    }

    /// Puts `c` into the box under the cursor, a small ASCII letter as its
    /// capital, and moves the cursor on, behind the line if that was its
    /// last box. Behind a complete line nothing changes.
    pub fn put_letter(&mut self, c: char)
        requires
            old(self).wf(),
        ensures
            final(self).wf(),
            final(self).height() == old(self).height(),
            final(self).width() == old(self).width(),
            final(self).y_focus == old(self).y_focus,
            final(self).faces() == old(self).put_faces(c),
            final(self).x_focus == if old(self).x_focus < old(self).width() {
                old(self).x_focus + 1
            } else {
                old(self).x_focus as int
            },
            old(self).ready() ==> *final(self) == *old(self),
    {
        let w: usize = self.word_len();
        if self.x_focus < w {
            let x: usize = self.x_focus;
            let y: usize = self.y_focus;
            self.write(y, x, c, Role::UnknownYet);
            self.move_to(x + 1, y);
        }
    }

    /// The boxes after the character `c` is typed: a letter stands in the
    /// box under the cursor; for a character that is no letter nothing
    /// changes.
    pub open spec fn typed_faces(&self, c: char) -> Seq<Seq<Lb>> {
        if alphabetic(c) {
            self.put_faces(c)
        } else {
            self.faces()
        }
    }

    /// A character is typed: a letter goes into the box under the cursor
    /// and the cursor moves on; anything else is ignored.
    pub fn type_letter(&mut self, c: char)
        requires
            old(self).wf(),
        ensures
            final(self).wf(),
            final(self).height() == old(self).height(),
            final(self).width() == old(self).width(),
            final(self).y_focus == old(self).y_focus,
            final(self).faces() == old(self).typed_faces(c),
            final(self).x_focus == if alphabetic(c) && old(self).x_focus < old(self).width() {
                old(self).x_focus + 1
            } else {
                old(self).x_focus as int
            },
            !(alphabetic(c) && old(self).x_focus < old(self).width()) ==> *final(self) == *old(self),
    {
        if is_alphabetic(c) {
            self.put_letter(c);
        }
    }

    /// The boxes after a deletion: the box that the cursor steps back to is
    /// emptied, and so is the box that it leaves, if it stood on one. With
    /// the cursor on the first box nothing changes.
    pub open spec fn erased_faces(&self) -> Seq<Seq<Lb>> {
        if self.x_focus > 0 {
            let left = if self.x_focus < self.width() {
                set_face(
                    self.faces(),
                    self.y_focus as int,
                    self.x_focus as int,
                    BLANK,
                    Role::UnknownYet,
                )
            } else {
                self.faces()
            };
            set_face(left, self.y_focus as int, self.x_focus - 1, BLANK, Role::UnknownYet)
        } else {
            self.faces()
        }
    }

    /// A letter is taken back: the cursor steps one box back and empties
    /// it. It never leaves the line.
    pub fn backspace(&mut self)
        requires
            old(self).wf(),
        ensures
            final(self).wf(),
            final(self).height() == old(self).height(),
            final(self).width() == old(self).width(),
            final(self).y_focus == old(self).y_focus,
            final(self).faces() == old(self).erased_faces(),
            final(self).x_focus == if old(self).x_focus > 0 {
                old(self).x_focus - 1
            } else {
                0
            },
            old(self).x_focus == 0 ==> *final(self) == *old(self),
    {
        if self.x_focus > 0 {
            let x: usize = self.x_focus;
            let y: usize = self.y_focus;
            if x < self.lines[0].lb.len() {
                self.write(y, x, BLANK, Role::UnknownYet);
            }
            self.write(y, x - 1, BLANK, Role::UnknownYet);
            self.move_to(x - 1, y);
        }
    }
}

/// Why a grid cannot be made.
#[derive(Clone, Copy, Debug, PartialEq, Eq)]
pub enum GridError {
    /// The word has no letters or there are no attempts.
    Empty,
    /// A box would stand beyond the range of the machine's integers.
    TooLarge,
}

/// The box is as it is made: empty, its role not known yet, without a
/// border of its own, at column `x` and row `y` of the screen.
pub open spec fn fresh(cell: Lb, focus: bool, x: int, y: int) -> bool {
    &&& cell.borders_match()
    &&& !cell.border
    &&& cell.c == BLANK
    &&& cell.role == Role::UnknownYet
    &&& cell.win.focus == focus
    &&& cell.win.title@ == Seq::<char>::empty()
    &&& cell.win.height == LB_HEIGHT
    &&& cell.win.width == LB_WIDTH
    &&& cell.win.x_offs == x
    &&& cell.win.y_offs == y
    &&& cell.win.xcurs == LEFT_BW
    &&& cell.win.ycurs == TOP_BW
}

/// Whether a grid of `tries` lines of `word_len` boxes, the first at
/// column `startx` and row `starty`, stays within the machine's integers.
pub open spec fn grid_fits(word_len: int, tries: int, startx: int, starty: int) -> bool {
    &&& fits_i32(startx + LB_WIDTH * (word_len - 1))
    &&& fits_i32(starty + LB_HEIGHT * (tries - 1))
}

impl Screen {
    /// A line of `word_len` empty boxes from column `startx` of row `y`;
    /// the first has the focus if `focus` says so.
    fn new_line(word_len: usize, focus: bool, startx: i32, y: i32) -> (line: Line)
        requires
            word_len >= 1,
            fits_i32(startx + LB_WIDTH * (word_len - 1)),
        ensures
            line.lb.len() == word_len,
            forall|c: int|
                0 <= c < word_len ==> fresh(
                    #[trigger] line.lb[c],
                    focus && c == 0,
                    startx + LB_WIDTH * c,
                    y as int,
                ),
    {
        let mut line: Line = Line { lb: Vec::new() };
        let mut c: usize = 0;
        let mut x: i32 = startx;
        while c < word_len
            invariant
                c <= word_len,
                word_len >= 1,
                fits_i32(startx + LB_WIDTH * (word_len - 1)),
                c < word_len ==> x == startx + LB_WIDTH * c,
                line.lb.len() == c,
                forall|k: int|
                    0 <= k < c ==> fresh(
                        #[trigger] line.lb[k],
                        focus && k == 0,
                        startx + LB_WIDTH * k,
                        y as int,
                    ),
            decreases word_len - c,
        {
            line.lb.push(Lb::new(false, focus && c == 0, x, y));
            c += 1;
            if c < word_len {
                x = x + LB_WIDTH;
            }
        }
        line
    }

    /// The grid at the start of a round: `tries` lines of `word_len` empty
    /// boxes, three columns and three rows each, the first at column
    /// `startx` and row `starty`, the cursor and the focus on the first box
    /// of the first line.
    pub fn new(word_len: usize, tries: usize, startx: i32, starty: i32) -> (r: Result<
        Screen,
        GridError,
    >)
        ensures
            match r {
                Ok(s) => {
                    &&& word_len >= 1
                    &&& tries >= 1
                    &&& grid_fits(word_len as int, tries as int, startx as int, starty as int)
                    &&& s.wf()
                    &&& s.height() == tries
                    &&& s.width() == word_len
                    &&& s.x_focus == 0
                    &&& s.y_focus == 0
                    &&& forall|r: int, c: int|
                        0 <= r < tries && 0 <= c < word_len ==> fresh(
                            #[trigger] s.lines[r].lb[c],
                            r == 0 && c == 0,
                            startx + LB_WIDTH * c,
                            starty + LB_HEIGHT * r,
                        )
                },
                Err(GridError::Empty) => word_len == 0 || tries == 0,
                Err(GridError::TooLarge) => {
                    &&& word_len >= 1
                    &&& tries >= 1
                    &&& !grid_fits(word_len as int, tries as int, startx as int, starty as int)
                },
            },
    {
        if word_len == 0 || tries == 0 {
            return Err(GridError::Empty);
        }
        if word_len > 1431655766 || tries > 1431655766 {
            return Err(GridError::TooLarge);
        }
        let last_x: Option<i32> = narrow(startx as i64 + LB_WIDTH as i64 * (word_len as i64 - 1));
        let last_y: Option<i32> = narrow(starty as i64 + LB_HEIGHT as i64 * (tries as i64 - 1));
        if last_x.is_none() || last_y.is_none() {
            return Err(GridError::TooLarge);
        }
        let mut screen: Screen = Screen { lines: Vec::new(), x_focus: 0, y_focus: 0 };
        let mut r: usize = 0;
        let mut y: i32 = starty;
        while r < tries
            invariant
                r <= tries,
                word_len >= 1,
                grid_fits(word_len as int, tries as int, startx as int, starty as int),
                r < tries ==> y == starty + LB_HEIGHT * r,
                screen.x_focus == 0,
                screen.y_focus == 0,
                screen.lines.len() == r,
                forall|k: int| 0 <= k < r ==> (#[trigger] screen.lines[k]).lb.len() == word_len,
                forall|k: int, c: int|
                    0 <= k < r && 0 <= c < word_len ==> fresh(
                        #[trigger] screen.lines[k].lb[c],
                        k == 0 && c == 0,
                        startx + LB_WIDTH * c,
                        starty + LB_HEIGHT * k,
                    ),
            decreases tries - r,
        {
            let line: Line = Screen::new_line(word_len, r == 0, startx, y);
            screen.lines.push(line);
            r += 1;
            if r < tries {
                y = y + LB_HEIGHT;
            }
        }
        Ok(screen)
    }
}

/// What the caller is to do after a key.
#[derive(Clone, Copy, Debug, PartialEq, Eq)]
pub enum Action {
    /// Draw the grid again, nothing more.
    Nothing,
    /// Ask whether the player wants to leave.
    ConfirmExit,
    /// Show the help screen.
    ShowHelp,
    /// Check the word of the current line.
    Check,
}

/// Where the cursor stands after a key that moves it: the column and the
/// line.
pub open spec fn moved(before: Screen, key: Key) -> (int, int) {
    let x = before.x_focus as int;
    let y = before.y_focus as int;
    match key {
        Key::Left => (if x > 0 { x - 1 } else { x }, y),
        Key::Right => (if x + 1 < before.width() { x + 1 } else { x }, y),
        Key::Up => (x, if y > 0 { y - 1 } else { y }),
        Key::Down => (x, if y + 1 < before.height() { y + 1 } else { y }),
        _ => (x, y),
    }
}

/// The grid `after` and the action `act` are what the key `key` makes of
/// the grid `before`.
///
/// The exit key and the help key leave the grid alone and ask for the
/// dialogue. Enter asks for the check if the line is complete, and does
/// nothing else. Backspace and letters edit the current line. The arrows
/// move the cursor, in debug mode only, and change no box. Whatever the key,
/// the grid stays well-formed and keeps its size.
pub open spec fn pressed(before: Screen, after: Screen, key: Key, debug: bool, act: Action) -> bool {
    &&& after.wf()
    &&& after.height() == before.height()
    &&& after.width() == before.width()
    &&& match key {
        Key::Exit => after == before && act == Action::ConfirmExit,
        Key::Help => after == before && act == Action::ShowHelp,
        Key::Enter => after == before && act == if before.ready() {
            Action::Check
        } else {
            Action::Nothing
        },
        Key::Backspace => {
            &&& act == Action::Nothing
            &&& after.faces() == before.erased_faces()
            &&& after.y_focus == before.y_focus
            &&& after.x_focus == if before.x_focus > 0 {
                before.x_focus - 1
            } else {
                0
            }
        },
        Key::Letter(c) => {
            &&& act == Action::Nothing
            &&& after.faces() == before.typed_faces(c)
            &&& after.y_focus == before.y_focus
            &&& after.x_focus == if alphabetic(c) && before.x_focus < before.width() {
                before.x_focus + 1
            } else {
                before.x_focus as int
            }
        },
        Key::Other => after == before && act == Action::Nothing,
        _ => {
            &&& act == Action::Nothing
            &&& if debug {
                &&& after.faces() == before.faces()
                &&& (after.x_focus as int, after.y_focus as int) == moved(before, key)
            } else {
                after == before
            }
        },
    }
}

impl Screen {
    /// Takes one key: edits the grid or moves the cursor as the key asks,
    /// and tells what the caller is to do.
    pub fn press(&mut self, key: Key, debug: bool) -> (act: Action)
        requires
            old(self).wf(),
        ensures
            pressed(*old(self), *final(self), key, debug, act),
    {
        match key {
            Key::Exit => Action::ConfirmExit,
            Key::Help => Action::ShowHelp,
            Key::Enter => {
                if self.is_ready() {
                    Action::Check
                } else {
                    Action::Nothing
                }
            },
            Key::Backspace => {
                self.backspace();
                Action::Nothing
            },
            Key::Letter(c) => {
                self.type_letter(c);
                Action::Nothing
            },
            Key::Left => {
                if debug {
                    self.left();
                }
                Action::Nothing
            },
            Key::Right => {
                if debug {
                    self.right();
                }
                Action::Nothing
            },
            Key::Up => {
                if debug {
                    self.up();
                }
                Action::Nothing
            },
            Key::Down => {
                if debug {
                    self.down();
                }
                Action::Nothing
            },
            Key::Other => Action::Nothing,
        }
    }
}

/// Outside debug mode no key moves the cursor to another line: only a
/// checked word does.
pub proof fn lemma_keys_stay_in_line(
    before: Screen,
    after: Screen,
    key: Key,
    act: Action,
)
    requires
        pressed(before, after, key, false, act),
    ensures
        after.y_focus == before.y_focus,
{
}

/// The grids `states` follow one another by the keys `keys`: each is what
/// the key before it made of the grid before it.
pub open spec fn played(states: Seq<Screen>, keys: Seq<Key>, debug: bool) -> bool {
    &&& states.len() == keys.len() + 1
    &&& forall|i: int| 0 <= i < keys.len() ==> #[trigger] follows(states, keys, debug, i)
}

/// The grid behind the key `i` is what that key made of the grid before
/// it.
pub open spec fn follows(states: Seq<Screen>, keys: Seq<Key>, debug: bool, i: int) -> bool {
    exists|act: Action| #[trigger] pressed(states[i], states[i + 1], keys[i], debug, act)
}

/// After any sequence of keys exactly one box has the focus: in each grid
/// that the keys lead through, the box in the cursor's line at the focus
/// column has the focus, and no other box has.
pub proof fn lemma_focus_after_keys(states: Seq<Screen>, keys: Seq<Key>, debug: bool, n: int)
    requires
        states[0].wf(),
        played(states, keys, debug),
        0 <= n <= keys.len(),
    ensures
        states[n].wf(),
        states[n].cells()[states[n].y_focus as int][states[n].focus_col()].win.focus,
        forall|r: int, c: int|
            0 <= r < states[n].height() && 0 <= c < states[n].width() && (
            #[trigger] states[n].cells()[r][c]).win.focus ==> r == states[n].y_focus && c
                == states[n].focus_col(),
{
    if n > 0 {
        assert(follows(states, keys, debug, n - 1));
    }
    lemma_one_focus(states[n]);
}

/// Where something `len` long starts on a stretch `total` long: after a
/// third of what is left, or after two thirds of it.
pub open spec fn centered(total: int, len: int, first: bool) -> int {
    if first {
        quot(total - len, 3)
    } else {
        quot((total - len) * 2, 3)
    }
}

/// Where something `len` long starts on a stretch `total` long.
pub fn center(total: i32, len: i32, first: bool) -> (r: i32)
    requires
        fits_i32(total - len),
        !first ==> fits_i32((total - len) * 2),
    ensures
        r == centered(total as int, len as int, first),
{
    if first {
        (total - len) / 3
    } else {
        (total - len) * 2 / 3
    }
}

/// The row of the grid's first line on a screen of `rows` rows whose
/// bottom `help_height` rows are the help panel: two thirds down the rows
/// that are left, or the top row if the panel leaves none.
pub open spec fn origin_row(rows: int, help_height: int, tries: int) -> int {
    if rows > help_height {
        centered(rows - help_height, LB_HEIGHT * tries, false)
    } else {
        0
    }
}

/// Whether the grid's place can be computed within the machine's integers.
pub open spec fn origin_fits(
    cols: int,
    rows: int,
    help_height: int,
    word_len: int,
    tries: int,
) -> bool {
    &&& fits_i32(LB_WIDTH * word_len)
    &&& fits_i32(LB_HEIGHT * tries)
    &&& fits_i32(cols - LB_WIDTH * word_len)
    &&& rows > help_height ==> {
        &&& fits_i32(rows - help_height)
        &&& fits_i32(rows - help_height - LB_HEIGHT * tries)
        &&& fits_i32((rows - help_height - LB_HEIGHT * tries) * 2)
    }
}

/// The column and the row of the grid's first box on a screen of `cols`
/// columns and `rows` rows whose bottom `help_height` rows are the help
/// panel: a third of the free columns to the left, two thirds of the free
/// rows above.
pub fn origin(cols: i32, rows: i32, help_height: i32, word_len: i32, tries: i32) -> (r: Option<
    (i32, i32),
>)
    ensures
        match r {
            Some((x, y)) => {
                &&& origin_fits(
                    cols as int,
                    rows as int,
                    help_height as int,
                    word_len as int,
                    tries as int,
                )
                &&& x == centered(cols as int, LB_WIDTH * word_len, true)
                &&& y == origin_row(rows as int, help_height as int, tries as int)
            },
            None => !origin_fits(
                cols as int,
                rows as int,
                help_height as int,
                word_len as int,
                tries as int,
            ),
        },
{
    let wide: i32 = match narrow(LB_WIDTH as i64 * word_len as i64) {
        Some(v) => v,
        None => {
            return None;
        },
    };
    let high: i32 = match narrow(LB_HEIGHT as i64 * tries as i64) {
        Some(v) => v,
        None => {
            return None;
        },
    };
    if narrow(cols as i64 - wide as i64).is_none() {
        return None;
    }
    let startx: i32 = center(cols, wide, true);
    let starty: i32 = if rows > help_height {
        let free: i32 = match narrow(rows as i64 - help_height as i64) {
            Some(v) => v,
            None => {
                return None;
            },
        };
        if narrow(free as i64 - high as i64).is_none() || narrow(
            (free as i64 - high as i64) * 2,
        ).is_none() {
            return None;
        }
        center(free, high, false)
    } else {
        0
    };
    Some((startx, starty))
}

impl Screen {
    /// Whether the grid is well-formed. A grid that was made by `new` and
    /// changed by the methods of this type is; one whose fields were written
    /// from outside may not be.
    pub fn is_well_formed(&self) -> (b: bool)
        ensures
            b == self.wf(),
    {
        let h: usize = self.lines.len();
        if h == 0 {
            return false;
        }
        let w: usize = self.lines[0].lb.len();
        if w == 0 || self.y_focus >= h || self.x_focus > w {
            return false;
        }
        let fc: usize = if self.x_focus < w {
            self.x_focus
        } else {
            w - 1
        };
        let mut r: usize = 0;
        while r < h
            invariant
                r <= h,
                h == self.height(),
                w == self.width(),
                w >= 1,
                self.y_focus < h,
                self.x_focus <= w,
                fc == self.focus_col(),
                forall|k: int| 0 <= k < r ==> (#[trigger] self.lines[k]).lb.len() == w,
                forall|k: int, j: int|
                    0 <= k < r && 0 <= j < w ==> {
                        let cell = #[trigger] self.lines[k].lb[j];
                        &&& cell.borders_match()
                        &&& upper_ascii(cell.c) == cell.c
                        &&& cell.win.focus == (k == self.y_focus && j == self.focus_col())
                    },
            decreases h - r,
        {
            if self.lines[r].lb.len() != w {
                assert((#[trigger] self.lines[r as int]).lb.len() != self.width());
                return false;
            }
            let mut c: usize = 0;
            while c < w
                invariant
                    c <= w,
                    r < h,
                    h == self.height(),
                    w == self.width(),
                    fc == self.focus_col(),
                    self.lines[r as int].lb.len() == w,
                    forall|j: int|
                        0 <= j < c ==> {
                            let cell = #[trigger] self.lines[r as int].lb[j];
                            &&& cell.borders_match()
                            &&& upper_ascii(cell.c) == cell.c
                            &&& cell.win.focus == (r == self.y_focus && j == self.focus_col())
                        },
                decreases w - c,
            {
                let cell = &self.lines[r].lb[c];
                let framed: bool = if cell.border {
                    cell.left_bw == LEFT_BW && cell.right_bw == RIGHT_BW && cell.top_bw == TOP_BW
                        && cell.bot_bw == BOT_BW
                } else {
                    cell.left_bw == 0 && cell.right_bw == 0 && cell.top_bw == 0 && cell.bot_bw == 0
                };
                let capital: bool = ascii_upper(cell.c) == cell.c;
                let lit: bool = cell.win.focus == (r == self.y_focus && c == fc);
                if !(framed && capital && lit) {
                    proof {
                        let bad = self.lines[r as int].lb[c as int];
                        assert(!(bad.borders_match() && upper_ascii(bad.c) == bad.c && bad.win.focus
                            == (r == self.y_focus && c == self.focus_col())));
                    }
                    return false;
                }
                c += 1;
            }
            r += 1;
        }
        true
    }
}

impl Screen {
    /// What the grid looks like: the picture of each box, line by line.
    pub fn refresh(&self) -> (out: Vec<Vec<Picture>>)
        requires
            self.wf(),
        ensures
            out.len() == self.height(),
            forall|r: int| 0 <= r < self.height() ==> (#[trigger] out[r]).len() == self.width(),
            forall|r: int, c: int|
                0 <= r < self.height() && 0 <= c < self.width() ==> #[trigger] out[r][c]
                    == self.lines[r].lb[c].picture(),
    {
        let mut out: Vec<Vec<Picture>> = Vec::new();
        let mut r: usize = 0;
        while r < self.lines.len()
            invariant
                self.wf(),
                r <= self.lines.len(),
                out.len() == r,
                forall|k: int| 0 <= k < r ==> (#[trigger] out[k]).len() == self.width(),
                forall|k: int, c: int|
                    0 <= k < r && 0 <= c < self.width() ==> #[trigger] out[k][c]
                        == self.lines[k].lb[c].picture(),
            decreases self.lines.len() - r,
        {
            let mut row: Vec<Picture> = Vec::new();
            let mut c: usize = 0;
            assert(self.lines[r as int].lb.len() == self.width());
            while c < self.lines[r].lb.len()
                invariant
                    self.wf(),
                    r < self.lines.len(),
                    self.lines[r as int].lb.len() == self.width(),
                    c <= self.lines[r as int].lb.len(),
                    row.len() == c,
                    forall|j: int| 0 <= j < c ==> #[trigger] row[j] == self.lines[r as int].lb[j].picture(),
                decreases self.lines[r as int].lb.len() - c,
            {
                assert(self.lines[r as int].lb[c as int].borders_match());
                row.push(self.lines[r].lb[c].refresh());
                c += 1;
            }
            out.push(row);
            r += 1;
        }
        out
    }
}

} // verus!
