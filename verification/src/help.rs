//! The help panel at the bottom of the screen and the help screen.

use vstd::prelude::*;
use crate::geometry::{
    fits_i32, halve, narrow, quot, BOT_BW, FOCUS_COLOR, HELP_COLOR, IN_PLACE_COLOR, LEFT_BW,
    NORM_COLOR, NOT_IN_PLACE_COLOR, NOT_IN_WORD_COLOR, NO_FOCUS_COLOR, RIGHT_BW, TOP_BW,
};
use crate::layout::{
    extend_script, lemma_orderly_concat, lemma_walks_agree, measure, measuring_pen, orderly,
    orderly_upto, place, place_fits, placed, placing_pen, runs_of, saved, script_of, slots_known,
    text, walk, walk_fits, Cursor, Directive, HelpElement, LayoutError, Run, RunView,
};
use crate::text::{byte_len, lines, lines_of, text_len, texts_of, widest, widest_of};

verus! {

/// The keys that the puzzle answers to.
pub open spec fn keys_script() -> Seq<Directive> {
    seq![
        Directive::Color(NORM_COLOR as int),
        Directive::Text("F1        - Display this help screen"@),
        Directive::NewLine,
        Directive::Text("F10       - Exit"@),
        Directive::NewLine,
        Directive::Text("Enter     - "@),
        Directive::Save(0),
        Directive::Text("Check word if it is completed, no action otherwise"@),
        Directive::NewLine,
        Directive::Text("Backspace - "@),
        Directive::Save(0),
        Directive::Text("Remove last letter in the word and move a focus backward"@),
        Directive::NewLine,
        Directive::Restore(0),
        Directive::Text("works even if word is completed but no checked yet"@),
        Directive::NewLine,
        Directive::NewLine,
    ]
}

/// The keys that the puzzle answers to.
pub fn keys_part() -> (v: Vec<HelpElement>)
    ensures
        script_of(v@) == keys_script(),
{
    let mut v: Vec<HelpElement> = Vec::new();
    v.push(HelpElement::Color(NORM_COLOR));
    v.push(text("F1        - Display this help screen"));
    v.push(HelpElement::NewLine);
    v.push(text("F10       - Exit"));
    v.push(HelpElement::NewLine);
    v.push(text("Enter     - "));
    v.push(HelpElement::SavePosition(0));
    v.push(text("Check word if it is completed, no action otherwise"));
    v.push(HelpElement::NewLine);
    v.push(text("Backspace - "));
    v.push(HelpElement::SavePosition(0));
    v.push(text("Remove last letter in the word and move a focus backward"));
    v.push(HelpElement::NewLine);
    v.push(HelpElement::RestorePosition(0));
    v.push(text("works even if word is completed but no checked yet"));
    v.push(HelpElement::NewLine);
    v.push(HelpElement::NewLine);
    assert(script_of(v@) =~= keys_script());
    v
}

/// The legend's heading and the cell in focus.
pub open spec fn focus_script() -> Seq<Directive> {
    seq![
        Directive::Text("Legend: "@),
        Directive::Save(0),
        Directive::NewLine,
        Directive::Restore(0),
        Directive::Color(FOCUS_COLOR as int),
        Directive::Text("| |"@),
        Directive::Color(NORM_COLOR as int),
        Directive::Text(" - "@),
        Directive::Save(1),
        Directive::Text("This cell in a focus, any alphanumeric character"@),
        Directive::NewLine,
        Directive::Restore(1),
        Directive::Text("pressed on keyboard will be inserterd to the cell"@),
        Directive::NewLine,
    ]
}

/// The legend's heading and the cell in focus.
pub fn focus_part() -> (v: Vec<HelpElement>)
    ensures
        script_of(v@) == focus_script(),
{
    let mut v: Vec<HelpElement> = Vec::new();
    v.push(text("Legend: "));
    v.push(HelpElement::SavePosition(0));
    v.push(HelpElement::NewLine);
    v.push(HelpElement::RestorePosition(0));
    v.push(HelpElement::Color(FOCUS_COLOR));
    v.push(text("| |"));
    v.push(HelpElement::Color(NORM_COLOR));
    v.push(text(" - "));
    v.push(HelpElement::SavePosition(1));
    v.push(text("This cell in a focus, any alphanumeric character"));
    v.push(HelpElement::NewLine);
    v.push(HelpElement::RestorePosition(1));
    v.push(text("pressed on keyboard will be inserterd to the cell"));
    v.push(HelpElement::NewLine);
    assert(script_of(v@) =~= focus_script());
    v
}

/// The cell that holds a letter of a word not yet checked.
pub open spec fn pending_script() -> Seq<Directive> {
    seq![
        Directive::Restore(0),
        Directive::Color(NO_FOCUS_COLOR as int),
        Directive::Text("|"@),
        Directive::Color(NORM_COLOR as int),
        Directive::Text("X"@),
        Directive::Color(NO_FOCUS_COLOR as int),
        Directive::Text("|"@),
        Directive::Color(NORM_COLOR as int),
        Directive::Text(" - "@),
        Directive::Save(1),
        Directive::Text("Letter in the cell but the word checking not performed yet"@),
        Directive::NewLine,
        Directive::Restore(1),
        Directive::Text("When word is completed the Enter will check the word."@),
        Directive::NewLine,
    ]
}

/// The cell that holds a letter of a word not yet checked.
pub fn pending_part() -> (v: Vec<HelpElement>)
    ensures
        script_of(v@) == pending_script(),
{
    let mut v: Vec<HelpElement> = Vec::new();
    v.push(HelpElement::RestorePosition(0));
    v.push(HelpElement::Color(NO_FOCUS_COLOR));
    v.push(text("|"));
    v.push(HelpElement::Color(NORM_COLOR));
    v.push(text("X"));
    v.push(HelpElement::Color(NO_FOCUS_COLOR));
    v.push(text("|"));
    v.push(HelpElement::Color(NORM_COLOR));
    v.push(text(" - "));
    v.push(HelpElement::SavePosition(1));
    v.push(text("Letter in the cell but the word checking not performed yet"));
    v.push(HelpElement::NewLine);
    v.push(HelpElement::RestorePosition(1));
    v.push(text("When word is completed the Enter will check the word."));
    v.push(HelpElement::NewLine);
    assert(script_of(v@) =~= pending_script());
    v
}

/// The three colours of a checked letter.
pub open spec fn roles_script() -> Seq<Directive> {
    seq![
        Directive::Restore(0),
        Directive::Color(IN_PLACE_COLOR as int),
        Directive::Text(" X "@),
        Directive::Color(NORM_COLOR as int),
        Directive::Text(" - Letter exists in the word and located in a correct place."@),
        Directive::NewLine,
        Directive::Restore(0),
        Directive::Color(NOT_IN_PLACE_COLOR as int),
        Directive::Text(" X "@),
        Directive::Color(NORM_COLOR as int),
        Directive::Text(" - Letter exists in the word but located in a wrong place."@),
        Directive::NewLine,
        Directive::Restore(0),
        Directive::Color(NOT_IN_WORD_COLOR as int),
        Directive::Text(" X "@),
        Directive::Color(NORM_COLOR as int),
        Directive::Text(" - Letter doesn't exist in the word"@),
    ]
}

/// The three colours of a checked letter.
pub fn roles_part() -> (v: Vec<HelpElement>)
    ensures
        script_of(v@) == roles_script(),
{
    let mut v: Vec<HelpElement> = Vec::new();
    v.push(HelpElement::RestorePosition(0));
    v.push(HelpElement::Color(IN_PLACE_COLOR));
    v.push(text(" X "));
    v.push(HelpElement::Color(NORM_COLOR));
    v.push(text(" - Letter exists in the word and located in a correct place."));
    v.push(HelpElement::NewLine);
    v.push(HelpElement::RestorePosition(0));
    v.push(HelpElement::Color(NOT_IN_PLACE_COLOR));
    v.push(text(" X "));
    v.push(HelpElement::Color(NORM_COLOR));
    v.push(text(" - Letter exists in the word but located in a wrong place."));
    v.push(HelpElement::NewLine);
    v.push(HelpElement::RestorePosition(0));
    v.push(HelpElement::Color(NOT_IN_WORD_COLOR));
    v.push(text(" X "));
    v.push(HelpElement::Color(NORM_COLOR));
    v.push(text(" - Letter doesn't exist in the word"));
    assert(script_of(v@) =~= roles_script());
    v
}

/// The line that tells how to leave the help screen.
pub open spec fn closing_script() -> Seq<Directive> {
    seq![
        Directive::NewLine,
        Directive::NewLine,
        Directive::NewLine,
        Directive::Color(HELP_COLOR as int),
        Directive::Text("        Press any key to exit help screen"@),
        Directive::NewLine,
    ]
}

/// The line that tells how to leave the help screen.
pub fn closing_part() -> (v: Vec<HelpElement>)
    ensures
        script_of(v@) == closing_script(),
{
    let mut v: Vec<HelpElement> = Vec::new();
    v.push(HelpElement::NewLine);
    v.push(HelpElement::NewLine);
    v.push(HelpElement::NewLine);
    v.push(HelpElement::Color(HELP_COLOR));
    v.push(text("        Press any key to exit help screen"));
    v.push(HelpElement::NewLine);
    assert(script_of(v@) =~= closing_script());
    v
}

/// What the help screen adds in debug mode: the secret word.
pub open spec fn debug_script(secret: Seq<char>) -> Seq<Directive> {
    seq![
        Directive::NewLine,
        Directive::NewLine,
        Directive::Color(HELP_COLOR as int),
        Directive::Text("       DEBUG MODE: The secret word is \""@),
        Directive::Text(secret),
        Directive::Text("\""@),
    ]
}

/// What the help screen adds in debug mode: the secret word.
pub fn debug_part(secret_word: &str) -> (v: Vec<HelpElement>)
    ensures
        script_of(v@) == debug_script(secret_word@),
{
    let mut v: Vec<HelpElement> = Vec::new();
    v.push(HelpElement::NewLine);
    v.push(HelpElement::NewLine);
    v.push(HelpElement::Color(HELP_COLOR));
    v.push(text("       DEBUG MODE: The secret word is \""));
    v.push(text(secret_word));
    v.push(text("\""));
    assert(script_of(v@) =~= debug_script(secret_word@));
    v
}

/// The script of the help screen: the keys, the legend, in debug mode the
/// secret word, and the closing line.
pub open spec fn help_script(debug: bool, secret: Seq<char>) -> Seq<Directive> {
    keys_script() + focus_script() + pending_script() + roles_script() + (if debug {
        debug_script(secret)
    } else {
        Seq::empty()
    }) + closing_script()
}

/// The script of the help screen.
pub fn help_elements(debug: bool, secret_word: &str) -> (v: Vec<HelpElement>)
    ensures
        script_of(v@) == help_script(debug, secret_word@),
{
    let mut v: Vec<HelpElement> = keys_part();
    extend_script(&mut v, focus_part());
    extend_script(&mut v, pending_part());
    extend_script(&mut v, roles_part());
    if debug {
        extend_script(&mut v, debug_part(secret_word));
    } else {
        assert(script_of(v@) + Seq::<Directive>::empty() =~= script_of(v@));
    }
    extend_script(&mut v, closing_part());
    v
}

/// A laid-out overlay: the window's size and place, the column of its title
/// and the texts inside it.
#[derive(Clone, Debug, PartialEq, Eq)]
pub struct HelpPage {
    pub height: i32,
    pub width: i32,
    pub x: i32,
    pub y: i32,
    pub title: String,
    pub title_x: i32,
    pub runs: Vec<Run>,
}

/// A page by its numbers and its characters.
pub struct PageView {
    pub height: int,
    pub width: int,
    pub x: int,
    pub y: int,
    pub title: Seq<char>,
    pub title_x: int,
    pub runs: Seq<RunView>,
}

impl View for HelpPage {
    type V = PageView;

    open spec fn view(&self) -> PageView {
        PageView {
            height: self.height as int,
            width: self.width as int,
            x: self.x as int,
            y: self.y as int,
            title: self.title@,
            title_x: self.title_x as int,
            runs: runs_of(self.runs@),
        }
    }
}

/// The page of a script on a screen of `cols` columns and `lines` rows: as
/// wide and as high as the measuring walk found, with a margin and the border
/// on each side, centred on the screen, the title centred on the top border,
/// the texts where the placing walk puts them.
pub open spec fn page_of(title: Seq<char>, ds: Seq<Directive>, cols: int, lines: int) -> PageView {
    let measured = walk(measuring_pen(ds), ds);
    let width = measured.width + 2 + LEFT_BW + LEFT_BW;
    let height = measured.line + 2 + TOP_BW + BOT_BW;
    PageView {
        height: height,
        width: width,
        x: quot(cols - LEFT_BW - RIGHT_BW - width, 2) + LEFT_BW,
        y: quot(lines - TOP_BW - BOT_BW - height, 2) + TOP_BW,
        title: title,
        title_x: quot(width - text_len(title), 2),
        runs: placed(placing_pen(measured), ds),
    }
}

/// Whether the page of a script can be held in the machine's integers.
pub open spec fn page_fits(title: Seq<char>, ds: Seq<Directive>, cols: int, lines: int) -> bool {
    let page = page_of(title, ds, cols, lines);
    &&& walk_fits(measuring_pen(ds), ds)
    &&& fits_i32(page.width)
    &&& fits_i32(page.height)
    &&& fits_i32(page.x)
    &&& fits_i32(page.y)
    &&& text_len(title) <= i32::MAX
    &&& place_fits(placing_pen(walk(measuring_pen(ds), ds)), ds)
}

/// Lays a script out as an overlay on a screen of `cols` columns and `lines`
/// rows.
pub fn page(title: &str, elements: &Vec<HelpElement>, cols: i32, lines: i32) -> (r: Result<
    HelpPage,
    LayoutError,
>)
    ensures
        match r {
            Ok(p) => {
                &&& slots_known(script_of(elements@))
                &&& page_fits(title@, script_of(elements@), cols as int, lines as int)
                &&& p@ == page_of(title@, script_of(elements@), cols as int, lines as int)
            },
            Err(LayoutError::UnknownBookmark) => !slots_known(script_of(elements@)),
            Err(LayoutError::TooLarge) => {
                &&& slots_known(script_of(elements@))
                &&& !page_fits(title@, script_of(elements@), cols as int, lines as int)
            },
        },
{
    let measured: Cursor = match measure(elements) {
        Ok(pen) => pen,
        Err(e) => {
            return Err(e);
        },
    };
    let title_len: usize = byte_len(title);
    if title_len > 2147483647 {
        return Err(LayoutError::TooLarge);
    }
    let wide: i64 = measured.width as i64 + 2 + LEFT_BW as i64 + LEFT_BW as i64;
    let high: i64 = measured.line as i64 + 2 + TOP_BW as i64 + BOT_BW as i64;
    let left: i64 = halve(cols as i64 - LEFT_BW as i64 - RIGHT_BW as i64 - wide) + LEFT_BW as i64;
    let top: i64 = halve(lines as i64 - TOP_BW as i64 - BOT_BW as i64 - high) + TOP_BW as i64;
    let title_at: i64 = halve(wide - title_len as i64);
    let start = Cursor {
        x: LEFT_BW + 1,
        line: 0,
        width: 0,
        color: crate::geometry::TITLE_COLOR,
        mark0: measured.mark0,
        mark1: measured.mark1,
    };
    let width: Option<i32> = narrow(wide);
    let height: Option<i32> = narrow(high);
    let x: Option<i32> = narrow(left);
    let y: Option<i32> = narrow(top);
    let title_x: Option<i32> = narrow(title_at);
    if width.is_none() || height.is_none() || x.is_none() || y.is_none() || title_x.is_none() {
        return Err(LayoutError::TooLarge);
    }
    match place(start, elements) {
        Some(runs) => Ok(
            HelpPage {
                height: height.unwrap(),
                width: width.unwrap(),
                x: x.unwrap(),
                y: y.unwrap(),
                title: title.to_owned(),
                title_x: title_x.unwrap(),
                runs: runs,
            },
        ),
        None => Err(LayoutError::TooLarge),
    }
}

/// The help screen on a screen of `cols` columns and `lines` rows; in debug
/// mode it shows the secret word. Every text of it lies inside its window.
pub fn detailed_help(debug: bool, secret_word: &str, cols: i32, lines: i32) -> (r: Result<
    HelpPage,
    LayoutError,
>)
    ensures
        match r {
            Ok(p) => {
                &&& page_fits(" Help "@, help_script(debug, secret_word@), cols as int, lines as int)
                &&& p@ == page_of(
                    " Help "@,
                    help_script(debug, secret_word@),
                    cols as int,
                    lines as int,
                )
                &&& forall|i: int| 0 <= i < p.runs.len() ==> inside(p@, #[trigger] p.runs[i]@)
            },
            Err(e) => {
                &&& e == LayoutError::TooLarge
                &&& !page_fits(" Help "@, help_script(debug, secret_word@), cols as int, lines as int)
            },
        },
{
    let elements: Vec<HelpElement> = help_elements(debug, secret_word);
    proof {
        lemma_help_slots_known(debug, secret_word@);
        lemma_help_screen_holds_its_texts(debug, secret_word@, cols as int, lines as int);
    }
    let r = page(" Help ", &elements, cols, lines);
    proof {
        if r is Ok {
            let p = r->Ok_0;
            assert forall|i: int| 0 <= i < p.runs.len() implies inside(p@, #[trigger] p.runs[i]@) by {
                assert(p@.runs[i] == p.runs[i]@);
            }
        }
    }
    r
}

/// The help script names no bookmark but the two that exist.
pub proof fn lemma_help_slots_known(debug: bool, secret: Seq<char>)
    ensures
        slots_known(help_script(debug, secret)),
{
    let ds = help_script(debug, secret);
    let a = keys_script();
    let b = focus_script();
    let c = pending_script();
    let d = roles_script();
    let e = if debug { debug_script(secret) } else { Seq::empty() };
    let f = closing_script();
    assert(part_known(a));
    assert(part_known(b));
    assert(part_known(c));
    assert(part_known(d));
    assert(part_known(e));
    assert(part_known(f));
    assert(part_known(ds));
}

/// Every bookmark that the script names exists.
pub open spec fn part_known(ds: Seq<Directive>) -> bool {
    forall|i: int| 0 <= i < ds.len() ==> match #[trigger] ds[i] {
        Directive::Save(n) => 0 <= n < 2,
        Directive::Restore(n) => 0 <= n < 2,
        _ => true,
    }
}

/// One entry of the colour legend: the legend line it belongs to, its colour
/// and its text.
pub struct Leg {
    pub relative_line: i32,
    pub color: i16,
    pub legend: String,
}

/// A legend entry by its numbers and its characters.
pub struct LegView {
    pub relative_line: int,
    pub color: int,
    pub legend: Seq<char>,
}

impl View for Leg {
    type V = LegView;

    open spec fn view(&self) -> LegView {
        LegView {
            relative_line: self.relative_line as int,
            color: self.color as int,
            legend: self.legend@,
        }
    }
}

/// The legend entries that a vector holds.
pub open spec fn legs_of(v: Seq<Leg>) -> Seq<LegView> {
    Seq::new(v.len(), |i: int| v[i]@)
}

/// The column at which the second and later legend lines start.
pub const LEG_OFFSET: i32 = 8;

/// Where the legend is being written: the next column, the row, and the
/// legend line of the entry before.
pub struct LegPen {
    pub x: int,
    pub y: int,
    pub prev_line: int,
}

/// Where an entry is written: on the next row at the legend's offset if it
/// opens a new legend line, else where the entry before ended.
pub open spec fn leg_at(p: LegPen, l: LegView) -> LegPen {
    if l.relative_line != p.prev_line {
        LegPen { x: LEG_OFFSET as int, y: p.y + 1, prev_line: l.relative_line }
    } else {
        p
    }
}

/// The pen behind an entry.
pub open spec fn leg_step(p: LegPen, l: LegView) -> LegPen {
    LegPen { x: leg_at(p, l).x + text_len(l.legend), ..leg_at(p, l) }
}

/// Whether an entry keeps the pen within the machine's integers.
pub open spec fn leg_step_fits(p: LegPen, l: LegView) -> bool {
    &&& leg_at(p, l).y <= i32::MAX
    &&& text_len(l.legend) <= i32::MAX
    &&& leg_step(p, l).x <= i32::MAX
}

/// The pen behind all the entries.
pub open spec fn leg_walk(p: LegPen, ls: Seq<LegView>) -> LegPen
    decreases ls.len(),
{
    if ls.len() == 0 {
        p
    } else {
        leg_step(leg_walk(p, ls.drop_last()), ls.last())
    }
}

/// Whether every entry keeps the pen within the machine's integers.
pub open spec fn leg_fits(p: LegPen, ls: Seq<LegView>) -> bool
    decreases ls.len(),
{
    if ls.len() == 0 {
        true
    } else {
        leg_fits(p, ls.drop_last()) && leg_step_fits(leg_walk(p, ls.drop_last()), ls.last())
    }
}

/// The runs of the legend: one for each entry, in order.
pub open spec fn leg_placed(p: LegPen, ls: Seq<LegView>) -> Seq<RunView>
    decreases ls.len(),
{
    if ls.len() == 0 {
        Seq::empty()
    } else {
        let at = leg_at(leg_walk(p, ls.drop_last()), ls.last());
        leg_placed(p, ls.drop_last()).push(
            RunView { y: at.y, x: at.x, color: ls.last().color, text: ls.last().legend },
        )
    }
}

/// A prefix of a legend that fits, fits.
pub proof fn lemma_leg_fits_prefix(p: LegPen, ls: Seq<LegView>, k: int)
    requires
        0 <= k <= ls.len(),
        leg_fits(p, ls),
    ensures
        leg_fits(p, ls.take(k)),
    decreases ls.len(),
{
    if k == ls.len() {
        assert(ls.take(k) =~= ls);
    } else {
        lemma_leg_fits_prefix(p, ls.drop_last(), k);
        assert(ls.drop_last().take(k) =~= ls.take(k));
    }
}

/// Places the entries of a legend whose first line is the row `row`,
/// starting at column 0, or tells that a position does not fit.
pub fn lay_legend(table: &Vec<Leg>, row: i32) -> (r: Option<Vec<Run>>)
    ensures
        r is Some <==> leg_fits(
            LegPen { x: 0, y: row as int, prev_line: 0 },
            legs_of(table@),
        ),
        r is Some ==> runs_of(r->0@) == leg_placed(
            LegPen { x: 0, y: row as int, prev_line: 0 },
            legs_of(table@),
        ),
{
    let ghost start = LegPen { x: 0, y: row as int, prev_line: 0 };
    let ghost ls = legs_of(table@);
    let mut runs: Vec<Run> = Vec::new();
    let mut x: i32 = 0;
    let mut y: i32 = row;
    let mut prev_line: i32 = 0;
    let mut i: usize = 0;
    assert(runs_of(runs@) =~= leg_placed(start, ls.take(0)));
    while i < table.len()
        invariant
            i <= table.len(),
            ls == legs_of(table@),
            start == (LegPen { x: 0, y: row as int, prev_line: 0 }),
            leg_fits(start, ls.take(i as int)),
            leg_walk(start, ls.take(i as int)) == (LegPen {
                x: x as int,
                y: y as int,
                prev_line: prev_line as int,
            }),
            runs_of(runs@) == leg_placed(start, ls.take(i as int)),
        decreases table.len() - i,
    {
        proof {
            assert(ls.take(i as int + 1).drop_last() =~= ls.take(i as int));
            assert(ls.take(i as int + 1).last() == ls[i as int]);
            if leg_fits(start, ls) {
                lemma_leg_fits_prefix(start, ls, i as int + 1);
            }
        }
        let l = &table[i];
        if l.relative_line != prev_line {
            if y == 2147483647 {
                return None;
            }
            x = LEG_OFFSET;
            y = y + 1;
            prev_line = l.relative_line;
        }
        let len: usize = byte_len(l.legend.as_str());
        if len > 2147483647 {
            return None;
        }
        let next: i32 = match narrow(x as i64 + len as i64) {
            Some(v) => v,
            None => {
                return None;
            },
        };
        let ghost shown = runs_of(runs@);
        runs.push(Run { y: y, x: x, color: l.color, text: l.legend.clone() });
        assert(runs_of(runs@) =~= shown.push(
            RunView { y: y as int, x: x as int, color: l.color as int, text: l.legend@ },
        ));
        x = next;
        i += 1;
    }
    proof {
        assert(ls.take(i as int) =~= ls);
    }
    Some(runs)
}

/// The colour legend of the help panel.
pub open spec fn legend_table() -> Seq<LegView> {
    seq![
        LegView { relative_line: 0, color: HELP_COLOR as int, legend: "Legend: "@ },
        LegView { relative_line: 0, color: IN_PLACE_COLOR as int, legend: " X "@ },
        LegView {
            relative_line: 0,
            color: HELP_COLOR as int,
            legend: " - letter in a correct place"@,
        },
        LegView { relative_line: 1, color: NOT_IN_PLACE_COLOR as int, legend: " X "@ },
        LegView {
            relative_line: 1,
            color: HELP_COLOR as int,
            legend: " - letter eixsts in the wrong place "@,
        },
        LegView { relative_line: 2, color: NOT_IN_WORD_COLOR as int, legend: " X "@ },
        LegView {
            relative_line: 2,
            color: HELP_COLOR as int,
            legend: " - letter doesn't exist in the word "@,
        },
    ]
}

/// One entry of the legend.
pub fn leg(relative_line: i32, color: i16, legend: &str) -> (l: Leg)
    ensures
        l@ == (LegView { relative_line: relative_line as int, color: color as int, legend: legend@ }),
{
    Leg { relative_line: relative_line, color: color, legend: legend.to_owned() }
}

/// The colour legend of the help panel.
pub fn legend() -> (v: Vec<Leg>)
    ensures
        legs_of(v@) == legend_table(),
{
    let mut v: Vec<Leg> = Vec::new();
    v.push(leg(0, HELP_COLOR, "Legend: "));
    v.push(leg(0, IN_PLACE_COLOR, " X "));
    v.push(leg(0, HELP_COLOR, " - letter in a correct place"));
    v.push(leg(1, NOT_IN_PLACE_COLOR, " X "));
    v.push(leg(1, HELP_COLOR, " - letter eixsts in the wrong place "));
    v.push(leg(2, NOT_IN_WORD_COLOR, " X "));
    v.push(leg(2, HELP_COLOR, " - letter doesn't exist in the word "));
    assert(legs_of(v@) =~= legend_table());
    v
}

/// The least width of the help panel.
pub const HELP_MIN_WIDTH: usize = 48;

/// The rows that the help panel keeps below its text: three with the legend,
/// one without.
pub open spec fn legend_rows(print_legend: bool) -> int {
    if print_legend {
        3
    } else {
        1
    }
}

/// The help panel at the bottom of the screen: its size, its place, and
/// whether it shows the colour legend.
#[derive(Clone, Copy, Debug, PartialEq, Eq)]
pub struct Help {
    pub height: i32,
    pub width: i32,
    pub x: i32,
    pub y: i32,
    pub print_legend: bool,
}

/// What the help panel draws: its lines, each on a row that is cleared
/// first, and the entries of the legend.
#[derive(Clone, Debug, PartialEq, Eq)]
pub struct Panel {
    pub lines: Vec<Run>,
    pub legend: Vec<Run>,
}

/// The line `i` of the help panel: at the left edge of row `i`, in the help
/// colour.
pub open spec fn panel_line(ls: Seq<Seq<char>>, i: int) -> RunView {
    RunView { y: i, x: 0, color: HELP_COLOR as int, text: ls[i] }
}

impl Help {
    /// Whether the panel shows the colour legend.
    pub open spec fn shows_legend(&self) -> bool {
        self.print_legend
    }

    /// Whether the panel for `text` can be held in the machine's integers on
    /// a screen of `rows` rows.
    pub open spec fn fits(text: Seq<char>, print_legend: bool, rows: int) -> bool {
        &&& lines_of(text).len() + legend_rows(print_legend) <= i32::MAX
        &&& widest(HELP_MIN_WIDTH as int, lines_of(text)) <= i32::MAX
        &&& fits_i32(rows - (lines_of(text).len() + legend_rows(print_legend)))
    }

    /// The panel for the help text `help_str` on a screen of `cols` columns
    /// and `rows` rows: as high as the text has lines and the legend has
    /// rows, as wide as the widest line and at least 48 columns, on the
    /// bottom rows of the screen, a third of the free columns to its left.
    pub fn new(help_str: &str, print_legend: bool, rows: i32, cols: i32) -> (r: Result<
        Help,
        LayoutError,
    >)
        ensures
            match r {
                Ok(h) => {
                    &&& Help::fits(help_str@, print_legend, rows as int)
                    &&& h.height == lines_of(help_str@).len() + legend_rows(print_legend)
                    &&& h.width == widest(HELP_MIN_WIDTH as int, lines_of(help_str@))
                    &&& h.y == rows - h.height
                    &&& h.x == if h.width < cols {
                        quot(cols - h.width, 3)
                    } else {
                        0
                    }
                    &&& h.shows_legend() == print_legend
                },
                Err(e) => e == LayoutError::TooLarge && !Help::fits(
                    help_str@,
                    print_legend,
                    rows as int,
                ),
            },
    {
        let help: Vec<String> = lines(help_str);
        let legend_lines: i64 = if print_legend {
            3
        } else {
            1
        };
        if help.len() > 2147483647 {
            return Err(LayoutError::TooLarge);
        }
        let wide: usize = widest_of(HELP_MIN_WIDTH, &help);
        if wide > 2147483647 {
            return Err(LayoutError::TooLarge);
        }
        let high: i64 = help.len() as i64 + legend_lines;
        let height: i32 = match narrow(high) {
            Some(v) => v,
            None => {
                return Err(LayoutError::TooLarge);
            },
        };
        let y: i32 = match narrow(rows as i64 - high) {
            Some(v) => v,
            None => {
                return Err(LayoutError::TooLarge);
            },
        };
        let width: i32 = wide as i32;
        let x: i32 = if width < cols {
            ((cols as i64 - width as i64) / 3) as i32
        } else {
            0
        };
        Ok(Help { height: height, width: width, x: x, y: y, print_legend: print_legend })
    }

    /// Whether `text` can be drawn in the panel within the machine's
    /// integers.
    pub open spec fn draws(&self, text: Seq<char>) -> bool {
        &&& lines_of(text).len() <= i32::MAX
        &&& self.shows_legend() ==> leg_fits(
            LegPen { x: 0, y: lines_of(text).len() as int, prev_line: 0 },
            legend_table(),
        )
    }

    /// What the panel draws for the help text `help_str`: line `i` at the
    /// left edge of row `i`, and below the lines, if the panel has one, the
    /// legend.
    pub fn redraw(&self, help_str: &str) -> (r: Result<Panel, LayoutError>)
        ensures
            match r {
                Ok(p) => {
                    &&& self.draws(help_str@)
                    &&& runs_of(p.lines@) == Seq::new(
                        lines_of(help_str@).len(),
                        |i: int| panel_line(lines_of(help_str@), i),
                    )
                    &&& runs_of(p.legend@) == if self.shows_legend() {
                        leg_placed(
                            LegPen { x: 0, y: lines_of(help_str@).len() as int, prev_line: 0 },
                            legend_table(),
                        )
                    } else {
                        Seq::empty()
                    }
                },
                Err(e) => e == LayoutError::TooLarge && !self.draws(help_str@),
            },
    {
        let help: Vec<String> = lines(help_str);
        if help.len() > 2147483647 {
            return Err(LayoutError::TooLarge);
        }
        let ghost ls = lines_of(help_str@);
        let mut shown: Vec<Run> = Vec::new();
        let mut y: i32 = 0;
        let mut i: usize = 0;
        while i < help.len()
            invariant
                i <= help.len() <= 2147483647,
                y == i,
                ls == texts_of(help@),
                runs_of(shown@) =~= Seq::new(i as nat, |k: int| panel_line(ls, k)),
            decreases help.len() - i,
        {
            let ghost before = runs_of(shown@);
            shown.push(Run { y: y, x: 0, color: HELP_COLOR, text: help[i].clone() });
            assert(runs_of(shown@) =~= before.push(panel_line(ls, i as int)));
            y += 1;
            i += 1;
        }
        let mut legend_runs: Vec<Run> = Vec::new();
        if self.print_legend {
            let table: Vec<Leg> = legend();
            match lay_legend(&table, y) {
                Some(runs) => {
                    legend_runs = runs;
                },
                None => {
                    return Err(LayoutError::TooLarge);
                },
            }
        } else {
            assert(runs_of(legend_runs@) =~= Seq::<RunView>::empty());
        }
        Ok(Panel { lines: shown, legend: legend_runs })
    }
}

/// The text `r` lies inside the window of `page`: it ends before the blank
/// column that the page keeps inside the right border, and its row is
/// between the blank rows that the page keeps inside the top and the bottom
/// border.
pub open spec fn inside(page: PageView, r: RunView) -> bool {
    &&& r.x + text_len(r.text) <= page.width - LEFT_BW - 1
    &&& TOP_BW + 1 <= r.y <= page.height - BOT_BW - 1
}

/// Every text of a page lies inside its window, given that the script
/// uses its bookmarks in order.
pub proof fn lemma_page_holds_its_texts(
    title: Seq<char>,
    ds: Seq<Directive>,
    cols: int,
    lines: int,
)
    requires
        orderly(ds),
    ensures
        forall|i: int|
            0 <= i < page_of(title, ds, cols, lines).runs.len() ==> inside(
                page_of(title, ds, cols, lines),
                #[trigger] page_of(title, ds, cols, lines).runs[i],
            ),
{
    let a = measuring_pen(ds);
    let b = placing_pen(walk(a, ds));
    lemma_walks_agree(a, b, ds, ds.len() as int, false, false);
    assert(ds.take(ds.len() as int) =~= ds);
}

/// The help script uses its bookmarks in order.
pub proof fn lemma_help_is_orderly(debug: bool, secret: Seq<char>)
    ensures
        orderly(help_script(debug, secret)),
{
    let a = keys_script();
    let b = focus_script();
    let c = pending_script();
    let d = roles_script();
    let e = if debug {
        debug_script(secret)
    } else {
        Seq::empty()
    };
    let f = closing_script();
    assert(orderly_upto(a, a.len() as int, false, false) && saved(a, a.len() as int, 0) && !saved(
        a,
        a.len() as int,
        1,
    )) by {
        reveal_with_fuel(orderly_upto, 20);
        reveal_with_fuel(saved, 20);
    }
    assert(orderly_upto(b, b.len() as int, true, false) && saved(b, b.len() as int, 1)) by {
        reveal_with_fuel(orderly_upto, 20);
        reveal_with_fuel(saved, 20);
    }
    assert(orderly_upto(c, c.len() as int, true, true)) by {
        reveal_with_fuel(orderly_upto, 20);
    }
    assert(orderly_upto(d, d.len() as int, true, true)) by {
        reveal_with_fuel(orderly_upto, 20);
    }
    assert(orderly_upto(e, e.len() as int, true, true)) by {
        reveal_with_fuel(orderly_upto, 10);
    }
    assert(orderly_upto(f, f.len() as int, true, true)) by {
        reveal_with_fuel(orderly_upto, 10);
    }
    lemma_orderly_concat(a, b, b.len() as int, false, false);
    lemma_orderly_concat(a + b, c, c.len() as int, false, false);
    lemma_orderly_concat(a + b + c, d, d.len() as int, false, false);
    lemma_orderly_concat(a + b + c + d, e, e.len() as int, false, false);
    lemma_orderly_concat(a + b + c + d + e, f, f.len() as int, false, false);
}

/// Every text of the help screen lies inside its window, whatever the
/// secret word and the size of the screen.
pub proof fn lemma_help_screen_holds_its_texts(debug: bool, secret: Seq<char>, cols: int, lines: int)
    ensures
        forall|i: int|
            0 <= i < page_of(" Help "@, help_script(debug, secret), cols, lines).runs.len()
                ==> inside(
                page_of(" Help "@, help_script(debug, secret), cols, lines),
                #[trigger] page_of(" Help "@, help_script(debug, secret), cols, lines).runs[i],
            ),
{
    lemma_help_is_orderly(debug, secret);
    lemma_page_holds_its_texts(" Help "@, help_script(debug, secret), cols, lines);
}

} // verus!
