//! The layout language of the help screen: text runs, colour switches,
//! horizontal skips, line breaks and two position bookmarks.
//!
//! A script is walked twice by the same rules: once to measure the box that
//! it needs, once to place its text.

use vstd::prelude::*;
use crate::geometry::{fits_i32, narrow, LEFT_BW, TITLE_COLOR, TOP_BW};
use crate::text::{byte_len, text_len};

verus! {

/// The number of position bookmarks.
pub const BOOKMARKS: usize = 2;

/// One instruction of a help script.
pub enum HelpElement {
    Text(String),
    Color(i16),
    Skip(i32),
    NewLine,
    SavePosition(usize),
    RestorePosition(usize),
}

/// What an instruction is to the layout: its text by its characters.
pub enum Directive {
    Text(Seq<char>),
    Color(int),
    Skip(int),
    NewLine,
    Save(int),
    Restore(int),
}

impl View for HelpElement {
    type V = Directive;

    open spec fn view(&self) -> Directive {
        match *self {
            HelpElement::Text(s) => Directive::Text(s@),
            HelpElement::Color(c) => Directive::Color(c as int),
            HelpElement::Skip(n) => Directive::Skip(n as int),
            HelpElement::NewLine => Directive::NewLine,
            HelpElement::SavePosition(n) => Directive::Save(n as int),
            HelpElement::RestorePosition(n) => Directive::Restore(n as int),
        }
    }
}

/// The script that a vector of instructions stands for.
pub open spec fn script_of(v: Seq<HelpElement>) -> Seq<Directive> {
    Seq::new(v.len(), |i: int| v[i]@)
}

/// The state of a walk: where the next text goes, how many line breaks have
/// passed, the rightmost column that a text has reached, the colour in use
/// and the two bookmarks.
pub struct Pen {
    pub x: int,
    pub line: int,
    pub width: int,
    pub color: int,
    pub mark0: int,
    pub mark1: int,
}

/// The bookmark that an instruction names, if it names one.
pub open spec fn slot_of(d: Directive) -> Option<int> {
    match d {
        Directive::Save(n) => Some(n),
        Directive::Restore(n) => Some(n),
        _ => None,
    }
}

/// Every bookmark that the script names exists.
pub open spec fn slots_known(ds: Seq<Directive>) -> bool {
    forall|i: int| 0 <= i < ds.len() && slot_of(#[trigger] ds[i]) is Some
        ==> slot_of(ds[i])->0 < BOOKMARKS
}

/// The highest bookmark that the script names, 0 if it names none.
pub open spec fn top_slot(ds: Seq<Directive>) -> int
    decreases ds.len(),
{
    if ds.len() == 0 {
        0
    } else {
        let rest = top_slot(ds.drop_last());
        match slot_of(ds.last()) {
            Some(n) => if n > rest { n } else { rest },
            None => rest,
        }
    }
}

/// The pen after one instruction.
pub open spec fn step(p: Pen, d: Directive) -> Pen {
    match d {
        Directive::Color(c) => Pen { color: c, ..p },
        Directive::Skip(n) => Pen { x: p.x + n, ..p },
        Directive::Text(s) => {
            let x = p.x + text_len(s);
            Pen { x: x, width: if x > p.width { x } else { p.width }, ..p }
        },
        Directive::NewLine => Pen { x: LEFT_BW + 1, line: p.line + 1, ..p },
        Directive::Save(n) => if n == 0 {
            Pen { mark0: p.x, ..p }
        } else {
            Pen { mark1: p.x, ..p }
        },
        Directive::Restore(n) => Pen { x: if n == 0 { p.mark0 } else { p.mark1 }, ..p },
    }
}

/// Whether one instruction keeps the pen within the machine's integers.
pub open spec fn step_fits(p: Pen, d: Directive) -> bool {
    match d {
        Directive::Skip(n) => fits_i32(p.x + n),
        Directive::Text(s) => text_len(s) <= i32::MAX && p.x + text_len(s) <= i32::MAX,
        Directive::NewLine => p.line + 1 <= i32::MAX,
        _ => true,
    }
}

/// The pen after the whole script.
pub open spec fn walk(p: Pen, ds: Seq<Directive>) -> Pen
    decreases ds.len(),
{
    if ds.len() == 0 {
        p
    } else {
        step(walk(p, ds.drop_last()), ds.last())
    }
}

/// Whether every instruction of the script keeps the pen within the
/// machine's integers.
pub open spec fn walk_fits(p: Pen, ds: Seq<Directive>) -> bool
    decreases ds.len(),
{
    if ds.len() == 0 {
        true
    } else {
        walk_fits(p, ds.drop_last()) && step_fits(walk(p, ds.drop_last()), ds.last())
    }
}

/// The pen as the machine holds it.
#[derive(Clone, Copy, Debug, PartialEq, Eq)]
pub struct Cursor {
    pub x: i32,
    pub line: i32,
    pub width: i32,
    pub color: i16,
    pub mark0: i32,
    pub mark1: i32,
}

impl View for Cursor {
    type V = Pen;

    open spec fn view(&self) -> Pen {
        Pen {
            x: self.x as int,
            line: self.line as int,
            width: self.width as int,
            color: self.color as int,
            mark0: self.mark0 as int,
            mark1: self.mark1 as int,
        }
    }
}

/// Why a script cannot be laid out.
#[derive(Clone, Copy, Debug, PartialEq, Eq)]
pub enum LayoutError {
    /// The script names a bookmark beyond the two that exist.
    UnknownBookmark,
    /// A position or a size leaves the range of the machine's integers.
    TooLarge,
}

/// A prefix of a script that fits, fits.
pub proof fn lemma_walk_fits_prefix(p: Pen, ds: Seq<Directive>, k: int)
    requires
        0 <= k <= ds.len(),
        walk_fits(p, ds),
    ensures
        walk_fits(p, ds.take(k)),
    decreases ds.len(),
{
    if k == ds.len() {
        assert(ds.take(k) =~= ds);
    } else {
        lemma_walk_fits_prefix(p, ds.drop_last(), k);
        assert(ds.drop_last().take(k) =~= ds.take(k));
    }
}

/// Walking one instruction further is one step from where the walk stood.
pub proof fn lemma_walk_next(p: Pen, ds: Seq<Directive>, k: int)
    requires
        0 <= k < ds.len(),
    ensures
        walk(p, ds.take(k + 1)) == step(walk(p, ds.take(k)), ds[k]),
        walk_fits(p, ds.take(k + 1)) == (walk_fits(p, ds.take(k)) && step_fits(
            walk(p, ds.take(k)),
            ds[k],
        )),
{
    assert(ds.take(k + 1).drop_last() =~= ds.take(k));
    assert(ds.take(k + 1).last() == ds[k]);
}

/// The highest bookmark of one instruction more is the higher of the
/// instruction's own and the highest before it.
pub proof fn lemma_top_slot_next(ds: Seq<Directive>, k: int)
    requires
        0 <= k < ds.len(),
    ensures
        top_slot(ds.take(k + 1)) == match slot_of(ds[k]) {
            Some(n) => if n > top_slot(ds.take(k)) { n } else { top_slot(ds.take(k)) },
            None => top_slot(ds.take(k)),
        },
{
    assert(ds.take(k + 1).drop_last() =~= ds.take(k));
    assert(ds.take(k + 1).last() == ds[k]);
}

/// The highest bookmark that the script names, 0 if it names none.
pub fn highest_slot(elements: &Vec<HelpElement>) -> (r: usize)
    ensures
        r == top_slot(script_of(elements@)),
        slots_known(script_of(elements@)) <==> r < BOOKMARKS,
{
    let ghost ds = script_of(elements@);
    let mut top: usize = 0;
    let mut i: usize = 0;
    while i < elements.len()
        invariant
            i <= elements.len(),
            ds == script_of(elements@),
            top == top_slot(ds.take(i as int)),
            top < BOOKMARKS <==> slots_known(ds.take(i as int)),
        decreases elements.len() - i,
    {
        proof {
            lemma_top_slot_next(ds, i as int);
        }
        let ghost before = ds.take(i as int);
        let ghost after = ds.take(i as int + 1);
        match &elements[i] {
            HelpElement::SavePosition(n) => {
                if top < *n {
                    top = *n;
                }
            },
            HelpElement::RestorePosition(n) => {
                if top < *n {
                    top = *n;
                }
            },
            _ => {},
        }
        proof {
            assert(forall|j: int| 0 <= j < i ==> before[j] == after[j]);
            assert(after[i as int] == ds[i as int]);
            if slots_known(after) {
                assert forall|j: int| 0 <= j < before.len() && slot_of(
                    #[trigger] before[j],
                ) is Some implies slot_of(before[j])->0 < BOOKMARKS by {
                    assert(before[j] == after[j]);
                }
            }
            if slots_known(before) && (slot_of(ds[i as int]) is Some ==> slot_of(ds[i as int])->0
                < BOOKMARKS) {
                assert forall|j: int| 0 <= j < after.len() && slot_of(
                    #[trigger] after[j],
                ) is Some implies slot_of(after[j])->0 < BOOKMARKS by {
                    if j < i {
                        assert(before[j] == after[j]);
                    }
                }
            }
        }
        i += 1;
    }
    proof {
        assert(ds.take(i as int) =~= ds);
    }
    top
}

/// One instruction, from a pen to the next, or `None` where the next pen
/// leaves the machine's integers.
pub fn advance(pen: Cursor, e: &HelpElement) -> (r: Option<Cursor>)
    ensures
        r is Some <==> step_fits(pen@, e@),
        r is Some ==> r->0@ == step(pen@, e@),
{
    match e {
        HelpElement::Color(c) => Some(Cursor { color: *c, ..pen }),
        HelpElement::Skip(n) => {
            match narrow(pen.x as i64 + *n as i64) {
                Some(x) => Some(Cursor { x: x, ..pen }),
                None => None,
            }
        },
        HelpElement::Text(s) => {
            let len: usize = byte_len(s.as_str());
            if len > 2147483647 {
                return None;
            }
            match narrow(pen.x as i64 + len as i64) {
                Some(x) => Some(Cursor { x: x, width: if x > pen.width { x } else { pen.width }, ..pen }),
                None => None,
            }
        },
        HelpElement::NewLine => {
            if pen.line == 2147483647 {
                return None;
            }
            Some(Cursor { x: LEFT_BW + 1, line: pen.line + 1, ..pen })
        },
        HelpElement::SavePosition(n) => {
            if *n == 0 {
                Some(Cursor { mark0: pen.x, ..pen })
            } else {
                Some(Cursor { mark1: pen.x, ..pen })
            }
        },
        HelpElement::RestorePosition(n) => {
            Some(Cursor { x: if *n == 0 { pen.mark0 } else { pen.mark1 }, ..pen })
        },
    }
}

/// The pen that the measuring walk starts with: at column 0, the second
/// bookmark holding the highest bookmark that the script names.
pub open spec fn measuring_pen(ds: Seq<Directive>) -> Pen {
    Pen { x: 0, line: 0, width: 0, color: TITLE_COLOR as int, mark0: 0, mark1: top_slot(ds) }
}

/// The pen that the placing walk starts with: inside the border, with the
/// bookmarks as the measuring walk left them.
pub open spec fn placing_pen(measured: Pen) -> Pen {
    Pen {
        x: LEFT_BW + 1,
        line: 0,
        width: 0,
        color: TITLE_COLOR as int,
        mark0: measured.mark0,
        mark1: measured.mark1,
    }
}

/// Walks the script from `start`, or tells that it does not fit.
pub fn run_script(start: Cursor, elements: &Vec<HelpElement>) -> (r: Option<Cursor>)
    ensures
        r is Some <==> walk_fits(start@, script_of(elements@)),
        r is Some ==> r->0@ == walk(start@, script_of(elements@)),
{
    let ghost ds = script_of(elements@);
    let mut pen: Cursor = start;
    let mut i: usize = 0;
    while i < elements.len()
        invariant
            i <= elements.len(),
            ds == script_of(elements@),
            walk_fits(start@, ds.take(i as int)),
            pen@ == walk(start@, ds.take(i as int)),
        decreases elements.len() - i,
    {
        proof {
            lemma_walk_next(start@, ds, i as int);
        }
        match advance(pen, &elements[i]) {
            Some(next) => {
                pen = next;
            },
            None => {
                proof {
                    if walk_fits(start@, ds) {
                        lemma_walk_fits_prefix(start@, ds, i as int + 1);
                    }
                }
                return None;
            },
        }
        i += 1;
    }
    proof {
        assert(ds.take(i as int) =~= ds);
    }
    Some(pen)
}

/// The measuring walk: the pen at the end of the script, whose `width` is
/// the rightmost column that a text reaches and whose `line` is the number of
/// line breaks.
pub fn measure(elements: &Vec<HelpElement>) -> (r: Result<Cursor, LayoutError>)
    ensures
        match r {
            Ok(pen) => {
                &&& slots_known(script_of(elements@))
                &&& walk_fits(measuring_pen(script_of(elements@)), script_of(elements@))
                &&& pen@ == walk(measuring_pen(script_of(elements@)), script_of(elements@))
            },
            Err(LayoutError::UnknownBookmark) => !slots_known(script_of(elements@)),
            Err(LayoutError::TooLarge) => {
                &&& slots_known(script_of(elements@))
                &&& !walk_fits(measuring_pen(script_of(elements@)), script_of(elements@))
            },
        },
{
    let top: usize = highest_slot(elements);
    if top >= BOOKMARKS {
        return Err(LayoutError::UnknownBookmark);
    }
    let start = Cursor {
        x: 0,
        line: 0,
        width: 0,
        color: TITLE_COLOR,
        mark0: 0,
        mark1: top as i32,
    };
    match run_script(start, elements) {
        Some(pen) => Ok(pen),
        None => Err(LayoutError::TooLarge),
    }
}

/// A text with the place and the colour it is drawn with.
#[derive(Clone, Debug, PartialEq, Eq)]
pub struct Run {
    pub y: i32,
    pub x: i32,
    pub color: i16,
    pub text: String,
}

/// A run by its numbers and its characters.
pub struct RunView {
    pub y: int,
    pub x: int,
    pub color: int,
    pub text: Seq<char>,
}

impl View for Run {
    type V = RunView;

    open spec fn view(&self) -> RunView {
        RunView { y: self.y as int, x: self.x as int, color: self.color as int, text: self.text@ }
    }
}

/// The runs that a vector holds.
pub open spec fn runs_of(v: Seq<Run>) -> Seq<RunView> {
    Seq::new(v.len(), |i: int| v[i]@)
}

/// The runs that the script places from `p`: one for each text, in the
/// script's order, at the pen's column before the text, on the row below the
/// top border and the blank line that as many line breaks lead to.
pub open spec fn placed(p: Pen, ds: Seq<Directive>) -> Seq<RunView>
    decreases ds.len(),
{
    if ds.len() == 0 {
        Seq::empty()
    } else {
        let before = walk(p, ds.drop_last());
        let rest = placed(p, ds.drop_last());
        match ds.last() {
            Directive::Text(s) => rest.push(
                RunView { y: TOP_BW + 1 + before.line, x: before.x, color: before.color, text: s },
            ),
            _ => rest,
        }
    }
}

/// Whether the script can be placed from `p`: each instruction fits, and so
/// does the row of each text.
pub open spec fn place_fits(p: Pen, ds: Seq<Directive>) -> bool
    decreases ds.len(),
{
    if ds.len() == 0 {
        true
    } else {
        &&& place_fits(p, ds.drop_last())
        &&& step_fits(walk(p, ds.drop_last()), ds.last())
        &&& ds.last() is Text ==> TOP_BW + 1 + walk(p, ds.drop_last()).line <= i32::MAX
    }
}

/// A prefix of a script that can be placed can be placed.
pub proof fn lemma_place_fits_prefix(p: Pen, ds: Seq<Directive>, k: int)
    requires
        0 <= k <= ds.len(),
        place_fits(p, ds),
    ensures
        place_fits(p, ds.take(k)),
    decreases ds.len(),
{
    if k == ds.len() {
        assert(ds.take(k) =~= ds);
    } else {
        lemma_place_fits_prefix(p, ds.drop_last(), k);
        assert(ds.drop_last().take(k) =~= ds.take(k));
    }
}

/// The placing walk: the runs of the script from `start`, or `None` where a
/// position leaves the machine's integers.
pub fn place(start: Cursor, elements: &Vec<HelpElement>) -> (r: Option<Vec<Run>>)
    ensures
        r is Some <==> place_fits(start@, script_of(elements@)),
        r is Some ==> runs_of(r->0@) == placed(start@, script_of(elements@)),
{
    let ghost ds = script_of(elements@);
    let mut runs: Vec<Run> = Vec::new();
    let mut pen: Cursor = start;
    let mut i: usize = 0;
    assert(runs_of(runs@) =~= placed(start@, ds.take(0)));
    while i < elements.len()
        invariant
            i <= elements.len(),
            ds == script_of(elements@),
            place_fits(start@, ds.take(i as int)),
            pen@ == walk(start@, ds.take(i as int)),
            runs_of(runs@) == placed(start@, ds.take(i as int)),
        decreases elements.len() - i,
    {
        proof {
            lemma_walk_next(start@, ds, i as int);
            assert(ds.take(i as int + 1).drop_last() =~= ds.take(i as int));
            assert(ds.take(i as int + 1).last() == ds[i as int]);
        }
        let ghost shown = runs_of(runs@);
        let mut fits: bool = true;
        match &elements[i] {
            HelpElement::Text(s) => {
                match narrow(TOP_BW as i64 + 1 + pen.line as i64) {
                    Some(y) => {
                        runs.push(Run { y: y, x: pen.x, color: pen.color, text: s.clone() });
                        assert(runs_of(runs@) =~= shown.push(
                            RunView {
                                y: y as int,
                                x: pen.x as int,
                                color: pen.color as int,
                                text: s@,
                            },
                        ));
                    },
                    None => {
                        fits = false;
                    },
                }
            },
            _ => {
                assert(runs_of(runs@) =~= shown);
            },
        }
        let next = advance(pen, &elements[i]);
        if !fits || next.is_none() {
            proof {
                if place_fits(start@, ds) {
                    lemma_place_fits_prefix(start@, ds, i as int + 1);
                }
            }
            return None;
        }
        pen = next.unwrap();
        i += 1;
    }
    proof {
        assert(ds.take(i as int) =~= ds);
    }
    Some(runs)
}

/// A text instruction that holds a copy of `s`.
pub fn text(s: &str) -> (e: HelpElement)
    ensures
        e@ == Directive::Text(s@),
{
    HelpElement::Text(s.to_owned())
}

/// Puts the instructions of `more` behind those of `script`.
pub fn extend_script(script: &mut Vec<HelpElement>, more: Vec<HelpElement>)
    ensures
        script_of(final(script)@) == script_of(old(script)@) + script_of(more@),
{
    let ghost added = more@;
    let mut rest = more;
    script.append(&mut rest);
    assert(script_of(script@) =~= script_of(old(script)@) + script_of(added));
}

/// Whether one of the first `k` instructions saves the bookmark `n`.
pub open spec fn saved(ds: Seq<Directive>, k: int, n: int) -> bool
    decreases k,
{
    k > 0 && (ds[k - 1] == Directive::Save(n) || saved(ds, k - 1, n))
}

/// Whether the first `k` instructions use the bookmarks in order: each
/// names one of the two, and none is restored before it was saved, be it by
/// the script or, as `set0` and `set1` say, before the script.
pub open spec fn orderly_upto(ds: Seq<Directive>, k: int, set0: bool, set1: bool) -> bool
    decreases k,
{
    k <= 0 || {
        &&& orderly_upto(ds, k - 1, set0, set1)
        &&& match ds[k - 1] {
            Directive::Restore(n) => {
                ||| n == 0 && (set0 || saved(ds, k - 1, 0))
                ||| n == 1 && (set1 || saved(ds, k - 1, 1))
            },
            Directive::Save(n) => n == 0 || n == 1,
            _ => true,
        }
    }
}

/// Whether the script uses the bookmarks in order.
pub open spec fn orderly(ds: Seq<Directive>) -> bool {
    orderly_upto(ds, ds.len() as int, false, false)
}

/// The two walks of a script that uses its bookmarks in order stay
/// together. Let the measuring walk start from `a` and the placing walk from
/// `b`, on the same line and at most two columns further right, with the
/// bookmarks that are set no more than two columns apart. Then after the
/// first `k` instructions the placing pen is on the line of the measuring
/// pen and at most two columns right of it, and each text placed so far
/// ends no more than two columns right of the width measured so far, on a
/// row no lower than the lines counted so far.
pub proof fn lemma_walks_agree(a: Pen, b: Pen, ds: Seq<Directive>, k: int, set0: bool, set1: bool)
    requires
        0 <= k <= ds.len(),
        orderly_upto(ds, k, set0, set1),
        b.x <= a.x + 2,
        b.line == a.line,
        set0 ==> b.mark0 <= a.mark0 + 2,
        set1 ==> b.mark1 <= a.mark1 + 2,
    ensures
        walk(b, ds.take(k)).x <= walk(a, ds.take(k)).x + 2,
        walk(b, ds.take(k)).line == walk(a, ds.take(k)).line,
        walk(a, ds.take(k)).line >= a.line,
        set0 || saved(ds, k, 0) ==> walk(b, ds.take(k)).mark0 <= walk(a, ds.take(k)).mark0 + 2,
        set1 || saved(ds, k, 1) ==> walk(b, ds.take(k)).mark1 <= walk(a, ds.take(k)).mark1 + 2,
        walk(a, ds.take(k)).width >= a.width,
        forall|i: int|
            0 <= i < placed(b, ds.take(k)).len() ==> {
                let r = #[trigger] placed(b, ds.take(k))[i];
                &&& r.x + text_len(r.text) <= walk(a, ds.take(k)).width + 2
                &&& TOP_BW + 1 + b.line <= r.y <= TOP_BW + 1 + walk(a, ds.take(k)).line
            },
    decreases k,
{
    if k == 0 {
        assert(ds.take(0) =~= Seq::<Directive>::empty());
    } else {
        lemma_walks_agree(a, b, ds, k - 1, set0, set1);
        lemma_walk_next(a, ds, k - 1);
        lemma_walk_next(b, ds, k - 1);
        assert(ds.take(k).drop_last() =~= ds.take(k - 1));
        assert(ds.take(k).last() == ds[k - 1]);
        let before = placed(b, ds.take(k - 1));
        let now = placed(b, ds.take(k));
        assert forall|i: int| 0 <= i < now.len() implies {
            let r = #[trigger] now[i];
            &&& r.x + text_len(r.text) <= walk(a, ds.take(k)).width + 2
            &&& TOP_BW + 1 + b.line <= r.y <= TOP_BW + 1 + walk(a, ds.take(k)).line
        } by {
            if i < before.len() {
                assert(now[i] == before[i]);
            }
        }
    }
}

/// What holds of the first instructions of a script holds of them when
/// more instructions follow.
pub proof fn lemma_orderly_prefix(
    a: Seq<Directive>,
    b: Seq<Directive>,
    k: int,
    set0: bool,
    set1: bool,
)
    requires
        0 <= k <= a.len(),
    ensures
        saved(a + b, k, 0) == saved(a, k, 0),
        saved(a + b, k, 1) == saved(a, k, 1),
        orderly_upto(a + b, k, set0, set1) == orderly_upto(a, k, set0, set1),
    decreases k,
{
    if k > 0 {
        lemma_orderly_prefix(a, b, k - 1, set0, set1);
        assert((a + b)[k - 1] == a[k - 1]);
    }
}

/// A script that uses its bookmarks in order, followed by one that does so
/// given the bookmarks that the first has saved, uses them in order; and the
/// two together save what either saves.
pub proof fn lemma_orderly_concat(
    a: Seq<Directive>,
    b: Seq<Directive>,
    k: int,
    set0: bool,
    set1: bool,
)
    requires
        0 <= k <= b.len(),
        orderly_upto(a, a.len() as int, set0, set1),
        orderly_upto(
            b,
            k,
            set0 || saved(a, a.len() as int, 0),
            set1 || saved(a, a.len() as int, 1),
        ),
    ensures
        orderly_upto(a + b, a.len() + k, set0, set1),
        saved(a + b, a.len() + k, 0) == (saved(a, a.len() as int, 0) || saved(b, k, 0)),
        saved(a + b, a.len() + k, 1) == (saved(a, a.len() as int, 1) || saved(b, k, 1)),
    decreases k,
{
    if k == 0 {
        lemma_orderly_prefix(a, b, a.len() as int, set0, set1);
    } else {
        lemma_orderly_concat(a, b, k - 1, set0, set1);
        assert((a + b)[a.len() + k - 1] == b[k - 1]);
    }
}

} // verus!
