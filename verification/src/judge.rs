//! The check of a complete line against the secret word, and how the round
//! goes on from it.

use vstd::prelude::*;
use crate::guess::{evaluate_chars, evaluation, same_chars};
use crate::lb::{Lb, Role};
use crate::screen::{face, Screen};
use crate::text::{chars_of, string_of, texts_of, upper_ascii};

verus! {

/// The box with the role `role`.
pub open spec fn with_role(cell: Lb, role: Role) -> Lb {
    Lb { role: role, ..cell }
}

/// The boxes `f` with the first `n` boxes of line `r` given the roles
/// `roles`, each box its own.
pub open spec fn judged(f: Seq<Seq<Lb>>, r: int, roles: Seq<Role>, n: int) -> Seq<Seq<Lb>> {
    f.update(
        r,
        Seq::new(
            f[r].len(),
            |c: int|
                if c < n {
                    with_role(f[r][c], roles[c])
                } else {
                    f[r][c]
                },
        ),
    )
}

/// How a checked word ends.
#[derive(Clone, Debug, PartialEq, Eq)]
pub enum Outcome {
    /// The word is not in the dictionary: nothing has changed and no
    /// attempt is used up.
    Rejected { word: String },
    /// The word is the secret word, found at the attempt `attempt`,
    /// counted from one. The round is over.
    Won { word: String, attempt: usize },
    /// The word is not the secret word; the next line is open.
    Next,
    /// The word is not the secret word and it was the last attempt. The
    /// round is over.
    Lost,
}

impl Outcome {
    /// Whether the round is over.
    pub open spec fn over(&self) -> bool {
        *self is Won || *self is Lost
    }

    /// Whether the round is over.
    pub fn is_over(&self) -> (b: bool)
        ensures
            b == self.over(),
    {
        match self {
            Outcome::Won { .. } => true,
            Outcome::Lost => true,
            _ => false,
        }
    }
}

/// Whether `w` is one of `words`.
pub fn contains_word(words: &Vec<String>, w: &Vec<char>) -> (r: bool)
    ensures
        r == texts_of(words@).contains(w@),
{
    let mut i: usize = 0;
    while i < words.len()
        invariant
            i <= words.len(),
            forall|k: int| 0 <= k < i ==> texts_of(words@)[k] != w@,
        decreases words.len() - i,
    {
        let cs: Vec<char> = chars_of(words[i].as_str());
        assert(texts_of(words@)[i as int] == cs@);
        if same_chars(&cs, w) {
            return true;
        }
        i += 1;
    }
    false
}

impl Screen {
    /// The letters of line `r`, blanks included.
    pub fn row_chars(&self, r: usize) -> (v: Vec<char>)
        requires
            r < self.lines.len(),
        ensures
            v@ == self.word(r as int),
    {
        let mut v: Vec<char> = Vec::new();
        let mut c: usize = 0;
        while c < self.lines[r].lb.len()
            invariant
                r < self.lines.len(),
                c <= self.lines[r as int].lb.len(),
                v.len() == c,
                forall|k: int| 0 <= k < c ==> v@[k] == self.lines[r as int].lb[k].c,
            decreases self.lines[r as int].lb.len() - c,
        {
            v.push(self.lines[r].lb[c].get());
            c += 1;
        }
        assert(v@ =~= self.word(r as int));
        v
    }

    /// Gives the boxes of line `r` the roles `roles`, each box its own.
    fn judge(&mut self, r: usize, roles: &Vec<Role>)
        requires
            old(self).wf(),
            r < old(self).height(),
            roles.len() == old(self).width(),
        ensures
            final(self).wf(),
            final(self).x_focus == old(self).x_focus,
            final(self).y_focus == old(self).y_focus,
            final(self).height() == old(self).height(),
            final(self).width() == old(self).width(),
            final(self).faces() == judged(
                old(self).faces(),
                r as int,
                roles@,
                old(self).width(),
            ),
    {
        let w: usize = self.word_len();
        let mut c: usize = 0;
        assert(old(self).lines[r as int].lb.len() == w);
        assert(self.faces() =~~= judged(old(self).faces(), r as int, roles@, 0));
        while c < w
            invariant
                c <= w,
                w == old(self).width(),
                r < old(self).height(),
                roles.len() == w,
                old(self).wf(),
                self.wf(),
                self.x_focus == old(self).x_focus,
                self.y_focus == old(self).y_focus,
                self.height() == old(self).height(),
                self.width() == old(self).width(),
                self.faces() == judged(old(self).faces(), r as int, roles@, c as int),
            decreases w - c,
        {
            let ghost before = self.faces();
            assert(self.lines[r as int].lb.len() == w);
            let ch: char = self.lines[r].lb[c].get();
            proof {
                let cell = self.lines[r as int].lb[c as int];
                assert(upper_ascii(cell.c) == cell.c);
                assert(before[r as int][c as int] == face(cell));
            }
            self.write(r, c, ch, roles[c]);
            assert(self.faces() =~~= judged(old(self).faces(), r as int, roles@, c as int + 1));
            c += 1;
        }
    }
}

/// The grid `after` and the outcome `r` are what the check of the current
/// line of `before` against the secret word `target` gives.
///
/// A word that is not among `words` is rejected, unless `debug_mode` lets
/// every word pass: the grid is as before. Else the boxes of the line have
/// the roles of their letters and nothing else has changed but the cursor:
/// the secret word wins and a wrong word in the last line loses, the cursor
/// staying where it was; a wrong word in another line moves the cursor to
/// the start of the next line.
pub open spec fn checked(
    before: Screen,
    after: Screen,
    words: Seq<String>,
    target: Seq<char>,
    debug_mode: bool,
    r: Outcome,
) -> bool {
    let y = before.y_focus as int;
    let w = before.word(y);
    let legal = debug_mode || texts_of(words).contains(w);
    let last = y + 1 == before.height();
    &&& after.wf()
    &&& after.height() == before.height()
    &&& after.width() == before.width()
    &&& !legal ==> {
        &&& after == before
        &&& r matches Outcome::Rejected { word }
        &&& word@ == w
    }
    &&& legal ==> after.faces() == judged(before.faces(), y, evaluation(w, target), before.width())
    &&& legal && w == target ==> {
        &&& r matches Outcome::Won { word, attempt }
        &&& word@ == w
        &&& attempt == y + 1
        &&& after.x_focus == before.x_focus
        &&& after.y_focus == before.y_focus
    }
    &&& legal && w != target && !last ==> {
        &&& r == Outcome::Next
        &&& after.x_focus == 0
        &&& after.y_focus == y + 1
    }
    &&& legal && w != target && last ==> {
        &&& r == Outcome::Lost
        &&& after.x_focus == before.x_focus
        &&& after.y_focus == before.y_focus
    }
}

/// Checks the word in the current line against the secret word
/// `target_word`.
///
/// A word that is not among `words` is rejected and nothing changes, unless
/// `debug_mode` lets every word pass. Else the boxes of the line get the
/// roles of their letters. The secret word wins the round; any other word
/// opens the next line, or loses the round if the line was the last.
pub fn check_word(s: &mut Screen, words: &Vec<String>, target_word: &str, debug_mode: bool) -> (r:
    Outcome)
    requires
        old(s).wf(),
        target_word@.len() == old(s).width(),
    ensures
        final(s).wf(),
        final(s).height() == old(s).height(),
        final(s).width() == old(s).width(),
        checked(*old(s), *final(s), words@, target_word@, debug_mode, r),
{
    let y: usize = s.y_focus;
    let w: Vec<char> = s.row_chars(y);
    assert(s.lines[y as int].lb.len() == s.width());
    if !(debug_mode || contains_word(words, &w)) {
        proof {
            assert(w@.subrange(0, w.len() as int) =~= w@);
        }
        return Outcome::Rejected { word: string_of(&w, 0, w.len()) };
    }
    let target: Vec<char> = chars_of(target_word);
    let roles: Vec<Role> = evaluate_chars(&w, &target);
    s.judge(y, &roles);
    if same_chars(&w, &target) {
        proof {
            assert(w@.subrange(0, w.len() as int) =~= w@);
        }
        return Outcome::Won { word: string_of(&w, 0, w.len()), attempt: y + 1 };
    }
    if y < s.lines.len() - 1 {
        s.move_to(0, y + 1);
        Outcome::Next
    } else {
        Outcome::Lost
    }
}

impl Screen {
    /// Submits the current line: checks its word against the secret word
    /// `target_word` if the line is complete and the secret word has the
    /// length of a line. Else nothing changes and there is no outcome.
    pub fn submit(&mut self, words: &Vec<String>, target_word: &str, debug_mode: bool) -> (r:
        Option<Outcome>)
        requires
            old(self).wf(),
        ensures
            final(self).wf(),
            final(self).height() == old(self).height(),
            final(self).width() == old(self).width(),
            r is Some <==> old(self).ready() && target_word@.len() == old(self).width(),
            r is None ==> *final(self) == *old(self),
            r is Some ==> checked(*old(self), *final(self), words@, target_word@, debug_mode, r->0),
    {
        if !self.is_ready() {
            return None;
        }
        if target_word.unicode_len() != self.word_len() {
            return None;
        }
        Some(check_word(self, words, target_word, debug_mode))
    }
}

/// The secret word wins the round in whatever line it is guessed, given
/// that the dictionary holds it or debug mode lets every word pass.
pub proof fn lemma_secret_wins(
    before: Screen,
    after: Screen,
    words: Seq<String>,
    target: Seq<char>,
    debug_mode: bool,
    r: Outcome,
)
    requires
        before.wf(),
        checked(before, after, words, target, debug_mode, r),
        before.word(before.y_focus as int) == target,
        debug_mode || texts_of(words).contains(target),
    ensures
        r is Won,
        r.over(),
        after.roles(before.y_focus as int) == evaluation(target, target),
{
    let y = before.y_focus as int;
    assert(before.lines[y].lb.len() == before.width());
    assert(after.lines[y].lb.len() == after.width());
    assert forall|c: int| 0 <= c < after.roles(y).len() implies after.roles(y)[c] == evaluation(
        target,
        target,
    )[c] by {
        assert(after.faces()[y][c] == face(after.lines[y].lb[c]));
        assert(before.faces()[y][c] == face(before.lines[y].lb[c]));
    }
    assert(after.roles(y) =~= evaluation(target, target));
}

/// A word that passes the dictionary and is not the secret word loses the
/// round if it stands in the last line, and only there: in any other line it
/// opens the next one.
pub proof fn lemma_last_miss_loses(
    before: Screen,
    after: Screen,
    words: Seq<String>,
    target: Seq<char>,
    debug_mode: bool,
    r: Outcome,
)
    requires
        before.wf(),
        checked(before, after, words, target, debug_mode, r),
        before.word(before.y_focus as int) != target,
        debug_mode || texts_of(words).contains(before.word(before.y_focus as int)),
    ensures
        r is Lost <==> before.y_focus + 1 == before.height(),
        r is Next <==> before.y_focus + 1 != before.height(),
        r.over() <==> before.y_focus + 1 == before.height(),
{
}

/// Outside debug mode a word that the dictionary does not hold changes
/// nothing: the cursor stays in its line and every box keeps its role.
pub proof fn lemma_unknown_word_is_refused(
    before: Screen,
    after: Screen,
    words: Seq<String>,
    target: Seq<char>,
    r: Outcome,
)
    requires
        before.wf(),
        checked(before, after, words, target, false, r),
        !texts_of(words).contains(before.word(before.y_focus as int)),
    ensures
        r is Rejected,
        !r.over(),
        after == before,
        after.y_focus == before.y_focus,
        forall|k: int| 0 <= k < before.height() ==> after.roles(k) == before.roles(k),
{
}

/// A check never leads back: the cursor stays in its line or goes to the
/// next one, and it never leaves the grid.
pub proof fn lemma_line_never_goes_back(
    before: Screen,
    after: Screen,
    words: Seq<String>,
    target: Seq<char>,
    debug_mode: bool,
    r: Outcome,
)
    requires
        before.wf(),
        checked(before, after, words, target, debug_mode, r),
    ensures
        before.y_focus <= after.y_focus <= before.y_focus + 1,
        after.y_focus < before.height(),
        after.y_focus == before.y_focus + 1 <==> r is Next,
{
    let y = before.y_focus as int;
    let legal = debug_mode || texts_of(words).contains(before.word(y));
    if legal && before.word(y) != target && y + 1 != before.height() {
        assert(r == Outcome::Next);
    }
}

} // verus!
