//! Measuring and building strings.

use vstd::prelude::*;
use vstd::string::*;
use vstd::std_specs::iter::IteratorSpec;

verus! {

/// The number of bytes that `s` takes, which is the width it is laid out with.
pub open spec fn text_len(s: Seq<char>) -> int {
    vstd::utf8::encode_utf8(s).len() as int
}

/// The number of bytes of `s`.
pub fn byte_len(s: &str) -> (n: usize)
    ensures
        n == text_len(s@),
{
    s.as_bytes().len()
}

/// The characters of `s`, in order.
pub fn chars_of(s: &str) -> (v: Vec<char>)
    ensures
        v@ == s@,
{
    broadcast use vstd::string::group_string_axioms;

    let mut v: Vec<char> = Vec::new();
    let mut it = s.chars();
    loop
        invariant
            v@ + it.remaining() == s@,
            it.obeys_prophetic_iter_laws(),
            it.decrease() is Some,
        decreases it.decrease()->0,
    {
        match it.next() {
            Some(c) => {
                v.push(c);
                assert(v@ + it.remaining() =~= s@);
            },
            None => {
                assert(v@ =~= s@);
                return v;
            },
        }
    }
}

/// Appends `c` to `s`.
///
/// Trusted: this is `String::push` of the standard library, which puts the
/// character at the end of the string and changes nothing else.
#[verifier::external_body]
pub(crate) fn push_char(s: &mut String, c: char)
    ensures
        final(s)@ == old(s)@.push(c),
{
    s.push(c)
}

/// The string of the characters `v[from..to]`.
pub fn string_of(v: &Vec<char>, from: usize, to: usize) -> (s: String)
    requires
        from <= to <= v.len(),
    ensures
        s@ == v@.subrange(from as int, to as int),
{
    let mut s: String = String::new();
    let mut i: usize = from;
    while i < to
        invariant
            from <= i <= to <= v.len(),
            s@ == v@.subrange(from as int, i as int),
        decreases to - i,
    {
        push_char(&mut s, v[i]);
        assert(s@ =~= v@.subrange(from as int, i as int + 1));
        i += 1;
    }
    s
}

/// The texts that a vector of strings holds.
pub open spec fn texts_of(v: Seq<String>) -> Seq<Seq<char>> {
    Seq::new(v.len(), |i: int| v[i]@)
}

/// The pieces of `s` between the occurrences of `sep`: one more than there
/// are occurrences, empty pieces included.
pub open spec fn pieces(s: Seq<char>, sep: char) -> Seq<Seq<char>>
    decreases s.len(),
{
    if s.len() == 0 {
        seq![Seq::empty()]
    } else {
        let head = pieces(s.drop_last(), sep);
        if s.last() == sep {
            head.push(Seq::empty())
        } else {
            head.drop_last().push(head.last().push(s.last()))
        }
    }
}

/// The texts `ps` put together with `sep` between each two.
pub open spec fn joined(ps: Seq<Seq<char>>, sep: char) -> Seq<char>
    decreases ps.len(),
{
    if ps.len() == 0 {
        Seq::empty()
    } else if ps.len() == 1 {
        ps[0]
    } else {
        joined(ps.drop_last(), sep).push(sep) + ps.last()
    }
}

/// There is at least one piece, no piece holds the separator, and the
/// pieces put together with the separator between them are the text.
pub proof fn lemma_pieces(s: Seq<char>, sep: char)
    ensures
        pieces(s, sep).len() >= 1,
        forall|i: int, j: int|
            0 <= i < pieces(s, sep).len() && 0 <= j < pieces(s, sep)[i].len() ==> pieces(
                s,
                sep,
            )[i][j] != sep,
        joined(pieces(s, sep), sep) == s,
    decreases s.len(),
{
    if s.len() == 0 {
        assert(joined(pieces(s, sep), sep) =~= s);
    } else {
        let head = pieces(s.drop_last(), sep);
        let all = pieces(s, sep);
        lemma_pieces(s.drop_last(), sep);
        if s.last() == sep {
            assert(all.drop_last() =~= head);
            assert(joined(all, sep) =~= s);
        } else if head.len() == 1 {
            assert(all.len() == 1);
            assert(joined(all, sep) =~= s);
        } else {
            assert(all.drop_last() =~= head.drop_last());
            assert(joined(all, sep) =~= joined(head, sep).push(s.last()));
            assert(joined(all, sep) =~= s);
        }
    }
}

/// Splits `s` at each occurrence of `sep`.
pub fn split_on(s: &str, sep: char) -> (out: Vec<String>)
    ensures
        texts_of(out@) == pieces(s@, sep),
{
    let cs: Vec<char> = chars_of(s);
    let mut out: Vec<String> = Vec::new();
    let mut start: usize = 0;
    let mut i: usize = 0;
    assert(cs@.subrange(0, 0) =~= Seq::<char>::empty());
    assert(cs@.take(0) =~= Seq::<char>::empty());
    assert(texts_of(out@).push(cs@.subrange(0, 0)) =~= pieces(cs@.take(0), sep));
    while i < cs.len()
        invariant
            start <= i <= cs.len(),
            texts_of(out@).push(cs@.subrange(start as int, i as int)) == pieces(
                cs@.take(i as int),
                sep,
            ),
        decreases cs.len() - i,
    {
        let ghost shown = texts_of(out@);
        let ghost open = cs@.subrange(start as int, i as int);
        proof {
            assert(cs@.take(i as int + 1).drop_last() =~= cs@.take(i as int));
            assert(shown.push(open).drop_last() =~= shown);
        }
        if cs[i] == sep {
            let piece: String = string_of(&cs, start, i);
            out.push(piece);
            start = i + 1;
            assert(texts_of(out@) =~= shown.push(open));
            assert(cs@.subrange(start as int, i as int + 1) =~= Seq::<char>::empty());
        } else {
            assert(cs@.subrange(start as int, i as int + 1) =~= open.push(cs@[i as int]));
        }
        i += 1;
    }
    let last: String = string_of(&cs, start, i);
    proof {
        assert(cs@.take(i as int) =~= cs@);
    }
    let ghost shown = texts_of(out@);
    out.push(last);
    assert(texts_of(out@) =~= shown.push(cs@.subrange(start as int, i as int)));
    out
}

/// `s` without the carriage return that it ends with, if it ends with one.
pub open spec fn strip_cr(s: Seq<char>) -> Seq<char> {
    if s.len() > 0 && s.last() == '\r' {
        s.drop_last()
    } else {
        s
    }
}

/// The lines of `s`: the pieces between its line feeds, each without the
/// carriage return before the line feed. What follows the last line feed is
/// a line only if it is not empty, so a final line ending is optional.
pub open spec fn lines_of(s: Seq<char>) -> Seq<Seq<char>> {
    let p = pieces(s, '\n');
    let ended = Seq::new((p.len() - 1) as nat, |i: int| strip_cr(p[i]));
    if p.last().len() == 0 {
        ended
    } else {
        ended.push(p.last())
    }
}

/// `s` without the carriage return that it ends with, if it ends with one.
pub fn without_cr(s: &str) -> (r: String)
    ensures
        r@ == strip_cr(s@),
{
    let cs: Vec<char> = chars_of(s);
    let n: usize = cs.len();
    if n > 0 && cs[n - 1] == '\r' {
        let r = string_of(&cs, 0, n - 1);
        assert(r@ =~= strip_cr(s@));
        r
    } else {
        let r = string_of(&cs, 0, n);
        assert(r@ =~= strip_cr(s@));
        r
    }
}

/// The lines of `s`.
pub fn lines(s: &str) -> (out: Vec<String>)
    ensures
        texts_of(out@) == lines_of(s@),
{
    let parts: Vec<String> = split_on(s, '\n');
    proof {
        lemma_pieces(s@, '\n');
    }
    let ghost p = pieces(s@, '\n');
    let mut out: Vec<String> = Vec::new();
    let n: usize = parts.len();
    let mut i: usize = 0;
    while i + 1 < n
        invariant
            n == parts.len(),
            n >= 1,
            i + 1 <= n,
            texts_of(parts@) == p,
            texts_of(out@) =~= Seq::new(i as nat, |k: int| strip_cr(p[k])),
        decreases n - i,
    {
        assert(texts_of(parts@)[i as int] == parts[i as int]@);
        let line: String = without_cr(parts[i].as_str());
        let ghost shown = texts_of(out@);
        out.push(line);
        assert(texts_of(out@) =~= shown.push(strip_cr(p[i as int])));
        i += 1;
    }
    assert(texts_of(parts@)[n - 1] == parts[n - 1]@);
    if parts[n - 1].as_str().unicode_len() > 0 {
        let ghost shown = texts_of(out@);
        out.push(parts[n - 1].clone());
        assert(texts_of(out@) =~= shown.push(p.last()));
    }
    out
}

/// `c` as a capital if it is a small ASCII letter, else `c`.
pub open spec fn upper_ascii(c: char) -> char {
    if 'a' <= c <= 'z' {
        ((c as u8 - 32) as u8) as char
    } else {
        c
    }
}

/// `c` as a capital if it is a small ASCII letter, else `c`.
pub fn ascii_upper(c: char) -> (r: char)
    ensures
        r == upper_ascii(c),
{
    if 'a' <= c && c <= 'z' {
        ((c as u8) - 32) as char
    } else {
        c
    }
}

/// Whether `c` is a letter: whether it has the `Alphabetic` property of the
/// Unicode standard, as the standard library tells it.
pub uninterp spec fn alphabetic(c: char) -> bool;

/// Whether `c` is a letter.
///
/// Trusted: this is `char::is_alphabetic` of the standard library, whose
/// answer depends on the character alone; the contract gives that answer the
/// name `alphabetic` and says nothing more of it.
#[verifier::external_body]
pub(crate) fn is_alphabetic(c: char) -> (r: bool)
    ensures
        r == alphabetic(c),
{
    c.is_alphabetic()
}

/// Capitals are left as they are: making a capital twice changes nothing
/// more.
pub proof fn lemma_upper_ascii_twice(c: char)
    ensures
        upper_ascii(upper_ascii(c)) == upper_ascii(c),
{
}

/// The width of the widest of the texts, and at least `floor`.
pub open spec fn widest(floor: int, ls: Seq<Seq<char>>) -> int
    decreases ls.len(),
{
    if ls.len() == 0 {
        floor
    } else {
        let w = widest(floor, ls.drop_last());
        if w < text_len(ls.last()) {
            text_len(ls.last())
        } else {
            w
        }
    }
}

/// The width of the widest of the texts, and at least `floor`.
pub fn widest_of(floor: usize, texts: &Vec<String>) -> (w: usize)
    ensures
        w == widest(floor as int, texts_of(texts@)),
{
    let ghost ls = texts_of(texts@);
    let mut w: usize = floor;
    let mut i: usize = 0;
    assert(ls.take(0) =~= Seq::<Seq<char>>::empty());
    while i < texts.len()
        invariant
            i <= texts.len(),
            ls == texts_of(texts@),
            w == widest(floor as int, ls.take(i as int)),
        decreases texts.len() - i,
    {
        proof {
            assert(ls.take(i as int + 1).drop_last() =~= ls.take(i as int));
            assert(ls.take(i as int + 1).last() == texts[i as int]@);
        }
        let len: usize = byte_len(texts[i].as_str());
        if w < len {
            w = len;
        }
        i += 1;
    }
    proof {
        assert(ls.take(i as int) =~= ls);
    }
    w
}

/// The widest is at least as wide as the floor and as each of the texts.
pub proof fn lemma_widest_bounds(floor: int, ls: Seq<Seq<char>>)
    ensures
        widest(floor, ls) >= floor,
        forall|i: int| 0 <= i < ls.len() ==> widest(floor, ls) >= text_len(#[trigger] ls[i]),
    decreases ls.len(),
{
    if ls.len() > 0 {
        lemma_widest_bounds(floor, ls.drop_last());
        assert forall|i: int| 0 <= i < ls.len() implies widest(floor, ls) >= text_len(
            #[trigger] ls[i],
        ) by {
            if i < ls.len() - 1 {
                assert(ls.drop_last()[i] == ls[i]);
            }
        }
    }
}

} // verus!
