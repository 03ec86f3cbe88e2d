//! The dictionary: the words of the configured length, and the choice of
//! the secret word among them.

use vstd::prelude::*;
use vstd::string::*;
use rand::Rng;
use crate::text::{pieces, split_on, texts_of};

verus! {

/// The uppercase form of `s`, as the standard library gives it.
pub uninterp spec fn uppercase(s: Seq<char>) -> Seq<char>;

/// The uppercase form of `s`.
///
/// Trusted: this is `str::to_uppercase` of the standard library, whose
/// result depends on the characters of `s` alone; the contract gives that
/// result the name `uppercase` and says nothing more of it.
#[verifier::external_body]
pub(crate) fn to_uppercase(s: &str) -> (r: String)
    ensures
        r@ == uppercase(s@),
{
    s.to_uppercase()
}

/// A number below `n`, chosen at random.
///
/// Trusted: this is `Rng::gen_range` of the crate `rand` on the generator
/// that `thread_rng` gives, with the bounds 0 and `n`. It returns a value
/// that is at least the lower and less than the upper bound, and panics
/// where the lower bound is not less than the upper, which `n > 0` excludes.
/// Two calls may differ.
#[verifier::external_body]
pub(crate) fn random_below(n: usize) -> (r: usize)
    requires
        n > 0,
    ensures
        r < n,
{
    rand::thread_rng().gen_range(0, n)
}

/// Of the texts `ps`, those of `n` characters, in order.
pub open spec fn sized(ps: Seq<Seq<char>>, n: int) -> Seq<Seq<char>>
    decreases ps.len(),
{
    if ps.len() == 0 {
        Seq::empty()
    } else {
        let head = sized(ps.drop_last(), n);
        if ps.last().len() == n {
            head.push(ps.last())
        } else {
            head
        }
    }
}

/// The texts `ws`, each in uppercase.
pub open spec fn capitals(ws: Seq<Seq<char>>) -> Seq<Seq<char>> {
    Seq::new(ws.len(), |i: int| uppercase(ws[i]))
}

/// The dictionary of a corpus that holds one word on each line: the words
/// of `n` characters, in uppercase.
pub open spec fn dictionary(corpus: Seq<char>, n: int) -> Seq<Seq<char>> {
    capitals(sized(pieces(corpus, '\n'), n))
}

/// What `sized` keeps has `n` characters and occurs among the texts.
pub proof fn lemma_sized(ps: Seq<Seq<char>>, n: int)
    ensures
        forall|i: int|
            0 <= i < sized(ps, n).len() ==> (#[trigger] sized(ps, n)[i]).len() == n && ps.contains(
                sized(ps, n)[i],
            ),
        forall|k: int| 0 <= k < ps.len() && ps[k].len() == n ==> sized(ps, n).contains(#[trigger] ps[k]),
    decreases ps.len(),
{
    if ps.len() > 0 {
        let head = sized(ps.drop_last(), n);
        lemma_sized(ps.drop_last(), n);
        assert forall|i: int| 0 <= i < sized(ps, n).len() implies (#[trigger] sized(ps, n)[i]).len()
            == n && ps.contains(sized(ps, n)[i]) by {
            if i < head.len() {
                let k = choose|k: int| 0 <= k < ps.drop_last().len() && ps.drop_last()[k] == head[i];
                assert(ps[k] == head[i]);
            } else {
                assert(ps[ps.len() - 1] == sized(ps, n)[i]);
            }
        }
        assert forall|k: int| 0 <= k < ps.len() && ps[k].len() == n implies sized(ps, n).contains(
            #[trigger] ps[k],
        ) by {
            if k < ps.len() - 1 {
                assert(ps.drop_last()[k] == ps[k]);
                let i = choose|i: int| 0 <= i < head.len() && head[i] == ps[k];
                assert(sized(ps, n)[i] == ps[k]);
            } else {
                assert(sized(ps, n)[sized(ps, n).len() - 1] == ps[k]);
            }
        }
    }
}

/// The lines of `word_len` characters of a corpus that holds one word on
/// each line, in order.
pub fn words_of_length(corpus: &str, word_len: usize) -> (words: Vec<String>)
    ensures
        texts_of(words@) == sized(pieces(corpus@, '\n'), word_len as int),
{
    let parts: Vec<String> = split_on(corpus, '\n');
    let ghost ps = pieces(corpus@, '\n');
    let mut words: Vec<String> = Vec::new();
    let mut i: usize = 0;
    assert(ps.take(0) =~= Seq::<Seq<char>>::empty());
    assert(texts_of(words@) =~= sized(ps.take(0), word_len as int));
    while i < parts.len()
        invariant
            i <= parts.len(),
            ps == texts_of(parts@),
            texts_of(words@) == sized(ps.take(i as int), word_len as int),
        decreases parts.len() - i,
    {
        proof {
            assert(ps.take(i as int + 1).drop_last() =~= ps.take(i as int));
            assert(ps.take(i as int + 1).last() == parts[i as int]@);
        }
        if parts[i].as_str().unicode_len() == word_len {
            let ghost shown = texts_of(words@);
            words.push(parts[i].clone());
            assert(texts_of(words@) =~= shown.push(parts[i as int]@));
        }
        i += 1;
    }
    proof {
        assert(ps.take(i as int) =~= ps);
    }
    words
}

/// The words, each in uppercase.
pub fn in_capitals(words: &Vec<String>) -> (out: Vec<String>)
    ensures
        texts_of(out@) == capitals(texts_of(words@)),
{
    let mut out: Vec<String> = Vec::new();
    let mut i: usize = 0;
    while i < words.len()
        invariant
            i <= words.len(),
            out.len() == i,
            forall|k: int| 0 <= k < i ==> out[k]@ == uppercase(words[k]@),
        decreases words.len() - i,
    {
        out.push(to_uppercase(words[i].as_str()));
        i += 1;
    }
    assert(texts_of(out@) =~= capitals(texts_of(words@)));
    out
}

/// The words of `word_len` characters of a corpus that holds one word on
/// each line, in uppercase.
pub fn select_words(corpus: &str, word_len: usize) -> (words: Vec<String>)
    ensures
        texts_of(words@) == dictionary(corpus@, word_len as int),
{
    let kept: Vec<String> = words_of_length(corpus, word_len);
    in_capitals(&kept)
}

/// Why a round cannot be set up.
#[derive(Clone, Copy, Debug, PartialEq, Eq)]
pub enum SetupError {
    /// The dictionary holds no word of the configured length.
    NoWords,
}

/// The word at `i`.
pub fn word_at(words: &Vec<String>, i: usize) -> (w: String)
    requires
        i < words.len(),
    ensures
        w@ == words[i as int]@,
{
    words[i].clone()
}

/// The secret word: one of `words`, chosen at random. An empty dictionary
/// has none.
pub fn pick_secret(words: &Vec<String>) -> (r: Result<String, SetupError>)
    ensures
        r is Err <==> words.len() == 0,
        r is Err ==> r->Err_0 == SetupError::NoWords,
        r is Ok ==> texts_of(words@).contains(r->Ok_0@),
{
    if words.len() == 0 {
        return Err(SetupError::NoWords);
    }
    let i: usize = random_below(words.len());
    let w: String = word_at(words, i);
    assert(texts_of(words@)[i as int] == w@);
    Ok(w)
}

/// The dictionary and the secret word of a round.
#[derive(Clone, Debug, PartialEq, Eq)]
pub struct Provider {
    pub words: Vec<String>,
    pub secret: String,
}

impl Provider {
    /// Prepares a round from a corpus that holds one word on each line:
    /// the dictionary is its words of `word_len` characters, in uppercase,
    /// and the secret word is one of them. A corpus without such a word is
    /// refused.
    pub fn start(corpus: &str, word_len: usize) -> (r: Result<Provider, SetupError>)
        ensures
            r is Err <==> dictionary(corpus@, word_len as int).len() == 0,
            r is Err ==> r->Err_0 == SetupError::NoWords,
            r is Ok ==> texts_of(r->Ok_0.words@) == dictionary(corpus@, word_len as int),
            r is Ok ==> dictionary(corpus@, word_len as int).contains(r->Ok_0.secret@),
    {
        let words: Vec<String> = select_words(corpus, word_len);
        match pick_secret(&words) {
            Ok(secret) => Ok(Provider { words: words, secret: secret }),
            Err(e) => Err(e),
        }
    }
}

} // verus!
