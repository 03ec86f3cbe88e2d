//! The evaluation of a guess against the secret word.
//!
//! A letter that stands where the secret word has it is in place; any other
//! letter that the secret word holds anywhere is not in place; the rest is not
//! in the word. Letters are not counted: a letter guessed twice that the
//! secret word holds once is marked both times.

use vstd::prelude::*;
use crate::lb::Role;
use crate::text::chars_of;

verus! {

/// The role of the letter at `i` of the guess.
pub open spec fn classify(guess: Seq<char>, secret: Seq<char>, i: int) -> Role {
    if guess[i] == secret[i] {
        Role::InPlace
    } else if secret.contains(guess[i]) {
        Role::NotInPlace
    } else {
        Role::NotInWord
    }
}

/// The roles of the letters of the guess, one for each.
pub open spec fn evaluation(guess: Seq<char>, secret: Seq<char>) -> Seq<Role> {
    Seq::new(guess.len(), |i: int| classify(guess, secret, i))
}

/// How many of the first `n` roles are `InPlace`.
pub open spec fn in_place_count(roles: Seq<Role>, n: int) -> nat
    decreases n,
{
    if n <= 0 {
        0
    } else {
        in_place_count(roles, n - 1) + if roles[n - 1] == Role::InPlace {
            1nat
        } else {
            0nat
        }
    }
}

/// At how many of the first `n` positions the guess has the letter of the
/// secret word.
pub open spec fn match_count(guess: Seq<char>, secret: Seq<char>, n: int) -> nat
    decreases n,
{
    if n <= 0 {
        0
    } else {
        match_count(guess, secret, n - 1) + if guess[n - 1] == secret[n - 1] {
            1nat
        } else {
            0nat
        }
    }
}

/// Whether `c` occurs in `v`.
pub fn has_char(v: &Vec<char>, c: char) -> (r: bool)
    ensures
        r == v@.contains(c),
{
    let mut i: usize = 0;
    while i < v.len()
        invariant
            i <= v.len(),
            forall|k: int| 0 <= k < i ==> v@[k] != c,
        decreases v.len() - i,
    {
        if v[i] == c {
            return true;
        }
        i += 1;
    }
    false
}

/// Whether the two hold the same characters in the same order.
pub fn same_chars(a: &Vec<char>, b: &Vec<char>) -> (r: bool)
    ensures
        r == (a@ == b@),
{
    if a.len() != b.len() {
        return false;
    }
    let mut i: usize = 0;
    while i < a.len()
        invariant
            i <= a.len(),
            a.len() == b.len(),
            forall|k: int| 0 <= k < i ==> a@[k] == b@[k],
        decreases a.len() - i,
    {
        if a[i] != b[i] {
            return false;
        }
        i += 1;
    }
    assert(a@ =~= b@);
    true
}

/// The roles of the letters of `guess` against `secret`.
pub fn evaluate_chars(guess: &Vec<char>, secret: &Vec<char>) -> (roles: Vec<Role>)
    requires
        guess.len() == secret.len(),
    ensures
        roles@ == evaluation(guess@, secret@),
{
    let mut roles: Vec<Role> = Vec::new();
    let mut i: usize = 0;
    while i < guess.len()
        invariant
            i <= guess.len(),
            guess.len() == secret.len(),
            roles.len() == i,
            forall|k: int| 0 <= k < i ==> roles@[k] == classify(guess@, secret@, k),
        decreases guess.len() - i,
    {
        let ch: char = guess[i];
        let role: Role = if ch == secret[i] {
            Role::InPlace
        } else if has_char(secret, ch) {
            Role::NotInPlace
        } else {
            Role::NotInWord
        };
        roles.push(role);
        i += 1;
    }
    assert(roles@ =~= evaluation(guess@, secret@));
    roles
}

/// The roles of the letters of `guess` against `secret`, a word of the same
/// length.
pub fn evaluate(guess: &str, secret: &str) -> (roles: Vec<Role>)
    requires
        guess@.len() == secret@.len(),
    ensures
        roles@ == evaluation(guess@, secret@),
{
    let g: Vec<char> = chars_of(guess);
    let s: Vec<char> = chars_of(secret);
    evaluate_chars(&g, &s)
}

/// Every letter of a guess gets one role, which is never `UnknownYet`, and
/// as many letters are `InPlace` as there are positions at which the guess
/// has the letter of the secret word: never more.
pub proof fn lemma_evaluation_counts(guess: Seq<char>, secret: Seq<char>)
    requires
        guess.len() == secret.len(),
    ensures
        evaluation(guess, secret).len() == guess.len(),
        forall|i: int|
            0 <= i < guess.len() ==> #[trigger] evaluation(guess, secret)[i] != Role::UnknownYet,
        forall|i: int|
            0 <= i < guess.len() ==> (#[trigger] evaluation(guess, secret)[i] == Role::InPlace
                <==> guess[i] == secret[i]),
        in_place_count(evaluation(guess, secret), guess.len() as int) == match_count(
            guess,
            secret,
            guess.len() as int,
        ),
        in_place_count(evaluation(guess, secret), guess.len() as int) <= match_count(
            guess,
            secret,
            guess.len() as int,
        ),
{
    lemma_counts_upto(guess, secret, guess.len() as int);
}

/// Among the first `n` letters, as many are `InPlace` as match.
pub proof fn lemma_counts_upto(guess: Seq<char>, secret: Seq<char>, n: int)
    requires
        0 <= n <= guess.len(),
    ensures
        in_place_count(evaluation(guess, secret), n) == match_count(guess, secret, n),
    decreases n,
{
    if n > 0 {
        lemma_counts_upto(guess, secret, n - 1);
    }
}

/// Evaluating the same guess against the same secret word again gives the
/// same roles: the roles depend on the letters alone.
pub proof fn lemma_evaluation_repeats(
    guess: Seq<char>,
    secret: Seq<char>,
    first: Seq<Role>,
    second: Seq<Role>,
)
    requires
        first == evaluation(guess, secret),
        second == evaluation(guess, secret),
    ensures
        first == second,
{
}

/// A guess that is the secret word has every letter in place.
pub proof fn lemma_evaluation_of_secret(secret: Seq<char>)
    ensures
        forall|i: int|
            0 <= i < secret.len() ==> #[trigger] evaluation(secret, secret)[i] == Role::InPlace,
{
}

} // verus!
