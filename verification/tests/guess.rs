use wordle_ncurses::guess::{evaluate, evaluate_chars, has_char, same_chars};
use wordle_ncurses::lb::Role;

fn in_place(roles: &[Role]) -> usize {
    roles.iter().filter(|r| **r == Role::InPlace).count()
}

fn matches_of(guess: &str, secret: &str) -> usize {
    guess.chars().zip(secret.chars()).filter(|(a, b)| a == b).count()
}

#[test]
fn trace_against_crane() {
    assert_eq!(
        evaluate("TRACE", "CRANE"),
        vec![
            Role::NotInWord,
            Role::InPlace,
            Role::InPlace,
            Role::NotInPlace,
            Role::InPlace
        ]
    );
}

#[test]
fn crane_against_crane_is_all_in_place() {
    assert_eq!(evaluate("CRANE", "CRANE"), vec![Role::InPlace; 5]);
}

#[test]
fn no_common_letter_is_all_not_in_word() {
    assert_eq!(evaluate("BUILT", "CRANE"), vec![Role::NotInWord; 5]);
}

#[test]
fn repeated_letter_is_marked_each_time() {
    // The secret word holds one E; both misplaced E's of the guess are marked.
    assert_eq!(
        evaluate("EERIE", "CRANE"),
        vec![
            Role::NotInPlace,
            Role::NotInPlace,
            Role::NotInPlace,
            Role::NotInWord,
            Role::InPlace
        ]
    );
}

#[test]
fn letter_in_place_and_again_elsewhere() {
    assert_eq!(
        evaluate("AABBB", "ACCCC"),
        vec![
            Role::InPlace,
            Role::NotInPlace,
            Role::NotInWord,
            Role::NotInWord,
            Role::NotInWord
        ]
    );
}

#[test]
fn empty_guess_has_no_roles() {
    assert_eq!(evaluate("", ""), Vec::<Role>::new());
}

#[test]
fn one_role_for_each_letter_and_none_unknown() {
    for (g, s) in [("TRACE", "CRANE"), ("AB", "BA"), ("X", "X"), ("QUEUE", "EQUAL")] {
        let roles = evaluate(g, s);
        assert_eq!(roles.len(), g.chars().count());
        assert!(roles.iter().all(|r| *r != Role::UnknownYet));
    }
}

#[test]
fn in_place_count_is_the_count_of_matching_positions() {
    for (g, s) in [("TRACE", "CRANE"), ("CRANE", "CRANE"), ("AB", "BA"), ("EERIE", "CRANE")] {
        let roles = evaluate(g, s);
        assert!(in_place(&roles) <= matches_of(g, s));
        assert_eq!(in_place(&roles), matches_of(g, s));
    }
}

#[test]
fn evaluating_twice_gives_the_same_roles() {
    let first = evaluate("TRACE", "CRANE");
    let second = evaluate("TRACE", "CRANE");
    assert_eq!(first, second);
}

#[test]
fn evaluation_compares_characters_as_they_are() {
    assert_eq!(
        evaluate("crane", "CRANE"),
        vec![Role::NotInWord; 5]
    );
}

#[test]
fn evaluate_chars_agrees_with_evaluate() {
    let g: Vec<char> = "TRACE".chars().collect();
    let s: Vec<char> = "CRANE".chars().collect();
    assert_eq!(evaluate_chars(&g, &s), evaluate("TRACE", "CRANE"));
}

#[test]
fn has_char_finds_what_is_there() {
    let v: Vec<char> = "CRANE".chars().collect();
    assert!(has_char(&v, 'C'));
    assert!(has_char(&v, 'E'));
    assert!(!has_char(&v, 'T'));
    assert!(!has_char(&Vec::new(), 'T'));
}

#[test]
fn same_chars_compares_length_and_letters() {
    let a: Vec<char> = "CRANE".chars().collect();
    let b: Vec<char> = "CRANE".chars().collect();
    let c: Vec<char> = "CRANK".chars().collect();
    let d: Vec<char> = "CRAN".chars().collect();
    assert!(same_chars(&a, &b));
    assert!(!same_chars(&a, &c));
    assert!(!same_chars(&a, &d));
    assert!(same_chars(&Vec::new(), &Vec::new()));
}
