use wordle_ncurses::keys::KeyCodes;
use wordle_ncurses::modal::{Coordinator, Event, Phase, Surface};
use wordle_ncurses::judge::Outcome;
use wordle_ncurses::screen::{Action, Screen};
use wordle_ncurses::utils::Yesnowin;

fn codes() -> KeyCodes {
    KeyCodes {
        f1: 265,
        f10: 274,
        enter: 343,
        backspace: 263,
        left: 260,
        right: 261,
        up: 259,
        down: 258,
    }
}

fn game(tries: usize) -> Coordinator {
    Coordinator::new(Screen::new(5, tries, 0, 0).unwrap(), false)
}

fn question() -> Yesnowin {
    Yesnowin::new("Exit".to_string(), "Really quit?".to_string(), 80, 24).unwrap()
}

fn dictionary() -> Vec<String> {
    ["TRACE", "BRAIN", "CRANE"].iter().map(|w| w.to_string()).collect()
}

fn type_word(g: &mut Coordinator, w: &str) {
    for c in w.chars() {
        assert_eq!(g.key(c as i32, &codes()), Event::Grid(Action::Nothing));
    }
}

#[test]
fn round_starts_with_nothing_over_the_grid() {
    let g = game(5);
    assert_eq!(g.surface, None);
    assert_eq!(g.phase, Phase::Playing);
    assert!(!g.debug);
}

#[test]
fn keys_go_to_the_grid_while_nothing_covers_it() {
    let mut g = game(5);
    type_word(&mut g, "cra");
    assert_eq!(g.screen.x_focus, 3);
    assert_eq!(g.screen.lines[0].lb[2].get(), 'A');
    assert_eq!(g.key(263, &codes()), Event::Grid(Action::Nothing));
    assert_eq!(g.screen.x_focus, 2);
    assert_eq!(g.key(274, &codes()), Event::Grid(Action::ConfirmExit));
    assert_eq!(g.key(265, &codes()), Event::Grid(Action::ShowHelp));
    assert_eq!(g.key(343, &codes()), Event::Grid(Action::Nothing));
    assert_eq!(g.surface, None);
}

#[test]
fn only_one_surface_is_open_at_a_time() {
    let mut g = game(5);
    assert!(g.open(Surface::Help));
    let before = g.clone();
    assert!(!g.open(Surface::Message));
    assert!(!g.open(Surface::Confirm(question())));
    assert_eq!(g, before);
    assert_eq!(g.surface, Some(Surface::Help));
}

#[test]
fn help_takes_the_key_and_closes() {
    for key in [97, 10, 343, 274, 265, 263, 27, -1] {
        let mut g = game(5);
        type_word(&mut g, "cr");
        let screen = g.screen.clone();
        assert!(g.open(Surface::Help));
        assert_eq!(g.key(key, &codes()), Event::Closed(None));
        assert_eq!(g.surface, None);
        assert_eq!(g.screen, screen);
    }
}

#[test]
fn message_takes_the_key_and_closes() {
    let mut g = game(5);
    let screen = g.screen.clone();
    assert!(g.open(Surface::Message));
    assert_eq!(g.key(97, &codes()), Event::Closed(None));
    assert_eq!(g.surface, None);
    assert_eq!(g.screen, screen);
    assert_eq!(g.key(97, &codes()), Event::Grid(Action::Nothing));
    assert_eq!(g.screen.x_focus, 1);
}

#[test]
fn question_holds_the_keys_until_it_is_answered() {
    let mut g = game(5);
    type_word(&mut g, "cr");
    let screen = g.screen.clone();
    assert!(g.open(Surface::Confirm(question())));
    for key in [97, 263, 265, 274, 258] {
        assert_eq!(g.key(key, &codes()), Event::Held);
        assert_eq!(g.surface, Some(Surface::Confirm(question())));
    }
    assert_eq!(g.key(260, &codes()), Event::Held);
    match &g.surface {
        Some(Surface::Confirm(q)) => assert!(!q.yes),
        other => panic!("the question is gone: {:?}", other),
    }
    assert_eq!(g.key(10, &codes()), Event::Closed(Some(false)));
    assert_eq!(g.surface, None);
    assert_eq!(g.screen, screen);
}

#[test]
fn question_answered_by_letter_or_enter() {
    for (key, answer) in [(89, true), (121, true), (78, false), (110, false), (343, true), (13, true)] {
        let mut g = game(5);
        assert!(g.open(Surface::Confirm(question())));
        assert_eq!(g.key(key, &codes()), Event::Closed(Some(answer)));
        assert_eq!(g.surface, None);
        assert_eq!(g.phase, Phase::Playing);
    }
}

#[test]
fn check_waits_for_a_complete_line() {
    let mut g = game(5);
    type_word(&mut g, "cran");
    let before = g.clone();
    assert_eq!(g.check(&dictionary(), "CRANE"), None);
    assert_eq!(g, before);
}

#[test]
fn check_refuses_a_secret_of_another_length() {
    let mut g = game(5);
    type_word(&mut g, "crane");
    let before = g.clone();
    assert_eq!(g.check(&dictionary(), "CRAN"), None);
    assert_eq!(g, before);
}

#[test]
fn check_is_not_made_under_a_surface() {
    let mut g = game(5);
    type_word(&mut g, "crane");
    assert!(g.open(Surface::Help));
    let before = g.clone();
    assert_eq!(g.check(&dictionary(), "CRANE"), None);
    assert_eq!(g, before);
}

#[test]
fn enter_on_a_complete_line_asks_for_the_check() {
    let mut g = game(5);
    type_word(&mut g, "trace");
    assert_eq!(g.key(10, &codes()), Event::Grid(Action::Check));
    assert_eq!(g.check(&dictionary(), "CRANE"), Some(Outcome::Next));
    assert_eq!(g.surface, None);
    assert_eq!(g.phase, Phase::Playing);
    assert_eq!((g.screen.x_focus, g.screen.y_focus), (0, 1));
}

#[test]
fn rejected_word_opens_a_message_and_the_round_goes_on() {
    let mut g = game(5);
    type_word(&mut g, "zzzzz");
    let screen = g.screen.clone();
    assert_eq!(
        g.check(&dictionary(), "CRANE"),
        Some(Outcome::Rejected {
            word: "ZZZZZ".to_string()
        })
    );
    assert_eq!(g.surface, Some(Surface::Message));
    assert_eq!(g.phase, Phase::Playing);
    assert_eq!(g.screen, screen);
    assert_eq!(g.key(97, &codes()), Event::Closed(None));
    assert_eq!(g.key(263, &codes()), Event::Grid(Action::Nothing));
    assert_eq!(g.screen.x_focus, 4);
}

#[test]
fn winning_ends_the_round_after_the_message() {
    let mut g = game(5);
    type_word(&mut g, "crane");
    assert_eq!(
        g.check(&dictionary(), "CRANE"),
        Some(Outcome::Won {
            word: "CRANE".to_string(),
            attempt: 1
        })
    );
    assert_eq!(g.phase, Phase::Won);
    assert_eq!(g.surface, Some(Surface::Message));
    assert_eq!(g.key(97, &codes()), Event::Closed(None));
    assert_eq!(g.phase, Phase::Won);
    let before = g.clone();
    for key in [97, 263, 10, 274, 265] {
        assert_eq!(g.key(key, &codes()), Event::Finished);
        assert_eq!(g, before);
    }
    assert_eq!(g.check(&dictionary(), "CRANE"), None);
}

#[test]
fn losing_ends_the_round_after_the_message() {
    let mut g = game(2);
    type_word(&mut g, "trace");
    assert_eq!(g.check(&dictionary(), "CRANE"), Some(Outcome::Next));
    type_word(&mut g, "brain");
    assert_eq!(g.check(&dictionary(), "CRANE"), Some(Outcome::Lost));
    assert_eq!(g.phase, Phase::Lost);
    assert_eq!(g.surface, Some(Surface::Message));
    assert_eq!(g.key(32, &codes()), Event::Closed(None));
    assert_eq!(g.key(32, &codes()), Event::Finished);
}

#[test]
fn debug_mode_moves_with_the_arrows() {
    let mut g = Coordinator::new(Screen::new(5, 3, 0, 0).unwrap(), true);
    assert_eq!(g.key(261, &codes()), Event::Grid(Action::Nothing));
    assert_eq!(g.key(258, &codes()), Event::Grid(Action::Nothing));
    assert_eq!((g.screen.x_focus, g.screen.y_focus), (1, 1));
    let mut g = game(3);
    assert_eq!(g.key(261, &codes()), Event::Grid(Action::Nothing));
    assert_eq!((g.screen.x_focus, g.screen.y_focus), (0, 0));
}
