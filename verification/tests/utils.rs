use wordle_ncurses::keys::KeyCodes;
use wordle_ncurses::layout::LayoutError;
use wordle_ncurses::utils::{Msgbox, Print, Win, Yesnowin};

fn codes() -> KeyCodes {
    KeyCodes {
        f1: 265,
        f10: 274,
        enter: 343,
        backspace: 263,
        left: 260,
        right: 261,
        up: 259,
        down: 258,
    }
}

fn quit() -> Yesnowin {
    Yesnowin::new(
        "Exit confirmation".to_string(),
        "Do you really want to quit from the wordle?".to_string(),
        80,
        24,
    )
    .unwrap()
}

#[test]
fn window_pads_its_title() {
    let w = Win::new("Help".to_string(), true, 10, 40, 5, 6);
    assert_eq!(w.title, " Help ");
    assert!(w.get_focus());
    assert_eq!((w.height, w.width, w.x_offs, w.y_offs), (10, 40, 5, 6));
    assert_eq!(w.get_cursor(), (1, 1));
    assert_eq!(w.title_x(), Some(17));
}

#[test]
fn window_leaves_an_empty_title_empty() {
    let w = Win::new(String::new(), false, 3, 3, 0, 0);
    assert_eq!(w.title, "");
    assert_eq!(w.title_x(), Some(1));
}

#[test]
fn window_title_wider_than_the_window() {
    let w = Win::new("A long title".to_string(), false, 3, 3, 0, 0);
    assert_eq!(w.title_x(), Some(-5));
}

#[test]
fn window_border_colour_follows_the_focus() {
    let mut w = Win::new(String::new(), false, 3, 3, 0, 0);
    assert_eq!(w.box_(), 2);
    w.set_focus(true);
    assert!(w.get_focus());
    assert_eq!(w.box_(), 1);
    w.set_focus(false);
    assert_eq!(w.box_(), 2);
}

#[test]
fn window_cursor_moves_and_comes_back() {
    let mut w = Win::new("t".to_string(), false, 10, 40, 5, 6);
    w.set_cursor(4, 7);
    assert_eq!(w.get_cursor(), (4, 7));
    assert_eq!((w.ycurs, w.xcurs), (4, 7));
    w.erase();
    assert_eq!(w.get_cursor(), (1, 1));
    assert_eq!(w.title, " t ");
    assert_eq!((w.height, w.width), (10, 40));
}

#[test]
fn print_inside_the_border() {
    let mut w = Win::new("Help".to_string(), false, 10, 40, 5, 6);
    w.set_cursor(3, 4);
    assert_eq!(
        w.print(false, 2, 1, 8, "hello".to_string()),
        Ok(Print {
            clear_row: None,
            y: 2,
            x: 3,
            color: 8,
            msg: "hello".to_string(),
            border_color: 2,
            title_x: 17,
            ycurs: 3,
            xcurs: 4,
        })
    );
}

#[test]
fn print_clears_the_row_on_demand() {
    let w = Win::new("Help".to_string(), true, 10, 40, 5, 6);
    let p = w.print(true, 0, 0, 9, "x".to_string()).unwrap();
    assert_eq!(p.clear_row, Some(1));
    assert_eq!((p.y, p.x), (1, 1));
    assert_eq!(p.border_color, 1);
}

#[test]
fn print_negative_coordinates_mean_the_middle() {
    let w = Win::new("Help".to_string(), false, 10, 40, 5, 6);
    let p = w.print(false, -1, -1, 8, "x".to_string()).unwrap();
    assert_eq!((p.y, p.x), (5, 20));
    let p = w.print(false, -7, 3, 8, "x".to_string()).unwrap();
    assert_eq!((p.y, p.x), (4, 20));
    let p = w.print(true, 3, -2, 8, "x".to_string()).unwrap();
    assert_eq!((p.y, p.x), (5, 4));
    assert_eq!(p.clear_row, Some(5));
}

#[test]
fn print_beyond_the_integers_is_refused() {
    let w = Win::new("Help".to_string(), false, 10, 40, 5, 6);
    assert_eq!(
        w.print(false, i32::MAX, 0, 8, "x".to_string()),
        Err(LayoutError::TooLarge)
    );
    assert_eq!(
        w.print(false, 0, i32::MAX, 8, "x".to_string()),
        Err(LayoutError::TooLarge)
    );
    assert!(w.print(false, i32::MAX - 1, i32::MAX - 1, 8, "x".to_string()).is_ok());
}

#[test]
fn yes_no_window_size_and_place() {
    let q = quit();
    assert_eq!(q.title, "Exit confirmation");
    assert_eq!(q.exit_msg, "Do you really want to quit from the wordle?");
    assert_eq!(q.win.title, " Exit confirmation ");
    assert_eq!((q.win.height, q.win.width), (8, 49));
    assert_eq!((q.win.x_offs, q.win.y_offs), (20, 8));
    assert!(!q.win.get_focus());
    assert!(q.yes);
    assert_eq!(
        (q.yesno_height, q.yesno_width, q.msg_line, q.yesno_line, q.no_offs),
        (8, 16, 1, 4, 9)
    );
}

#[test]
fn yes_no_window_with_a_long_title() {
    let q = Yesnowin::new("A rather long title".to_string(), "Quit?".to_string(), 80, 24).unwrap();
    assert_eq!(q.win.width, 19 + 4 + 6);
    assert_eq!(q.win.x_offs, (80 - 2 - 23) / 2 + 1);
}

#[test]
fn yes_no_window_question_of_four_bytes_at_least() {
    assert_eq!(
        Yesnowin::new("t".to_string(), "Go?".to_string(), 80, 24),
        Err(LayoutError::TooLarge)
    );
    assert_eq!(
        Yesnowin::new("t".to_string(), String::new(), 80, 24),
        Err(LayoutError::TooLarge)
    );
    assert!(Yesnowin::new("t".to_string(), "Quit".to_string(), 80, 24).is_ok());
}

#[test]
fn yes_no_window_on_a_screen_of_any_size() {
    let q = Yesnowin::new("t".to_string(), "Quit".to_string(), i32::MIN, i32::MIN).unwrap();
    assert_eq!((q.win.x_offs, q.win.y_offs), (-1073741826, -1073741828));
    let q = Yesnowin::new("t".to_string(), "Quit".to_string(), i32::MAX, i32::MAX).unwrap();
    assert_eq!((q.win.x_offs, q.win.y_offs), (1073741821, 1073741819));
}

#[test]
fn yes_no_opening_prints_the_question() {
    let p = quit().opening().unwrap();
    assert_eq!((p.y, p.x), (2, 3));
    assert_eq!(p.color, 8);
    assert_eq!(p.msg, "Do you really want to quit from the wordle?");
    assert_eq!(p.clear_row, None);
    assert_eq!(p.title_x, 15);
}

#[test]
fn yes_no_buttons_with_yes_selected() {
    let b = quit().draw_yesno().unwrap();
    assert_eq!((b.clear_row, b.clear_from), (3, 1));
    assert_eq!((b.yes.y, b.yes.x, b.yes.color), (5, 17, 11));
    assert_eq!(b.yes.msg, "[ Yes ]");
    assert_eq!((b.no.y, b.no.x, b.no.color), (5, 26, 12));
    assert_eq!(b.no.msg, "[ No ]");
    assert_eq!(b.yes.border_color, 2);
}

#[test]
fn yes_no_buttons_with_no_selected() {
    let mut q = quit();
    assert_eq!(q.key(260, &codes()), None);
    let b = q.draw_yesno().unwrap();
    assert_eq!(b.yes.color, 12);
    assert_eq!(b.no.color, 11);
    assert_eq!((b.yes.x, b.no.x), (17, 26));
}

#[test]
fn yes_no_buttons_in_a_narrow_window_go_to_the_middle() {
    // The window is narrower than the buttons: the first column is negative
    // and stands for the middle of the window.
    let mut q = quit();
    q.win.width = 10;
    let b = q.draw_yesno().unwrap();
    assert_eq!(b.yes.x, 5);
    assert_eq!(b.no.x, 7);
}

#[test]
fn yes_no_enter_confirms_the_selection() {
    for enter in [343, 10, 13] {
        let mut q = quit();
        assert_eq!(q.key(enter, &codes()), Some(true));
        let mut q = quit();
        assert_eq!(q.key(261, &codes()), None);
        assert!(!q.yes);
        assert_eq!(q.key(enter, &codes()), Some(false));
    }
}

#[test]
fn yes_no_toggles_back_and_forth() {
    let mut q = quit();
    for (key, yes) in [(260, false), (261, true), (9, false), (9, true), (260, false)] {
        assert_eq!(q.key(key, &codes()), None);
        assert_eq!(q.yes, yes);
    }
}

#[test]
fn yes_no_letters_answer_at_once() {
    for (key, answer) in [(89, true), (121, true), (78, false), (110, false)] {
        let mut q = quit();
        assert_eq!(q.key(key, &codes()), Some(answer));
        assert_eq!(q.yes, answer);
        let mut q = quit();
        q.key(9, &codes());
        assert_eq!(q.key(key, &codes()), Some(answer));
        assert_eq!(q.yes, answer);
    }
}

#[test]
fn yes_no_other_keys_do_nothing() {
    let mut q = quit();
    let before = q.clone();
    for key in [0, 27, 32, 97, 259, 258, 265, 274, -1] {
        assert_eq!(q.key(key, &codes()), None);
        assert_eq!(q, before);
    }
}

#[test]
fn message_box_with_button() {
    let b = Msgbox::new(
        "You won!".to_string(),
        "You guessed the right word\n\n          \"CRANE\"\n\n    From a 1's attempt!".to_string(),
        true,
        80,
        24,
    )
    .unwrap();
    assert_eq!(b.msg.len(), 5);
    assert_eq!(b.msg[2], "          \"CRANE\"");
    assert_eq!((b.msg_height, b.msg_width), (11, 30));
    assert_eq!((b.win.height, b.win.width), (11, 30));
    assert_eq!((b.win.x_offs, b.win.y_offs), (25, 6));
    assert_eq!(b.win.title, " You won! ");
    assert!(b.ok_box);
    let prints = b.run().unwrap();
    assert_eq!(prints.len(), 6);
    for (i, p) in prints.iter().take(5).enumerate() {
        assert_eq!((p.y, p.x, p.color), (i as i32 + 2, 2, 8));
        assert_eq!(p.msg, b.msg[i]);
        assert_eq!(p.title_x, 10);
        assert_eq!(p.clear_row, None);
    }
    assert_eq!((prints[5].y, prints[5].x, prints[5].color), (8, 13, 11));
    assert_eq!(prints[5].msg, "[ OK ]");
}

#[test]
fn message_box_without_button() {
    let b = Msgbox::new(
        "Word \"ZZZZZ\"".to_string(),
        "Not in a dictionary".to_string(),
        false,
        80,
        24,
    )
    .unwrap();
    assert_eq!((b.msg_height, b.msg_width), (5, 23));
    assert_eq!((b.win.x_offs, b.win.y_offs), (28, 9));
    let prints = b.run().unwrap();
    assert_eq!(prints.len(), 1);
    assert_eq!((prints[0].y, prints[0].x), (2, 2));
    assert_eq!(prints[0].msg, "Not in a dictionary");
    assert_eq!(prints[0].title_x, 4);
}

#[test]
fn message_box_as_wide_as_its_title() {
    let b = Msgbox::new(
        "You lost!".to_string(),
        "The word is:\n\n    \"CRANE\"".to_string(),
        true,
        80,
        24,
    )
    .unwrap();
    assert_eq!((b.msg_height, b.msg_width), (9, 16));
    assert_eq!((b.win.x_offs, b.win.y_offs), (32, 7));
    let prints = b.run().unwrap();
    assert_eq!(prints.len(), 4);
    assert_eq!((prints[3].y, prints[3].x), (6, 6));
    let b = Msgbox::new("A much longer title".to_string(), "x".to_string(), false, 80, 24).unwrap();
    assert_eq!(b.msg_width, 19 + 4);
}

#[test]
fn message_box_of_an_empty_text() {
    let b = Msgbox::new("t".to_string(), String::new(), true, 80, 24).unwrap();
    assert!(b.msg.is_empty());
    assert_eq!((b.msg_height, b.msg_width), (6, 5));
    let prints = b.run().unwrap();
    assert_eq!(prints.len(), 1);
    assert_eq!((prints[0].y, prints[0].x), (3, 1));
    let b = Msgbox::new("t".to_string(), String::new(), false, 80, 24).unwrap();
    assert_eq!(b.run(), Ok(Vec::new()));
}

#[test]
fn message_box_on_a_screen_of_any_size() {
    let b = Msgbox::new("t".to_string(), "x".to_string(), false, i32::MIN, i32::MIN).unwrap();
    assert_eq!((b.win.x_offs, b.win.y_offs), (-1073741826, -1073741826));
    let b = Msgbox::new("t".to_string(), "x".to_string(), false, i32::MAX, i32::MAX).unwrap();
    assert_eq!((b.win.x_offs, b.win.y_offs), (1073741821, 1073741821));
}

#[test]
fn message_box_button_beyond_the_integers_is_refused() {
    let mut b = Msgbox::new("t".to_string(), "x".to_string(), true, 80, 24).unwrap();
    b.win.width = i32::MIN;
    assert_eq!(b.run(), Err(LayoutError::TooLarge));
}

#[test]
fn message_box_texts_lie_inside_the_window() {
    for (title, text, ok) in [
        ("You lost!", "The word is:\n\n    \"CRANE\"", true),
        ("A much longer title than the text", "x\ny", false),
        ("t", "a rather long line of text that decides the width\nshort", true),
    ] {
        let b = Msgbox::new(title.to_string(), text.to_string(), ok, 80, 24).unwrap();
        assert!(b.win.title.len() as i32 <= b.win.width - 2);
        for p in b.run().unwrap() {
            assert!(p.x + p.msg.len() as i32 <= b.win.width - 2);
            assert!(1 <= p.y && p.y <= b.win.height - 2);
        }
    }
}
