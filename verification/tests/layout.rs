use wordle_ncurses::help::{detailed_help, help_elements, page, HelpPage};
use wordle_ncurses::layout::{
    advance, highest_slot, measure, place, run_script, text, Cursor, HelpElement, LayoutError, Run,
};

fn start() -> Cursor {
    Cursor {
        x: 2,
        line: 0,
        width: 0,
        color: 3,
        mark0: 0,
        mark1: 0,
    }
}

fn run(y: i32, x: i32, color: i16, text: &str) -> Run {
    Run {
        y,
        x,
        color,
        text: text.to_string(),
    }
}

#[test]
fn measure_of_an_empty_script() {
    let m = measure(&Vec::new()).unwrap();
    assert_eq!((m.x, m.line, m.width), (0, 0, 0));
    assert_eq!((m.mark0, m.mark1), (0, 0));
}

#[test]
fn measure_takes_the_widest_line_and_counts_breaks() {
    let script = vec![
        text("abc"),
        HelpElement::NewLine,
        text("abcdefg"),
        HelpElement::NewLine,
        text("ab"),
    ];
    let m = measure(&script).unwrap();
    // The first line is measured from column 0, the others from column 2.
    assert_eq!(m.width, 9);
    assert_eq!(m.line, 2);
    assert_eq!(m.x, 4);
}

#[test]
fn measure_first_line_starts_at_column_zero() {
    let m = measure(&vec![text("abcdefghij")]).unwrap();
    assert_eq!(m.width, 10);
    let m = measure(&vec![HelpElement::NewLine, text("abcdefghij")]).unwrap();
    assert_eq!(m.width, 12);
}

#[test]
fn measure_counts_bytes() {
    let m = measure(&vec![text("é")]).unwrap();
    assert_eq!(m.width, 2);
}

#[test]
fn skip_moves_without_widening() {
    let m = measure(&vec![HelpElement::Skip(30), HelpElement::Skip(-10)]).unwrap();
    assert_eq!((m.x, m.width), (20, 0));
    let m = measure(&vec![HelpElement::Skip(30), text("ab")]).unwrap();
    assert_eq!((m.x, m.width), (32, 32));
}

#[test]
fn bookmarks_save_and_restore() {
    let script = vec![
        text("Enter - "),
        HelpElement::SavePosition(0),
        text("first"),
        HelpElement::NewLine,
        HelpElement::RestorePosition(0),
        text("second line"),
    ];
    let m = measure(&script).unwrap();
    assert_eq!(m.mark0, 8);
    assert_eq!(m.width, 19);
    assert_eq!(m.x, 19);
    assert_eq!(m.line, 1);
}

#[test]
fn second_bookmark_starts_at_the_highest_slot() {
    let m = measure(&vec![HelpElement::RestorePosition(1)]).unwrap();
    assert_eq!(m.x, 1);
    let m = measure(&vec![HelpElement::RestorePosition(0)]).unwrap();
    assert_eq!(m.x, 0);
    assert_eq!(m.mark1, 0);
}

#[test]
fn unknown_bookmark_is_refused() {
    assert_eq!(
        measure(&vec![HelpElement::SavePosition(2)]),
        Err(LayoutError::UnknownBookmark)
    );
    assert_eq!(
        measure(&vec![text("a"), HelpElement::RestorePosition(7)]),
        Err(LayoutError::UnknownBookmark)
    );
    assert_eq!(
        page("t", &vec![HelpElement::SavePosition(2)], 80, 24),
        Err(LayoutError::UnknownBookmark)
    );
}

#[test]
fn highest_slot_of_a_script() {
    assert_eq!(highest_slot(&Vec::new()), 0);
    assert_eq!(highest_slot(&vec![text("a"), HelpElement::NewLine]), 0);
    assert_eq!(
        highest_slot(&vec![
            HelpElement::SavePosition(1),
            HelpElement::RestorePosition(0)
        ]),
        1
    );
    assert_eq!(
        highest_slot(&vec![
            HelpElement::RestorePosition(5),
            HelpElement::SavePosition(3)
        ]),
        5
    );
}

#[test]
fn position_beyond_the_integers_is_refused() {
    assert_eq!(
        measure(&vec![HelpElement::Skip(i32::MAX), text("a")]),
        Err(LayoutError::TooLarge)
    );
    assert_eq!(
        measure(&vec![HelpElement::Skip(i32::MAX), HelpElement::Skip(1)]),
        Err(LayoutError::TooLarge)
    );
    assert_eq!(
        measure(&vec![HelpElement::Skip(-1), HelpElement::Skip(i32::MIN)]),
        Err(LayoutError::TooLarge)
    );
    assert!(measure(&vec![HelpElement::Skip(i32::MAX)]).is_ok());
    assert!(measure(&vec![HelpElement::Skip(i32::MIN)]).is_ok());
}

#[test]
fn advance_steps_one_instruction() {
    let p = start();
    assert_eq!(
        advance(p, &HelpElement::Color(9)),
        Some(Cursor { color: 9, ..p })
    );
    assert_eq!(
        advance(p, &text("abc")),
        Some(Cursor {
            x: 5,
            width: 5,
            ..p
        })
    );
    assert_eq!(
        advance(Cursor { x: 40, line: 3, ..p }, &HelpElement::NewLine),
        Some(Cursor { x: 2, line: 4, ..p })
    );
    assert_eq!(
        advance(p, &HelpElement::SavePosition(1)),
        Some(Cursor { mark1: 2, ..p })
    );
    assert_eq!(
        advance(Cursor { mark0: 17, ..p }, &HelpElement::RestorePosition(0)),
        Some(Cursor {
            x: 17,
            mark0: 17,
            ..p
        })
    );
    assert_eq!(
        advance(
            Cursor {
                line: i32::MAX,
                ..p
            },
            &HelpElement::NewLine
        ),
        None
    );
    assert_eq!(advance(Cursor { x: i32::MAX, ..p }, &text("a")), None);
    assert_eq!(
        advance(Cursor { x: 10, width: 50, ..p }, &text("a")),
        Some(Cursor {
            x: 11,
            width: 50,
            ..p
        })
    );
}

#[test]
fn run_script_walks_all_instructions() {
    let script = vec![text("ab"), HelpElement::Color(7), HelpElement::NewLine, text("c")];
    assert_eq!(
        run_script(start(), &script),
        Some(Cursor {
            x: 3,
            line: 1,
            width: 4,
            color: 7,
            mark0: 0,
            mark1: 0
        })
    );
    assert_eq!(run_script(start(), &Vec::new()), Some(start()));
}

#[test]
fn place_puts_each_text_where_the_pen_stands() {
    let script = vec![
        HelpElement::Color(8),
        text("Enter - "),
        HelpElement::SavePosition(0),
        text("first"),
        HelpElement::NewLine,
        HelpElement::RestorePosition(0),
        HelpElement::Color(5),
        text("second"),
        HelpElement::Skip(3),
        text("third"),
    ];
    assert_eq!(
        place(start(), &script),
        Some(vec![
            run(2, 2, 8, "Enter - "),
            run(2, 10, 8, "first"),
            run(3, 10, 5, "second"),
            run(3, 19, 5, "third"),
        ])
    );
}

#[test]
fn place_starts_in_the_title_colour() {
    assert_eq!(
        place(start(), &vec![text("a")]),
        Some(vec![run(2, 2, 3, "a")])
    );
    assert_eq!(place(start(), &Vec::new()), Some(Vec::new()));
}

#[test]
fn place_beyond_the_integers_is_refused() {
    let far = Cursor {
        line: i32::MAX - 1,
        ..start()
    };
    assert_eq!(place(far, &vec![text("a")]), None);
    assert_eq!(place(far, &vec![HelpElement::NewLine]), Some(Vec::new()));
    assert_eq!(
        place(start(), &vec![HelpElement::Skip(i32::MAX), text("a")]),
        None
    );
}

#[test]
fn page_is_centred_with_margin_and_border() {
    let script = vec![text("0123456789"), HelpElement::NewLine, text("ab")];
    assert_eq!(
        page(" T ", &script, 80, 24),
        Ok(HelpPage {
            height: 5,
            width: 14,
            x: 33,
            y: 9,
            title: " T ".to_string(),
            title_x: 5,
            runs: vec![run(2, 2, 3, "0123456789"), run(3, 2, 3, "ab")],
        })
    );
}

#[test]
fn page_on_a_small_screen_rounds_toward_zero() {
    let script = vec![text("0123456789"), HelpElement::NewLine, text("ab")];
    let p = page("A long title indeed", &script, 11, 4).unwrap();
    assert_eq!((p.width, p.height), (14, 5));
    assert_eq!((p.x, p.y), (-2 + 1, -1 + 1));
    assert_eq!(p.title_x, -2);
}

#[test]
fn page_beyond_the_integers_is_refused() {
    assert_eq!(
        page("t", &vec![HelpElement::Skip(i32::MAX - 3), text("ab")], 80, 24),
        Err(LayoutError::TooLarge)
    );
    assert_eq!(
        page("t", &vec![HelpElement::Skip(i32::MAX - 5), text("ab")], 80, 24),
        Err(LayoutError::TooLarge)
    );
    let p = page("t", &vec![HelpElement::Skip(i32::MAX - 7), text("ab")], 80, 24).unwrap();
    assert_eq!(p.width, i32::MAX - 1);
}

#[test]
fn page_on_a_screen_of_any_size() {
    let script = vec![text("ab")];
    let p = page("t", &script, i32::MIN, i32::MIN).unwrap();
    assert_eq!((p.x, p.y), (-1073741827, -1073741826));
    let p = page("t", &script, i32::MAX, i32::MAX).unwrap();
    assert_eq!((p.x, p.y), (1073741820, 1073741821));
}

#[test]
fn page_uses_the_bookmarks_of_the_measuring_walk() {
    // The restore comes before any save: the placing walk finds what the
    // measuring walk left in the bookmark.
    let script = vec![
        HelpElement::RestorePosition(0),
        text("a"),
        HelpElement::Skip(5),
        HelpElement::SavePosition(0),
    ];
    let p = page("", &script, 80, 24).unwrap();
    assert_eq!(p.runs, vec![run(2, 6, 3, "a")]);
}

#[test]
fn help_screen_size_and_place() {
    let p = detailed_help(false, "CRANE", 80, 24).unwrap();
    assert_eq!((p.height, p.width), (21, 78));
    assert_eq!((p.x, p.y), (1, 1));
    assert_eq!(p.title, " Help ");
    assert_eq!(p.title_x, 36);
    assert_eq!(p.runs.len(), 25);
}

#[test]
fn help_screen_texts() {
    let p = detailed_help(false, "CRANE", 80, 24).unwrap();
    assert_eq!(p.runs[0], run(2, 2, 8, "F1        - Display this help screen"));
    assert_eq!(p.runs[1], run(3, 2, 8, "F10       - Exit"));
    assert_eq!(p.runs[2], run(4, 2, 8, "Enter     - "));
    assert_eq!(
        p.runs[3],
        run(4, 14, 8, "Check word if it is completed, no action otherwise")
    );
    assert_eq!(
        p.runs[6],
        run(6, 14, 8, "works even if word is completed but no checked yet")
    );
    assert_eq!(p.runs[7], run(8, 2, 8, "Legend: "));
    assert_eq!(p.runs[8], run(9, 10, 1, "| |"));
    assert_eq!(p.runs[9], run(9, 13, 8, " - "));
    assert_eq!(
        p.runs[11],
        run(10, 16, 8, "pressed on keyboard will be inserterd to the cell")
    );
    assert_eq!(p.runs[12], run(11, 10, 2, "|"));
    assert_eq!(p.runs[13], run(11, 11, 8, "X"));
    assert_eq!(p.runs[14], run(11, 12, 2, "|"));
    assert_eq!(p.runs[22], run(15, 10, 7, " X "));
    assert_eq!(p.runs[23], run(15, 13, 8, " - Letter doesn't exist in the word"));
    assert_eq!(
        p.runs[24],
        run(18, 2, 10, "        Press any key to exit help screen")
    );
}

#[test]
fn help_screen_in_debug_mode_shows_the_secret_word() {
    let p = detailed_help(true, "CRANE", 200, 60).unwrap();
    assert_eq!((p.height, p.width), (23, 78));
    assert_eq!((p.x, p.y), (61, 18));
    assert_eq!(p.runs.len(), 28);
    assert_eq!(
        p.runs[24],
        run(17, 2, 10, "       DEBUG MODE: The secret word is \"")
    );
    assert_eq!(p.runs[25], run(17, 41, 10, "CRANE"));
    assert_eq!(p.runs[26], run(17, 46, 10, "\""));
    assert_eq!(
        p.runs[27],
        run(20, 2, 10, "        Press any key to exit help screen")
    );
}

#[test]
fn help_screen_hides_the_secret_word_outside_debug_mode() {
    let p = detailed_help(false, "CRANE", 80, 24).unwrap();
    assert!(p.runs.iter().all(|r| !r.text.contains("CRANE")));
    assert!(p.runs.iter().all(|r| !r.text.contains("DEBUG")));
}

#[test]
fn help_screen_grows_with_a_long_secret_word() {
    let long = "X".repeat(100);
    let p = detailed_help(true, &long, 80, 24).unwrap();
    assert_eq!(p.width, 2 + 39 + 100 + 1 + 4);
    assert_eq!(p.x, (80 - 2 - 146) / 2 + 1);
}

#[test]
fn help_elements_count() {
    assert_eq!(help_elements(false, "CRANE").len(), 69);
    assert_eq!(help_elements(true, "CRANE").len(), 75);
}

#[test]
fn help_screen_on_a_screen_of_any_size() {
    let p = detailed_help(false, "CRANE", i32::MIN, i32::MAX).unwrap();
    assert_eq!((p.x, p.y), (-1073741863, 1073741813));
    assert_eq!((p.height, p.width), (21, 78));
}

#[test]
fn help_screen_texts_lie_inside_the_window() {
    for debug in [false, true] {
        for secret in ["", "CRANE", &"W".repeat(40), &"W".repeat(300)] {
            let p = detailed_help(debug, secret, 80, 24).unwrap();
            for r in &p.runs {
                assert!(r.x >= 2);
                assert!(r.x + r.text.len() as i32 <= p.width - 2);
                assert!(2 <= r.y && r.y <= p.height - 2);
            }
        }
    }
}
