use wordle_ncurses::lb::{Lb, Picture, Role, BLANK, LB_HEIGHT, LB_WIDTH};

#[test]
fn new_box_is_empty() {
    let lb = Lb::new(false, true, 7, 9);
    assert_eq!(lb.get(), ' ');
    assert_eq!(lb.get(), BLANK);
    assert_eq!(lb.role, Role::UnknownYet);
    assert!(lb.win.get_focus());
    assert_eq!((lb.win.x_offs, lb.win.y_offs), (7, 9));
    assert_eq!((lb.win.width, lb.win.height), (LB_WIDTH, LB_HEIGHT));
    assert_eq!((lb.win.width, lb.win.height), (3, 3));
    assert_eq!(lb.win.title, "");
    assert_eq!(lb.win.get_cursor(), (1, 1));
    assert_eq!((lb.left_bw, lb.right_bw, lb.top_bw, lb.bot_bw), (0, 0, 0, 0));
}

#[test]
fn new_box_with_a_border_keeps_room_for_it() {
    let lb = Lb::new(true, false, 0, 0);
    assert!(lb.border);
    assert!(!lb.win.get_focus());
    assert_eq!((lb.left_bw, lb.right_bw, lb.top_bw, lb.bot_bw), (1, 1, 1, 1));
}

#[test]
fn set_makes_capitals() {
    let mut lb = Lb::new(false, false, 0, 0);
    lb.set('q', Role::NotInPlace);
    assert_eq!(lb.get(), 'Q');
    assert_eq!(lb.role, Role::NotInPlace);
    lb.set('Z', Role::UnknownYet);
    assert_eq!(lb.get(), 'Z');
    lb.set(' ', Role::UnknownYet);
    assert_eq!(lb.get(), ' ');
    assert_eq!((lb.win.x_offs, lb.win.y_offs), (0, 0));
}

#[test]
fn set_role_keeps_the_letter() {
    let mut lb = Lb::new(false, true, 0, 0);
    lb.set('c', Role::UnknownYet);
    lb.set_role(Role::InPlace);
    assert_eq!(lb.get(), 'C');
    assert_eq!(lb.role, Role::InPlace);
    assert!(lb.win.get_focus());
}

#[test]
fn picture_of_a_box_in_focus() {
    let mut lb = Lb::new(false, true, 0, 0);
    lb.set('c', Role::UnknownYet);
    assert_eq!(
        lb.refresh(),
        Picture {
            fill_color: 4,
            top: 0,
            left: 0,
            pad_width: 3,
            fill_rows: 3,
            letter_y: 1,
            letter_x: 1,
            letter: 'C',
            border_color: Some(1),
        }
    );
}

#[test]
fn picture_of_a_box_out_of_focus() {
    let lb = Lb::new(false, false, 0, 0);
    let p = lb.refresh();
    assert_eq!(p.border_color, Some(2));
    assert_eq!(p.letter, ' ');
    assert_eq!(p.fill_color, 4);
}

#[test]
fn picture_of_a_checked_box_has_no_border() {
    for (role, color) in [
        (Role::InPlace, 5),
        (Role::NotInPlace, 6),
        (Role::NotInWord, 7),
    ] {
        let mut lb = Lb::new(false, true, 0, 0);
        lb.set('x', role);
        let p = lb.refresh();
        assert_eq!(p.fill_color, color);
        assert_eq!(p.border_color, None);
        assert_eq!(p.letter, 'X');
    }
}

#[test]
fn picture_of_a_box_with_its_own_border() {
    let mut lb = Lb::new(true, false, 0, 0);
    lb.set('x', Role::InPlace);
    assert_eq!(
        lb.refresh(),
        Picture {
            fill_color: 5,
            top: 1,
            left: 1,
            pad_width: 1,
            fill_rows: 1,
            letter_y: 1,
            letter_x: 1,
            letter: 'X',
            border_color: Some(2),
        }
    );
    lb.win.set_focus(true);
    assert_eq!(lb.refresh().border_color, Some(1));
}
