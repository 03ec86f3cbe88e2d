use wordle_ncurses::words::{
    in_capitals, pick_secret, select_words, word_at, words_of_length, Provider, SetupError,
};

fn strings(v: &[&str]) -> Vec<String> {
    v.iter().map(|s| s.to_string()).collect()
}

#[test]
fn select_words_keeps_the_length_and_makes_capitals() {
    assert_eq!(
        select_words("crane\ncat\ntrace\nhouses\nBrain", 5),
        strings(&["CRANE", "TRACE", "BRAIN"])
    );
    assert_eq!(select_words("crane\ncat\ntrace", 3), strings(&["CAT"]));
}

#[test]
fn select_words_of_no_such_length_is_empty() {
    assert_eq!(select_words("crane\ncat", 4), Vec::<String>::new());
    assert_eq!(select_words("", 5), Vec::<String>::new());
}

#[test]
fn select_words_counts_characters() {
    assert_eq!(select_words("été\nabc\nab", 3), strings(&["ÉTÉ", "ABC"]));
}

#[test]
fn select_words_counts_a_carriage_return_as_a_character() {
    assert_eq!(select_words("crane\r\ntrace\n", 5), strings(&["TRACE"]));
    assert_eq!(select_words("cran\r\ntrace\n", 5), strings(&["CRAN\r", "TRACE"]));
}

#[test]
fn select_words_with_length_zero_takes_the_empty_lines() {
    assert_eq!(select_words("a\n\nb\n", 0), strings(&["", ""]));
}

#[test]
fn select_words_keeps_order_and_repeats() {
    assert_eq!(
        select_words("bb\naa\nbb\nc", 2),
        strings(&["BB", "AA", "BB"])
    );
}

#[test]
fn word_at_gives_the_word() {
    let words = strings(&["CRANE", "TRACE"]);
    assert_eq!(word_at(&words, 0), "CRANE");
    assert_eq!(word_at(&words, 1), "TRACE");
}

#[test]
fn pick_secret_of_nothing_fails() {
    assert_eq!(pick_secret(&Vec::new()), Err(SetupError::NoWords));
}

#[test]
fn pick_secret_of_one_word_is_that_word() {
    let words = strings(&["CRANE"]);
    for _ in 0..50 {
        assert_eq!(pick_secret(&words), Ok("CRANE".to_string()));
    }
}

#[test]
fn pick_secret_is_one_of_the_words() {
    let words = strings(&["CRANE", "TRACE", "BRAIN"]);
    for _ in 0..200 {
        let w = pick_secret(&words).unwrap();
        assert!(words.contains(&w));
    }
}

#[test]
fn pick_secret_reaches_every_word() {
    let words = strings(&["CRANE", "TRACE", "BRAIN"]);
    let mut seen = [false; 3];
    for _ in 0..2000 {
        let w = pick_secret(&words).unwrap();
        seen[words.iter().position(|x| *x == w).unwrap()] = true;
    }
    assert_eq!(seen, [true; 3]);
}

#[test]
fn provider_starts_a_round() {
    let p = Provider::start("crane\ncat\ntrace\n", 5).unwrap();
    assert_eq!(p.words, strings(&["CRANE", "TRACE"]));
    assert!(p.words.contains(&p.secret));
    assert_eq!(p.secret.chars().count(), 5);
}

#[test]
fn provider_without_words_fails() {
    assert_eq!(Provider::start("crane\ncat\n", 4), Err(SetupError::NoWords));
    assert_eq!(Provider::start("", 5), Err(SetupError::NoWords));
}

#[test]
fn words_of_length_keeps_the_lines_as_they_are() {
    assert_eq!(
        words_of_length("crane\ncat\nTrace\nhouses\n", 5),
        strings(&["crane", "Trace"])
    );
    assert_eq!(words_of_length("crane\ncat", 3), strings(&["cat"]));
    assert_eq!(words_of_length("crane\ncat", 2), Vec::<String>::new());
    assert_eq!(words_of_length("a\n\nb\n", 0), strings(&["", ""]));
    assert_eq!(words_of_length("été\nete", 3), strings(&["été", "ete"]));
}

#[test]
fn in_capitals_changes_each_word() {
    assert_eq!(
        in_capitals(&strings(&["crane", "Trace", "CAT", "été"])),
        strings(&["CRANE", "TRACE", "CAT", "ÉTÉ"])
    );
    assert_eq!(in_capitals(&Vec::new()), Vec::<String>::new());
    assert_eq!(in_capitals(&strings(&["straße"])), strings(&["STRASSE"]));
}
