use word_guess::session::Phase;
use word_guess::session::Session;

fn erase() -> Vec<u8> {
    b"\x1b[A\x1b[2K".to_vec()
}

fn shelf_row() -> Vec<u8> {
    "\x1b[38;2;255;255;255m\x1b[48;2;108;169;101m S \x1b[0m \x1b[48;2;200;182;83m H \x1b[0m \x1b[48;2;120;124;127m E \x1b[0m \x1b[48;2;120;124;127m L \x1b[0m \x1b[48;2;120;124;127m F \x1b[0m\x1b[0m\n"
    .as_bytes()
    .to_vec()
}

fn banner() -> Vec<u8> {
    "\x1b[38;2;0;0;0m\x1b[48;2;255;255;0m S \x1b[0m \x1b[38;2;255;0;128m\x1b[48;2;0;255;0m U \x1b[0m \x1b[38;2;0;0;0m\x1b[48;2;255;255;0m S \x1b[0m \x1b[38;2;0;255;0m\x1b[48;2;255;255;255m H \x1b[0m \x1b[38;2;255;255;255m\x1b[48;2;255;128;0m I \x1b[0m\n"
    .as_bytes()
    .to_vec()
}

#[test]
fn opening_clears_screen_and_shows_hint_row() {
    let session = Session::new();
    let mut expected = b"\x1b[H\x1b[J\n".to_vec();
    expected.extend_from_slice(&shelf_row());
    assert_eq!(session.opening_output(), expected);
}

#[test]
fn invalid_line_gets_notice_and_sets_flag() {
    let mut session = Session::new();
    let out = session.handle_line(&b"su\n".to_vec());
    let mut expected = erase();
    expected.extend_from_slice(b"Invalid input: su\n");
    assert_eq!(out, expected);
    assert!(session.previous_input_invalid);
    assert_eq!(session.phase, Phase::Playing);
}

#[test]
fn second_invalid_line_erases_stale_notice_first() {
    let mut session = Session::new();
    session.handle_line(&b"su\n".to_vec());
    let out = session.handle_line(&b"susi!\n".to_vec());
    let mut expected = erase();
    expected.extend_from_slice(&erase());
    expected.extend_from_slice(b"Invalid input: susi!\n");
    assert_eq!(out, expected);
    assert!(session.previous_input_invalid);
}

#[test]
fn valid_line_after_invalid_erases_notice_and_clears_flag() {
    let mut session = Session::new();
    session.handle_line(&b"su\n".to_vec());
    let out = session.handle_line(&b"shelf\n".to_vec());
    let mut expected = erase();
    expected.extend_from_slice(&erase());
    expected.extend_from_slice(&shelf_row());
    assert_eq!(out, expected);
    assert!(!session.previous_input_invalid);
    assert_eq!(session.phase, Phase::Playing);
}

#[test]
fn wrong_guess_gets_permanent_row_and_game_goes_on() {
    let mut session = Session::new();
    let out = session.handle_line(&b"SHELF\n".to_vec());
    let mut expected = erase();
    expected.extend_from_slice(&shelf_row());
    assert_eq!(out, expected);
    assert_eq!(session.phase, Phase::Playing);
}

#[test]
fn correct_guess_shows_banner_and_ends_game() {
    let mut session = Session::new();
    let out = session.handle_line(&b"SUSHI\n".to_vec());
    let mut expected = erase();
    expected.extend_from_slice(&banner());
    assert_eq!(out, expected);
    assert_eq!(session.phase, Phase::GameOver);
}

#[test]
fn lowercase_correct_guess_wins_too() {
    let mut session = Session::new();
    let out = session.handle_line(&b"sushi\r\n".to_vec());
    let mut expected = erase();
    expected.extend_from_slice(&banner());
    assert_eq!(out, expected);
    assert_eq!(session.phase, Phase::GameOver);
}

#[test]
fn finished_game_absorbs_every_further_line() {
    let mut session = Session::new();
    session.handle_line(&b"SUSHI\n".to_vec());
    for line in [&b"SHELF\n"[..], b"sushi\n", b"su\n", b"!!!!!\n", b"\n"] {
        let out = session.handle_line(&line.to_vec());
        assert_eq!(out, erase());
        assert_eq!(session.phase, Phase::GameOver);
    }
}

#[test]
fn full_game_transcript() {
    let mut session = Session::new();
    // A rejected line, a wrong guess, then the winning guess.
    session.handle_line(&b"sx\n".to_vec());
    let out = session.handle_line(&b"Issue\n".to_vec());
    // The row for ISSUE against SUSHI, scored by whole-answer containment.
    let issue_row = "\x1b[38;2;255;255;255m\x1b[48;2;200;182;83m I \x1b[0m \x1b[48;2;200;182;83m S \x1b[0m \x1b[48;2;108;169;101m S \x1b[0m \x1b[48;2;200;182;83m U \x1b[0m \x1b[48;2;120;124;127m E \x1b[0m\x1b[0m\n";
    let mut expected = erase();
    expected.extend_from_slice(&erase());
    expected.extend_from_slice(issue_row.as_bytes());
    assert_eq!(out, expected);
    let out = session.handle_line(&b"sushi\n".to_vec());
    let mut expected = erase();
    expected.extend_from_slice(&banner());
    assert_eq!(out, expected);
    assert_eq!(session.phase, Phase::GameOver);
}
