use word_guess::evaluate::Status;
use word_guess::render::clear_screen_bytes;
use word_guess::render::erase_line_bytes;
use word_guess::render::render_guess_row;
use word_guess::render::render_invalid_notice;
use word_guess::render::render_victory_banner;
use word_guess::render::status_background;

#[test]
fn status_background_colors() {
    assert_eq!(status_background(Status::Correct), (108, 169, 101));
    assert_eq!(status_background(Status::WrongPosition), (200, 182, 83));
    assert_eq!(status_background(Status::Incorrect), (120, 124, 127));
}

#[test]
fn clear_screen_exact_bytes() {
    assert_eq!(clear_screen_bytes(), b"\x1b[H\x1b[J\n".to_vec());
}

#[test]
fn erase_line_exact_bytes() {
    assert_eq!(erase_line_bytes(), b"\x1b[A\x1b[2K".to_vec());
}

#[test]
fn guess_row_exact_bytes() {
    // The hint word SHELF scored against SUSHI: green S, gold H, gray E, L, F.
    let statuses = [
        Status::Correct,
        Status::WrongPosition,
        Status::Incorrect,
        Status::Incorrect,
        Status::Incorrect,
    ];
    let row = render_guess_row(b"SHELF", &statuses);
    let expected = "\x1b[38;2;255;255;255m\x1b[48;2;108;169;101m S \x1b[0m \x1b[48;2;200;182;83m H \x1b[0m \x1b[48;2;120;124;127m E \x1b[0m \x1b[48;2;120;124;127m L \x1b[0m \x1b[48;2;120;124;127m F \x1b[0m\x1b[0m\n";
    assert_eq!(row, expected.as_bytes().to_vec());
}

#[test]
fn all_correct_row_exact_bytes() {
    let statuses = [Status::Correct; 5];
    let row = render_guess_row(b"SUSHI", &statuses);
    let expected = "\x1b[38;2;255;255;255m\x1b[48;2;108;169;101m S \x1b[0m \x1b[48;2;108;169;101m U \x1b[0m \x1b[48;2;108;169;101m S \x1b[0m \x1b[48;2;108;169;101m H \x1b[0m \x1b[48;2;108;169;101m I \x1b[0m\x1b[0m\n";
    assert_eq!(row, expected.as_bytes().to_vec());
}

#[test]
fn victory_banner_exact_bytes() {
    let banner = render_victory_banner(b"SUSHI");
    let expected = "\x1b[38;2;0;0;0m\x1b[48;2;255;255;0m S \x1b[0m \x1b[38;2;255;0;128m\x1b[48;2;0;255;0m U \x1b[0m \x1b[38;2;0;0;0m\x1b[48;2;255;255;0m S \x1b[0m \x1b[38;2;0;255;0m\x1b[48;2;255;255;255m H \x1b[0m \x1b[38;2;255;255;255m\x1b[48;2;255;128;0m I \x1b[0m\n";
    assert_eq!(banner, expected.as_bytes().to_vec());
}

#[test]
fn invalid_notice_exact_bytes() {
    let line = b"su".to_vec();
    let notice = render_invalid_notice(&line);
    assert_eq!(notice, b"Invalid input: su\n".to_vec());
}

#[test]
fn invalid_notice_empty_line() {
    let line = Vec::new();
    let notice = render_invalid_notice(&line);
    assert_eq!(notice, b"Invalid input: \n".to_vec());
}
