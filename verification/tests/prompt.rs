use rustread::command::congratulation;
use rustread::command::react;
use rustread::command::Reaction;
use rustread::editor::read_line;
use rustread::editor::LineEditor;
use rustread::host::banner;
use rustread::host::banner_of_answer;
use rustread::host::host_banner;
use rustread::host::HostInfo;
use rustread::screen::cursor_on;
use rustread::screen::echo;
use rustread::screen::redraw;

#[test]
fn redraw_of_an_empty_buffer() {
    assert_eq!(redraw("", true), format!("\r> _{}", " ".repeat(77)));
    assert_eq!(redraw("", false), format!("\r> {}", " ".repeat(78)));
}

#[test]
fn redraw_shows_the_buffer_and_the_cursor() {
    assert_eq!(redraw("abc", true), format!("\r> abc_{}", " ".repeat(74)));
    assert_eq!(redraw("abc", false), format!("\r> abc{}", " ".repeat(75)));
}

#[test]
fn redraw_of_a_full_buffer_has_no_padding_left() {
    let full = "x".repeat(77);
    assert_eq!(redraw(&full, true), format!("\r> {}_", full));
    assert_eq!(redraw(&full, false), format!("\r> {} ", full));
}

#[test]
fn every_redraw_is_eighty_columns_wide() {
    let mut editor = LineEditor::new();
    for n in 0..100 {
        for cursor in [true, false] {
            let row = editor.redraw(cursor);
            assert_eq!(row, redraw(editor.line(), cursor));
            let mut chars = row.chars();
            assert_eq!(chars.next(), Some('\r'));
            assert_eq!(chars.count(), 80);
            assert!(!row.contains('\n'));
        }
        editor.press(if n % 7 == 6 { '\u{8}' } else { '\u{e9}' });
    }
}

#[test]
fn echo_pads_the_line_to_the_row() {
    assert_eq!(echo("abc"), format!("\rabc{}", " ".repeat(77)));
    assert_eq!(echo(""), format!("\r{}", " ".repeat(80)));
    let full = "y".repeat(77);
    assert_eq!(echo(&full), format!("\r{}   ", full));
}

#[test]
fn echo_keeps_a_line_that_is_wider_than_the_row() {
    let wide = "w".repeat(85);
    assert_eq!(echo(&wide), format!("\r{}", wide));
}

#[test]
fn cursor_blinks_in_halves_of_the_period() {
    assert!(cursor_on(0, 2));
    assert!(!cursor_on(1, 2));
    assert!(cursor_on(2, 2));
    assert!(!cursor_on(3, 2));
    let seen: Vec<bool> = (0..8).map(|cycle| cursor_on(cycle, 4)).collect();
    assert_eq!(seen, vec![true, true, false, false, true, true, false, false]);
    let odd: Vec<bool> = (0..5).map(|cycle| cursor_on(cycle, 5)).collect();
    assert_eq!(odd, vec![true, true, true, false, false]);
    assert!(cursor_on(u64::MAX, u64::MAX));
    assert!(!cursor_on(u64::MAX - 1, u64::MAX));
}

#[test]
fn cursor_without_period_is_always_on() {
    for cycle in 0..10 {
        assert!(cursor_on(cycle, 0));
        assert!(cursor_on(cycle, 1));
    }
    assert!(cursor_on(u64::MAX, 0));
}

#[test]
fn secret_is_congratulated_once_and_the_prompt_goes_on() {
    let input = b"secret\nmore\n";
    let mut at = 0;
    let mut congratulations = 0;
    let mut lines: Vec<String> = Vec::new();
    let mut ended = false;
    while at < input.len() && !ended {
        let (line, used) = read_line(&input[at..]);
        at += used;
        if let Some(line) = line {
            match react(&line, true) {
                Reaction::Congratulate => congratulations += 1,
                Reaction::Terminate => ended = true,
                Reaction::Continue => {}
            }
            lines.push(line);
        }
    }
    assert_eq!(congratulations, 1);
    assert!(!ended);
    assert_eq!(lines, vec![String::from("secret"), String::from("more")]);
    assert_eq!(react("secret", false), Reaction::Congratulate);
}

#[test]
fn exit_ends_the_program_only_where_it_is_supported() {
    let (line, _) = read_line(b"exit\n");
    let line = line.unwrap();
    assert_eq!(react(&line, true), Reaction::Terminate);
    assert_eq!(react(&line, false), Reaction::Continue);
}

#[test]
fn reactions_compare_the_whole_line_with_its_case() {
    for exit_supported in [true, false] {
        assert_eq!(react("Secret", exit_supported), Reaction::Continue);
        assert_eq!(react("EXIT", exit_supported), Reaction::Continue);
        assert_eq!(react("exit ", exit_supported), Reaction::Continue);
        assert_eq!(react(" secret", exit_supported), Reaction::Continue);
        assert_eq!(react("", exit_supported), Reaction::Continue);
        assert_eq!(react("hello", exit_supported), Reaction::Continue);
    }
}

#[test]
fn congratulation_is_the_fixed_message() {
    assert_eq!(congratulation(), "Yoo! Secret!");
}

#[test]
fn banner_names_system_release_and_version() {
    let info = HostInfo {
        sysname: String::from("Linux"),
        release: String::from("6.1.0"),
        version: String::from("#1 SMP"),
    };
    assert_eq!(banner(&info), "This is 'Linux' version '6.1.0'(#1 SMP)");
}

#[test]
fn banner_of_empty_strings() {
    let info = HostInfo { sysname: String::new(), release: String::new(), version: String::new() };
    assert_eq!(banner(&info), "This is '' version ''()");
}

#[test]
fn host_banner_has_the_shape_of_a_banner() {
    match host_banner() {
        Ok(text) => {
            assert!(text.starts_with("This is '"));
            assert!(text.contains("' version '"));
            assert!(text.ends_with(")"));
        }
        Err(failed) => {
            assert!(!format!("{}", failed.cause).is_empty());
        }
    }
}

#[test]
fn an_answer_of_the_host_becomes_its_banner() {
    let info = HostInfo {
        sysname: String::from("Plan9"),
        release: String::from("4"),
        version: String::from("2002"),
    };
    match banner_of_answer(Ok(info)) {
        Ok(text) => assert_eq!(text, "This is 'Plan9' version '4'(2002)"),
        Err(failed) => panic!("no banner: {}", failed.cause),
    }
}

#[test]
fn a_failed_query_keeps_its_error() {
    let cause = std::io::Error::new(std::io::ErrorKind::Other, "no answer from the host");
    match banner_of_answer(Err(cause)) {
        Ok(text) => panic!("a banner without a host: {}", text),
        Err(failed) => {
            assert_eq!(failed.cause.kind(), std::io::ErrorKind::Other);
            assert_eq!(format!("{}", failed.cause), "no answer from the host");
        }
    }
}
