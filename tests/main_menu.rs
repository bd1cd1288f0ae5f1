use tic_tac_toe::main_menu::{handle_input, parse_input, run, Input, HEADING};
use tic_tac_toe::Command;

#[test]
fn main_menu_parse_input_returns_ok_with_valid_input() {
    assert_eq!(parse_input("1"), Ok(Input::Play));
    assert_eq!(parse_input("2"), Ok(Input::Exit));
}

#[test]
fn main_menu_parse_input_returns_err_with_invalid_input() {
    assert_eq!(parse_input(""), Err("invalid input"));
    assert_eq!(parse_input("0"), Err("invalid input"));
    assert_eq!(parse_input("3"), Err("invalid input"));
}

#[test]
fn handle_input_returns_commands() {
    assert_eq!(handle_input(Input::Play), Command::OpenTurnMenu);
    assert_eq!(handle_input(Input::Exit), Command::Exit);
}

#[test]
fn main_menu_parse_input_takes_no_longer_text() {
    assert_eq!(parse_input("12"), Err("invalid input"));
    assert_eq!(parse_input("1 "), Err("invalid input"));
    assert_eq!(parse_input("Play"), Err("invalid input"));
}

#[test]
fn main_menu_run_trims_the_line() {
    assert_eq!(run(" 1\n"), Command::OpenTurnMenu);
    assert_eq!(run("\t2 \r\n"), Command::Exit);
    assert_eq!(run("2"), Command::Exit);
}

#[test]
fn main_menu_run_stays_on_invalid_line() {
    assert_eq!(run("3"), Command::MainMenu);
    assert_eq!(run(""), Command::MainMenu);
    assert_eq!(run("1 2"), Command::MainMenu);
}

#[test]
fn main_menu_heading_lists_the_choices() {
    assert_eq!(
        HEADING,
        "\n===================\n=== Tic-Tac-Toe ===\n===================\n\nPlease enter a selection:\n[1] Play\n[2] Quit\n"
    );
}
