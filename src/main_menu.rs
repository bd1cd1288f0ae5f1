use vstd::prelude::*;
use crate::text::{trim, trimmed, INVALID_INPUT};
use crate::Command;

verus! {

/// The heading used to show the main menu.
pub const HEADING: &'static str = "
===================
=== Tic-Tac-Toe ===
===================

Please enter a selection:
[1] Play
[2] Quit
";

/// The choices of the main menu.
#[derive(Clone, Copy, Debug, PartialEq, Eq, Structural)]
pub enum Input {
    Play,
    Exit,
}

/// The choice that `s` selects, if it selects one: "1" plays, "2" quits.
pub open spec fn menu_choice(s: Seq<char>) -> Option<Input> {
    if s == seq!['1'] {
        Some(Input::Play)
    } else if s == seq!['2'] {
        Some(Input::Exit)
    } else {
        None
    }
}

/// Parse the main menu input from the provided input string.
pub fn parse_input(input: &str) -> (r: Result<Input, &'static str>)
    ensures
        match r {
            Ok(choice) => menu_choice(input@) == Some(choice),
            Err(e) => menu_choice(input@) is None && e@ == INVALID_INPUT@,
        },
{
    if input.unicode_len() != 1 {
        return Err(INVALID_INPUT);
    }
    let c = input.get_char(0);
    if c == '1' {
        assert(input@ =~= seq!['1']);
        Ok(Input::Play)
    } else if c == '2' {
        assert(input@ =~= seq!['2']);
        assert(input@ != seq!['1']);
        Ok(Input::Exit)
    } else {
        assert(input@ != seq!['1'] && input@ != seq!['2']) by {
            assert(seq!['1'][0] == '1');
            assert(seq!['2'][0] == '2');
        }
        Err(INVALID_INPUT)
    }
}

/// The command that a choice of the main menu leads to.
pub open spec fn spec_handle_input(choice: Input) -> Command {
    match choice {
        Input::Play => Command::OpenTurnMenu,
        Input::Exit => Command::Exit,
    }
}

/// Handle the provided input to react on user input.
pub fn handle_input(input: Input) -> (r: Command)
    ensures
        r == spec_handle_input(input),
{
    match input {
        Input::Play => Command::OpenTurnMenu,
        Input::Exit => Command::Exit,
    }
}

/// The main menu on a line: a line that selects nothing shows the menu again.
pub open spec fn spec_main_menu(line: Seq<char>) -> Command {
    match menu_choice(trimmed(line)) {
        Some(choice) => spec_handle_input(choice),
        None => Command::MainMenu,
    }
}

/// Run the main menu with the line that the player entered.
pub fn run(input: &str) -> (r: Command)
    ensures
        r == spec_main_menu(input@),
{
    match parse_input(trim(input)) {
        Ok(choice) => handle_input(choice),
        Err(_) => Command::MainMenu,
    }
}

} // verus!
