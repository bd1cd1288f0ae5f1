pub mod board;
pub mod main_menu;
pub mod text;
pub mod turn_menu;

use vstd::prelude::*;

verus! {

use crate::board::{Grid, Player, Slot};
use crate::main_menu::{spec_main_menu, HEADING};
use crate::text::trimmed;
use crate::turn_menu::{
    command_of, draw_string, draw_text, parse_cell, spec_handle_input, spec_input_index, spec_turn, turn_menu_string,
    turn_menu_text, victory_string, victory_text,
};

/// The phases of the game, from the main menu to the end of the run.
#[derive(Clone, Copy, Debug, PartialEq)]
pub enum Command {
    MainMenu,
    OpenTurnMenu,
    TurnMenu(Grid, Player),
    Victory(Grid, Player),
    Draw(Grid),
    Exit,
}

/// The player who moves first in every game.
pub const STARTING_PLAYER: Player = Player::O;

/// The last message of a run.
pub const FAREWELL: &'static str = "Bye!";

/// The grid that a game starts on: every cell empty.
pub open spec fn empty_grid() -> Grid {
    vstd::array::spec_array_fill_for_copy_type::<Slot, 9>(Slot::Empty)
}

/// The text shown on entering a phase.
pub open spec fn command_text(command: Command) -> Seq<char> {
    match command {
        Command::MainMenu => HEADING@,
        Command::OpenTurnMenu => turn_menu_text(empty_grid()@, STARTING_PLAYER),
        Command::TurnMenu(g, p) => turn_menu_text(g@, p),
        Command::Victory(g, p) => victory_text(g@, p),
        Command::Draw(g) => draw_text(g@),
        Command::Exit => FAREWELL@,
    }
}

/// The phases that wait for a line of input; the others only show their text.
pub open spec fn awaits_input(command: Command) -> bool {
    match command {
        Command::MainMenu | Command::OpenTurnMenu | Command::TurnMenu(_, _) => true,
        _ => false,
    }
}

/// The phase that follows `command` on `line`; none after the exit.
pub open spec fn next_command(command: Command, line: Seq<char>) -> Option<Command> {
    match command {
        Command::MainMenu => Some(spec_main_menu(line)),
        Command::OpenTurnMenu => match parse_cell(trimmed(line)) {
            Some(c) => Some(command_of(spec_handle_input(c, empty_grid(), STARTING_PLAYER))),
            None => Some(Command::OpenTurnMenu),
        },
        Command::TurnMenu(g, p) => Some(spec_turn(g, p, line)),
        Command::Victory(_, _) | Command::Draw(_) => Some(Command::Exit),
        Command::Exit => None,
    }
}

/// The phase reached from `command` on the given lines, one step for each;
/// none once the run has ended.
pub open spec fn run_lines(command: Command, lines: Seq<Seq<char>>) -> Option<Command>
    decreases lines.len(),
{
    if lines.len() == 0 {
        Some(command)
    } else {
        match next_command(command, lines[0]) {
            Some(next) => run_lines(next, lines.subrange(1, lines.len() as int)),
            None => None,
        }
    }
}

/// The line names a cell of `g` that is taken.
pub open spec fn names_taken_cell(g: Grid, line: Seq<char>) -> bool {
    match parse_cell(trimmed(line)) {
        Some(c) => g@[spec_input_index(c)] != Slot::Empty,
        None => false,
    }
}

/// A turn on which the player names taken cells, any number of times, stays
/// as it was: same grid, same player.
pub proof fn lemma_taken_cell_rejected(g: Grid, player: Player, lines: Seq<Seq<char>>)
    requires
        forall|i: int| 0 <= i < lines.len() ==> names_taken_cell(g, #[trigger] lines[i]),
    ensures
        run_lines(Command::TurnMenu(g, player), lines) == Some(Command::TurnMenu(g, player)),
    decreases lines.len(),
{
    if lines.len() > 0 {
        assert(names_taken_cell(g, lines[0]));
        let rest = lines.subrange(1, lines.len() as int);
        assert forall|i: int| 0 <= i < rest.len() implies names_taken_cell(g, #[trigger] rest[i]) by {
            assert(rest[i] == lines[i + 1]);
        }
        lemma_taken_cell_rejected(g, player, rest);
    }
}

/// The text to show on entering the phase of the given command.
pub fn command_output(command: &Command) -> (r: String)
    ensures
        r@ == command_text(*command),
{
    match command {
        Command::MainMenu => String::from_str(HEADING),
        Command::OpenTurnMenu => {
            let grid: Grid = [Slot::Empty; 9];
            turn_menu_string(&grid, &STARTING_PLAYER)
        },
        Command::TurnMenu(grid, player) => turn_menu_string(grid, player),
        Command::Victory(grid, player) => victory_string(grid, player),
        Command::Draw(grid) => draw_string(grid),
        Command::Exit => String::from_str(FAREWELL),
    }
}

/// Whether the phase of the given command reads a line before it moves on.
pub fn reads_input(command: &Command) -> (r: bool)
    ensures
        r == awaits_input(*command),
{
    match command {
        Command::MainMenu | Command::OpenTurnMenu | Command::TurnMenu(_, _) => true,
        _ => false,
    }
}

/// Execute the given command on the line that was read in its phase (a
/// phase that reads none ignores it), possibly leading into a next command.
pub fn execute_command(command: &Command, input: &str) -> (r: Option<Command>)
    ensures
        r == next_command(*command, input@),
{
    match command {
        Command::MainMenu => Some(main_menu::run(input)),
        Command::OpenTurnMenu => match turn_menu::parse_input(input) {
            Err(_) => Some(Command::OpenTurnMenu),
            Ok(cell) => {
                let grid: Grid = [Slot::Empty; 9];
                let sub = turn_menu::handle_input(&cell, &grid, &STARTING_PLAYER);
                Some(turn_menu::sub_command_to_command(sub))
            },
        },
        Command::TurnMenu(grid, player) => Some(turn_menu::run(grid, *player, input)),
        Command::Victory(_, _) | Command::Draw(_) => Some(Command::Exit),
        Command::Exit => None,
    }
}

} // verus!
