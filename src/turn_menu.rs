use vstd::prelude::*;
use crate::board::{
    evaluate, grid_string, grid_text, opposite_player, placed, player_slot, spec_evaluate,
    spec_opposite_player, spec_player_slot, GameState, Grid, Player, Slot,
};
use crate::text::{trim, trimmed, INVALID_INPUT};
use crate::Command;

verus! {

/// A cell of the grid as the players name it: column letter, then row digit.
#[derive(Clone, Copy, Debug, PartialEq, Eq, Structural)]
pub enum Input {
    A1,
    B1,
    C1,
    A2,
    B2,
    C2,
    A3,
    B3,
    C3,
}

/// The text that names a cell.
pub open spec fn cell_token(c: Input) -> Seq<char> {
    match c {
        Input::A1 => seq!['A', '1'],
        Input::B1 => seq!['B', '1'],
        Input::C1 => seq!['C', '1'],
        Input::A2 => seq!['A', '2'],
        Input::B2 => seq!['B', '2'],
        Input::C2 => seq!['C', '2'],
        Input::A3 => seq!['A', '3'],
        Input::B3 => seq!['B', '3'],
        Input::C3 => seq!['C', '3'],
    }
}

/// The grid index of a cell, row by row.
pub open spec fn spec_input_index(c: Input) -> int {
    match c {
        Input::A1 => 0,
        Input::B1 => 1,
        Input::C1 => 2,
        Input::A2 => 3,
        Input::B2 => 4,
        Input::C2 => 5,
        Input::A3 => 6,
        Input::B3 => 7,
        Input::C3 => 8,
    }
}

/// The cell that `s` names, if it names one.
pub open spec fn parse_cell(s: Seq<char>) -> Option<Input> {
    if exists|c: Input| cell_token(c) == s {
        Some(choose|c: Input| cell_token(c) == s)
    } else {
        None
    }
}

/// No two cells share a name.
pub proof fn lemma_cell_token_injective(a: Input, b: Input)
    requires
        cell_token(a) == cell_token(b),
    ensures
        a == b,
{
    assert(cell_token(a)[0] == cell_token(b)[0]);
    assert(cell_token(a)[1] == cell_token(b)[1]);
}

/// The name of a cell reads back as that cell.
pub proof fn lemma_parse_cell_token(c: Input)
    ensures
        parse_cell(cell_token(c)) == Some(c),
{
    let d = choose|d: Input| cell_token(d) == cell_token(c);
    lemma_cell_token_injective(c, d);
}

/// The letter of column `k`, from the left.
pub open spec fn column_letter(k: int) -> char {
    if k == 0 {
        'A'
    } else if k == 1 {
        'B'
    } else {
        'C'
    }
}

/// The digit of row `k`, from the top.
pub open spec fn row_digit(k: int) -> char {
    if k == 0 {
        '1'
    } else if k == 1 {
        '2'
    } else {
        '3'
    }
}

/// The name of the cell at grid index `i`: its column letter, then its row digit.
pub open spec fn token_of_index(i: int) -> Seq<char> {
    seq![column_letter(i % 3), row_digit(i / 3)]
}

/// Each name of a cell reads as that cell, whose index lies in the grid and
/// gives that name back.
pub proof fn lemma_cell_round_trip(c: Input)
    ensures
        parse_cell(cell_token(c)) == Some(c),
        0 <= spec_input_index(c) < 9,
        token_of_index(spec_input_index(c)) == cell_token(c),
{
    lemma_parse_cell_token(c);
    assert(token_of_index(spec_input_index(c)) =~= cell_token(c));
}

/// Two cells with one index are one cell.
pub proof fn lemma_cell_index_distinct(a: Input, b: Input)
    requires
        spec_input_index(a) == spec_input_index(b),
    ensures
        a == b,
{
}

/// Parse the turn menu input from the provided input string.
pub fn parse_input(input: &str) -> (r: Result<Input, &'static str>)
    ensures
        match r {
            Ok(c) => parse_cell(trimmed(input@)) == Some(c),
            Err(e) => parse_cell(trimmed(input@)) is None && e@ == INVALID_INPUT@,
        },
{
    let t = trim(input);
    if t.unicode_len() != 2 {
        assert forall|c: Input| cell_token(c) != t@ by {
            assert(cell_token(c).len() == 2);
        }
        return Err(INVALID_INPUT);
    }
    let col = t.get_char(0);
    let row = t.get_char(1);
    let cell = match (col, row) {
        ('A', '1') => Input::A1,
        ('B', '1') => Input::B1,
        ('C', '1') => Input::C1,
        ('A', '2') => Input::A2,
        ('B', '2') => Input::B2,
        ('C', '2') => Input::C2,
        ('A', '3') => Input::A3,
        ('B', '3') => Input::B3,
        ('C', '3') => Input::C3,
        _ => {
            assert forall|c: Input| cell_token(c) != t@ by {
                if cell_token(c) == t@ {
                    assert(cell_token(c)[0] == t@[0]);
                    assert(cell_token(c)[1] == t@[1]);
                }
            }
            return Err(INVALID_INPUT);
        },
    };
    proof {
        assert(t@ =~= cell_token(cell));
        lemma_parse_cell_token(cell);
    }
    Ok(cell)
}

/// Get the corresponding grid index for the provided input.
pub fn input_index(input: &Input) -> (r: usize)
    ensures
        r == spec_input_index(*input),
        r < 9,
{
    match input {
        Input::A1 => 0,
        Input::B1 => 1,
        Input::C1 => 2,
        Input::A2 => 3,
        Input::B2 => 4,
        Input::C2 => 5,
        Input::A3 => 6,
        Input::B3 => 7,
        Input::C3 => 8,
    }
}

/// Build a new grid where the slot in the target index has been updated.
pub fn update_grid(grid: &Grid, input: &Input, slot: Slot) -> (r: Grid)
    ensures
        r == placed(*grid, spec_input_index(*input), slot),
        r@ == grid@.update(spec_input_index(*input), slot),
{
    let mut result = *grid;
    result[input_index(input)] = slot;
    assert(result =~= placed(*grid, spec_input_index(*input), slot));
    result
}

/// Where a move leaves the turn menu.
#[derive(Clone, Copy, Debug, PartialEq)]
pub enum SubCommand {
    Play(Grid, Player),
    Victory(Grid, Player),
    Draw(Grid),
}

/// The effect of `player` choosing `c` on `g`: an occupied cell changes
/// nothing; else the player's mark goes there, and the grid is judged.
pub open spec fn spec_handle_input(c: Input, g: Grid, player: Player) -> SubCommand {
    let i = spec_input_index(c);
    if g@[i] != Slot::Empty {
        SubCommand::Play(g, player)
    } else {
        let next = placed(g, i, spec_player_slot(player));
        match spec_evaluate(next@) {
            GameState::Victory => SubCommand::Victory(next, player),
            GameState::Draw => SubCommand::Draw(next),
            GameState::Unfinished => SubCommand::Play(next, spec_opposite_player(player)),
        }
    }
}

/// Handle the provided input to react on user input.
pub fn handle_input(input: &Input, grid: &Grid, player: &Player) -> (r: SubCommand)
    ensures
        r == spec_handle_input(*input, *grid, *player),
{
    if grid[input_index(input)] == Slot::Empty {
        let new_grid = update_grid(grid, input, player_slot(player));
        match evaluate(&new_grid) {
            GameState::Victory => SubCommand::Victory(new_grid, *player),
            GameState::Draw => SubCommand::Draw(new_grid),
            GameState::Unfinished => SubCommand::Play(new_grid, opposite_player(*player)),
        }
    } else {
        SubCommand::Play(*grid, *player)
    }
}

/// The command that a turn leads to.
pub open spec fn command_of(sub: SubCommand) -> Command {
    match sub {
        SubCommand::Play(g, p) => Command::TurnMenu(g, p),
        SubCommand::Victory(g, p) => Command::Victory(g, p),
        SubCommand::Draw(g) => Command::Draw(g),
    }
}

/// One turn: a line that names no cell leaves the turn as it was.
pub open spec fn spec_turn(g: Grid, player: Player, line: Seq<char>) -> Command {
    match parse_cell(trimmed(line)) {
        Some(c) => command_of(spec_handle_input(c, g, player)),
        None => Command::TurnMenu(g, player),
    }
}

/// A turn never clears or changes a mark that is on the grid, and stays in
/// the game: it leads to the next turn or to the end of the game.
pub proof fn lemma_turn_keeps_marks(g: Grid, player: Player, line: Seq<char>)
    ensures
        match spec_turn(g, player, line) {
            Command::TurnMenu(next, _) | Command::Victory(next, _) | Command::Draw(next) => forall|
                i: int,
            |
                0 <= i < 9 && g@[i] != Slot::Empty ==> next@[i] == g@[i],
            _ => false,
        },
{
}

/// Run one turn of `player` on `grid` with the line that the player entered.
pub fn run(grid: &Grid, player: Player, input: &str) -> (r: Command)
    ensures
        r == spec_turn(*grid, player, input@),
{
    match parse_input(input) {
        Err(_) => Command::TurnMenu(*grid, player),
        Ok(cell) => sub_command_to_command(handle_input(&cell, grid, &player)),
    }
}

/// The command that the outcome of a turn leads to.
pub fn sub_command_to_command(sub: SubCommand) -> (r: Command)
    ensures
        r == command_of(sub),
{
    match sub {
        SubCommand::Play(g, p) => Command::TurnMenu(g, p),
        SubCommand::Victory(g, p) => Command::Victory(g, p),
        SubCommand::Draw(g) => Command::Draw(g),
    }
}

/// The name of a player as shown on screen.
pub open spec fn player_text(player: Player) -> Seq<char> {
    match player {
        Player::X => seq!['X'],
        Player::O => seq!['O'],
    }
}

/// The name of the player as a string slice.
fn player_str(player: &Player) -> (r: &'static str)
    ensures
        r@ == player_text(*player),
{
    proof {
        reveal_strlit("X");
        reveal_strlit("O");
    }
    match player {
        Player::X => "X",
        Player::O => "O",
    }
}

/// The turn menu: whose turn it is, the grid, and the prompt for a cell.
pub open spec fn turn_menu_text(g: Seq<Slot>, player: Player) -> Seq<char> {
    "Current turn: "@ + player_text(player) + "\n\n"@ + grid_text(g) + "\n\n"@
        + "Please enter a cell e.g. 'B2':\n"@
}

/// The end of a game that `player` won, on the winning grid.
pub open spec fn victory_text(g: Seq<Slot>, player: Player) -> Seq<char> {
    grid_text(g) + "\n\n"@ + "Player "@ + player_text(player)
        + " wins the game! Congratulations!\n"@
}

/// The end of a game that no one won, on the full grid.
pub open spec fn draw_text(g: Seq<Slot>) -> Seq<char> {
    grid_text(g) + "\n\n"@ + "Game ends in a draw! Better luck next time!"@
}

/// Get the string representation of the turn menu.
pub fn turn_menu_string(grid: &Grid, player: &Player) -> (r: String)
    ensures
        r@ == turn_menu_text(grid@, *player),
{
    let mut result = String::from_str("Current turn: ");
    result.append(player_str(player));
    result.append("\n\n");
    let g = grid_string(grid);
    result.append(g.as_str());
    result.append("\n\n");
    result.append("Please enter a cell e.g. 'B2':\n");
    result
}

/// Get the string representation of the game victory.
pub fn victory_string(grid: &Grid, player: &Player) -> (r: String)
    ensures
        r@ == victory_text(grid@, *player),
{
    let mut result = grid_string(grid);
    result.append("\n\n");
    result.append("Player ");
    result.append(player_str(player));
    result.append(" wins the game! Congratulations!\n");
    result
}

/// Get the string representation of the game draw.
pub fn draw_string(grid: &Grid) -> (r: String)
    ensures
        r@ == draw_text(grid@),
{
    let mut result = grid_string(grid);
    result.append("\n\n");
    result.append("Game ends in a draw! Better luck next time!");
    result
}

} // verus!
