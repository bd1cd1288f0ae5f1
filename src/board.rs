use vstd::prelude::*;

verus! {

/// The content of one cell of the grid.
#[derive(Clone, Copy, Debug, PartialEq, Eq, Structural)]
pub enum Slot {
    Empty,
    X,
    O,
}

/// One of the two players; each places its own mark.
#[derive(Clone, Copy, Debug, PartialEq, Eq, Structural)]
pub enum Player {
    X,
    O,
}

/// The game grid: nine slots in row-major order (row 1 is 0, 1, 2).
pub type Grid = [Slot; 9];

/// The character that shows a slot on screen.
pub open spec fn spec_slot_char(slot: Slot) -> char {
    match slot {
        Slot::Empty => ' ',
        Slot::X => 'X',
        Slot::O => 'O',
    }
}

/// Return the char presenting the slot.
pub fn slot_char(slot: Slot) -> (r: char)
    ensures
        r == spec_slot_char(slot),
{
    match slot {
        Slot::Empty => ' ',
        Slot::O => 'O',
        Slot::X => 'X',
    }
}

/// The mark that a player places.
pub open spec fn spec_player_slot(player: Player) -> Slot {
    match player {
        Player::X => Slot::X,
        Player::O => Slot::O,
    }
}

/// The player whose turn follows the given player's.
pub open spec fn spec_opposite_player(player: Player) -> Player {
    match player {
        Player::X => Player::O,
        Player::O => Player::X,
    }
}

/// Return the opposite player for the given player.
pub fn opposite_player(player: Player) -> (r: Player)
    ensures
        r == spec_opposite_player(player),
        r != player,
{
    match player {
        Player::O => Player::X,
        Player::X => Player::O,
    }
}

/// Return the slot representing the player.
pub fn player_slot(player: &Player) -> (r: Slot)
    ensures
        r == spec_player_slot(*player),
        r != Slot::Empty,
{
    match player {
        Player::O => Slot::O,
        Player::X => Slot::X,
    }
}

/// The three cells of line `k`: rows for 0 to 2, columns for 3 to 5, then the
/// diagonal from the top left and the one from the top right.
pub open spec fn line_cells(k: int) -> (int, int, int) {
    if k == 0 {
        (0, 1, 2)
    } else if k == 1 {
        (3, 4, 5)
    } else if k == 2 {
        (6, 7, 8)
    } else if k == 3 {
        (0, 3, 6)
    } else if k == 4 {
        (1, 4, 7)
    } else if k == 5 {
        (2, 5, 8)
    } else if k == 6 {
        (0, 4, 8)
    } else {
        (2, 4, 6)
    }
}

/// Line `k` holds three equal marks.
pub open spec fn line_won(g: Seq<Slot>, k: int) -> bool {
    let (a, b, c) = line_cells(k);
    g[a] != Slot::Empty && g[a] == g[b] && g[b] == g[c]
}

/// Some row, column or diagonal holds three equal marks.
pub open spec fn spec_has_win(g: Seq<Slot>) -> bool {
    exists|k: int| 0 <= k < 8 && #[trigger] line_won(g, k)
}

/// Some cell is still empty.
pub open spec fn spec_has_free(g: Seq<Slot>) -> bool {
    exists|i: int| 0 <= i < g.len() && g[i] == Slot::Empty
}

/// The grid with cell `i` set to `slot`; every other cell stays as it was.
pub open spec fn placed(g: Grid, i: int, slot: Slot) -> Grid {
    vstd::array::spec_array_update(g, i, slot)
}

/// The outcome of a grid, as far as it goes.
#[derive(Clone, Copy, Debug, PartialEq, Eq, Structural)]
pub enum GameState {
    Unfinished,
    Victory,
    Draw,
}

/// A win counts before a full grid.
pub open spec fn spec_evaluate(g: Seq<Slot>) -> GameState {
    if spec_has_win(g) {
        GameState::Victory
    } else if !spec_has_free(g) {
        GameState::Draw
    } else {
        GameState::Unfinished
    }
}

/// Check whether the given grid contains a free cell.
pub fn has_free(grid: &Grid) -> (r: bool)
    ensures
        r == spec_has_free(grid@),
{
    let mut i: usize = 0;
    while i < 9
        invariant
            i <= 9,
            grid@.len() == 9,
            forall|j: int| 0 <= j < i ==> grid@[j] != Slot::Empty,
        decreases 9 - i,
    {
        if grid[i] == Slot::Empty {
            return true;
        }
        i += 1;
    }
    false
}

/// Check whether the given grid contains a winning line.
pub fn has_win(grid: &Grid) -> (r: bool)
    ensures
        r == spec_has_win(grid@),
{
    let r = (grid[0] != Slot::Empty && grid[0] == grid[1] && grid[1] == grid[2])
        || (grid[3] != Slot::Empty && grid[3] == grid[4] && grid[4] == grid[5])
        || (grid[6] != Slot::Empty && grid[6] == grid[7] && grid[7] == grid[8])
        || (grid[0] != Slot::Empty && grid[0] == grid[3] && grid[3] == grid[6])
        || (grid[1] != Slot::Empty && grid[1] == grid[4] && grid[4] == grid[7])
        || (grid[2] != Slot::Empty && grid[2] == grid[5] && grid[5] == grid[8])
        || (grid[0] != Slot::Empty && grid[0] == grid[4] && grid[4] == grid[8])
        || (grid[2] != Slot::Empty && grid[2] == grid[4] && grid[4] == grid[6]);
    proof {
        if r {
            if line_won(grid@, 0) {
            } else if line_won(grid@, 1) {
            } else if line_won(grid@, 2) {
            } else if line_won(grid@, 3) {
            } else if line_won(grid@, 4) {
            } else if line_won(grid@, 5) {
            } else if line_won(grid@, 6) {
            } else {
                assert(line_won(grid@, 7));
            }
        }
    }
    r
}

/// Evaluate the grid: a winning line first, then a full grid.
pub fn evaluate(grid: &Grid) -> (r: GameState)
    ensures
        r == spec_evaluate(grid@),
{
    if has_win(grid) {
        GameState::Victory
    } else if has_free(grid) {
        GameState::Unfinished
    } else {
        GameState::Draw
    }
}

/// A row, column or diagonal whose three cells hold one and the same mark wins,
/// whatever the other cells hold.
pub proof fn lemma_full_line_wins(g: Grid, k: int, mark: Slot)
    requires
        0 <= k < 8,
        mark != Slot::Empty,
        g@[line_cells(k).0] == mark,
        g@[line_cells(k).1] == mark,
        g@[line_cells(k).2] == mark,
    ensures
        spec_has_win(g@),
{
    assert(line_won(g@, k));
}

/// A grid has a free cell exactly when one of its nine cells is empty; a grid
/// whose cells are all taken has none.
pub proof fn lemma_free_cell(g: Grid)
    ensures
        spec_has_free(g@) <==> exists|i: int| 0 <= i < 9 && g@[i] == Slot::Empty,
        (forall|i: int| 0 <= i < 9 ==> g@[i] != Slot::Empty) ==> !spec_has_free(g@),
{
}

/// A grid with a winning line is judged a victory, never a draw.
pub proof fn lemma_win_is_never_draw(g: Grid)
    requires
        spec_has_win(g@),
    ensures
        spec_evaluate(g@) == GameState::Victory,
        spec_evaluate(g@) != GameState::Draw,
{
}

/// Placing a mark sets the one cell and leaves every other cell as it was.
pub proof fn lemma_place_changes_one_cell(g: Grid, i: int, slot: Slot)
    requires
        0 <= i < 9,
    ensures
        placed(g, i, slot)@[i] == slot,
        forall|j: int| 0 <= j < 9 && j != i ==> placed(g, i, slot)@[j] == g@[j],
{
}

/// The label row above and below the grid.
pub const COLUMN_LABELS: &'static str = "  | A | B | C |  ";

/// The rule between two rows of the grid.
pub const RULE: &'static str = "-----------------\n";

/// The text of one slot.
pub open spec fn slot_text(slot: Slot) -> Seq<char> {
    seq![spec_slot_char(slot)]
}

/// One row of the grid, labelled on both sides.
pub open spec fn row_text(label: Seq<char>, a: Slot, b: Slot, c: Slot) -> Seq<char> {
    label + " | "@ + slot_text(a) + " | "@ + slot_text(b) + " | "@ + slot_text(c) + " | "@ + label
        + "\n"@
}

/// The grid as shown on screen: column labels, then the three rows between rules.
pub open spec fn grid_text(g: Seq<Slot>) -> Seq<char> {
    COLUMN_LABELS@ + "\n"@ + RULE@ + row_text("1"@, g[0], g[1], g[2]) + RULE@ + row_text(
        "2"@,
        g[3],
        g[4],
        g[5],
    ) + RULE@ + row_text("3"@, g[6], g[7], g[8]) + RULE@ + COLUMN_LABELS@
}

/// The text of the slot as a string slice.
fn slot_str(slot: Slot) -> (r: &'static str)
    ensures
        r@ == slot_text(slot),
{
    proof {
        reveal_strlit(" ");
        reveal_strlit("X");
        reveal_strlit("O");
    }
    match slot {
        Slot::Empty => " ",
        Slot::X => "X",
        Slot::O => "O",
    }
}

/// Build one labelled row of the grid.
fn row_string(label: &str, a: Slot, b: Slot, c: Slot) -> (r: String)
    ensures
        r@ == row_text(label@, a, b, c),
{
    let mut r = String::from_str(label);
    r.append(" | ");
    r.append(slot_str(a));
    r.append(" | ");
    r.append(slot_str(b));
    r.append(" | ");
    r.append(slot_str(c));
    r.append(" | ");
    r.append(label);
    r.append("\n");
    r
}

/// Get the string representation of the target grid.
pub fn grid_string(grid: &Grid) -> (r: String)
    ensures
        r@ == grid_text(grid@),
{
    let mut result = String::from_str(COLUMN_LABELS);
    result.append("\n");
    result.append(RULE);
    let row = row_string("1", grid[0], grid[1], grid[2]);
    result.append(row.as_str());
    result.append(RULE);
    let row = row_string("2", grid[3], grid[4], grid[5]);
    result.append(row.as_str());
    result.append(RULE);
    let row = row_string("3", grid[6], grid[7], grid[8]);
    result.append(row.as_str());
    result.append(RULE);
    result.append(COLUMN_LABELS);
    result
}

} // verus!
