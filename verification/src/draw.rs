//! What a handler asks the host to draw.
use vstd::prelude::*;

verus! {

/// The colours that the game uses.
#[derive(Clone, Copy, Debug, PartialEq, Eq)]
pub enum Colour {
    White,
    Orange,
    Green,
    Black,
    Pink,
    BlueViolet,
    Navy,
}

/// One glyph at one place of the screen grid.
#[derive(Clone, Copy, Debug, PartialEq, Eq)]
pub struct Cell {
    pub x: i32,
    pub y: i32,
    pub fg: Colour,
    pub bg: Colour,
    pub glyph: char,
}

/// The lines of text that the game shows; those with a number show a score.
#[derive(Clone, Copy, Debug, PartialEq, Eq)]
pub enum Caption {
    Welcome,
    PlayGame,
    QuitGame,
    Dead,
    Earned(i32),
    PlayAgain,
    PressSpace,
    Score(i32),
}

/// One call on the host's drawing surface.
#[derive(Clone, Copy, Debug, PartialEq, Eq)]
pub enum Command {
    /// Clear the screen.
    Clear,
    /// Clear the screen to a background colour.
    ClearBackground(Colour),
    /// Print a line centred on row `y`.
    PrintCentered { y: i32, text: Caption },
    /// Print a line starting at column `x` of row `y`.
    Print { x: i32, y: i32, text: Caption },
    /// Put one glyph.
    Put(Cell),
}

/// What one tick hands back to the host: the commands in the order in which
/// they are to be carried out, and whether the player asked to leave.
#[derive(Debug, PartialEq, Eq)]
pub struct Frame {
    pub commands: Vec<Command>,
    pub quit: bool,
}

/// The commands that put the given cells, one by one.
pub open spec fn spec_put_all(cells: Seq<Cell>) -> Seq<Command> {
    Seq::new(cells.len(), |i: int| Command::Put(cells[i]))
}

/// Appends to `commands` one `Put` for each cell, in order.
pub fn put_all(commands: &mut Vec<Command>, cells: &Vec<Cell>)
    ensures
        final(commands)@ == old(commands)@ + spec_put_all(cells@),
{
    let mut i: usize = 0;
    while i < cells.len()
        invariant
            i <= cells.len(),
            commands@ == old(commands)@ + spec_put_all(cells@.take(i as int)),
        decreases cells.len() - i,
    {
        commands.push(Command::Put(cells[i]));
        i += 1;
        proof {
            assert(commands@ =~= old(commands)@ + spec_put_all(cells@.take(i as int)));
        }
    }
    proof {
        assert(cells@.take(i as int) =~= cells@);
    }
}

} // verus!
