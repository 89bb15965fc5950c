//! What the game asks its shell to put on the screen.
//!
//! The game never draws. Each tick it returns a [`Frame`]: the drawing
//! requests of that tick, in the order in which they are to be carried out,
//! and whether the player asked to leave. Glyphs, colours and wording are the
//! shell's business; the requests name what is to be shown, not how.

use vstd::prelude::*;

verus! {

/// What occupies a single cell.
#[derive(Clone, Copy, Debug, PartialEq, Eq, Structural)]
pub enum Glyph {
    /// The player.
    Player,
    /// One cell of an obstacle.
    Wall,
}

/// A line of text, with the numbers it reports.
#[derive(Clone, Copy, Debug, PartialEq, Eq, Structural)]
pub enum Label {
    /// The greeting on the menu screen.
    Welcome,
    /// The menu entry that starts a game.
    PlayGame,
    /// The menu entry that leaves the program.
    QuitGame,
    /// The heading of the game-over screen.
    Dead,
    /// The points earned in the game that just ended.
    Earned { points: u32 },
    /// The game-over entry that starts another game.
    PlayAgain,
    /// The reminder of which key flaps.
    FlapHint,
    /// The current score.
    Score { points: u32 },
    /// The player's world column and row.
    PlayerAt { x: i32, y: i32 },
    /// The obstacle's world column and the row of its gap's centre.
    ObstacleAt { x: i32, gap_y: i32 },
}

/// One drawing request.
#[derive(Clone, Copy, Debug, PartialEq, Eq, Structural)]
pub enum DrawCommand {
    /// Clear the screen.
    Clear,
    /// Clear the screen to the playing field's background.
    ClearBackground,
    /// Print `text` starting at `(col, row)`.
    Print { col: i32, row: i32, text: Label },
    /// Print `text` centred on `row`.
    PrintCentered { row: i32, text: Label },
    /// Put `glyph` in the cell at `(col, row)`.
    SetCell { col: i32, row: i32, glyph: Glyph },
}

/// Mathematical model of a [`Frame`].
pub ghost struct FrameView {
    /// The drawing requests, first to last.
    pub commands: Seq<DrawCommand>,
    /// Whether the shell is asked to end the program.
    pub quitting: bool,
}

/// The outcome of one tick, as far as the shell is concerned.
#[derive(Debug)]
pub struct Frame {
    /// The drawing requests, first to last.
    pub commands: Vec<DrawCommand>,
    /// Whether the shell is asked to end the program.
    pub quitting: bool,
}

impl View for Frame {
    type V = FrameView;

    open spec fn view(&self) -> FrameView {
        FrameView { commands: self.commands@, quitting: self.quitting }
    }
}

} // verus!
