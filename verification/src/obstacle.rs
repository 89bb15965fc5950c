//! The obstacle: a wall across the whole height of the screen, with one gap.

use vstd::prelude::*;
use bracket_lib::prelude::RandomNumberGenerator;
use crate::draw::{DrawCommand, Glyph};
use crate::player::{Player, PlayerView};
use crate::random::{random_in, range_outcome, rng_words};
use crate::screen::SCREEN_HEIGHT;

verus! {

/// Topmost row on which a gap may be centred.
pub const GAP_MIN: i32 = 10;

/// First row below those on which a gap may be centred.
pub const GAP_MAX: i32 = 40;

/// Size of the gap at score 0.
pub const WIDEST_GAP: i32 = 20;

/// Size below which the gap never shrinks.
pub const NARROWEST_GAP: i32 = 2;

/// The size of the gap at `score`: one row less for each point, down to
/// [`NARROWEST_GAP`].
pub open spec fn gap_size(score: int) -> int {
    if WIDEST_GAP - score > NARROWEST_GAP {
        WIDEST_GAP - score
    } else {
        NARROWEST_GAP as int
    }
}

/// The row on which a generator in the state `words` centres a gap.
pub open spec fn drawn_gap(words: Seq<u32>) -> int {
    range_outcome(words, GAP_MIN, GAP_MAX).0 as int
}

/// The state in which the generator is after it has picked that row.
pub open spec fn after_draw(words: Seq<u32>) -> Seq<u32> {
    range_outcome(words, GAP_MIN, GAP_MAX).1
}

/// The request for one cell of wall.
pub open spec fn wall_cell(col: int, row: int) -> DrawCommand {
    DrawCommand::SetCell { col: col as i32, row: row as i32, glyph: Glyph::Wall }
}

/// Wall cells in column `col`, on the rows from `from` up to but not
/// including `to`, top to bottom.
pub open spec fn wall_segment(col: int, from: int, to: int) -> Seq<DrawCommand> {
    Seq::new(
        if to > from { (to - from) as nat } else { 0 },
        |i: int| wall_cell(col, from + i),
    )
}

/// Mathematical model of an [`Obstacle`].
pub ghost struct ObstacleView {
    /// World column of the wall.
    pub x: int,
    /// Row of the gap's centre.
    pub gap_y: int,
    /// Size of the gap.
    pub size: int,
}

impl ObstacleView {
    /// The gap is centred within its band and its size is within its limits.
    pub open spec fn wf(self) -> bool {
        &&& GAP_MIN <= self.gap_y < GAP_MAX
        &&& NARROWEST_GAP <= self.size <= WIDEST_GAP
    }

    /// The obstacle at column `x` for a game at `score`, its gap centred on
    /// `gap_y`.
    pub open spec fn with_gap(x: int, gap_y: int, score: int) -> ObstacleView {
        ObstacleView { x, gap_y, size: gap_size(score) }
    }

    /// Topmost row of the gap band.
    pub open spec fn gap_top(self) -> int {
        self.gap_y - self.size / 2
    }

    /// Bottom row of the gap band.
    pub open spec fn gap_bottom(self) -> int {
        self.gap_y + self.size / 2
    }

    /// The player is in the wall's column and outside the gap band.
    pub open spec fn hit_obstacle(self, player: PlayerView) -> bool {
        player.x == self.x && (player.y < self.gap_top() || player.y > self.gap_bottom())
    }

    /// The wall as seen by a player at column `player_x`: the cells above the
    /// gap band, top to bottom, then those from the band's bottom row to the
    /// bottom of the screen.
    pub open spec fn render(self, player_x: int) -> Seq<DrawCommand> {
        wall_segment(self.x - player_x, 0, self.gap_top()) + wall_segment(
            self.x - player_x,
            self.gap_bottom(),
            SCREEN_HEIGHT as int,
        )
    }
}

/// The gap is `WIDEST_GAP - score` rows or [`NARROWEST_GAP`], whichever is
/// more; so it is never smaller than [`NARROWEST_GAP`], and at no score
/// larger than at a lower one.
pub proof fn lemma_gap_size_shrinks(lower: int, higher: int)
    requires
        0 <= lower <= higher,
    ensures
        gap_size(lower) == if WIDEST_GAP - lower >= NARROWEST_GAP {
            WIDEST_GAP - lower
        } else {
            NARROWEST_GAP as int
        },
        gap_size(higher) <= gap_size(lower),
        NARROWEST_GAP <= gap_size(higher),
        gap_size(lower) <= WIDEST_GAP,
{
}

/// A player hits the obstacle exactly when it is in the wall's column and
/// its row is outside the band from `gap_top` to `gap_bottom`; in any other
/// column it never does, whatever its row.
pub proof fn lemma_hit_obstacle(obstacle: ObstacleView, player: PlayerView)
    ensures
        obstacle.hit_obstacle(player) <==> player.x == obstacle.x && !(obstacle.gap_y
            - obstacle.size / 2 <= player.y <= obstacle.gap_y + obstacle.size / 2),
        player.x != obstacle.x ==> !obstacle.hit_obstacle(player),
{
}

/// One wall with its gap.
#[derive(Clone, Copy, Debug, PartialEq, Eq, Structural)]
pub struct Obstacle {
    x: i32,
    gap_y: i32,
    size: i32,
}

impl View for Obstacle {
    type V = ObstacleView;

    closed spec fn view(&self) -> ObstacleView {
        ObstacleView { x: self.x as int, gap_y: self.gap_y as int, size: self.size as int }
    }
}

/// The size of the gap at `score`.
pub fn gap_size_at(score: u32) -> (size: i32)
    ensures
        size == gap_size(score as int),
        NARROWEST_GAP <= size <= WIDEST_GAP,
{
    if score >= (WIDEST_GAP - NARROWEST_GAP) as u32 {
        NARROWEST_GAP
    } else {
        WIDEST_GAP - (score as i32)
    }
}

/// Appends to `cells` the wall cells of column `col` on the rows from `from`
/// up to but not including `to`.
fn push_segment(cells: &mut Vec<DrawCommand>, col: i32, from: i32, to: i32)
    ensures
        final(cells)@ == old(cells)@ + wall_segment(col as int, from as int, to as int),
{
    let mut row: i32 = from;
    while row < to
        invariant
            from <= row,
            row <= to || row == from,
            cells@ == old(cells)@ + wall_segment(col as int, from as int, row as int),
        decreases to - row,
    {
        cells.push(DrawCommand::SetCell { col, row, glyph: Glyph::Wall });
        assert(cells@ =~= old(cells)@ + wall_segment(col as int, from as int, row + 1));
        row += 1;
    }
    assert(wall_segment(col as int, from as int, row as int) =~= wall_segment(
        col as int,
        from as int,
        to as int,
    ));
}

impl Obstacle {
    /// The gap is centred within its band and its size is within its limits.
    pub open spec fn wf(&self) -> bool {
        self@.wf()
    }

    /// The obstacle at column `x` for a game at `score`, its gap centred on
    /// `gap_y`.
    pub fn with_gap(x: i32, gap_y: i32, score: u32) -> (obstacle: Obstacle)
        requires
            GAP_MIN <= gap_y < GAP_MAX,
        ensures
            obstacle@ == ObstacleView::with_gap(x as int, gap_y as int, score as int),
            obstacle.wf(),
    {
        Obstacle { x, gap_y, size: gap_size_at(score) }
    }

    /// The obstacle at column `x` for a game at `score`, its gap centred on
    /// the row that `rng` picks within the band from [`GAP_MIN`] up to but not
    /// including [`GAP_MAX`]. The generator has then made one draw.
    pub fn new(x: i32, score: u32, rng: &mut RandomNumberGenerator) -> (obstacle: Obstacle)
        ensures
            obstacle@ == ObstacleView::with_gap(
                x as int,
                drawn_gap(rng_words(*old(rng))),
                score as int,
            ),
            rng_words(*final(rng)) == after_draw(rng_words(*old(rng))),
            obstacle.wf(),
    {
        let gap_y: i32 = random_in(rng, GAP_MIN, GAP_MAX);
        Obstacle::with_gap(x, gap_y, score)
    }

    /// World column of the wall.
    pub fn x(&self) -> (x: i32)
        ensures
            x == self@.x,
    {
        self.x
    }

    /// Row of the gap's centre.
    pub fn gap_y(&self) -> (gap_y: i32)
        ensures
            gap_y == self@.gap_y,
    {
        self.gap_y
    }

    /// Size of the gap.
    pub fn size(&self) -> (size: i32)
        ensures
            size == self@.size,
    {
        self.size
    }

    /// Appends to `commands` the drawing requests for the wall as seen by a
    /// player at column `player_x`: in screen column `x - player_x`, every row
    /// above the gap band and every row from the band's bottom row down.
    pub fn render(&self, commands: &mut Vec<DrawCommand>, player_x: i32)
        requires
            self.wf(),
            i32::MIN <= self@.x - player_x <= i32::MAX,
        ensures
            final(commands)@ == old(commands)@ + self@.render(player_x as int),
    {
        let screen_x: i32 = self.x - player_x;
        let half_size: i32 = self.size / 2;
        push_segment(commands, screen_x, 0, self.gap_y - half_size);
        push_segment(commands, screen_x, self.gap_y + half_size, SCREEN_HEIGHT);
        assert(final(commands)@ =~= old(commands)@ + self@.render(player_x as int));
    }

    /// Whether `player` has flown into the wall: it is in the wall's column
    /// and above or below the gap band.
    pub fn hit_obstacle(&self, player: &Player) -> (hit: bool)
        requires
            self.wf(),
        ensures
            hit == self@.hit_obstacle(player@),
    {
        let half_size: i32 = self.size / 2;
        let does_x_match: bool = player.x() == self.x;
        let player_above_gap: bool = player.y() < self.gap_y - half_size;
        let player_below_gap: bool = player.y() > self.gap_y + half_size;
        does_x_match && (player_above_gap || player_below_gap)
    }
}

} // verus!
