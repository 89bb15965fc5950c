//! The player: a point that moves right one column per physics step and
//! falls, or rises after a flap, along the way.

use vstd::prelude::*;
use crate::draw::{DrawCommand, Glyph};

verus! {

/// Number of velocity units in one row per step.
pub const VELOCITY_SCALE: i32 = 5;

/// Velocity gained per physics step while below terminal velocity
/// (a fifth of a row per step).
pub const GRAVITY: i32 = 1;

/// Fastest fall: two rows per step.
pub const TERMINAL_VELOCITY: i32 = 10;

/// Velocity right after a flap: two rows per step, upwards.
pub const FLAP_VELOCITY: i32 = -10;

/// Whole rows travelled in one step at `velocity`, rounded toward zero.
pub open spec fn rows_per_step(velocity: int) -> int {
    if velocity >= 0 {
        velocity / (VELOCITY_SCALE as int)
    } else {
        -((-velocity) / (VELOCITY_SCALE as int))
    }
}

/// The velocity after gravity has acted for one step: one unit more, unless
/// terminal velocity was already reached.
pub open spec fn pull(velocity: int) -> int {
    if velocity < TERMINAL_VELOCITY {
        velocity + GRAVITY
    } else {
        velocity
    }
}

/// Mathematical model of a [`Player`].
pub ghost struct PlayerView {
    /// World column.
    pub x: int,
    /// Row; 0 is the top of the screen.
    pub y: int,
    /// Vertical speed in fifths of a row per step; positive is downwards.
    pub velocity: int,
}

impl PlayerView {
    /// The velocity never exceeds terminal velocity.
    pub open spec fn wf(self) -> bool {
        self.velocity <= TERMINAL_VELOCITY
    }

    /// A player at rest at `(x, y)`.
    pub open spec fn new(x: int, y: int) -> PlayerView {
        PlayerView { x, y, velocity: 0 }
    }

    /// One physics step: gravity, then the vertical move, one column to the
    /// right, and the clamp at the top row.
    pub open spec fn gravity_and_move(self) -> PlayerView {
        let velocity: int = pull(self.velocity);
        let y: int = self.y + rows_per_step(velocity);
        PlayerView { x: self.x + 1, y: if y < 0 { 0 } else { y }, velocity }
    }

    /// A flap: the velocity becomes the flap velocity, whatever it was.
    pub open spec fn flap(self) -> PlayerView {
        PlayerView { velocity: FLAP_VELOCITY as int, ..self }
    }

    /// The request that draws the player: its glyph in the leftmost column,
    /// on the player's row.
    pub open spec fn render(self) -> DrawCommand {
        DrawCommand::SetCell { col: 0, row: self.y as i32, glyph: Glyph::Player }
    }

    /// `n` physics steps in a row, with no flap in between.
    pub open spec fn fall(self, n: nat) -> PlayerView
        decreases n,
    {
        if n == 0 {
            self
        } else {
            self.fall((n - 1) as nat).gravity_and_move()
        }
    }

    /// `n` flaps in a row, with no physics step in between.
    pub open spec fn flaps(self, n: nat) -> PlayerView
        decreases n,
    {
        if n == 0 {
            self
        } else {
            self.flaps((n - 1) as nat).flap()
        }
    }

    /// Whether a physics step stays within the machine's integers.
    pub open spec fn can_move(self) -> bool {
        &&& self.x < i32::MAX
        &&& i32::MIN <= self.y + rows_per_step(pull(self.velocity)) <= i32::MAX
    }
}

/// Gravity adds exactly one unit of velocity per step to a player below
/// terminal velocity, and nothing to one at terminal velocity; either way the
/// player stays well formed.
pub proof fn lemma_gravity_step(p: PlayerView)
    requires
        p.wf(),
    ensures
        p.velocity < TERMINAL_VELOCITY ==> p.gravity_and_move().velocity == p.velocity + GRAVITY,
        p.velocity == TERMINAL_VELOCITY ==> p.gravity_and_move().velocity == TERMINAL_VELOCITY,
        p.gravity_and_move().wf(),
{
}

/// Over `n` steps with no flap the velocity rises by one unit per step until
/// it reaches terminal velocity, and then stays there.
pub proof fn lemma_fall_velocity(p: PlayerView, n: nat)
    requires
        p.wf(),
    ensures
        p.fall(n).wf(),
        p.velocity + n * GRAVITY <= TERMINAL_VELOCITY ==> p.fall(n).velocity == p.velocity + n
            * GRAVITY,
        p.velocity + n * GRAVITY >= TERMINAL_VELOCITY ==> p.fall(n).velocity
            == TERMINAL_VELOCITY,
    decreases n,
{
    if n > 0 {
        lemma_fall_velocity(p, (n - 1) as nat);
    }
}

/// Over `n` steps with no flap the player moves `n` columns to the right.
pub proof fn lemma_fall_columns(p: PlayerView, n: nat)
    ensures
        p.fall(n).x == p.x + n,
    decreases n,
{
    if n > 0 {
        lemma_fall_columns(p, (n - 1) as nat);
    }
}

/// A player that is not rising when it is let go never rises: from one step
/// to the next its row grows, by two rows at most, and by exactly two once
/// the tenth step is done. So it sinks below any row in the end.
pub proof fn lemma_fall_descends(p: PlayerView, n: nat)
    requires
        p.wf(),
        0 <= p.velocity,
        0 <= p.y,
    ensures
        p.fall(n).y <= p.fall(n + 1).y <= p.fall(n).y + 2,
        p.y <= p.fall(n).y <= p.y + 2 * n,
        n >= 10 ==> p.fall(n + 1).y == p.fall(n).y + 2,
        n >= 10 ==> p.fall(n).y >= p.y + 2 * (n - 10),
    decreases n,
{
    lemma_fall_velocity(p, n);
    assert(p.fall(n + 1) == p.fall(n).gravity_and_move());
    if n > 0 {
        lemma_fall_descends(p, (n - 1) as nat);
    }
}

/// One flap or many, with no step in between, come to the same: the velocity
/// is the flap velocity and nothing else has changed.
pub proof fn lemma_flaps_are_one_flap(p: PlayerView, n: nat)
    requires
        n >= 1,
    ensures
        p.flaps(n) == p.flap(),
        p.flaps(n).velocity == FLAP_VELOCITY,
    decreases n,
{
    if n > 1 {
        lemma_flaps_are_one_flap(p, (n - 1) as nat);
    } else {
        assert(p.flaps(0) == p);
    }
}

/// After a step the player is never above the top row, whatever its position
/// and velocity were.
pub proof fn lemma_step_not_above_top(p: PlayerView)
    ensures
        p.gravity_and_move().y >= 0,
{
}

/// After any number of steps, at least one, the player is not above the top
/// row.
pub proof fn lemma_fall_not_above_top(p: PlayerView, n: nat)
    requires
        n >= 1,
    ensures
        p.fall(n).y >= 0,
{
}

/// The player's position and vertical speed.
#[derive(Clone, Copy, Debug, PartialEq, Eq, Structural)]
pub struct Player {
    x: i32,
    y: i32,
    velocity: i32,
}

impl View for Player {
    type V = PlayerView;

    closed spec fn view(&self) -> PlayerView {
        PlayerView { x: self.x as int, y: self.y as int, velocity: self.velocity as int }
    }
}

impl Player {
    /// The velocity never exceeds terminal velocity.
    pub open spec fn wf(&self) -> bool {
        self@.wf()
    }

    /// The model of a player holds machine integers.
    pub proof fn lemma_view_fits(&self)
        ensures
            i32::MIN <= self@.x <= i32::MAX,
            i32::MIN <= self@.y <= i32::MAX,
            i32::MIN <= self@.velocity <= i32::MAX,
    {
    }

    /// A player at rest at `(x, y)`.
    pub fn new(x: i32, y: i32) -> (player: Player)
        ensures
            player@ == PlayerView::new(x as int, y as int),
            player.wf(),
    {
        Player { x, y, velocity: 0 }
    }

    /// World column.
    pub fn x(&self) -> (x: i32)
        ensures
            x == self@.x,
    {
        self.x
    }

    /// Row; 0 is the top of the screen.
    pub fn y(&self) -> (y: i32)
        ensures
            y == self@.y,
    {
        self.y
    }

    /// Vertical speed in fifths of a row per step; positive is downwards.
    pub fn velocity(&self) -> (velocity: i32)
        ensures
            velocity == self@.velocity,
    {
        self.velocity
    }

    /// Appends to `commands` the request that draws the player.
    pub fn render(&self, commands: &mut Vec<DrawCommand>)
        ensures
            final(commands)@ == old(commands)@.push(self@.render()),
    {
        commands.push(DrawCommand::SetCell { col: 0, row: self.y, glyph: Glyph::Player });
    }

    /// Advances the player by one physics step. Gravity adds to the velocity
    /// unless terminal velocity is reached; the player then moves by the whole
    /// rows of its velocity and one column to the right, and is held at the
    /// top row if it would rise above it.
    pub fn gravity_and_move(&mut self)
        requires
            old(self)@.can_move(),
        ensures
            final(self)@ == old(self)@.gravity_and_move(),
            final(self)@.y >= 0,
            final(self)@.x == old(self)@.x + 1,
            old(self).wf() ==> final(self).wf(),
    {
        if self.velocity < TERMINAL_VELOCITY {
            self.velocity += GRAVITY;
        }
        self.y += self.velocity / VELOCITY_SCALE;
        self.x += 1;
        if self.y < 0 {
            self.y = 0;
        }
    }

    /// Flaps: the velocity becomes [`FLAP_VELOCITY`], whatever it was.
    pub fn flap(&mut self)
        ensures
            final(self)@ == old(self)@.flap(),
            final(self)@.velocity == FLAP_VELOCITY,
            final(self).wf(),
    {
        self.velocity = FLAP_VELOCITY;
    }
}

} // verus!
