//! The game as the shell sees it: the state machine together with the random
//! number generator that places the gaps.

use vstd::prelude::*;
use bracket_lib::prelude::RandomNumberGenerator;
use crate::draw::Frame;
use crate::obstacle::{after_draw, drawn_gap, GAP_MAX, GAP_MIN};
use crate::random::{random_in, rng_words, seeded_words};
use crate::state::{lemma_gap_matters_when_built, Key, State, StateView};

verus! {

/// A game and its source of randomness.
pub struct Game {
    state: State,
    rng: RandomNumberGenerator,
}

impl View for Game {
    type V = StateView;

    /// The game's state. The generator's own state is
    /// [`Game::generator`].
    closed spec fn view(&self) -> StateView {
        self.state@
    }
}

impl Game {
    /// The invariant of the state: see [`StateView::wf`].
    pub open spec fn wf(&self) -> bool {
        self@.wf()
    }

    /// The state of the game's generator.
    pub closed spec fn generator(&self) -> Seq<u32> {
        rng_words(self.rng)
    }

    /// A game on its menu, with the gaps placed by `rng`. The gap of the
    /// first obstacle is centred on the row that `rng` picks, and the game
    /// keeps `rng` as that draw has left it.
    pub fn with_rng(rng: RandomNumberGenerator) -> (game: Game)
        ensures
            game@ == StateView::new(drawn_gap(rng_words(rng))),
            game.generator() == after_draw(rng_words(rng)),
            game.wf(),
    {
        let mut rng = rng;
        let gap_y: i32 = random_in(&mut rng, GAP_MIN, GAP_MAX);
        Game { state: State::new(gap_y), rng }
    }

    /// A game on its menu, with a generator seeded by the operating system.
    pub fn new() -> (game: Game)
        ensures
            game@ == StateView::new(game@.obstacle.gap_y),
            game.wf(),
    {
        Game::with_rng(RandomNumberGenerator::new())
    }

    /// A game on its menu, with a generator started from `seed`, so that the
    /// same keys at the same times give the same game: the first gap and the
    /// generator's state are those that `seed` gives.
    pub fn seeded(seed: u64) -> (game: Game)
        ensures
            game@ == StateView::new(drawn_gap(seeded_words(seed))),
            game.generator() == after_draw(seeded_words(seed)),
            game.wf(),
    {
        Game::with_rng(RandomNumberGenerator::seeded(seed))
    }

    /// The state of the game.
    pub fn state(&self) -> (state: State)
        ensures
            state@ == self@,
    {
        self.state
    }

    /// Whether [`Game::tick`] may be called: see [`StateView::can_tick`].
    pub fn can_tick(&self) -> (ok: bool)
        ensures
            ok == self@.can_tick(),
    {
        self.state.can_tick()
    }

    /// One tick. `elapsed_us` is the time since the last tick, in
    /// microseconds, and `key` the key pressed since, if any. The state moves
    /// as [`StateView::tick`] says and the frame is the one that
    /// [`StateView::frame`] gives. Where the tick builds an obstacle, the
    /// generator makes one draw and picks the row of the gap, within the band
    /// from [`GAP_MIN`] up to but not including [`GAP_MAX`]; where it builds
    /// none, the generator is left alone.
    pub fn tick(&mut self, elapsed_us: u32, key: Option<Key>) -> (frame: Frame)
        requires
            old(self).wf(),
            old(self)@.can_tick(),
        ensures
            final(self).wf(),
            final(self)@ == old(self)@.tick(
                elapsed_us as int,
                key,
                drawn_gap(old(self).generator()),
            ),
            final(self).generator() == if old(self)@.builds_obstacle(elapsed_us as int, key) {
                after_draw(old(self).generator())
            } else {
                old(self).generator()
            },
            frame@ == old(self)@.frame(elapsed_us as int, key),
    {
        let builds: bool = self.state.builds_obstacle(elapsed_us, key);
        let gap_y: i32 = if builds {
            random_in(&mut self.rng, GAP_MIN, GAP_MAX)
        } else {
            self.state.obstacle().gap_y()
        };
        proof {
            if !builds {
                lemma_gap_matters_when_built(
                    self.state@,
                    elapsed_us as int,
                    key,
                    gap_y as int,
                    drawn_gap(old(self).generator()),
                );
            }
        }
        self.state.tick(elapsed_us, key, gap_y)
    }
}

} // verus!
