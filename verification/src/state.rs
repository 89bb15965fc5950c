//! The game's state machine: menu, play and game over, and what one tick
//! does in each.
//!
//! Every function here is deterministic. Where a tick may have to build an
//! obstacle it takes the row of the new gap as an argument; [`crate::game`]
//! draws that row at random.

use vstd::prelude::*;
use crate::draw::{DrawCommand, Frame, FrameView, Label};
use crate::obstacle::{Obstacle, ObstacleView, GAP_MAX, GAP_MIN, NARROWEST_GAP, WIDEST_GAP};
use crate::player::{Player, PlayerView, TERMINAL_VELOCITY};
use crate::screen::{FRAME_DURATION_US, SCREEN_HEIGHT, SCREEN_WIDTH, START_X, START_Y};

verus! {

/// Which screen the game is on.
#[derive(Clone, Copy, Debug, PartialEq, Eq, Structural)]
pub enum GameMode {
    /// The opening menu.
    Menu,
    /// A game is running.
    Playing,
    /// The game is over.
    End,
}

/// The keys the game reacts to.
#[derive(Clone, Copy, Debug, PartialEq, Eq, Structural)]
pub enum Key {
    /// Flap the wings.
    Flap,
    /// Start a game, from the menu or after one has ended.
    Confirm,
    /// Leave the program, from the menu or after a game has ended.
    Quit,
}

/// The requests that paint the menu.
pub open spec fn menu_screen() -> Seq<DrawCommand> {
    seq![
        DrawCommand::Clear,
        DrawCommand::PrintCentered { row: 5, text: Label::Welcome },
        DrawCommand::PrintCentered { row: 8, text: Label::PlayGame },
        DrawCommand::PrintCentered { row: 9, text: Label::QuitGame },
    ]
}

/// The requests that paint the game-over screen after a game of `score`
/// points.
pub open spec fn dead_screen(score: int) -> Seq<DrawCommand> {
    seq![
        DrawCommand::Clear,
        DrawCommand::PrintCentered { row: 5, text: Label::Dead },
        DrawCommand::PrintCentered { row: 6, text: Label::Earned { points: score as u32 } },
        DrawCommand::PrintCentered { row: 8, text: Label::PlayAgain },
        DrawCommand::PrintCentered { row: 9, text: Label::QuitGame },
    ]
}

/// Mathematical model of a [`State`].
pub ghost struct StateView {
    /// The player.
    pub player: PlayerView,
    /// Microseconds gathered since the last physics step.
    pub frame_time: int,
    /// The obstacle ahead.
    pub obstacle: ObstacleView,
    /// The screen the game is on.
    pub mode: GameMode,
    /// Obstacles cleared in this game.
    pub score: int,
}

impl StateView {
    /// What holds of every state between two ticks: player and obstacle are
    /// well formed; the clock has not passed a frame's duration; the player
    /// is not left of column 0 nor above row 0, and while a game runs not
    /// below the screen; the score is not negative and not beyond the
    /// obstacle's column.
    pub open spec fn wf(self) -> bool {
        &&& self.player.wf()
        &&& self.obstacle.wf()
        &&& 0 <= self.frame_time <= FRAME_DURATION_US
        &&& 0 <= self.player.x
        &&& 0 <= self.player.y
        &&& self.mode == GameMode::Playing ==> self.player.y <= SCREEN_HEIGHT
        &&& 0 <= self.score <= self.obstacle.x
    }

    /// Whether a tick can build the next obstacle within the machine's
    /// integers: while a game runs, the column a screen's width ahead of the
    /// player's next column must exist.
    pub open spec fn can_tick(self) -> bool {
        self.mode == GameMode::Playing ==> self.player.x + 1 + SCREEN_WIDTH <= i32::MAX
    }

    /// The state in which a game begins: the player at rest at the start
    /// position, the clock at 0, the first obstacle a screen's width from
    /// column 0 with its gap centred on `gap_y`, no points.
    pub open spec fn fresh(mode: GameMode, gap_y: int) -> StateView {
        StateView {
            player: PlayerView::new(START_X as int, START_Y as int),
            frame_time: 0,
            obstacle: ObstacleView::with_gap(SCREEN_WIDTH as int, gap_y, 0),
            mode,
            score: 0,
        }
    }

    /// The state of a program that has just started: a fresh game behind the
    /// menu.
    pub open spec fn new(gap_y: int) -> StateView {
        StateView::fresh(GameMode::Menu, gap_y)
    }

    /// The state after a restart: a fresh game, running. Nothing of the state
    /// before it remains.
    pub open spec fn restart(gap_y: int) -> StateView {
        StateView::fresh(GameMode::Playing, gap_y)
    }

    /// Whether the time gathered so far and `elapsed` together exceed a
    /// frame's duration, so that a physics step is due.
    pub open spec fn step_due(self, elapsed: int) -> bool {
        self.frame_time + elapsed > FRAME_DURATION_US
    }

    /// The first part of a tick of a running game: the clock gathers
    /// `elapsed`, and if a physics step is due it returns to 0 and the player
    /// moves by one step; then a flap, if that key was pressed.
    pub open spec fn update(self, elapsed: int, key: Option<Key>) -> StateView {
        let moved: PlayerView = if self.step_due(elapsed) {
            self.player.gravity_and_move()
        } else {
            self.player
        };
        StateView {
            player: if key == Some(Key::Flap) { moved.flap() } else { moved },
            frame_time: if self.step_due(elapsed) { 0 } else { self.frame_time + elapsed },
            ..self
        }
    }

    /// The requests that paint a running game.
    pub open spec fn play_screen(self) -> Seq<DrawCommand> {
        seq![
            DrawCommand::ClearBackground,
            self.player.render(),
            DrawCommand::Print { col: 0, row: 0, text: Label::FlapHint },
            DrawCommand::Print { col: 0, row: 1, text: Label::Score { points: self.score as u32 } },
            DrawCommand::Print {
                col: 0,
                row: 2,
                text: Label::PlayerAt { x: self.player.x as i32, y: self.player.y as i32 },
            },
            DrawCommand::Print {
                col: 0,
                row: 3,
                text: Label::ObstacleAt {
                    x: self.obstacle.x as i32,
                    gap_y: self.obstacle.gap_y as i32,
                },
            },
        ] + self.obstacle.render(self.player.x)
    }

    /// Whether the player has passed the obstacle.
    pub open spec fn cleared(self) -> bool {
        self.player.x > self.obstacle.x
    }

    /// The second part of a tick of a running game: if the player has passed
    /// the obstacle, one point more, and a new obstacle for the new score a
    /// screen's width ahead of the player, its gap centred on `gap_y`.
    pub open spec fn advance_obstacle(self, gap_y: int) -> StateView {
        if self.cleared() {
            StateView {
                score: self.score + 1,
                obstacle: ObstacleView::with_gap(
                    self.player.x + SCREEN_WIDTH,
                    gap_y,
                    self.score + 1,
                ),
                ..self
            }
        } else {
            self
        }
    }

    /// Whether the game is lost: the player is below the screen or has hit
    /// the obstacle.
    pub open spec fn lost(self) -> bool {
        self.player.y > SCREEN_HEIGHT || self.obstacle.hit_obstacle(self.player)
    }

    /// The last part of a tick of a running game: a lost game ends.
    pub open spec fn settle(self) -> StateView {
        if self.lost() {
            StateView { mode: GameMode::End, ..self }
        } else {
            self
        }
    }

    /// The state after a tick of a running game.
    pub open spec fn play(self, elapsed: int, key: Option<Key>, gap_y: int) -> StateView {
        self.update(elapsed, key).advance_obstacle(gap_y).settle()
    }

    /// The state after a tick on the menu: a fresh running game if the key
    /// was [`Key::Confirm`], else the same state.
    pub open spec fn main_menu(self, key: Option<Key>, gap_y: int) -> StateView {
        if key == Some(Key::Confirm) {
            StateView::restart(gap_y)
        } else {
            self
        }
    }

    /// The state after a tick on the game-over screen: a fresh running game
    /// if the key was [`Key::Confirm`], else the same state.
    pub open spec fn dead(self, key: Option<Key>, gap_y: int) -> StateView {
        if key == Some(Key::Confirm) {
            StateView::restart(gap_y)
        } else {
            self
        }
    }

    /// The state after one tick in which `elapsed` microseconds have passed
    /// and `key` was pressed. `gap_y` centres the gap of the obstacle that
    /// the tick builds, if it builds one.
    pub open spec fn tick(self, elapsed: int, key: Option<Key>, gap_y: int) -> StateView {
        match self.mode {
            GameMode::Menu => self.main_menu(key, gap_y),
            GameMode::Playing => self.play(elapsed, key, gap_y),
            GameMode::End => self.dead(key, gap_y),
        }
    }

    /// What that tick hands to the shell. A running game is painted as it is
    /// after the player has moved and before the obstacle is replaced; only
    /// off a running game can the player quit.
    pub open spec fn frame(self, elapsed: int, key: Option<Key>) -> FrameView {
        match self.mode {
            GameMode::Menu => FrameView {
                commands: menu_screen(),
                quitting: key == Some(Key::Quit),
            },
            GameMode::Playing => FrameView {
                commands: self.update(elapsed, key).play_screen(),
                quitting: false,
            },
            GameMode::End => FrameView {
                commands: dead_screen(self.score),
                quitting: key == Some(Key::Quit),
            },
        }
    }

    /// Whether that tick builds an obstacle: on a restart, and when the
    /// player of a running game passes the one ahead.
    pub open spec fn builds_obstacle(self, elapsed: int, key: Option<Key>) -> bool {
        match self.mode {
            GameMode::Playing => self.update(elapsed, key).cleared(),
            _ => key == Some(Key::Confirm),
        }
    }
}

/// A restart forgets the game before it. From the game-over screen or the
/// menu, whatever the score was, [`Key::Confirm`] gives a running game with no
/// points, the clock at 0, the player at rest at the start position, and an
/// obstacle a screen's width from column 0 with the widest gap.
pub proof fn lemma_restart_is_fresh(s: StateView, elapsed: int, gap_y: int)
    requires
        s.mode != GameMode::Playing,
    ensures
        s.tick(elapsed, Some(Key::Confirm), gap_y) == StateView::restart(gap_y),
        StateView::restart(gap_y).mode == GameMode::Playing,
        StateView::restart(gap_y).score == 0,
        StateView::restart(gap_y).frame_time == 0,
        StateView::restart(gap_y).player == (PlayerView {
            x: START_X as int,
            y: START_Y as int,
            velocity: 0,
        }),
        StateView::restart(gap_y).obstacle == (ObstacleView {
            x: SCREEN_WIDTH as int,
            gap_y,
            size: WIDEST_GAP as int,
        }),
{
}

/// Off a running game [`Key::Quit`] asks the shell to end the program and
/// leaves the state as it is; no other key, and no key during a game, asks
/// for that.
pub proof fn lemma_quit(s: StateView, elapsed: int, key: Option<Key>, gap_y: int)
    ensures
        s.frame(elapsed, key).quitting <==> s.mode != GameMode::Playing && key == Some(Key::Quit),
        s.frame(elapsed, key).quitting ==> s.tick(elapsed, key, gap_y) == s,
{
}

/// Off a running game nothing moves: unless the key is [`Key::Confirm`], a
/// tick leaves the state as it is.
pub proof fn lemma_idle_off_game(s: StateView, elapsed: int, key: Option<Key>, gap_y: int)
    requires
        s.mode != GameMode::Playing,
        key != Some(Key::Confirm),
    ensures
        s.tick(elapsed, key, gap_y) == s,
{
}

/// A tick changes the obstacle only if it builds one, and the row handed to
/// it matters only then.
pub proof fn lemma_gap_matters_when_built(
    s: StateView,
    elapsed: int,
    key: Option<Key>,
    gap_y: int,
    other_gap_y: int,
)
    requires
        !s.builds_obstacle(elapsed, key),
    ensures
        s.tick(elapsed, key, gap_y).obstacle == s.obstacle,
        s.tick(elapsed, key, gap_y) == s.tick(elapsed, key, other_gap_y),
{
}

/// A tick of a running game scores at most one point, and scores it exactly
/// when the player, after its move, has passed the obstacle; the new obstacle
/// then stands a screen's width ahead of the player, with the gap of the new
/// score, and cannot be hit in that tick.
pub proof fn lemma_scoring(s: StateView, elapsed: int, key: Option<Key>, gap_y: int)
    requires
        s.mode == GameMode::Playing,
    ensures
        s.builds_obstacle(elapsed, key) ==> {
            let t: StateView = s.tick(elapsed, key, gap_y);
            &&& t.score == s.score + 1
            &&& t.obstacle == ObstacleView::with_gap(t.player.x + SCREEN_WIDTH, gap_y, t.score)
            &&& !t.obstacle.hit_obstacle(t.player)
        },
        !s.builds_obstacle(elapsed, key) ==> s.tick(elapsed, key, gap_y).score == s.score,
{
}

/// A tick of a running game ends it exactly when, after the move and the
/// scoring, the player is below the screen or in the wall; a game never
/// returns to the menu.
pub proof fn lemma_game_over(s: StateView, elapsed: int, key: Option<Key>, gap_y: int)
    requires
        s.mode == GameMode::Playing,
    ensures
        s.tick(elapsed, key, gap_y).mode == if s.update(elapsed, key).advance_obstacle(
            gap_y,
        ).lost() {
            GameMode::End
        } else {
            GameMode::Playing
        },
{
}

/// Ticks keep a well-formed state well formed.
pub proof fn lemma_tick_keeps_wf(s: StateView, elapsed: int, key: Option<Key>, gap_y: int)
    requires
        s.wf(),
        0 <= elapsed,
        GAP_MIN <= gap_y < GAP_MAX,
    ensures
        s.tick(elapsed, key, gap_y).wf(),
{
}

/// Everything the game remembers from one tick to the next.
#[derive(Clone, Copy, Debug, PartialEq, Eq, Structural)]
pub struct State {
    player: Player,
    frame_time: u32,
    obstacle: Obstacle,
    mode: GameMode,
    score: u32,
}

impl View for State {
    type V = StateView;

    closed spec fn view(&self) -> StateView {
        StateView {
            player: self.player@,
            frame_time: self.frame_time as int,
            obstacle: self.obstacle@,
            mode: self.mode,
            score: self.score as int,
        }
    }
}

impl State {
    /// The invariant of the state: see [`StateView::wf`].
    pub open spec fn wf(&self) -> bool {
        self@.wf()
    }

    /// The state of a program that has just started: a fresh game behind the
    /// menu, the gap of its first obstacle centred on `gap_y`.
    pub fn new(gap_y: i32) -> (state: State)
        requires
            GAP_MIN <= gap_y < GAP_MAX,
        ensures
            state@ == StateView::new(gap_y as int),
            state.wf(),
    {
        State {
            player: Player::new(START_X, START_Y),
            frame_time: 0,
            obstacle: Obstacle::with_gap(SCREEN_WIDTH, gap_y, 0),
            mode: GameMode::Menu,
            score: 0,
        }
    }

    /// The state made of the given parts, if they make a well-formed state;
    /// `None` if they do not.
    pub fn from_parts(
        mode: GameMode,
        player: Player,
        obstacle: Obstacle,
        score: u32,
        frame_time: u32,
    ) -> (state: Option<State>)
        ensures
            state is Some <==> (StateView {
                player: player@,
                frame_time: frame_time as int,
                obstacle: obstacle@,
                mode,
                score: score as int,
            }).wf(),
            state is Some ==> state->0.wf() && state->0@ == (StateView {
                player: player@,
                frame_time: frame_time as int,
                obstacle: obstacle@,
                mode,
                score: score as int,
            }),
    {
        let on_screen: bool = match mode {
            GameMode::Playing => player.y() <= SCREEN_HEIGHT,
            _ => true,
        };
        if player.velocity() <= TERMINAL_VELOCITY && GAP_MIN <= obstacle.gap_y()
            && obstacle.gap_y() < GAP_MAX && NARROWEST_GAP <= obstacle.size() && obstacle.size()
            <= WIDEST_GAP && frame_time <= FRAME_DURATION_US && 0 <= player.x() && 0 <= player.y()
            && on_screen && 0 <= obstacle.x() && score <= obstacle.x() as u32 {
            Some(State { player, frame_time, obstacle, mode, score })
        } else {
            None
        }
    }

    /// The player.
    pub fn player(&self) -> (player: Player)
        ensures
            player@ == self@.player,
    {
        self.player
    }

    /// The obstacle ahead.
    pub fn obstacle(&self) -> (obstacle: Obstacle)
        ensures
            obstacle@ == self@.obstacle,
    {
        self.obstacle
    }

    /// The screen the game is on.
    pub fn mode(&self) -> (mode: GameMode)
        ensures
            mode == self@.mode,
    {
        self.mode
    }

    /// Obstacles cleared in this game.
    pub fn score(&self) -> (score: u32)
        ensures
            score == self@.score,
    {
        self.score
    }

    /// Microseconds gathered since the last physics step.
    pub fn frame_time(&self) -> (frame_time: u32)
        ensures
            frame_time == self@.frame_time,
    {
        self.frame_time
    }

    /// Starts a game over: every field is set anew, and the gap of the first
    /// obstacle is centred on `gap_y`.
    pub fn restart(&mut self, gap_y: i32)
        requires
            GAP_MIN <= gap_y < GAP_MAX,
        ensures
            final(self)@ == StateView::restart(gap_y as int),
            final(self).wf(),
    {
        self.player = Player::new(START_X, START_Y);
        self.frame_time = 0;
        self.obstacle = Obstacle::with_gap(SCREEN_WIDTH, gap_y, 0);
        self.mode = GameMode::Playing;
        self.score = 0;
    }

    /// Whether [`State::tick`] may be called: see [`StateView::can_tick`].
    pub fn can_tick(&self) -> (ok: bool)
        ensures
            ok == self@.can_tick(),
    {
        match self.mode {
            GameMode::Playing => self.player.x() < i32::MAX - SCREEN_WIDTH,
            _ => true,
        }
    }

    /// Whether a tick in which `elapsed_us` microseconds have passed and
    /// `key` was pressed builds an obstacle.
    pub fn builds_obstacle(&self, elapsed_us: u32, key: Option<Key>) -> (builds: bool)
        requires
            self.wf(),
            self@.can_tick(),
        ensures
            builds == self@.builds_obstacle(elapsed_us as int, key),
    {
        match self.mode {
            GameMode::Playing => {
                if elapsed_us > FRAME_DURATION_US - self.frame_time {
                    self.player.x() + 1 > self.obstacle.x()
                } else {
                    self.player.x() > self.obstacle.x()
                }
            },
            _ => match key {
                Some(Key::Confirm) => true,
                _ => false,
            },
        }
    }

    /// One tick on the menu. The menu is painted; [`Key::Confirm`] starts a
    /// game, whose first obstacle has its gap centred on `gap_y`;
    /// [`Key::Quit`] asks the shell to end the program; any other key, or
    /// none, changes nothing.
    pub fn main_menu(&mut self, key: Option<Key>, gap_y: i32) -> (frame: Frame)
        requires
            old(self).wf(),
            old(self)@.mode == GameMode::Menu,
            GAP_MIN <= gap_y < GAP_MAX,
        ensures
            final(self).wf(),
            final(self)@ == old(self)@.main_menu(key, gap_y as int),
            frame@ == old(self)@.frame(0, key),
    {
        let mut commands: Vec<DrawCommand> = Vec::new();
        commands.push(DrawCommand::Clear);
        commands.push(DrawCommand::PrintCentered { row: 5, text: Label::Welcome });
        commands.push(DrawCommand::PrintCentered { row: 8, text: Label::PlayGame });
        commands.push(DrawCommand::PrintCentered { row: 9, text: Label::QuitGame });
        assert(commands@ =~= menu_screen());
        let mut quitting: bool = false;
        match key {
            Some(Key::Confirm) => self.restart(gap_y),
            Some(Key::Quit) => quitting = true,
            _ => {},
        }
        Frame { commands, quitting }
    }

    /// One tick on the game-over screen. The screen is painted with the
    /// points earned; [`Key::Confirm`] starts a game, whose first obstacle
    /// has its gap centred on `gap_y`; [`Key::Quit`] asks the shell to end
    /// the program; any other key, or none, changes nothing.
    pub fn dead(&mut self, key: Option<Key>, gap_y: i32) -> (frame: Frame)
        requires
            old(self).wf(),
            old(self)@.mode == GameMode::End,
            GAP_MIN <= gap_y < GAP_MAX,
        ensures
            final(self).wf(),
            final(self)@ == old(self)@.dead(key, gap_y as int),
            frame@ == old(self)@.frame(0, key),
    {
        let mut commands: Vec<DrawCommand> = Vec::new();
        commands.push(DrawCommand::Clear);
        commands.push(DrawCommand::PrintCentered { row: 5, text: Label::Dead });
        commands.push(
            DrawCommand::PrintCentered { row: 6, text: Label::Earned { points: self.score } },
        );
        commands.push(DrawCommand::PrintCentered { row: 8, text: Label::PlayAgain });
        commands.push(DrawCommand::PrintCentered { row: 9, text: Label::QuitGame });
        assert(commands@ =~= dead_screen(self@.score));
        let mut quitting: bool = false;
        match key {
            Some(Key::Confirm) => self.restart(gap_y),
            Some(Key::Quit) => quitting = true,
            _ => {},
        }
        Frame { commands, quitting }
    }

    /// One tick of a running game. The clock gathers `elapsed_us`; once it
    /// exceeds a frame's duration it returns to 0 and the player moves by one
    /// physics step. [`Key::Flap`] flaps, whether the player moved or not.
    /// The game is then painted. If the player has passed the obstacle, the
    /// score rises by one and a new obstacle stands a screen's width ahead,
    /// its gap centred on `gap_y`. Last, the game ends if the player is below
    /// the screen or in the wall.
    pub fn play(&mut self, elapsed_us: u32, key: Option<Key>, gap_y: i32) -> (frame: Frame)
        requires
            old(self).wf(),
            old(self)@.mode == GameMode::Playing,
            old(self)@.can_tick(),
            GAP_MIN <= gap_y < GAP_MAX,
        ensures
            final(self).wf(),
            final(self)@ == old(self)@.play(elapsed_us as int, key, gap_y as int),
            frame@ == old(self)@.frame(elapsed_us as int, key),
    {
        proof {
            self.player.lemma_view_fits();
        }
        if elapsed_us > FRAME_DURATION_US - self.frame_time {
            self.frame_time = 0;
            self.player.gravity_and_move();
        } else {
            self.frame_time += elapsed_us;
        }
        match key {
            Some(Key::Flap) => self.player.flap(),
            _ => {},
        }
        assert(self@ == old(self)@.update(elapsed_us as int, key));
        let mut commands: Vec<DrawCommand> = Vec::new();
        commands.push(DrawCommand::ClearBackground);
        self.player.render(&mut commands);
        commands.push(DrawCommand::Print { col: 0, row: 0, text: Label::FlapHint });
        commands.push(DrawCommand::Print { col: 0, row: 1, text: Label::Score { points: self.score } });
        commands.push(
            DrawCommand::Print {
                col: 0,
                row: 2,
                text: Label::PlayerAt { x: self.player.x(), y: self.player.y() },
            },
        );
        commands.push(
            DrawCommand::Print {
                col: 0,
                row: 3,
                text: Label::ObstacleAt { x: self.obstacle.x(), gap_y: self.obstacle.gap_y() },
            },
        );
        self.obstacle.render(&mut commands, self.player.x());
        assert(commands@ =~= self@.play_screen());
        if self.player.x() > self.obstacle.x() {
            self.score += 1;
            self.obstacle = Obstacle::with_gap(self.player.x() + SCREEN_WIDTH, gap_y, self.score);
        }
        if self.player.y() > SCREEN_HEIGHT || self.obstacle.hit_obstacle(&self.player) {
            self.mode = GameMode::End;
        }
        Frame { commands, quitting: false }
    }

    /// One tick: the work of the screen the game is on. `elapsed_us` is the
    /// time since the last tick, in microseconds, and `key` the key pressed
    /// since, if any. Should the tick build an obstacle, its gap is centred
    /// on `gap_y`.
    pub fn tick(&mut self, elapsed_us: u32, key: Option<Key>, gap_y: i32) -> (frame: Frame)
        requires
            old(self).wf(),
            old(self)@.can_tick(),
            GAP_MIN <= gap_y < GAP_MAX,
        ensures
            final(self).wf(),
            final(self)@ == old(self)@.tick(elapsed_us as int, key, gap_y as int),
            frame@ == old(self)@.frame(elapsed_us as int, key),
    {
        match self.mode {
            GameMode::Menu => self.main_menu(key, gap_y),
            GameMode::Playing => self.play(elapsed_us, key, gap_y),
            GameMode::End => self.dead(key, gap_y),
        }
    }
}

} // verus!
