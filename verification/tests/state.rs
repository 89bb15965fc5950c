use flappy::draw::{DrawCommand, Glyph, Label};
use flappy::obstacle::Obstacle;
use flappy::player::Player;
use flappy::screen::{FRAME_DURATION_US, SCREEN_HEIGHT, SCREEN_WIDTH, START_X, START_Y};
use flappy::state::{GameMode, Key, State};

const STEP: u32 = FRAME_DURATION_US + 1;

fn playing(gap_y: i32) -> State {
    let mut state = State::new(gap_y);
    state.tick(0, Some(Key::Confirm), gap_y);
    state
}

fn parts(mode: GameMode, player: Player, obstacle: Obstacle, score: u32) -> State {
    State::from_parts(mode, player, obstacle, score, 0).expect("a well-formed state")
}

fn menu_screen() -> Vec<DrawCommand> {
    vec![
        DrawCommand::Clear,
        DrawCommand::PrintCentered { row: 5, text: Label::Welcome },
        DrawCommand::PrintCentered { row: 8, text: Label::PlayGame },
        DrawCommand::PrintCentered { row: 9, text: Label::QuitGame },
    ]
}

fn dead_screen(points: u32) -> Vec<DrawCommand> {
    vec![
        DrawCommand::Clear,
        DrawCommand::PrintCentered { row: 5, text: Label::Dead },
        DrawCommand::PrintCentered { row: 6, text: Label::Earned { points } },
        DrawCommand::PrintCentered { row: 8, text: Label::PlayAgain },
        DrawCommand::PrintCentered { row: 9, text: Label::QuitGame },
    ]
}

fn assert_fresh(state: &State, mode: GameMode, gap_y: i32) {
    assert_eq!(state.mode(), mode);
    assert_eq!(state.score(), 0);
    assert_eq!(state.frame_time(), 0);
    assert_eq!(state.player(), Player::new(5, 25));
    assert_eq!(state.player().velocity(), 0);
    assert_eq!(state.obstacle(), Obstacle::with_gap(80, gap_y, 0));
    assert_eq!(state.obstacle().size(), 20);
}

#[test]
fn screen_and_pace() {
    assert_eq!(SCREEN_WIDTH, 80);
    assert_eq!(SCREEN_HEIGHT, 50);
    assert_eq!(FRAME_DURATION_US, 60_000);
    assert_eq!((START_X, START_Y), (5, 25));
}

#[test]
fn a_new_state_is_a_fresh_game_behind_the_menu() {
    let state = State::new(17);
    assert_fresh(&state, GameMode::Menu, 17);
}

#[test]
fn menu_is_painted_and_waits() {
    let mut state = State::new(17);
    let before = state;
    let frame = state.tick(123_456, None, 30);
    assert_eq!(frame.commands, menu_screen());
    assert!(!frame.quitting);
    assert_eq!(state, before);
}

#[test]
fn menu_ignores_the_flap_key() {
    let mut state = State::new(17);
    let before = state;
    let frame = state.tick(STEP, Some(Key::Flap), 30);
    assert!(!frame.quitting);
    assert_eq!(state, before);
}

#[test]
fn quit_on_the_menu_signals_quitting_and_keeps_the_mode() {
    let mut state = State::new(17);
    let before = state;
    let frame = state.tick(16_000, Some(Key::Quit), 30);
    assert!(frame.quitting);
    assert_eq!(frame.commands, menu_screen());
    assert_eq!(state.mode(), GameMode::Menu);
    assert_eq!(state, before);
}

#[test]
fn confirm_on_the_menu_starts_a_game() {
    let mut state = State::new(17);
    let frame = state.tick(16_000, Some(Key::Confirm), 31);
    assert!(!frame.quitting);
    assert_eq!(frame.commands, menu_screen());
    assert_fresh(&state, GameMode::Playing, 31);
}

#[test]
fn restart_from_the_end_with_seven_points_is_a_fresh_game() {
    let fallen = {
        let mut player = Player::new(700, 49);
        for _ in 0..12 {
            player.gravity_and_move();
        }
        player
    };
    assert!(fallen.y() > SCREEN_HEIGHT);
    assert_eq!(fallen.velocity(), 10);
    let mut state = State::from_parts(
        GameMode::End,
        fallen,
        Obstacle::with_gap(760, 12, 7),
        7,
        45_000,
    )
    .expect("a well-formed state");
    assert_eq!(state.score(), 7);
    assert_eq!(state.obstacle().size(), 13);

    let frame = state.tick(16_000, Some(Key::Confirm), 22);
    assert_eq!(frame.commands, dead_screen(7));
    assert!(!frame.quitting);
    assert_eq!(state.score(), 0);
    assert_eq!(state.mode(), GameMode::Playing);
    assert_eq!((state.player().x(), state.player().y()), (5, 25));
    assert_eq!(state.player().velocity(), 0);
    assert_eq!(state.obstacle().size(), 20);
    assert_eq!(state.obstacle().x(), 80);
    assert_eq!(state.obstacle().gap_y(), 22);
    assert_eq!(state.frame_time(), 0);
    assert_fresh(&state, GameMode::Playing, 22);
}

#[test]
fn restart_sets_every_field_anew() {
    let mut state =
        State::from_parts(GameMode::End, Player::new(9, 3), Obstacle::with_gap(44, 39, 30), 30, 7)
            .expect("a well-formed state");
    state.restart(10);
    assert_fresh(&state, GameMode::Playing, 10);
}

#[test]
fn game_over_screen_is_painted_with_the_points_and_waits() {
    let mut state = parts(GameMode::End, Player::new(300, 60), Obstacle::with_gap(320, 20, 3), 3);
    let before = state;
    let frame = state.tick(STEP, None, 30);
    assert_eq!(frame.commands, dead_screen(3));
    assert!(!frame.quitting);
    assert_eq!(state, before);
    let frame = state.tick(STEP, Some(Key::Flap), 30);
    assert!(!frame.quitting);
    assert_eq!(state, before);
}

#[test]
fn quit_after_a_game_signals_quitting_and_keeps_the_state() {
    let mut state = parts(GameMode::End, Player::new(300, 60), Obstacle::with_gap(320, 20, 3), 3);
    let before = state;
    let frame = state.tick(STEP, Some(Key::Quit), 30);
    assert!(frame.quitting);
    assert_eq!(frame.commands, dead_screen(3));
    assert_eq!(state, before);
}

#[test]
fn a_running_game_cannot_be_quit_or_restarted() {
    for key in [Key::Quit, Key::Confirm] {
        let mut state = playing(25);
        let mut silent = playing(25);
        let frame = state.tick(STEP, Some(key), 11);
        silent.tick(STEP, None, 11);
        assert!(!frame.quitting);
        assert_eq!(state, silent);
        assert_eq!(state.mode(), GameMode::Playing);
        assert_eq!(state.player().x(), 6);
    }
}

#[test]
fn physics_waits_until_the_clock_exceeds_a_frame() {
    let mut state = playing(25);
    state.tick(60_000, None, 25);
    assert_eq!(state.frame_time(), 60_000);
    assert_eq!(state.player(), Player::new(5, 25));
    state.tick(1, None, 25);
    assert_eq!(state.frame_time(), 0);
    assert_eq!(state.player().x(), 6);
    assert_eq!(state.player().velocity(), 1);
}

#[test]
fn clock_gathers_short_ticks() {
    let mut state = playing(25);
    for tick in 1..=3 {
        state.tick(16_667, None, 25);
        assert_eq!(state.frame_time(), 16_667 * tick);
        assert_eq!(state.player().x(), 5);
    }
    state.tick(16_667, None, 25);
    assert_eq!(state.frame_time(), 0);
    assert_eq!(state.player().x(), 6);
    state.tick(16_667, None, 25);
    assert_eq!(state.frame_time(), 16_667);
    assert_eq!(state.player().x(), 6);
}

#[test]
fn one_long_tick_is_one_step() {
    let mut state = playing(25);
    state.tick(u32::MAX, None, 25);
    assert_eq!(state.frame_time(), 0);
    assert_eq!(state.player().x(), 6);
    let mut state = playing(25);
    state.tick(50_000, None, 25);
    state.tick(u32::MAX, None, 25);
    assert_eq!(state.frame_time(), 0);
    assert_eq!(state.player().x(), 6);
}

#[test]
fn a_tick_of_no_time_moves_nothing() {
    let mut state = playing(25);
    let before = state;
    state.tick(0, None, 25);
    assert_eq!(state, before);
}

#[test]
fn flap_does_not_wait_for_the_clock() {
    let mut state = playing(25);
    state.tick(10, Some(Key::Flap), 25);
    assert_eq!(state.player().velocity(), -10);
    assert_eq!(state.player().x(), 5);
    assert_eq!(state.player().y(), 25);
    assert_eq!(state.frame_time(), 10);
}

#[test]
fn flap_comes_after_the_move_of_the_same_tick() {
    let mut state = playing(25);
    state.tick(STEP, Some(Key::Flap), 25);
    assert_eq!(state.player().velocity(), -10);
    assert_eq!((state.player().x(), state.player().y()), (6, 25));
    state.tick(STEP, None, 25);
    assert_eq!(state.player().velocity(), -9);
    assert_eq!((state.player().x(), state.player().y()), (7, 24));
}

#[test]
fn flapping_on_every_tick_keeps_the_flap_velocity() {
    let mut state = playing(25);
    for _ in 0..5 {
        state.tick(1, Some(Key::Flap), 25);
        assert_eq!(state.player().velocity(), -10);
    }
    assert_eq!(state.player(), {
        let mut player = Player::new(5, 25);
        player.flap();
        player
    });
}

#[test]
fn a_running_game_is_painted_after_the_move() {
    let mut state = playing(25);
    let frame = state.tick(STEP, None, 25);
    let mut expected = vec![
        DrawCommand::ClearBackground,
        DrawCommand::SetCell { col: 0, row: 25, glyph: Glyph::Player },
        DrawCommand::Print { col: 0, row: 0, text: Label::FlapHint },
        DrawCommand::Print { col: 0, row: 1, text: Label::Score { points: 0 } },
        DrawCommand::Print { col: 0, row: 2, text: Label::PlayerAt { x: 6, y: 25 } },
        DrawCommand::Print { col: 0, row: 3, text: Label::ObstacleAt { x: 80, gap_y: 25 } },
    ];
    for row in (0..15).chain(35..50) {
        expected.push(DrawCommand::SetCell { col: 74, row, glyph: Glyph::Wall });
    }
    assert_eq!(frame.commands, expected);
    assert!(!frame.quitting);
}

#[test]
fn falling_without_a_flap_ends_the_game() {
    let mut state = playing(25);
    let mut last_y = state.player().y();
    let mut ended_at = None;
    for step in 1..=100 {
        state.tick(STEP, None, 25);
        if state.mode() == GameMode::End {
            if ended_at.is_none() {
                ended_at = Some(step);
            }
            continue;
        }
        assert!(state.player().y() >= last_y);
        assert!(state.player().y() - last_y <= 2);
        last_y = state.player().y();
    }
    assert_eq!(state.mode(), GameMode::End);
    assert_eq!(ended_at, Some(20));
    assert_eq!(state.player().y(), 52);
    assert!(state.player().y() > SCREEN_HEIGHT);
    assert_eq!(state.player().x(), 25);
    assert_eq!(state.score(), 0);
}

#[test]
fn the_bottom_row_itself_is_still_in_play() {
    let mut state = playing(25);
    for _ in 0..19 {
        state.tick(STEP, None, 25);
    }
    assert_eq!(state.player().y(), 50);
    assert_eq!(state.mode(), GameMode::Playing);
    state.tick(STEP, None, 25);
    assert_eq!(state.player().y(), 52);
    assert_eq!(state.mode(), GameMode::End);
}

#[test]
fn a_game_that_has_ended_stands_still() {
    let mut state = playing(25);
    for _ in 0..20 {
        state.tick(STEP, None, 25);
    }
    assert_eq!(state.mode(), GameMode::End);
    let ended = state;
    for _ in 0..10 {
        let frame = state.tick(STEP, Some(Key::Flap), 25);
        assert_eq!(frame.commands, dead_screen(0));
        assert_eq!(state, ended);
    }
}

#[test]
fn passing_through_the_gap_scores_and_builds_the_next_obstacle() {
    let mut state =
        parts(GameMode::Playing, Player::new(84, 25), Obstacle::with_gap(85, 25, 0), 0);
    assert!(!state.builds_obstacle(STEP, None));

    state.tick(STEP, None, 30);
    assert_eq!((state.player().x(), state.player().y()), (85, 25));
    assert!(!state.obstacle().hit_obstacle(&state.player()));
    assert_eq!(state.mode(), GameMode::Playing);
    assert_eq!(state.score(), 0);
    assert_eq!(state.obstacle(), Obstacle::with_gap(85, 25, 0));

    assert!(state.builds_obstacle(STEP, None));
    assert!(!state.builds_obstacle(10, None));
    let frame = state.tick(STEP, None, 30);
    assert_eq!(state.player().x(), 86);
    assert_eq!(state.score(), 1);
    assert_eq!(state.mode(), GameMode::Playing);
    assert_eq!(state.obstacle().x(), state.player().x() + 80);
    assert_eq!(state.obstacle().x(), 166);
    assert_eq!(state.obstacle().gap_y(), 30);
    assert_eq!(state.obstacle().size(), 19);
    assert_eq!(
        frame.commands[3],
        DrawCommand::Print { col: 0, row: 1, text: Label::Score { points: 0 } }
    );
    assert_eq!(
        frame.commands[5],
        DrawCommand::Print { col: 0, row: 3, text: Label::ObstacleAt { x: 85, gap_y: 25 } }
    );
    assert_eq!(frame.commands[6], DrawCommand::SetCell { col: -1, row: 0, glyph: Glyph::Wall });

    state.tick(STEP, None, 12);
    assert_eq!(state.score(), 1);
    assert_eq!(state.obstacle(), Obstacle::with_gap(166, 30, 1));
}

#[test]
fn a_point_is_scored_once_per_obstacle() {
    let mut state =
        parts(GameMode::Playing, Player::new(84, 25), Obstacle::with_gap(85, 25, 0), 0);
    let mut scores = Vec::new();
    for tick in 0..12 {
        let key = if tick % 3 == 0 { Some(Key::Flap) } else { None };
        state.tick(STEP, key, 25);
        scores.push(state.score());
    }
    assert_eq!(scores, vec![0, 1, 1, 1, 1, 1, 1, 1, 1, 1, 1, 1]);
    assert_eq!(state.mode(), GameMode::Playing);
}

#[test]
fn flying_into_the_wall_above_the_gap_ends_the_game() {
    let mut state =
        parts(GameMode::Playing, Player::new(84, 5), Obstacle::with_gap(85, 25, 0), 0);
    state.tick(STEP, None, 30);
    assert_eq!((state.player().x(), state.player().y()), (85, 5));
    assert_eq!(state.mode(), GameMode::End);
    assert_eq!(state.score(), 0);
    assert_eq!(state.obstacle(), Obstacle::with_gap(85, 25, 0));
}

#[test]
fn flying_into_the_wall_below_the_gap_ends_the_game() {
    let mut state =
        parts(GameMode::Playing, Player::new(84, 36), Obstacle::with_gap(85, 25, 0), 0);
    state.tick(STEP, None, 30);
    assert_eq!(state.player().y(), 36);
    assert_eq!(state.mode(), GameMode::End);
}

#[test]
fn the_wall_is_only_hit_in_its_own_column() {
    let mut state =
        parts(GameMode::Playing, Player::new(80, 5), Obstacle::with_gap(85, 25, 0), 0);
    for _ in 0..4 {
        state.tick(STEP, None, 30);
        assert_eq!(state.mode(), GameMode::Playing);
    }
    assert_eq!(state.player().x(), 84);
    state.tick(10, None, 30);
    assert_eq!(state.mode(), GameMode::Playing);
    state.tick(STEP, None, 30);
    assert_eq!(state.player().x(), 85);
    assert_eq!(state.mode(), GameMode::End);
}

#[test]
fn the_wall_is_hit_again_on_every_tick_spent_in_its_column() {
    let mut state =
        parts(GameMode::Playing, Player::new(85, 5), Obstacle::with_gap(85, 25, 0), 0);
    state.tick(0, None, 30);
    assert_eq!(state.mode(), GameMode::End);
}

#[test]
fn gaps_narrow_as_the_score_rises() {
    let mut state =
        parts(GameMode::Playing, Player::new(400, 25), Obstacle::with_gap(400, 25, 16), 16);
    assert_eq!(state.obstacle().size(), 4);
    state.tick(STEP, None, 25);
    assert_eq!(state.score(), 17);
    assert_eq!(state.obstacle().size(), 3);
    assert_eq!(state.obstacle().x(), 481);
}

#[test]
fn parts_that_make_no_state_are_refused() {
    let player = Player::new(5, 25);
    let obstacle = Obstacle::with_gap(80, 25, 0);
    assert!(State::from_parts(GameMode::Playing, player, obstacle, 0, 0).is_some());
    assert!(State::from_parts(GameMode::Playing, player, obstacle, 80, 60_000).is_some());
    assert!(State::from_parts(GameMode::Playing, player, obstacle, 0, 60_001).is_none());
    assert!(State::from_parts(GameMode::Playing, player, obstacle, 81, 0).is_none());
    assert!(State::from_parts(GameMode::Playing, Player::new(-1, 25), obstacle, 0, 0).is_none());
    assert!(State::from_parts(GameMode::Playing, Player::new(5, -1), obstacle, 0, 0).is_none());
    assert!(State::from_parts(GameMode::Playing, Player::new(5, 50), obstacle, 0, 0).is_some());
    assert!(State::from_parts(GameMode::Playing, Player::new(5, 51), obstacle, 0, 0).is_none());
    assert!(State::from_parts(GameMode::End, Player::new(5, 51), obstacle, 0, 0).is_some());
    assert!(State::from_parts(GameMode::Menu, Player::new(5, 51), obstacle, 0, 0).is_some());
    assert!(
        State::from_parts(GameMode::Menu, player, Obstacle::with_gap(-1, 25, 0), 0, 0).is_none()
    );
}

#[test]
fn parts_are_kept_as_given() {
    let mut player = Player::new(90, 3);
    player.flap();
    let obstacle = Obstacle::with_gap(120, 39, 2);
    let state = State::from_parts(GameMode::Playing, player, obstacle, 2, 59_999)
        .expect("a well-formed state");
    assert_eq!(state.mode(), GameMode::Playing);
    assert_eq!(state.player(), player);
    assert_eq!(state.obstacle(), obstacle);
    assert_eq!(state.score(), 2);
    assert_eq!(state.frame_time(), 59_999);
}

#[test]
fn ticks_run_out_where_columns_do() {
    let far = i32::MAX - 81;
    let state = parts(GameMode::Playing, Player::new(far, 25), Obstacle::with_gap(far, 25, 0), 0);
    assert!(state.can_tick());
    let state =
        parts(GameMode::Playing, Player::new(far + 1, 25), Obstacle::with_gap(far, 25, 0), 0);
    assert!(!state.can_tick());
    let state = parts(GameMode::End, Player::new(far + 1, 25), Obstacle::with_gap(far, 25, 0), 0);
    assert!(state.can_tick());
    assert!(State::new(10).can_tick());
}

#[test]
fn the_last_column_in_reach_still_scores() {
    let far = i32::MAX - 81;
    let mut state =
        parts(GameMode::Playing, Player::new(far, 25), Obstacle::with_gap(far, 25, 0), 0);
    state.tick(STEP, None, 25);
    assert_eq!(state.score(), 1);
    assert_eq!(state.obstacle().x(), i32::MAX);
    assert!(!state.can_tick());
}

#[test]
fn an_obstacle_is_built_on_restart_and_on_passing() {
    let menu = State::new(10);
    assert!(menu.builds_obstacle(0, Some(Key::Confirm)));
    assert!(!menu.builds_obstacle(STEP, Some(Key::Flap)));
    assert!(!menu.builds_obstacle(STEP, Some(Key::Quit)));
    assert!(!menu.builds_obstacle(STEP, None));
    let running = playing(10);
    assert!(!running.builds_obstacle(STEP, Some(Key::Confirm)));
    assert!(!running.builds_obstacle(STEP, None));
    let over = parts(GameMode::End, Player::new(30, 52), Obstacle::with_gap(80, 25, 0), 0);
    assert!(over.builds_obstacle(0, Some(Key::Confirm)));
    assert!(!over.builds_obstacle(0, None));
}
