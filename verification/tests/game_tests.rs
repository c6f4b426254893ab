use kernel::game::{fast_rand, GameMode, Pong};

// One xorshift step from the initial seed 123456789, and the step after it.
const RAND1: u32 = 2714967881; // odd: serve direction -1
const RAND2: u32 = 2238813396; // even: serve direction 1

fn playing_state(mode: GameMode) -> Pong {
    let mut p = Pong::new(800, 600);
    p.game_mode = mode;
    p.last_play_mode = mode;
    p
}

#[test]
fn new_centers_everything() {
    let p = Pong::new(800, 600);
    assert_eq!(p.game_mode, GameMode::Menu);
    assert_eq!(p.ball_x, 400);
    assert_eq!(p.ball_y, 300);
    assert_eq!(p.ball_dx, 1);
    assert_eq!(p.ball_dy, 1);
    assert_eq!(p.player1_y, 300);
    assert_eq!(p.player2_y, 300);
    assert_eq!(p.player1_score, 0);
    assert_eq!(p.player2_score, 0);
    assert_eq!(p.width, 800);
    assert_eq!(p.height, 600);
    assert_eq!(p.paddle_height, 50);
    assert_eq!(p.win_threshold, 1);
}

#[test]
fn fast_rand_known_values() {
    assert_eq!(fast_rand(123456789), RAND1);
    assert_eq!(fast_rand(RAND1), RAND2);
}

#[test]
fn reset_is_deterministic() {
    let mut p = Pong::new(800, 600);
    p.ball_x = 700;
    p.ball_y = 20;
    p.player1_y = 0;
    p.reset();
    assert_eq!(p.ball_x, 400);
    assert_eq!(p.ball_y, 300);
    assert_eq!(p.ball_dx, -1); // RAND1 is odd
    assert_eq!(p.ball_dy, 1); // RAND2 is even
    assert_eq!(p.player1_y, 300);
    assert_eq!(p.player2_y, 300);
    assert_eq!(p.seed, RAND2);
}

#[test]
fn menu_accepts_only_mode_keys() {
    // From the menu, '1' and '2' change the mode and nothing else does.
    let mut p = Pong::new(800, 600);
    p.handle_key('1');
    assert_eq!(p.game_mode, GameMode::OnePlayer);
    assert_eq!(p.last_play_mode, GameMode::OnePlayer);
    assert_eq!(p.ball_dx, -1); // the serve drew from the random sequence

    let mut q = Pong::new(800, 600);
    q.handle_key('2');
    assert_eq!(q.game_mode, GameMode::TwoPlayer);
    assert_eq!(q.last_play_mode, GameMode::TwoPlayer);

    for c in ['r', 'p', 'i', 'k', 'x', '3', ' ', 'q'] {
        let mut m = Pong::new(800, 600);
        m.handle_key(c);
        assert_eq!(m.game_mode, GameMode::Menu, "key {c:?} must not leave the menu");
    }

    // 'w' and 's' work on the menu too, but never change the mode.
    let mut w = Pong::new(800, 600);
    w.handle_key('w');
    assert_eq!(w.game_mode, GameMode::Menu);
    assert_eq!(w.player1_y, 275);
    w.handle_key('s');
    assert_eq!(w.player1_y, 300);
}

#[test]
fn game_over_keys() {
    let mut p = playing_state(GameMode::TwoPlayer);
    p.game_mode = GameMode::GameOver;
    p.player1_score = 1;
    p.handle_key('r');
    assert_eq!(p.game_mode, GameMode::Menu);
    assert_eq!(p.player1_score, 0);
    assert_eq!(p.player2_score, 0);

    let mut q = playing_state(GameMode::TwoPlayer);
    q.game_mode = GameMode::GameOver;
    q.player1_score = 1;
    q.handle_key('p');
    assert_eq!(q.game_mode, GameMode::TwoPlayer); // the last active mode
    assert_eq!(q.player1_score, 0);
    assert_eq!(q.player2_score, 0);
    assert_eq!(q.ball_x, 400); // served anew
}

#[test]
fn two_player_paddle_keys() {
    let mut p = playing_state(GameMode::TwoPlayer);
    p.handle_key('i');
    assert_eq!(p.player2_y, 275);
    p.handle_key('k');
    assert_eq!(p.player2_y, 300);
    // In one-player mode the right paddle ignores the keys.
    let mut q = playing_state(GameMode::OnePlayer);
    q.handle_key('i');
    assert_eq!(q.player2_y, 300);
}

#[test]
fn top_boundary_reflects_ball() {
    // Ball at the top boundary moving up: one update flips the direction.
    let mut p = playing_state(GameMode::OnePlayer);
    p.ball_x = 400;
    p.ball_dx = 1;
    p.ball_y = 1;
    p.ball_dy = -1;
    p.update();
    assert_eq!(p.ball_dy, 1);
    assert_eq!(p.ball_y, 0);
}

#[test]
fn bottom_boundary_reflects_ball() {
    let mut p = playing_state(GameMode::TwoPlayer);
    p.ball_x = 400;
    p.ball_dx = 1;
    p.ball_y = 598; // height - 2
    p.ball_dy = 1;
    p.update();
    assert_eq!(p.ball_dy, -1);
    assert_eq!(p.ball_y, 599);
}

#[test]
fn right_exit_scores_player_one() {
    // Ball crossing the right boundary: player one scores, ball recenters.
    let mut p = playing_state(GameMode::TwoPlayer);
    p.ball_x = 790;
    p.ball_dx = 1;
    p.ball_y = 300;
    p.ball_dy = 1;
    p.update();
    assert_eq!(p.player1_score, 1);
    assert_eq!(p.player2_score, 0);
    assert_eq!(p.ball_x, 400);
    assert_eq!(p.ball_y, 300);
    // The winning threshold is 1: the same update ended the game.
    assert_eq!(p.game_mode, GameMode::GameOver);
}

#[test]
fn left_exit_scores_player_two() {
    let mut p = playing_state(GameMode::TwoPlayer);
    p.ball_x = 20;
    p.ball_dx = -1;
    p.ball_y = 300;
    p.ball_dy = 1;
    p.update();
    assert_eq!(p.player2_score, 1);
    assert_eq!(p.player1_score, 0);
    assert_eq!(p.ball_x, 400);
    assert_eq!(p.game_mode, GameMode::GameOver);
}

#[test]
fn game_over_updates_are_noops() {
    let mut p = playing_state(GameMode::TwoPlayer);
    p.ball_x = 790;
    p.ball_dx = 1;
    p.update();
    assert_eq!(p.game_mode, GameMode::GameOver);
    let frozen = p;
    p.update();
    assert_eq!(p, frozen);
    p.update();
    assert_eq!(p, frozen);
}

#[test]
fn menu_updates_are_noops() {
    let mut p = Pong::new(800, 600);
    let before = p;
    p.update();
    assert_eq!(p, before);
}

#[test]
fn paddle_hit_sends_ball_right() {
    let mut p = playing_state(GameMode::TwoPlayer);
    p.ball_x = 46; // lands on column 10, the left paddle's column
    p.ball_dx = -1;
    p.ball_y = 300;
    p.ball_dy = -1; // lands on row 264
    p.player1_y = 250; // paddle spans rows 250..=300
    p.update();
    assert_eq!(p.ball_dx, 1);
    assert_eq!(p.ball_x, 10);
    assert_eq!(p.ball_y, 264);
}

#[test]
fn ai_tracks_ball_in_one_player() {
    let mut p = playing_state(GameMode::OnePlayer);
    p.ball_x = 400;
    p.ball_dx = 1;
    p.ball_y = 300;
    p.ball_dy = 1; // ball moves to row 336, target row 311
    p.player2_y = 100; // paddle center 125, below the target: move down
    p.update();
    assert_eq!(p.player2_y, 125);
}

#[test]
fn short_boards_are_accepted() {
    // A board barely taller than the paddle: the centered placement is
    // pulled up so the whole paddle fits, and the game still runs.
    let mut p = Pong::new(800, 60);
    assert_eq!(p.player1_y, 10);
    assert_eq!(p.player2_y, 10);
    p.handle_key('1');
    assert_eq!(p.game_mode, GameMode::OnePlayer);
    p.update();
    assert_eq!(p.ball_y, 59); // clamped at the bottom edge
    assert_eq!(p.ball_dy, -1); // and reflected
    assert_eq!(p.player2_y, 0); // the tracking paddle stays on the board
}

#[test]
fn paddles_stay_on_the_board() {
    // Repeated movement in either direction never leaves the board.
    let mut p = Pong::new(800, 600);
    for _ in 0..100 {
        p.move_paddle(true, true);
        p.move_paddle(false, true);
    }
    assert_eq!(p.player1_y, 0);
    assert_eq!(p.player2_y, 0);
    for _ in 0..100 {
        p.move_paddle(true, false);
        p.move_paddle(false, false);
    }
    assert_eq!(p.player1_y, 550); // height - paddle_height
    assert_eq!(p.player2_y, 550);
    for _ in 0..100 {
        p.move_paddle(true, false);
    }
    assert_eq!(p.player1_y, 550);
}
