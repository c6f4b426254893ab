//! The real-time state machine driven from dispatched callbacks: a pong
//! game over a closed set of modes, advanced by timer ticks and key events.

use vstd::prelude::*;

verus! {

/// Horizontal and vertical distance the ball travels on one timer tick.
pub const BALL_STEP: usize = 36;

/// Distance a paddle travels on one movement request.
pub const PADDLE_STEP: usize = 25;

/// Vertical extent of both paddles, in pixels.
pub const PADDLE_HEIGHT: usize = 50;

/// Horizontal distance of each paddle from its board edge.
pub const PADDLE_MARGIN: usize = 10;

/// Half-width of the horizontal band around a paddle's column in which the
/// ball is considered to touch the paddle.
pub const BALL_BAND: usize = 3;

/// Initial state of the pseudo-random sequence used to serve the ball.
pub const INITIAL_SEED: u32 = 123456789;

/// The closed set of modes the game can be in; no other mode exists and
/// transitions happen only along the edges handled in [`spec_key`] and
/// [`Pong::update`].
#[derive(PartialEq, Eq, Structural, Clone, Copy, Debug)]
pub enum GameMode {
    Menu,
    OnePlayer,
    TwoPlayer,
    GameOver,
}

/// The shared program state mutated exclusively inside dispatched callbacks.
///
/// Coordinates grow rightwards (`x`) and downwards (`y`).  `ball_dx` and
/// `ball_dy` are unit directions; the ball moves `BALL_STEP` pixels per tick
/// along each axis.  `last_play_mode` remembers which of the two playing
/// modes was most recently active, so that a replay from the game-over
/// screen restores it.
#[derive(PartialEq, Eq, Structural, Clone, Copy, Debug)]
pub struct Pong {
    pub game_mode: GameMode,
    pub ball_x: usize,
    pub ball_y: usize,
    pub ball_dx: isize,
    pub ball_dy: isize,
    pub player1_y: usize,
    pub player2_y: usize,
    pub player1_score: u32,
    pub player2_score: u32,
    pub width: usize,
    pub height: usize,
    pub paddle_height: usize,
    pub win_threshold: u32,
    pub last_play_mode: GameMode,
    pub seed: u32,
}

/// One step of the xorshift pseudo-random sequence.
pub open spec fn spec_fast_rand(x: u32) -> u32 {
    let a = x ^ (x << 13);
    let b = a ^ (a >> 17);
    b ^ (b << 5)
}

/// One step of the xorshift pseudo-random sequence, used to pick the serve
/// direction after a point and at the start of a game.
pub fn fast_rand(x: u32) -> (r: u32)
    ensures
        r == spec_fast_rand(x),
{
    let a = x ^ (x << 13u32);
    let b = a ^ (a >> 17u32);
    b ^ (b << 5u32)
}

impl Pong {
    /// The game is actively running (the ball moves and points are scored).
    pub open spec fn playing(self) -> bool {
        self.game_mode == GameMode::OnePlayer || self.game_mode == GameMode::TwoPlayer
    }

    /// The board is large enough for the fixed-size paddles and the ball
    /// movement arithmetic: wide enough to hold both paddle columns and
    /// their contact bands, tall enough for a paddle to move, and small
    /// enough that coordinate arithmetic cannot overflow.
    pub open spec fn geometry_ok(self) -> bool {
        &&& 20 <= self.width
        &&& self.width <= usize::MAX / 2
        &&& 1 <= self.paddle_height
        &&& self.paddle_height <= self.height
        &&& 2 <= self.height
        &&& self.height <= usize::MAX / 2
    }

    /// Well-formedness of the game state: sane geometry, unit ball
    /// directions, ball and paddles on the board, scores below the winning
    /// threshold while a game is running, and zero scores on the menu.
    pub open spec fn wf(self) -> bool {
        &&& self.geometry_ok()
        &&& (self.ball_dx == 1 || self.ball_dx == -1)
        &&& (self.ball_dy == 1 || self.ball_dy == -1)
        &&& self.ball_x <= self.width
        &&& self.ball_y <= self.height - 1
        &&& self.player1_y <= self.height - self.paddle_height
        &&& self.player2_y <= self.height - self.paddle_height
        &&& 1 <= self.win_threshold
        &&& (self.playing() ==> self.player1_score < self.win_threshold
            && self.player2_score < self.win_threshold)
        &&& (self.game_mode == GameMode::Menu ==> self.player1_score == 0
            && self.player2_score == 0)
        &&& (self.last_play_mode == GameMode::OnePlayer
            || self.last_play_mode == GameMode::TwoPlayer)
    }
}

/// The centered paddle position: the paddle's middle on the board's
/// middle, pulled up just enough that a paddle taller than half the board
/// still fits on it.
pub open spec fn spec_centered_paddle(height: usize, paddle_height: usize) -> usize {
    let bound = if paddle_height <= height {
        (height - paddle_height) as usize
    } else {
        0usize
    };
    if height / 2 <= bound {
        (height / 2) as usize
    } else {
        bound
    }
}

/// The freshly constructed state for a board of the given size: menu mode,
/// ball and paddles centered, zero scores.
pub open spec fn spec_new(width: usize, height: usize) -> Pong {
    Pong {
        game_mode: GameMode::Menu,
        ball_x: (width / 2) as usize,
        ball_y: (height / 2) as usize,
        ball_dx: 1isize,
        ball_dy: 1isize,
        player1_y: spec_centered_paddle(height, PADDLE_HEIGHT),
        player2_y: spec_centered_paddle(height, PADDLE_HEIGHT),
        player1_score: 0u32,
        player2_score: 0u32,
        width,
        height,
        paddle_height: PADDLE_HEIGHT,
        win_threshold: 1u32,
        last_play_mode: GameMode::OnePlayer,
        seed: INITIAL_SEED,
    }
}

/// The state after a serve: ball and paddles recentered and the ball sent
/// in a direction drawn from the pseudo-random sequence.  Mode, scores and
/// board geometry are untouched.
pub open spec fn spec_reset(p: Pong) -> Pong {
    let s1 = spec_fast_rand(p.seed);
    let s2 = spec_fast_rand(s1);
    Pong {
        ball_x: (p.width / 2) as usize,
        ball_y: (p.height / 2) as usize,
        ball_dx: if s1 % 2 == 0 { 1isize } else { -1isize },
        ball_dy: if s2 % 2 == 0 { 1isize } else { -1isize },
        player1_y: spec_centered_paddle(p.height, p.paddle_height),
        player2_y: spec_centered_paddle(p.height, p.paddle_height),
        seed: s2,
        ..p
    }
}

/// The largest admissible paddle position: the paddle's top may not pass
/// below `height - paddle_height`, so that the paddle stays on the board.
pub open spec fn spec_paddle_bound(p: Pong) -> usize {
    if p.paddle_height <= p.height {
        (p.height - p.paddle_height) as usize
    } else {
        0usize
    }
}

/// A paddle position one step up from `y`, stopping at the top edge.
pub open spec fn spec_step_up(y: usize) -> usize {
    if y >= PADDLE_STEP {
        (y - PADDLE_STEP) as usize
    } else {
        0usize
    }
}

/// A paddle position one step down from `y`, stopping at `bound`.
pub open spec fn spec_step_down(y: usize, bound: usize) -> usize {
    if y < bound {
        if bound - y < PADDLE_STEP {
            bound
        } else {
            (y + PADDLE_STEP) as usize
        }
    } else {
        bound
    }
}

/// The state after one paddle movement request: the chosen paddle moves one
/// step in the chosen direction, clamped to the board.
pub open spec fn spec_move_paddle(p: Pong, is_player1: bool, up: bool) -> Pong {
    let y = if is_player1 {
        p.player1_y
    } else {
        p.player2_y
    };
    let ny = if up {
        spec_step_up(y)
    } else {
        spec_step_down(y, spec_paddle_bound(p))
    };
    if is_player1 {
        Pong { player1_y: ny, ..p }
    } else {
        Pong { player2_y: ny, ..p }
    }
}

impl Pong {
    /// A fresh game for a board of `width` by `height` pixels, on the menu
    /// screen with centered ball and paddles and zero scores.
    pub fn new(width: usize, height: usize) -> (p: Pong)
        ensures
            p == spec_new(width, height),
    {
        let bound = if PADDLE_HEIGHT <= height {
            height - PADDLE_HEIGHT
        } else {
            0
        };
        let centered = if height / 2 <= bound {
            height / 2
        } else {
            bound
        };
        Pong {
            game_mode: GameMode::Menu,
            ball_x: width / 2,
            ball_y: height / 2,
            ball_dx: 1,
            ball_dy: 1,
            player1_y: centered,
            player2_y: centered,
            player1_score: 0,
            player2_score: 0,
            width,
            height,
            paddle_height: PADDLE_HEIGHT,
            win_threshold: 1,
            last_play_mode: GameMode::OnePlayer,
            seed: INITIAL_SEED,
        }
    }

    /// Serve the ball: recenter ball and paddles and draw a fresh direction
    /// from the pseudo-random sequence.  Scores and mode are untouched.
    pub fn reset(&mut self)
        ensures
            *final(self) == spec_reset(*old(self)),
    {
        let s1 = fast_rand(self.seed);
        let s2 = fast_rand(s1);
        self.ball_x = self.width / 2;
        self.ball_y = self.height / 2;
        self.ball_dx = if s1 % 2 == 0 { 1 } else { -1 };
        self.ball_dy = if s2 % 2 == 0 { 1 } else { -1 };
        let bound = if self.paddle_height <= self.height {
            self.height - self.paddle_height
        } else {
            0
        };
        let centered = if self.height / 2 <= bound {
            self.height / 2
        } else {
            bound
        };
        self.player1_y = centered;
        self.player2_y = centered;
        self.seed = s2;
    }

    /// Move one paddle one step up or down, never leaving the board: the
    /// new position always stays within `[0, height - paddle_height]`
    /// whenever the paddle fits on the board at all.
    pub fn move_paddle(&mut self, is_player1: bool, up: bool)
        ensures
            *final(self) == spec_move_paddle(*old(self), is_player1, up),
    {
        let bound = if self.paddle_height <= self.height {
            self.height - self.paddle_height
        } else {
            0
        };
        let y = if is_player1 {
            self.player1_y
        } else {
            self.player2_y
        };
        let ny = if up {
            if y >= PADDLE_STEP {
                y - PADDLE_STEP
            } else {
                0
            }
        } else {
            if y < bound {
                if bound - y < PADDLE_STEP {
                    bound
                } else {
                    y + PADDLE_STEP
                }
            } else {
                bound
            }
        };
        if is_player1 {
            self.player1_y = ny;
        } else {
            self.player2_y = ny;
        }
    }
}

/// The paddle-tracking rule of the one-player mode: the machine-driven
/// right paddle moves one step toward the ball's vertical position.
pub open spec fn spec_ai(q: Pong) -> Pong {
    let target = if q.ball_y >= q.paddle_height / 2 {
        q.ball_y - q.paddle_height / 2
    } else {
        0
    };
    let center = q.player2_y + q.paddle_height / 2;
    if center < target {
        spec_move_paddle(q, false, false)
    } else if center > target {
        spec_move_paddle(q, false, true)
    } else {
        q
    }
}

/// The tail of an update step: enter game-over mode once a score reaches
/// the winning threshold, then, if still in one-player mode, move the
/// machine-driven paddle.
pub open spec fn spec_over_then_ai(q: Pong) -> Pong {
    let q2 = if q.player1_score >= q.win_threshold || q.player2_score >= q.win_threshold {
        Pong { game_mode: GameMode::GameOver, ..q }
    } else {
        q
    };
    if q2.game_mode == GameMode::OnePlayer {
        spec_ai(q2)
    } else {
        q2
    }
}

/// The state after one timer tick.  Outside the two playing modes nothing
/// changes.  Otherwise the ball advances one step; its vertical direction
/// reflects at the top and bottom edges and its horizontal direction is
/// forced away from a paddle on contact; a ball leaving the board on the
/// left or right scores a point for the opposing player and is served
/// anew; a score reaching the winning threshold ends the game; and in
/// one-player mode the machine-driven paddle tracks the ball.
pub open spec fn spec_update(p: Pong) -> Pong {
    if !p.playing() {
        p
    } else {
        let mx = p.ball_x + p.ball_dx * BALL_STEP;
        let my_raw = p.ball_y + p.ball_dy * BALL_STEP;
        let my = if my_raw < 0 {
            0
        } else if my_raw > p.height - 1 {
            p.height - 1
        } else {
            my_raw
        };
        if mx <= 0 {
            let scored = Pong { player2_score: (p.player2_score + 1) as u32, ..p };
            spec_over_then_ai(spec_reset(scored))
        } else if mx >= p.width {
            let scored = Pong { player1_score: (p.player1_score + 1) as u32, ..p };
            spec_over_then_ai(spec_reset(scored))
        } else {
            let ndy = if my <= 1 || my >= p.height - 2 {
                (-p.ball_dy) as isize
            } else {
                p.ball_dy
            };
            let hit1 = PADDLE_MARGIN - BALL_BAND <= mx <= PADDLE_MARGIN + BALL_BAND
                && p.player1_y <= my <= p.player1_y + p.paddle_height;
            let hit2 = p.width - PADDLE_MARGIN - BALL_BAND <= mx <= p.width - PADDLE_MARGIN
                + BALL_BAND && p.player2_y <= my <= p.player2_y + p.paddle_height;
            let ndx = if hit2 {
                -1isize
            } else if hit1 {
                1isize
            } else {
                p.ball_dx
            };
            let moved = Pong {
                ball_x: mx as usize,
                ball_y: my as usize,
                ball_dx: ndx,
                ball_dy: ndy,
                ..p
            };
            spec_over_then_ai(moved)
        }
    }
}

impl Pong {
    /// Advance the game by one timer tick, as [`spec_update`] describes.
    /// Well-formedness is preserved, so ticks can be dispatched forever.
    #[verifier::rlimit(60)]
    pub fn update(&mut self)
        requires
            old(self).wf(),
        ensures
            *final(self) == spec_update(*old(self)),
            final(self).wf(),
    {
        if self.game_mode != GameMode::OnePlayer && self.game_mode != GameMode::TwoPlayer {
            return ;
        }
        let my: usize = if self.ball_dy == 1 {
            let t = self.ball_y + BALL_STEP;
            if t > self.height - 1 {
                self.height - 1
            } else {
                t
            }
        } else {
            if self.ball_y >= BALL_STEP {
                self.ball_y - BALL_STEP
            } else {
                0
            }
        };
        let scored_left = self.ball_dx == -1 && self.ball_x <= BALL_STEP;
        let scored_right = self.ball_dx == 1 && self.ball_x + BALL_STEP >= self.width;
        if scored_left {
            self.player2_score = self.player2_score + 1;
            self.reset();
        } else if scored_right {
            self.player1_score = self.player1_score + 1;
            self.reset();
        } else {
            let nx: usize = if self.ball_dx == 1 {
                self.ball_x + BALL_STEP
            } else {
                self.ball_x - BALL_STEP
            };
            let ndy: isize = if my <= 1 || my >= self.height - 2 {
                -self.ball_dy
            } else {
                self.ball_dy
            };
            let hit1 = nx + BALL_BAND >= PADDLE_MARGIN && nx <= PADDLE_MARGIN + BALL_BAND
                && my >= self.player1_y && my <= self.player1_y + self.paddle_height;
            let hit2 = nx + BALL_BAND >= self.width - PADDLE_MARGIN && nx <= self.width
                - PADDLE_MARGIN + BALL_BAND && my >= self.player2_y && my <= self.player2_y
                + self.paddle_height;
            let ndx: isize = if hit2 {
                -1
            } else if hit1 {
                1
            } else {
                self.ball_dx
            };
            self.ball_x = nx;
            self.ball_y = my;
            self.ball_dx = ndx;
            self.ball_dy = ndy;
        }
        if self.player1_score >= self.win_threshold || self.player2_score >= self.win_threshold {
            self.game_mode = GameMode::GameOver;
        }
        if self.game_mode == GameMode::OnePlayer {
            let half = self.paddle_height / 2;
            let target = if self.ball_y >= half {
                self.ball_y - half
            } else {
                0
            };
            let center = self.player2_y + half;
            if center < target {
                self.move_paddle(false, false);
            } else if center > target {
                self.move_paddle(false, true);
            }
        }
    }
}

/// The state after one decoded key event, as delivered by the keyboard
/// dispatch: `'1'` and `'2'` start a game from the menu, `'r'` returns
/// from the game-over screen to the menu, `'p'` replays the last active
/// mode, `'w'`/`'s'` move the left paddle at any time, `'i'`/`'k'` move
/// the right paddle in two-player mode.  Every other character, and every
/// recognized character arriving in a mode where its transition is not
/// allowed, leaves the state unchanged.
pub open spec fn spec_key(p: Pong, c: char) -> Pong {
    if c == '1' && p.game_mode == GameMode::Menu {
        Pong {
            game_mode: GameMode::OnePlayer,
            last_play_mode: GameMode::OnePlayer,
            ..spec_reset(p)
        }
    } else if c == '2' && p.game_mode == GameMode::Menu {
        Pong {
            game_mode: GameMode::TwoPlayer,
            last_play_mode: GameMode::TwoPlayer,
            ..spec_reset(p)
        }
    } else if c == 'r' && p.game_mode == GameMode::GameOver {
        Pong { player1_score: 0u32, player2_score: 0u32, game_mode: GameMode::Menu, ..p }
    } else if c == 'p' && p.game_mode == GameMode::GameOver {
        Pong { player1_score: 0u32, player2_score: 0u32, game_mode: p.last_play_mode, ..spec_reset(p) }
    } else if c == 'w' {
        spec_move_paddle(p, true, true)
    } else if c == 's' {
        spec_move_paddle(p, true, false)
    } else if c == 'i' && p.game_mode == GameMode::TwoPlayer {
        spec_move_paddle(p, false, true)
    } else if c == 'k' && p.game_mode == GameMode::TwoPlayer {
        spec_move_paddle(p, false, false)
    } else {
        p
    }
}

impl Pong {
    /// Apply one decoded key event to the game state, as [`spec_key`]
    /// describes; well-formedness is preserved.
    pub fn handle_key(&mut self, c: char)
        requires
            old(self).wf(),
        ensures
            *final(self) == spec_key(*old(self), c),
            final(self).wf(),
    {
        if c == '1' && self.game_mode == GameMode::Menu {
            self.reset();
            self.game_mode = GameMode::OnePlayer;
            self.last_play_mode = GameMode::OnePlayer;
        } else if c == '2' && self.game_mode == GameMode::Menu {
            self.reset();
            self.game_mode = GameMode::TwoPlayer;
            self.last_play_mode = GameMode::TwoPlayer;
        } else if c == 'r' && self.game_mode == GameMode::GameOver {
            self.player1_score = 0;
            self.player2_score = 0;
            self.game_mode = GameMode::Menu;
        } else if c == 'p' && self.game_mode == GameMode::GameOver {
            let last_mode = self.last_play_mode;
            self.reset();
            self.player1_score = 0;
            self.player2_score = 0;
            self.game_mode = last_mode;
        } else if c == 'w' {
            self.move_paddle(true, true);
        } else if c == 's' {
            self.move_paddle(true, false);
        } else if c == 'i' && self.game_mode == GameMode::TwoPlayer {
            self.move_paddle(false, true);
        } else if c == 'k' && self.game_mode == GameMode::TwoPlayer {
            self.move_paddle(false, false);
        }
    }
}

/// Key events drive the mode only along the allowed edges: from the menu,
/// only `'1'` and `'2'` change the mode (to one- and two-player play);
/// from the game-over screen, only `'r'` (to the menu) and `'p'` (back to
/// the last active playing mode); no key event changes the mode of a
/// running game.
pub proof fn lemma_key_transitions(p: Pong, c: char)
    requires
        p.wf(),
    ensures
        spec_key(p, c).game_mode != p.game_mode ==> {
            ||| (p.game_mode == GameMode::Menu && c == '1'
                && spec_key(p, c).game_mode == GameMode::OnePlayer)
            ||| (p.game_mode == GameMode::Menu && c == '2'
                && spec_key(p, c).game_mode == GameMode::TwoPlayer)
            ||| (p.game_mode == GameMode::GameOver && c == 'r'
                && spec_key(p, c).game_mode == GameMode::Menu)
            ||| (p.game_mode == GameMode::GameOver && c == 'p'
                && spec_key(p, c).game_mode == p.last_play_mode
                && (spec_key(p, c).game_mode == GameMode::OnePlayer
                    || spec_key(p, c).game_mode == GameMode::TwoPlayer))
        },
        p.game_mode == GameMode::Menu && c != '1' && c != '2'
            ==> spec_key(p, c).game_mode == GameMode::Menu,
{
}

/// A timer tick drives the mode only along the allowed edge: a running
/// game ends exactly when a score reaches the winning threshold, and a
/// state outside the two playing modes is left entirely unchanged.
pub proof fn lemma_update_transitions(p: Pong)
    requires
        p.wf(),
    ensures
        !p.playing() ==> spec_update(p) == p,
        spec_update(p).game_mode != p.game_mode ==> p.playing()
            && spec_update(p).game_mode == GameMode::GameOver,
        p.playing() ==> (spec_update(p).game_mode == GameMode::GameOver
            <==> (spec_update(p).player1_score >= p.win_threshold
                || spec_update(p).player2_score >= p.win_threshold)),
{
}

/// A ball at the top edge moving upwards is reflected: one tick flips its
/// vertical direction to downwards.  (A tick on which the ball also
/// leaves the board on the left or right serves the ball anew instead,
/// with a freshly drawn direction.)
pub proof fn lemma_top_reflection(p: Pong)
    requires
        p.wf(),
        p.playing(),
        p.ball_y <= 1,
        p.ball_dy == -1,
        0 < p.ball_x + p.ball_dx * BALL_STEP < p.width,
    ensures
        spec_update(p).ball_dy == 1,
{
}

/// A ball crossing the right edge scores a point for player one and is
/// served anew from the center of the board.
pub proof fn lemma_right_score(p: Pong)
    requires
        p.wf(),
        p.playing(),
        p.ball_x + p.ball_dx * BALL_STEP >= p.width,
    ensures
        spec_update(p).player1_score == p.player1_score + 1,
        spec_update(p).ball_x == p.width / 2,
        spec_update(p).ball_y == p.height / 2,
{
}

/// A score reaching the winning threshold ends the game on that same
/// tick, and every further tick is a no-op.
pub proof fn lemma_game_over(p: Pong)
    requires
        p.wf(),
        p.playing(),
    ensures
        spec_update(p).player1_score >= p.win_threshold
            ==> spec_update(p).game_mode == GameMode::GameOver,
        spec_update(p).player2_score >= p.win_threshold
            ==> spec_update(p).game_mode == GameMode::GameOver,
        spec_update(p).game_mode == GameMode::GameOver ==> spec_update(spec_update(p))
            == spec_update(p),
{
}

/// A fresh game is well formed whenever the board geometry is admissible.
pub proof fn lemma_new_wf(width: usize, height: usize)
    requires
        spec_new(width, height).geometry_ok(),
    ensures
        spec_new(width, height).wf(),
{
}

/// A serve preserves well-formedness.
pub proof fn lemma_reset_wf(p: Pong)
    requires
        p.wf(),
    ensures
        spec_reset(p).wf(),
        spec_reset(p).game_mode == p.game_mode,
        spec_reset(p).player1_score == p.player1_score,
        spec_reset(p).player2_score == p.player2_score,
{
}

/// A paddle movement request preserves well-formedness and touches nothing
/// but the chosen paddle; repeated requests can therefore never push a
/// paddle outside `[0, height - paddle_height]`.
pub proof fn lemma_move_paddle_in_bounds(p: Pong, is_player1: bool, up: bool)
    requires
        p.wf(),
    ensures
        spec_move_paddle(p, is_player1, up).wf(),
        spec_move_paddle(p, is_player1, up).player1_y <= p.height - p.paddle_height,
        spec_move_paddle(p, is_player1, up).player2_y <= p.height - p.paddle_height,
        spec_move_paddle(p, is_player1, up) == (if is_player1 {
            Pong { player1_y: spec_move_paddle(p, is_player1, up).player1_y, ..p }
        } else {
            Pong { player2_y: spec_move_paddle(p, is_player1, up).player2_y, ..p }
        }),
{
}

} // verus!
