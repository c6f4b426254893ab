//! Rendering decisions: what the screen must show for a given game state.
//!
//! Drawing itself (pixel writes, font rasterization) is the renderer's
//! business outside this crate; here the state is turned into a sequence
//! of plain drawing commands.  A command may name a position past the
//! board edge (the ball may poke out while it bounces); the renderer
//! ignores those.

use vstd::prelude::*;
use crate::game::{GameMode, Pong, PADDLE_MARGIN};

verus! {

broadcast use vstd::seq_lib::lemma_seq_contains_after_push;

/// Half-width of the square ball sprite, in pixels.
pub const BALL_SIZE: usize = 6;

/// Vertical position of the score line.
pub const SCORE_Y: usize = 20;

/// The fixed lines of text the game can show.  The renderer owns their
/// wording; the game only decides which line goes where, in which color.
#[derive(PartialEq, Eq, Structural, Clone, Copy, Debug)]
pub enum Label {
    Title,
    OnePlayerOption,
    TwoPlayerOption,
    ControlsHeader,
    PlayerOneControls,
    PlayerTwoControls,
    PlayerOneWins,
    PlayerTwoWins,
    PlayAgain,
    ReturnToMenu,
}

/// One drawing command handed to the renderer: clear the screen, set a
/// pixel, draw a fixed line of text horizontally centered, or draw the
/// score line.
#[derive(PartialEq, Eq, Structural, Clone, Copy, Debug)]
pub enum DrawCmd {
    Clear,
    Pixel { x: usize, y: usize, red: u8, green: u8, blue: u8 },
    Text { y: usize, label: Label, red: u8, green: u8, blue: u8 },
    Score { y: usize, player1: u32, player2: u32, red: u8, green: u8, blue: u8 },
}

/// What the menu screen shows: title, the two mode choices, and the
/// control explanations.
pub open spec fn spec_menu_cmds() -> Seq<DrawCmd> {
    seq![
        DrawCmd::Clear,
        DrawCmd::Text { y: 100, label: Label::Title, red: 0xFF, green: 0xFF, blue: 0xFF },
        DrawCmd::Text { y: 130, label: Label::OnePlayerOption, red: 0xAA, green: 0xFF, blue: 0xAA },
        DrawCmd::Text { y: 150, label: Label::TwoPlayerOption, red: 0xAA, green: 0xAA, blue: 0xFF },
        DrawCmd::Text { y: 180, label: Label::ControlsHeader, red: 0xFF, green: 0xFF, blue: 0xFF },
        DrawCmd::Text {
            y: 200,
            label: Label::PlayerOneControls,
            red: 0xAA,
            green: 0xFF,
            blue: 0xAA,
        },
        DrawCmd::Text {
            y: 220,
            label: Label::PlayerTwoControls,
            red: 0xAA,
            green: 0xAA,
            blue: 0xFF,
        },
    ]
}

/// What the game-over screen shows: the winner (player one wins ties are
/// impossible, the game ends on the scoring tick) and the replay choices.
pub open spec fn spec_game_over_cmds(p: Pong) -> Seq<DrawCmd> {
    let winner = if p.player1_score > p.player2_score {
        Label::PlayerOneWins
    } else {
        Label::PlayerTwoWins
    };
    seq![
        DrawCmd::Clear,
        DrawCmd::Text { y: 100, label: winner, red: 0xFF, green: 0xFF, blue: 0xFF },
        DrawCmd::Text { y: 130, label: Label::PlayAgain, red: 0xFF, green: 0xFF, blue: 0xFF },
        DrawCmd::Text { y: 150, label: Label::ReturnToMenu, red: 0xFF, green: 0xFF, blue: 0xFF },
    ]
}

/// The pixel at `(x, y)` belongs to the left paddle.
pub open spec fn spec_paddle1_pixel(p: Pong, x: usize, y: usize) -> bool {
    x == PADDLE_MARGIN && p.player1_y <= y < p.player1_y + p.paddle_height
}

/// The pixel at `(x, y)` belongs to the right paddle.
pub open spec fn spec_paddle2_pixel(p: Pong, x: usize, y: usize) -> bool {
    x == p.width - PADDLE_MARGIN && p.player2_y <= y < p.player2_y + p.paddle_height
}

/// The pixel at `(x, y)` belongs to the ball sprite.
pub open spec fn spec_ball_pixel(p: Pong, x: usize, y: usize) -> bool {
    &&& p.ball_x - BALL_SIZE <= x <= p.ball_x + BALL_SIZE
    &&& p.ball_y - BALL_SIZE <= y <= p.ball_y + BALL_SIZE
}

/// The drawing command belongs to the picture of a running game: a white
/// pixel of a paddle or of the ball, or the score line.
pub open spec fn spec_game_cmd(p: Pong, c: DrawCmd) -> bool {
    match c {
        DrawCmd::Pixel { x, y, red, green, blue } => {
            &&& red == 0xFF
            &&& green == 0xFF
            &&& blue == 0xFF
            &&& (spec_paddle1_pixel(p, x, y) || spec_paddle2_pixel(p, x, y) || spec_ball_pixel(
                p,
                x,
                y,
            ))
        },
        DrawCmd::Score { y, player1, player2, red, green, blue } => {
            &&& y == SCORE_Y
            &&& player1 == p.player1_score
            &&& player2 == p.player2_score
            &&& red == 0xFF
            &&& green == 0xFF
            &&& blue == 0xFF
        },
        _ => false,
    }
}

/// Height above the board's bottom edge of the red reference stripe; the
/// green and blue stripes follow five and ten pixels below it.
pub const STRIPE_OFFSET: usize = 15;

/// The drawing command belongs to the three-stripe reference pattern: a
/// full-width red, green or blue row at fifteen, ten and five pixels
/// above the bottom edge.
pub open spec fn spec_stripe_cmd(width: usize, height: usize, c: DrawCmd) -> bool {
    match c {
        DrawCmd::Pixel { x, y, red, green, blue } => {
            &&& x < width
            &&& ((y == height - STRIPE_OFFSET && red == 0xFF && green == 0 && blue == 0) || (y
                == height - STRIPE_OFFSET + 5 && red == 0 && green == 0xFF && blue == 0) || (y
                == height - STRIPE_OFFSET + 10 && red == 0 && green == 0 && blue == 0xFF))
        },
        _ => false,
    }
}

/// The fixed three-stripe reference pattern drawn once at boot: full-width
/// red, green and blue rows just above the bottom edge of the screen.
pub fn boot_stripes(width: usize, height: usize) -> (cmds: Vec<DrawCmd>)
    requires
        STRIPE_OFFSET <= height,
        width <= usize::MAX / 2,
        height <= usize::MAX / 2,
    ensures
        forall|c: DrawCmd| #[trigger] cmds@.contains(c) <==> spec_stripe_cmd(width, height, c),
{
    let mut cmds: Vec<DrawCmd> = Vec::new();
    let mut x: usize = 0;
    while x < width
        invariant
            STRIPE_OFFSET <= height,
            width <= usize::MAX / 2,
            height <= usize::MAX / 2,
            x <= width,
            forall|c: DrawCmd| #[trigger] cmds@.contains(c) <==> (match c {
                DrawCmd::Pixel { x: cx, y, red, green, blue } => {
                    &&& cx < x
                    &&& ((y == height - STRIPE_OFFSET && red == 0xFF && green == 0 && blue == 0)
                        || (y == height - STRIPE_OFFSET + 5 && red == 0 && green == 0xFF && blue
                        == 0) || (y == height - STRIPE_OFFSET + 10 && red == 0 && green == 0
                        && blue == 0xFF))
                },
                _ => false,
            }),
        decreases width - x,
    {
        cmds.push(
            DrawCmd::Pixel { x, y: height - STRIPE_OFFSET, red: 0xFF, green: 0, blue: 0 },
        );
        cmds.push(
            DrawCmd::Pixel { x, y: height - STRIPE_OFFSET + 5, red: 0, green: 0xFF, blue: 0 },
        );
        cmds.push(
            DrawCmd::Pixel { x, y: height - STRIPE_OFFSET + 10, red: 0, green: 0, blue: 0xFF },
        );
        x = x + 1;
    }
    cmds
}

/// The decimal digits of `n`, most significant first, as bytes of text.
pub open spec fn spec_digits(n: nat) -> Seq<u8>
    decreases n,
{
    if n < 10 {
        seq![(n + 48) as u8]
    } else {
        spec_digits(n / 10).push((n % 10 + 48) as u8)
    }
}

/// The text of the score line: both scores in decimal around `" - "`.
pub open spec fn spec_score_text(player1: u32, player2: u32) -> Seq<u8> {
    spec_digits(player1 as nat) + seq![32u8, 45u8, 32u8] + spec_digits(player2 as nat)
}

/// The decimal digits of `n`, most significant first.
fn decimal_digits(n: u32) -> (out: Vec<u8>)
    ensures
        out@ == spec_digits(n as nat),
{
    let mut rev: Vec<u8> = Vec::new();
    rev.push((n % 10) as u8 + 48);
    let mut m = n / 10;
    proof {
        assert(spec_digits(n as nat) =~= if m == 0 {
            rev@.reverse()
        } else {
            spec_digits(m as nat) + rev@.reverse()
        });
    }
    while m > 0
        invariant
            spec_digits(n as nat) =~= if m == 0 {
                rev@.reverse()
            } else {
                spec_digits(m as nat) + rev@.reverse()
            },
        decreases m,
    {
        let ghost prev = rev@;
        let d = (m % 10) as u8 + 48;
        rev.push(d);
        proof {
            assert(rev@.reverse() =~= seq![d] + prev.reverse());
            if m >= 10 {
                assert(spec_digits(m as nat) =~= spec_digits((m / 10) as nat) + seq![d]);
                assert(spec_digits(m as nat) + prev.reverse() =~= spec_digits((m / 10) as nat)
                    + rev@.reverse());
            } else {
                assert(spec_digits(m as nat) =~= seq![d]);
            }
        }
        m = m / 10;
    }
    let mut out: Vec<u8> = Vec::new();
    let mut i = rev.len();
    while i > 0
        invariant
            i <= rev@.len(),
            out@.len() == rev@.len() - i,
            forall|j: int| 0 <= j < out@.len() ==> out@[j] == rev@[rev@.len() - 1 - j],
        decreases i,
    {
        i = i - 1;
        out.push(rev[i]);
    }
    proof {
        assert(out@ =~= rev@.reverse());
    }
    out
}

/// Render the text of the score line, `"<player1> - <player2>"`, the
/// formatted buffer the running game shows at the top of the screen.
pub fn score_text(player1: u32, player2: u32) -> (out: Vec<u8>)
    ensures
        out@ == spec_score_text(player1, player2),
{
    let mut out = decimal_digits(player1);
    out.push(32);
    out.push(45);
    out.push(32);
    let mut rest = decimal_digits(player2);
    out.append(&mut rest);
    proof {
        assert(out@ =~= spec_score_text(player1, player2));
    }
    out
}

/// `cmds` is what the screen must show for state `p`: the menu screen,
/// the game-over screen, or — for a running game — a leading clear
/// followed by exactly the paddle pixels, the ball pixels and the score
/// line.
pub open spec fn spec_draw_output(p: Pong, cmds: Seq<DrawCmd>) -> bool {
    &&& (p.game_mode == GameMode::Menu ==> cmds =~= spec_menu_cmds())
    &&& (p.game_mode == GameMode::GameOver ==> cmds =~= spec_game_over_cmds(p))
    &&& (p.playing() ==> cmds.len() >= 1 && cmds[0] == DrawCmd::Clear && (forall|c: DrawCmd|
        #[trigger] cmds.skip(1).contains(c) <==> spec_game_cmd(p, c)))
}

impl Pong {
    /// The picture of a running game: exactly the paddle pixels, the ball
    /// pixels and the score line, in drawing order.
    #[verifier::rlimit(60)]
    pub fn draw_game(&self) -> (cmds: Vec<DrawCmd>)
        requires
            self.wf(),
        ensures
            forall|c: DrawCmd| #[trigger] cmds@.contains(c) <==> spec_game_cmd(*self, c),
    {
        let mut cmds: Vec<DrawCmd> = Vec::new();
        let mut i: usize = 0;
        while i < self.paddle_height
            invariant
                self.wf(),
                i <= self.paddle_height,
                forall|c: DrawCmd| #[trigger] cmds@.contains(c) <==> (match c {
                    DrawCmd::Pixel { x, y, red, green, blue } => {
                        &&& red == 0xFF
                        &&& green == 0xFF
                        &&& blue == 0xFF
                        &&& ((x == PADDLE_MARGIN && self.player1_y <= y < self.player1_y + i) || (x
                            == self.width - PADDLE_MARGIN && self.player2_y <= y < self.player2_y
                            + i))
                    },
                    _ => false,
                }),
            decreases self.paddle_height - i,
        {
            cmds.push(
                DrawCmd::Pixel {
                    x: PADDLE_MARGIN,
                    y: self.player1_y + i,
                    red: 0xFF,
                    green: 0xFF,
                    blue: 0xFF,
                },
            );
            cmds.push(
                DrawCmd::Pixel {
                    x: self.width - PADDLE_MARGIN,
                    y: self.player2_y + i,
                    red: 0xFF,
                    green: 0xFF,
                    blue: 0xFF,
                },
            );
            i = i + 1;
        }
        let x_lo = if self.ball_x >= BALL_SIZE {
            self.ball_x - BALL_SIZE
        } else {
            0
        };
        let x_hi = self.ball_x + BALL_SIZE;
        let y_lo = if self.ball_y >= BALL_SIZE {
            self.ball_y - BALL_SIZE
        } else {
            0
        };
        let y_hi = self.ball_y + BALL_SIZE;
        let mut yy = y_lo;
        while yy <= y_hi
            invariant
                self.wf(),
                y_lo == if self.ball_y >= BALL_SIZE {
                    self.ball_y - BALL_SIZE
                } else {
                    0
                },
                y_hi == self.ball_y + BALL_SIZE,
                x_lo == if self.ball_x >= BALL_SIZE {
                    self.ball_x - BALL_SIZE
                } else {
                    0
                },
                x_hi == self.ball_x + BALL_SIZE,
                y_lo <= yy <= y_hi + 1,
                forall|c: DrawCmd| #[trigger] cmds@.contains(c) <==> (match c {
                    DrawCmd::Pixel { x, y, red, green, blue } => {
                        &&& red == 0xFF
                        &&& green == 0xFF
                        &&& blue == 0xFF
                        &&& (spec_paddle1_pixel(*self, x, y) || spec_paddle2_pixel(*self, x, y) || (
                        spec_ball_pixel(*self, x, y) && y < yy))
                    },
                    _ => false,
                }),
            decreases y_hi + 1 - yy,
        {
            let mut xx = x_lo;
            while xx <= x_hi
                invariant
                    self.wf(),
                    y_lo == if self.ball_y >= BALL_SIZE {
                        self.ball_y - BALL_SIZE
                    } else {
                        0
                    },
                    y_hi == self.ball_y + BALL_SIZE,
                    x_lo == if self.ball_x >= BALL_SIZE {
                        self.ball_x - BALL_SIZE
                    } else {
                        0
                    },
                    x_hi == self.ball_x + BALL_SIZE,
                    y_lo <= yy <= y_hi,
                    x_lo <= xx <= x_hi + 1,
                    forall|c: DrawCmd| #[trigger] cmds@.contains(c) <==> (match c {
                        DrawCmd::Pixel { x, y, red, green, blue } => {
                            &&& red == 0xFF
                            &&& green == 0xFF
                            &&& blue == 0xFF
                            &&& (spec_paddle1_pixel(*self, x, y) || spec_paddle2_pixel(*self, x, y)
                                || (spec_ball_pixel(*self, x, y) && y < yy) || (spec_ball_pixel(
                                *self,
                                x,
                                y,
                            ) && y == yy && x < xx))
                        },
                        _ => false,
                    }),
                decreases x_hi + 1 - xx,
            {
                cmds.push(DrawCmd::Pixel { x: xx, y: yy, red: 0xFF, green: 0xFF, blue: 0xFF });
                xx = xx + 1;
            }
            yy = yy + 1;
        }
        cmds.push(
            DrawCmd::Score {
                y: SCORE_Y,
                player1: self.player1_score,
                player2: self.player2_score,
                red: 0xFF,
                green: 0xFF,
                blue: 0xFF,
            },
        );
        cmds
    }

    /// What the screen must show for the current state: the menu, the
    /// game-over screen, or the picture of the running game after a
    /// leading clear.  Rendering reads the state and changes nothing.
    pub fn draw(&self) -> (cmds: Vec<DrawCmd>)
        requires
            self.playing() ==> self.wf(),
        ensures
            spec_draw_output(*self, cmds@),
    {
        match self.game_mode {
            GameMode::Menu => {
                let mut v: Vec<DrawCmd> = Vec::new();
                v.push(DrawCmd::Clear);
                v.push(
                    DrawCmd::Text { y: 100, label: Label::Title, red: 0xFF, green: 0xFF, blue: 0xFF },
                );
                v.push(
                    DrawCmd::Text {
                        y: 130,
                        label: Label::OnePlayerOption,
                        red: 0xAA,
                        green: 0xFF,
                        blue: 0xAA,
                    },
                );
                v.push(
                    DrawCmd::Text {
                        y: 150,
                        label: Label::TwoPlayerOption,
                        red: 0xAA,
                        green: 0xAA,
                        blue: 0xFF,
                    },
                );
                v.push(
                    DrawCmd::Text {
                        y: 180,
                        label: Label::ControlsHeader,
                        red: 0xFF,
                        green: 0xFF,
                        blue: 0xFF,
                    },
                );
                v.push(
                    DrawCmd::Text {
                        y: 200,
                        label: Label::PlayerOneControls,
                        red: 0xAA,
                        green: 0xFF,
                        blue: 0xAA,
                    },
                );
                v.push(
                    DrawCmd::Text {
                        y: 220,
                        label: Label::PlayerTwoControls,
                        red: 0xAA,
                        green: 0xAA,
                        blue: 0xFF,
                    },
                );
                v
            },
            GameMode::GameOver => {
                let winner = if self.player1_score > self.player2_score {
                    Label::PlayerOneWins
                } else {
                    Label::PlayerTwoWins
                };
                let mut v: Vec<DrawCmd> = Vec::new();
                v.push(DrawCmd::Clear);
                v.push(DrawCmd::Text { y: 100, label: winner, red: 0xFF, green: 0xFF, blue: 0xFF });
                v.push(
                    DrawCmd::Text {
                        y: 130,
                        label: Label::PlayAgain,
                        red: 0xFF,
                        green: 0xFF,
                        blue: 0xFF,
                    },
                );
                v.push(
                    DrawCmd::Text {
                        y: 150,
                        label: Label::ReturnToMenu,
                        red: 0xFF,
                        green: 0xFF,
                        blue: 0xFF,
                    },
                );
                v
            },
            _ => {
                let mut v: Vec<DrawCmd> = Vec::new();
                v.push(DrawCmd::Clear);
                let mut rest = self.draw_game();
                let ghost rest_snapshot = rest@;
                v.append(&mut rest);
                proof {
                    assert(v@.skip(1) =~= rest_snapshot);
                }
                v
            },
        }
    }
}

} // verus!
