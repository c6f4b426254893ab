use kernel::game::{GameMode, Pong};
use kernel::render::{boot_stripes, score_text, DrawCmd, Label};

fn white_pixel(x: usize, y: usize) -> DrawCmd {
    DrawCmd::Pixel { x, y, red: 0xFF, green: 0xFF, blue: 0xFF }
}

#[test]
fn menu_screen_commands() {
    let p = Pong::new(800, 600);
    let cmds = p.draw();
    assert_eq!(cmds.len(), 7);
    assert_eq!(cmds[0], DrawCmd::Clear);
    assert_eq!(
        cmds[1],
        DrawCmd::Text { y: 100, label: Label::Title, red: 0xFF, green: 0xFF, blue: 0xFF }
    );
    assert_eq!(
        cmds[2],
        DrawCmd::Text { y: 130, label: Label::OnePlayerOption, red: 0xAA, green: 0xFF, blue: 0xAA }
    );
    assert_eq!(
        cmds[3],
        DrawCmd::Text { y: 150, label: Label::TwoPlayerOption, red: 0xAA, green: 0xAA, blue: 0xFF }
    );
    assert_eq!(
        cmds[4],
        DrawCmd::Text { y: 180, label: Label::ControlsHeader, red: 0xFF, green: 0xFF, blue: 0xFF }
    );
    assert_eq!(
        cmds[5],
        DrawCmd::Text {
            y: 200,
            label: Label::PlayerOneControls,
            red: 0xAA,
            green: 0xFF,
            blue: 0xAA
        }
    );
    assert_eq!(
        cmds[6],
        DrawCmd::Text {
            y: 220,
            label: Label::PlayerTwoControls,
            red: 0xAA,
            green: 0xAA,
            blue: 0xFF
        }
    );
}

#[test]
fn game_over_screen_names_the_winner() {
    let mut p = Pong::new(800, 600);
    p.game_mode = GameMode::GameOver;
    p.player1_score = 1;
    let cmds = p.draw();
    assert_eq!(cmds.len(), 4);
    assert_eq!(
        cmds[1],
        DrawCmd::Text { y: 100, label: Label::PlayerOneWins, red: 0xFF, green: 0xFF, blue: 0xFF }
    );

    p.player1_score = 0;
    p.player2_score = 1;
    let cmds = p.draw();
    assert_eq!(
        cmds[1],
        DrawCmd::Text { y: 100, label: Label::PlayerTwoWins, red: 0xFF, green: 0xFF, blue: 0xFF }
    );
    assert_eq!(
        cmds[2],
        DrawCmd::Text { y: 130, label: Label::PlayAgain, red: 0xFF, green: 0xFF, blue: 0xFF }
    );
    assert_eq!(
        cmds[3],
        DrawCmd::Text { y: 150, label: Label::ReturnToMenu, red: 0xFF, green: 0xFF, blue: 0xFF }
    );
}

#[test]
fn running_game_draws_paddles_ball_and_score() {
    let mut p = Pong::new(800, 600);
    p.game_mode = GameMode::TwoPlayer;
    p.player1_y = 100;
    p.player2_y = 200;
    let cmds = p.draw();
    assert_eq!(cmds[0], DrawCmd::Clear);
    // 1 clear + 2 * 50 paddle pixels + 13 * 13 ball pixels + 1 score line.
    assert_eq!(cmds.len(), 1 + 100 + 169 + 1);
    // Left paddle spans rows 100..150 in column 10.
    assert!(cmds.contains(&white_pixel(10, 100)));
    assert!(cmds.contains(&white_pixel(10, 149)));
    assert!(!cmds.contains(&white_pixel(10, 150)));
    // Right paddle sits in column width - 10.
    assert!(cmds.contains(&white_pixel(790, 200)));
    assert!(!cmds.contains(&white_pixel(790, 199)));
    // The ball sprite covers a 13-by-13 square around its center.
    assert!(cmds.contains(&white_pixel(400, 300)));
    assert!(cmds.contains(&white_pixel(394, 294)));
    assert!(cmds.contains(&white_pixel(406, 306)));
    assert!(!cmds.contains(&white_pixel(393, 300)));
    // The score line comes last.
    assert_eq!(
        *cmds.last().unwrap(),
        DrawCmd::Score { y: 20, player1: 0, player2: 0, red: 0xFF, green: 0xFF, blue: 0xFF }
    );
}

#[test]
fn boot_stripes_cover_three_rows() {
    let cmds = boot_stripes(800, 600);
    assert_eq!(cmds.len(), 3 * 800);
    let red = DrawCmd::Pixel { x: 0, y: 585, red: 0xFF, green: 0, blue: 0 };
    let green = DrawCmd::Pixel { x: 400, y: 590, red: 0, green: 0xFF, blue: 0 };
    let blue = DrawCmd::Pixel { x: 799, y: 595, red: 0, green: 0, blue: 0xFF };
    assert!(cmds.contains(&red));
    assert!(cmds.contains(&green));
    assert!(cmds.contains(&blue));
    // The stripes end at the board's right edge and nothing else is drawn.
    assert!(!cmds.contains(&DrawCmd::Pixel { x: 800, y: 585, red: 0xFF, green: 0, blue: 0 }));
    assert!(cmds.iter().all(|c| matches!(c, DrawCmd::Pixel { .. })));
}

#[test]
fn score_line_text() {
    assert_eq!(score_text(0, 0), b"0 - 0".to_vec());
    assert_eq!(score_text(3, 7), b"3 - 7".to_vec());
    assert_eq!(score_text(12, 405), b"12 - 405".to_vec());
    assert_eq!(score_text(u32::MAX, 10), b"4294967295 - 10".to_vec());
}

#[test]
fn ball_near_the_edge_is_clipped_at_zero() {
    let mut p = Pong::new(800, 600);
    p.game_mode = GameMode::TwoPlayer;
    p.ball_x = 2;
    p.ball_y = 3;
    let cmds = p.draw();
    // Columns 0..=8 and rows 0..=9 only: nothing left of or above the board.
    assert!(cmds.contains(&white_pixel(0, 0)));
    assert!(cmds.contains(&white_pixel(8, 9)));
    // 1 clear + 100 paddle pixels + 9 * 10 ball pixels + 1 score line.
    assert_eq!(cmds.len(), 1 + 100 + 90 + 1);
}
