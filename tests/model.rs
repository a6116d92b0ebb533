use cube_solver::command::{parse_command, solved_status, Command};
use cube_solver::cube::{Color, Cube, FaceError};
use cube_solver::moves::Move;

const ALL_MOVES: [Move; 12] = [
    Move::Twist,
    Move::TwistBack,
    Move::Turn,
    Move::TurnBack,
    Move::TipBack,
    Move::TipForwards,
    Move::TipRight,
    Move::TipLeft,
    Move::FrontTwist,
    Move::UndoFrontTwist,
    Move::BottomTwist,
    Move::BottomTwistBack,
];

fn inverse_of(m: Move) -> Move {
    match m {
        Move::Twist => Move::TwistBack,
        Move::TwistBack => Move::Twist,
        Move::Turn => Move::TurnBack,
        Move::TurnBack => Move::Turn,
        Move::TipBack => Move::TipForwards,
        Move::TipForwards => Move::TipBack,
        Move::TipRight => Move::TipLeft,
        Move::TipLeft => Move::TipRight,
        Move::FrontTwist => Move::UndoFrontTwist,
        Move::UndoFrontTwist => Move::FrontTwist,
        Move::BottomTwist => Move::BottomTwistBack,
        Move::BottomTwistBack => Move::BottomTwist,
    }
}

fn scrambled() -> Cube {
    let mut c = Cube::new();
    c.twist();
    c.bottom_twist();
    c.front_twist();
    c.tip_right();
    c.twist();
    c
}

#[test]
fn fresh_cube_is_solved() {
    assert!(Cube::new().is_solved());
}

#[test]
fn every_move_is_undone_by_its_inverse() {
    for start in [Cube::new(), scrambled()] {
        for m in ALL_MOVES {
            let mut c = start;
            c.apply(m);
            assert_ne!(c, start);
            c.apply(inverse_of(m));
            assert_eq!(c, start);
            c.apply(inverse_of(m));
            c.apply(m);
            assert_eq!(c, start);
        }
    }
}

#[test]
fn every_move_has_order_four() {
    let start = scrambled();
    for m in ALL_MOVES {
        let mut c = start;
        for _ in 0..4 {
            c.apply(m);
        }
        assert_eq!(c, start);
    }
}

#[test]
fn twisting_four_times_restores_a_scrambled_cube() {
    let start = scrambled();
    let mut c = start;
    c.twist();
    c.twist();
    c.twist();
    c.twist();
    assert_eq!(c, start);
}

#[test]
fn front_twist_thrice_is_undo_front_twist() {
    let mut a = scrambled();
    let mut b = a;
    a.front_twist();
    a.front_twist();
    a.front_twist();
    b.undo_front_twist();
    assert_eq!(a, b);
}

#[test]
fn all_rotations_of_solved_are_solved() {
    let bases: [&[Move]; 6] = [
        &[],
        &[Move::TipBack],
        &[Move::TipBack, Move::TipBack],
        &[Move::TipForwards],
        &[Move::TipRight],
        &[Move::TipLeft],
    ];
    let mut seen: Vec<Cube> = Vec::new();
    for base in bases {
        let mut c = Cube::new();
        for m in base {
            c.apply(*m);
        }
        for _ in 0..4 {
            assert!(c.is_solved());
            if !seen.contains(&c) {
                seen.push(c);
            }
            c.turn();
        }
    }
    assert_eq!(seen.len(), 24);
}

#[test]
fn tipped_right_solved_cube_is_solved() {
    let mut c = Cube::new();
    c.tip_right();
    assert!(c.is_solved());
    c.turn();
    c.tip_back();
    assert!(c.is_solved());
}

#[test]
fn twist_counts_from_solved() {
    let mut c = Cube::new();
    c.twist();
    assert!(!c.is_solved());
    c.twist();
    assert!(!c.is_solved());
    c.twist();
    assert!(!c.is_solved());
    c.twist();
    assert!(c.is_solved());
    assert_eq!(c, Cube::new());
}

#[test]
fn bottom_twist_four_times_is_identity() {
    let mut c = Cube::new();
    c.bottom_twist();
    c.bottom_twist();
    c.bottom_twist();
    c.bottom_twist();
    assert_eq!(c, Cube::new());
}

#[test]
fn is_solved_does_not_change_the_cube() {
    let c = scrambled();
    let copy = c;
    let _ = c.is_solved();
    assert_eq!(c, copy);
}

#[test]
fn face_colors_of_solved_cube() {
    let c = Cube::new();
    let expected = [
        Color::Y, Color::Y, Color::Y, Color::Y,
        Color::B, Color::B, Color::R, Color::R,
        Color::B, Color::B, Color::R, Color::R,
    ];
    for i in 0..12 {
        assert_eq!(c.color_at(i as i8), Ok(expected[i]));
    }
}

#[test]
fn face_index_out_of_range_is_a_hidden_face() {
    let c = Cube::new();
    assert_eq!(c.color_at(12), Err(FaceError::HiddenFaceAccessed));
    assert_eq!(c.color_at(-1), Err(FaceError::HiddenFaceAccessed));
}

#[test]
fn visible_faces_never_show_the_hidden_color() {
    let c = scrambled();
    for i in 0..12 {
        assert_ne!(c.color_at(i), Ok(Color::X));
    }
}

#[test]
fn color_letters() {
    assert_eq!(Color::Y.to_char(), Ok('y'));
    assert_eq!(Color::P.to_char(), Ok('p'));
    assert_eq!(Color::B.to_char(), Ok('b'));
    assert_eq!(Color::R.to_char(), Ok('r'));
    assert_eq!(Color::G.to_char(), Ok('g'));
    assert_eq!(Color::W.to_char(), Ok('w'));
    assert_eq!(Color::X.to_char(), Err(FaceError::HiddenFaceAccessed));
}

#[test]
fn block_rotations_have_order_four() {
    let b = Cube::new().block(3).unwrap();
    assert_eq!(b.tip_back().tip_back().tip_back().tip_back(), b);
    assert_eq!(b.turn_right().turn_right().turn_right().turn_right(), b);
    assert_eq!(b.tip_back().tip_forwards(), b);
    assert_eq!(b.turn_right().turn_left(), b);
    assert_ne!(b.tip_back(), b);
    assert_ne!(b.turn_right(), b);
    assert_eq!(Cube::new().block(8), None);
}

#[test]
fn twist_moves_the_right_blocks() {
    let start = Cube::new();
    let mut c = start;
    c.twist();
    assert_eq!(c.block(3), Some(start.block(1).unwrap().tip_forwards()));
    assert_eq!(c.block(1), Some(start.block(5).unwrap().tip_forwards()));
    assert_eq!(c.block(0), start.block(0));
}

#[test]
fn commands_map_to_moves() {
    assert_eq!(parse_command('q'), Command::Quit);
    assert_eq!(parse_command('g'), Command::Apply(Move::Twist));
    assert_eq!(parse_command('t'), Command::Apply(Move::TwistBack));
    assert_eq!(parse_command('c'), Command::Apply(Move::BottomTwist));
    assert_eq!(parse_command('x'), Command::Apply(Move::BottomTwistBack));
    assert_eq!(parse_command('S'), Command::Solve);
    assert_eq!(parse_command('h'), Command::Help);
    assert_eq!(parse_command('?'), Command::Ignore);
}

#[test]
fn status_line_follows_is_solved() {
    let mut c = Cube::new();
    assert_eq!(solved_status(&c), " SOLVED ! ");
    c.twist();
    assert_eq!(solved_status(&c), " Not solved yet...");
}
