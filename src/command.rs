//! The one-letter commands of the interactive puzzle, and its status line.
use vstd::prelude::*;
use crate::cube::Cube;
use crate::moves::Move;

verus! {

/// What a typed letter asks for.
#[derive(Clone, Copy, Debug, PartialEq, Eq, Hash, Structural)]
pub enum Command {
    Quit,
    Apply(Move),
    Solve,
    Help,
    Ignore,
}

/// The command bound to each letter.
pub open spec fn command_of(c: char) -> Command {
    if c == 'q' {
        Command::Quit
    } else if c == 'w' {
        Command::Apply(Move::TipBack)
    } else if c == 'a' {
        Command::Apply(Move::Turn)
    } else if c == 's' {
        Command::Apply(Move::TipForwards)
    } else if c == 'd' {
        Command::Apply(Move::TurnBack)
    } else if c == 'g' {
        Command::Apply(Move::Twist)
    } else if c == 't' {
        Command::Apply(Move::TwistBack)
    } else if c == 'f' {
        Command::Apply(Move::FrontTwist)
    } else if c == 'r' {
        Command::Apply(Move::UndoFrontTwist)
    } else if c == 'x' {
        Command::Apply(Move::BottomTwistBack)
    } else if c == 'c' {
        Command::Apply(Move::BottomTwist)
    } else if c == 'S' {
        Command::Solve
    } else if c == 'e' {
        Command::Apply(Move::TipRight)
    } else if c == 'z' {
        Command::Apply(Move::TipLeft)
    } else if c == 'h' {
        Command::Help
    } else {
        Command::Ignore
    }
}

/// Reads one typed letter as a command; unknown letters are ignored.
pub fn parse_command(c: char) -> (r: Command)
    ensures
        r == command_of(c),
{
    match c {
        'q' => Command::Quit,
        'w' => Command::Apply(Move::TipBack),
        'a' => Command::Apply(Move::Turn),
        's' => Command::Apply(Move::TipForwards),
        'd' => Command::Apply(Move::TurnBack),
        'g' => Command::Apply(Move::Twist),
        't' => Command::Apply(Move::TwistBack),
        'f' => Command::Apply(Move::FrontTwist),
        'r' => Command::Apply(Move::UndoFrontTwist),
        'x' => Command::Apply(Move::BottomTwistBack),
        'c' => Command::Apply(Move::BottomTwist),
        'S' => Command::Solve,
        'e' => Command::Apply(Move::TipRight),
        'z' => Command::Apply(Move::TipLeft),
        'h' => Command::Help,
        _ => Command::Ignore,
    }
}

/// The line that tells the player whether the cube is solved.
pub fn solved_status(cube: &Cube) -> (r: &'static str)
    ensures
        cube.solved() ==> r@ == " SOLVED ! "@,
        !cube.solved() ==> r@ == " Not solved yet..."@,
{
    if cube.is_solved() {
        " SOLVED ! "
    } else {
        " Not solved yet..."
    }
}

} // verus!
