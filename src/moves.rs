//! Named moves as values, so that sequences of them can be stored, applied
//! and reasoned about.
use vstd::prelude::*;
use crate::cube::Cube;

verus! {

/// Every move that the puzzle offers.
#[derive(Clone, Copy, Debug, PartialEq, Eq, Hash, Structural)]
pub enum Move {
    Twist,
    TwistBack,
    Turn,
    TurnBack,
    TipBack,
    TipForwards,
    TipRight,
    TipLeft,
    FrontTwist,
    UndoFrontTwist,
    BottomTwist,
    BottomTwistBack,
}

/// The state after one move.
#[verifier::opaque]
pub open spec fn moved(c: Cube, m: Move) -> Cube {
    match m {
        Move::Twist => c.twisted(),
        Move::TwistBack => c.twisted_back(),
        Move::Turn => c.turned(),
        Move::TurnBack => c.turned_back(),
        Move::TipBack => c.tipped_back(),
        Move::TipForwards => c.tipped_forwards(),
        Move::TipRight => c.tipped_right(),
        Move::TipLeft => c.tipped_left(),
        Move::FrontTwist => c.front_twisted(),
        Move::UndoFrontTwist => c.front_twisted_back(),
        Move::BottomTwist => c.bottom_twisted(),
        Move::BottomTwistBack => c.bottom_twisted_back(),
    }
}

/// The state after the moves of `ms`, first to last.
pub open spec fn apply_moves(c: Cube, ms: Seq<Move>) -> Cube
    decreases ms.len(),
{
    if ms.len() == 0 {
        c
    } else {
        moved(apply_moves(c, ms.drop_last()), ms.last())
    }
}

/// The move that undoes `m`.
pub open spec fn inverse(m: Move) -> Move {
    match m {
        Move::Twist => Move::TwistBack,
        Move::TwistBack => Move::Twist,
        Move::Turn => Move::TurnBack,
        Move::TurnBack => Move::Turn,
        Move::TipBack => Move::TipForwards,
        Move::TipForwards => Move::TipBack,
        Move::TipRight => Move::TipLeft,
        Move::TipLeft => Move::TipRight,
        Move::FrontTwist => Move::UndoFrontTwist,
        Move::UndoFrontTwist => Move::FrontTwist,
        Move::BottomTwist => Move::BottomTwistBack,
        Move::BottomTwistBack => Move::BottomTwist,
    }
}

/// The moves that turn or tip the whole cube without changing its configuration.
pub open spec fn is_rotation(m: Move) -> bool {
    match m {
        Move::Turn | Move::TurnBack | Move::TipBack | Move::TipForwards | Move::TipRight
        | Move::TipLeft => true,
        _ => false,
    }
}

/// The moves that the solver searches with.
pub open spec fn is_generator(m: Move) -> bool {
    m == Move::Twist || m == Move::FrontTwist || m == Move::BottomTwist
}

/// Every move of the sequence is a generator.
pub open spec fn all_generators(ms: Seq<Move>) -> bool {
    forall|i: int| 0 <= i < ms.len() ==> is_generator(#[trigger] ms[i])
}

/// Every move of the sequence is a whole-cube rotation.
pub open spec fn all_rotations(ms: Seq<Move>) -> bool {
    forall|i: int| 0 <= i < ms.len() ==> is_rotation(#[trigger] ms[i])
}

/// A sequence that undoes `ms` using the same moves: each move of `ms`,
/// last first, three times over.
pub open spec fn undo_sequence(ms: Seq<Move>) -> Seq<Move>
    decreases ms.len(),
{
    if ms.len() == 0 {
        Seq::empty()
    } else {
        let m = ms.last();
        seq![m, m, m] + undo_sequence(ms.drop_last())
    }
}

/// The order in which the solver tries the generators.
pub open spec fn gen_rank(m: Move) -> int {
    match m {
        Move::Twist => 0,
        Move::FrontTwist => 1,
        Move::BottomTwist => 2,
        _ => 3,
    }
}

/// At the first place where `a` and `b` differ, `a` holds the earlier generator.
#[verifier::opaque]
pub open spec fn lex_before(a: Seq<Move>, b: Seq<Move>) -> bool {
    exists|k: int|
        0 <= k < a.len() && k < b.len() && (forall|i: int| 0 <= i < k ==> a[i] == b[i]) && #[trigger] gen_rank(a[k])
            < gen_rank(b[k])
}

/// Shortlex order: shorter sequences first, equal lengths by [`lex_before`].
pub open spec fn shortlex_lt(a: Seq<Move>, b: Seq<Move>) -> bool {
    a.len() < b.len() || (a.len() == b.len() && lex_before(a, b))
}

/// `a` equals `b` or comes before it in shortlex order.
pub open spec fn shortlex_le(a: Seq<Move>, b: Seq<Move>) -> bool {
    a == b || shortlex_lt(a, b)
}

/// Some sequence of generators leads from `c` to a solved state.
pub open spec fn solvable(c: Cube) -> bool {
    exists|ms: Seq<Move>| all_generators(ms) && (#[trigger] apply_moves(c, ms)).solved()
}

impl Cube {
    /// Applies one named move.
    pub fn apply(&mut self, m: Move)
        ensures
            *final(self) == moved(*old(self), m),
    {
        reveal(moved);
        match m {
            Move::Twist => self.twist(),
            Move::TwistBack => self.twist_back(),
            Move::Turn => self.turn(),
            Move::TurnBack => self.turn_back(),
            Move::TipBack => self.tip_back(),
            Move::TipForwards => self.tip_forwards(),
            Move::TipRight => self.tip_right(),
            Move::TipLeft => self.tip_left(),
            Move::FrontTwist => self.front_twist(),
            Move::UndoFrontTwist => self.undo_front_twist(),
            Move::BottomTwist => self.bottom_twist(),
            Move::BottomTwistBack => self.bottom_twist_back(),
        }
    }
}

} // verus!
