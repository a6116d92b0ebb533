//! Laws of the puzzle model, proved over the move formulas: inverses, the
//! order of each move, rotation invariance of the solved test, and that every
//! state reached from the solved one can be brought back.
use vstd::prelude::*;
use crate::cube::{Cube, solved_cube, lemma_palettes};
use crate::moves::{
    Move, moved, apply_moves, inverse, is_rotation, all_rotations, all_generators, solvable,
    undo_sequence,
};

verus! {

/// A freshly constructed cube is solved.
pub proof fn lemma_new_is_solved()
    ensures
        solved_cube().solved(),
{
    assert(solved_cube().orientation(0, 0) == solved_cube());
}

/// The two right-face twists undo each other, and each has order four.
proof fn lemma_twisted_pair(c: Cube)
    ensures
        c.twisted().twisted_back() == c,
        c.twisted_back().twisted() == c,
        c.twisted().twisted().twisted().twisted() == c,
        c.twisted_back().twisted_back().twisted_back().twisted_back() == c,
        c.twisted_back() == c.twisted().twisted().twisted(),
        c.twisted() == c.twisted_back().twisted_back().twisted_back(),
{
}

/// The two whole-cube turns undo each other, and each has order four.
proof fn lemma_turned_pair(c: Cube)
    ensures
        c.turned().turned_back() == c,
        c.turned_back().turned() == c,
        c.turned().turned().turned().turned() == c,
        c.turned_back().turned_back().turned_back().turned_back() == c,
        c.turned_back() == c.turned().turned().turned(),
        c.turned() == c.turned_back().turned_back().turned_back(),
{
}

/// The two tips away from and towards the viewer undo each other, and each has order four.
proof fn lemma_tipped_back_pair(c: Cube)
    ensures
        c.tipped_back().tipped_forwards() == c,
        c.tipped_forwards().tipped_back() == c,
        c.tipped_back().tipped_back().tipped_back().tipped_back() == c,
        c.tipped_forwards().tipped_forwards().tipped_forwards().tipped_forwards() == c,
        c.tipped_forwards() == c.tipped_back().tipped_back().tipped_back(),
        c.tipped_back() == c.tipped_forwards().tipped_forwards().tipped_forwards(),
{
}

/// The two sideways tips undo each other, and each has order four.
proof fn lemma_tipped_right_pair(c: Cube)
    ensures
        c.tipped_right().tipped_left() == c,
        c.tipped_left().tipped_right() == c,
        c.tipped_right().tipped_right().tipped_right().tipped_right() == c,
        c.tipped_left().tipped_left().tipped_left().tipped_left() == c,
        c.tipped_left() == c.tipped_right().tipped_right().tipped_right(),
        c.tipped_right() == c.tipped_left().tipped_left().tipped_left(),
{
}

/// The two front-face twists undo each other, and each has order four.
proof fn lemma_front_twisted_pair(c: Cube)
    ensures
        c.front_twisted().front_twisted_back() == c,
        c.front_twisted_back().front_twisted() == c,
        c.front_twisted().front_twisted().front_twisted().front_twisted() == c,
        c.front_twisted_back().front_twisted_back().front_twisted_back().front_twisted_back() == c,
        c.front_twisted_back() == c.front_twisted().front_twisted().front_twisted(),
        c.front_twisted() == c.front_twisted_back().front_twisted_back().front_twisted_back(),
{
}

/// The two bottom-face twists undo each other, and each has order four.
proof fn lemma_bottom_twisted_pair(c: Cube)
    ensures
        c.bottom_twisted().bottom_twisted_back() == c,
        c.bottom_twisted_back().bottom_twisted() == c,
        c.bottom_twisted().bottom_twisted().bottom_twisted().bottom_twisted() == c,
        c.bottom_twisted_back().bottom_twisted_back().bottom_twisted_back().bottom_twisted_back() == c,
        c.bottom_twisted_back() == c.bottom_twisted().bottom_twisted().bottom_twisted(),
        c.bottom_twisted() == c.bottom_twisted_back().bottom_twisted_back().bottom_twisted_back(),
{
}

/// Inverse and order-four laws for the twist move.
proof fn lemma_twist_laws(c: Cube)
    ensures
        moved(moved(c, Move::Twist), inverse(Move::Twist)) == c,
        moved(moved(c, inverse(Move::Twist)), Move::Twist) == c,
        moved(moved(moved(moved(c, Move::Twist), Move::Twist), Move::Twist), Move::Twist) == c,
        moved(c, inverse(Move::Twist)) == moved(moved(moved(c, Move::Twist), Move::Twist), Move::Twist),
{
    reveal(moved);
    lemma_twisted_pair(c);
}

/// Inverse and order-four laws for the twist back move.
proof fn lemma_twist_back_laws(c: Cube)
    ensures
        moved(moved(c, Move::TwistBack), inverse(Move::TwistBack)) == c,
        moved(moved(c, inverse(Move::TwistBack)), Move::TwistBack) == c,
        moved(moved(moved(moved(c, Move::TwistBack), Move::TwistBack), Move::TwistBack), Move::TwistBack) == c,
        moved(c, inverse(Move::TwistBack)) == moved(moved(moved(c, Move::TwistBack), Move::TwistBack), Move::TwistBack),
{
    reveal(moved);
    lemma_twisted_pair(c);
}

/// Inverse and order-four laws for the turn move.
proof fn lemma_turn_laws(c: Cube)
    ensures
        moved(moved(c, Move::Turn), inverse(Move::Turn)) == c,
        moved(moved(c, inverse(Move::Turn)), Move::Turn) == c,
        moved(moved(moved(moved(c, Move::Turn), Move::Turn), Move::Turn), Move::Turn) == c,
        moved(c, inverse(Move::Turn)) == moved(moved(moved(c, Move::Turn), Move::Turn), Move::Turn),
{
    reveal(moved);
    lemma_turned_pair(c);
}

/// Inverse and order-four laws for the turn back move.
proof fn lemma_turn_back_laws(c: Cube)
    ensures
        moved(moved(c, Move::TurnBack), inverse(Move::TurnBack)) == c,
        moved(moved(c, inverse(Move::TurnBack)), Move::TurnBack) == c,
        moved(moved(moved(moved(c, Move::TurnBack), Move::TurnBack), Move::TurnBack), Move::TurnBack) == c,
        moved(c, inverse(Move::TurnBack)) == moved(moved(moved(c, Move::TurnBack), Move::TurnBack), Move::TurnBack),
{
    reveal(moved);
    lemma_turned_pair(c);
}

/// Inverse and order-four laws for the tip back move.
proof fn lemma_tip_back_laws(c: Cube)
    ensures
        moved(moved(c, Move::TipBack), inverse(Move::TipBack)) == c,
        moved(moved(c, inverse(Move::TipBack)), Move::TipBack) == c,
        moved(moved(moved(moved(c, Move::TipBack), Move::TipBack), Move::TipBack), Move::TipBack) == c,
        moved(c, inverse(Move::TipBack)) == moved(moved(moved(c, Move::TipBack), Move::TipBack), Move::TipBack),
{
    reveal(moved);
    lemma_tipped_back_pair(c);
}

/// Inverse and order-four laws for the tip forwards move.
proof fn lemma_tip_forwards_laws(c: Cube)
    ensures
        moved(moved(c, Move::TipForwards), inverse(Move::TipForwards)) == c,
        moved(moved(c, inverse(Move::TipForwards)), Move::TipForwards) == c,
        moved(moved(moved(moved(c, Move::TipForwards), Move::TipForwards), Move::TipForwards), Move::TipForwards) == c,
        moved(c, inverse(Move::TipForwards)) == moved(moved(moved(c, Move::TipForwards), Move::TipForwards), Move::TipForwards),
{
    reveal(moved);
    lemma_tipped_back_pair(c);
}

/// Inverse and order-four laws for the tip right move.
proof fn lemma_tip_right_laws(c: Cube)
    ensures
        moved(moved(c, Move::TipRight), inverse(Move::TipRight)) == c,
        moved(moved(c, inverse(Move::TipRight)), Move::TipRight) == c,
        moved(moved(moved(moved(c, Move::TipRight), Move::TipRight), Move::TipRight), Move::TipRight) == c,
        moved(c, inverse(Move::TipRight)) == moved(moved(moved(c, Move::TipRight), Move::TipRight), Move::TipRight),
{
    reveal(moved);
    lemma_tipped_right_pair(c);
}

/// Inverse and order-four laws for the tip left move.
proof fn lemma_tip_left_laws(c: Cube)
    ensures
        moved(moved(c, Move::TipLeft), inverse(Move::TipLeft)) == c,
        moved(moved(c, inverse(Move::TipLeft)), Move::TipLeft) == c,
        moved(moved(moved(moved(c, Move::TipLeft), Move::TipLeft), Move::TipLeft), Move::TipLeft) == c,
        moved(c, inverse(Move::TipLeft)) == moved(moved(moved(c, Move::TipLeft), Move::TipLeft), Move::TipLeft),
{
    reveal(moved);
    lemma_tipped_right_pair(c);
}

/// Inverse and order-four laws for the front twist move.
proof fn lemma_front_twist_laws(c: Cube)
    ensures
        moved(moved(c, Move::FrontTwist), inverse(Move::FrontTwist)) == c,
        moved(moved(c, inverse(Move::FrontTwist)), Move::FrontTwist) == c,
        moved(moved(moved(moved(c, Move::FrontTwist), Move::FrontTwist), Move::FrontTwist), Move::FrontTwist) == c,
        moved(c, inverse(Move::FrontTwist)) == moved(moved(moved(c, Move::FrontTwist), Move::FrontTwist), Move::FrontTwist),
{
    reveal(moved);
    lemma_front_twisted_pair(c);
}

/// Inverse and order-four laws for the undo front twist move.
proof fn lemma_undo_front_twist_laws(c: Cube)
    ensures
        moved(moved(c, Move::UndoFrontTwist), inverse(Move::UndoFrontTwist)) == c,
        moved(moved(c, inverse(Move::UndoFrontTwist)), Move::UndoFrontTwist) == c,
        moved(moved(moved(moved(c, Move::UndoFrontTwist), Move::UndoFrontTwist), Move::UndoFrontTwist), Move::UndoFrontTwist) == c,
        moved(c, inverse(Move::UndoFrontTwist)) == moved(moved(moved(c, Move::UndoFrontTwist), Move::UndoFrontTwist), Move::UndoFrontTwist),
{
    reveal(moved);
    lemma_front_twisted_pair(c);
}

/// Inverse and order-four laws for the bottom twist move.
proof fn lemma_bottom_twist_laws(c: Cube)
    ensures
        moved(moved(c, Move::BottomTwist), inverse(Move::BottomTwist)) == c,
        moved(moved(c, inverse(Move::BottomTwist)), Move::BottomTwist) == c,
        moved(moved(moved(moved(c, Move::BottomTwist), Move::BottomTwist), Move::BottomTwist), Move::BottomTwist) == c,
        moved(c, inverse(Move::BottomTwist)) == moved(moved(moved(c, Move::BottomTwist), Move::BottomTwist), Move::BottomTwist),
{
    reveal(moved);
    lemma_bottom_twisted_pair(c);
}

/// Inverse and order-four laws for the bottom twist back move.
proof fn lemma_bottom_twist_back_laws(c: Cube)
    ensures
        moved(moved(c, Move::BottomTwistBack), inverse(Move::BottomTwistBack)) == c,
        moved(moved(c, inverse(Move::BottomTwistBack)), Move::BottomTwistBack) == c,
        moved(moved(moved(moved(c, Move::BottomTwistBack), Move::BottomTwistBack), Move::BottomTwistBack), Move::BottomTwistBack) == c,
        moved(c, inverse(Move::BottomTwistBack)) == moved(moved(moved(c, Move::BottomTwistBack), Move::BottomTwistBack), Move::BottomTwistBack),
{
    reveal(moved);
    lemma_bottom_twisted_pair(c);
}

/// A move followed by its inverse, in either order, gives back exactly the
/// same state.
pub proof fn lemma_inverse_undoes(c: Cube, m: Move)
    ensures
        moved(moved(c, m), inverse(m)) == c,
        moved(moved(c, inverse(m)), m) == c,
{
    match m {
        Move::Twist => lemma_twist_laws(c),
        Move::TwistBack => lemma_twist_back_laws(c),
        Move::Turn => lemma_turn_laws(c),
        Move::TurnBack => lemma_turn_back_laws(c),
        Move::TipBack => lemma_tip_back_laws(c),
        Move::TipForwards => lemma_tip_forwards_laws(c),
        Move::TipRight => lemma_tip_right_laws(c),
        Move::TipLeft => lemma_tip_left_laws(c),
        Move::FrontTwist => lemma_front_twist_laws(c),
        Move::UndoFrontTwist => lemma_undo_front_twist_laws(c),
        Move::BottomTwist => lemma_bottom_twist_laws(c),
        Move::BottomTwistBack => lemma_bottom_twist_back_laws(c),
    }
}

/// Any move applied four times gives back exactly the same state.
pub proof fn lemma_order_four(c: Cube, m: Move)
    ensures
        moved(moved(moved(moved(c, m), m), m), m) == c,
{
    match m {
        Move::Twist => lemma_twist_laws(c),
        Move::TwistBack => lemma_twist_back_laws(c),
        Move::Turn => lemma_turn_laws(c),
        Move::TurnBack => lemma_turn_back_laws(c),
        Move::TipBack => lemma_tip_back_laws(c),
        Move::TipForwards => lemma_tip_forwards_laws(c),
        Move::TipRight => lemma_tip_right_laws(c),
        Move::TipLeft => lemma_tip_left_laws(c),
        Move::FrontTwist => lemma_front_twist_laws(c),
        Move::UndoFrontTwist => lemma_undo_front_twist_laws(c),
        Move::BottomTwist => lemma_bottom_twist_laws(c),
        Move::BottomTwistBack => lemma_bottom_twist_back_laws(c),
    }
}

/// Each inverse move is the forward move applied three times.
pub proof fn lemma_inverse_is_three_moves(c: Cube, m: Move)
    ensures
        moved(c, inverse(m)) == moved(moved(moved(c, m), m), m),
{
    match m {
        Move::Twist => lemma_twist_laws(c),
        Move::TwistBack => lemma_twist_back_laws(c),
        Move::Turn => lemma_turn_laws(c),
        Move::TurnBack => lemma_turn_back_laws(c),
        Move::TipBack => lemma_tip_back_laws(c),
        Move::TipForwards => lemma_tip_forwards_laws(c),
        Move::TipRight => lemma_tip_right_laws(c),
        Move::TipLeft => lemma_tip_left_laws(c),
        Move::FrontTwist => lemma_front_twist_laws(c),
        Move::UndoFrontTwist => lemma_undo_front_twist_laws(c),
        Move::BottomTwist => lemma_bottom_twist_laws(c),
        Move::BottomTwistBack => lemma_bottom_twist_back_laws(c),
    }
}

/// Each of the 24 rotations of `c` is also a rotation of `c` turned.
proof fn lemma_turned_orientation(c: Cube, kp: int, jp: int)
    requires
        0 <= kp < 6,
        0 <= jp < 4,
    ensures
        exists|k: int, j: int| 0 <= k < 6 && 0 <= j < 4 && #[trigger] c.turned().orientation(k, j) == c.orientation(kp, jp),
{
    if kp == 0 && jp == 0 {
        assert(c.turned().orientation(0, 3) == c.orientation(0, 0));
    } else if kp == 0 && jp == 1 {
        assert(c.turned().orientation(0, 0) == c.orientation(0, 1));
    } else if kp == 0 && jp == 2 {
        assert(c.turned().orientation(0, 1) == c.orientation(0, 2));
    } else if kp == 0 && jp == 3 {
        assert(c.turned().orientation(0, 2) == c.orientation(0, 3));
    } else if kp == 1 && jp == 0 {
        assert(c.turned().orientation(4, 3) == c.orientation(1, 0));
    } else if kp == 1 && jp == 1 {
        assert(c.turned().orientation(4, 0) == c.orientation(1, 1));
    } else if kp == 1 && jp == 2 {
        assert(c.turned().orientation(4, 1) == c.orientation(1, 2));
    } else if kp == 1 && jp == 3 {
        assert(c.turned().orientation(4, 2) == c.orientation(1, 3));
    } else if kp == 2 && jp == 0 {
        assert(c.turned().orientation(2, 1) == c.orientation(2, 0));
    } else if kp == 2 && jp == 1 {
        assert(c.turned().orientation(2, 2) == c.orientation(2, 1));
    } else if kp == 2 && jp == 2 {
        assert(c.turned().orientation(2, 3) == c.orientation(2, 2));
    } else if kp == 2 && jp == 3 {
        assert(c.turned().orientation(2, 0) == c.orientation(2, 3));
    } else if kp == 3 && jp == 0 {
        assert(c.turned().orientation(5, 3) == c.orientation(3, 0));
    } else if kp == 3 && jp == 1 {
        assert(c.turned().orientation(5, 0) == c.orientation(3, 1));
    } else if kp == 3 && jp == 2 {
        assert(c.turned().orientation(5, 1) == c.orientation(3, 2));
    } else if kp == 3 && jp == 3 {
        assert(c.turned().orientation(5, 2) == c.orientation(3, 3));
    } else if kp == 4 && jp == 0 {
        assert(c.turned().orientation(3, 3) == c.orientation(4, 0));
    } else if kp == 4 && jp == 1 {
        assert(c.turned().orientation(3, 0) == c.orientation(4, 1));
    } else if kp == 4 && jp == 2 {
        assert(c.turned().orientation(3, 1) == c.orientation(4, 2));
    } else if kp == 4 && jp == 3 {
        assert(c.turned().orientation(3, 2) == c.orientation(4, 3));
    } else if kp == 5 && jp == 0 {
        assert(c.turned().orientation(1, 3) == c.orientation(5, 0));
    } else if kp == 5 && jp == 1 {
        assert(c.turned().orientation(1, 0) == c.orientation(5, 1));
    } else if kp == 5 && jp == 2 {
        assert(c.turned().orientation(1, 1) == c.orientation(5, 2));
    } else if kp == 5 && jp == 3 {
        assert(c.turned().orientation(1, 2) == c.orientation(5, 3));
    }
}

/// Each of the 24 rotations of `c` is also a rotation of `c` tipped back.
proof fn lemma_tipped_back_orientation(c: Cube, kp: int, jp: int)
    requires
        0 <= kp < 6,
        0 <= jp < 4,
    ensures
        exists|k: int, j: int| 0 <= k < 6 && 0 <= j < 4 && #[trigger] c.tipped_back().orientation(k, j) == c.orientation(kp, jp),
{
    if kp == 0 && jp == 0 {
        assert(c.tipped_back().orientation(3, 0) == c.orientation(0, 0));
    } else if kp == 0 && jp == 1 {
        assert(c.tipped_back().orientation(3, 1) == c.orientation(0, 1));
    } else if kp == 0 && jp == 2 {
        assert(c.tipped_back().orientation(3, 2) == c.orientation(0, 2));
    } else if kp == 0 && jp == 3 {
        assert(c.tipped_back().orientation(3, 3) == c.orientation(0, 3));
    } else if kp == 1 && jp == 0 {
        assert(c.tipped_back().orientation(0, 0) == c.orientation(1, 0));
    } else if kp == 1 && jp == 1 {
        assert(c.tipped_back().orientation(0, 1) == c.orientation(1, 1));
    } else if kp == 1 && jp == 2 {
        assert(c.tipped_back().orientation(0, 2) == c.orientation(1, 2));
    } else if kp == 1 && jp == 3 {
        assert(c.tipped_back().orientation(0, 3) == c.orientation(1, 3));
    } else if kp == 2 && jp == 0 {
        assert(c.tipped_back().orientation(1, 0) == c.orientation(2, 0));
    } else if kp == 2 && jp == 1 {
        assert(c.tipped_back().orientation(1, 1) == c.orientation(2, 1));
    } else if kp == 2 && jp == 2 {
        assert(c.tipped_back().orientation(1, 2) == c.orientation(2, 2));
    } else if kp == 2 && jp == 3 {
        assert(c.tipped_back().orientation(1, 3) == c.orientation(2, 3));
    } else if kp == 3 && jp == 0 {
        assert(c.tipped_back().orientation(2, 0) == c.orientation(3, 0));
    } else if kp == 3 && jp == 1 {
        assert(c.tipped_back().orientation(2, 1) == c.orientation(3, 1));
    } else if kp == 3 && jp == 2 {
        assert(c.tipped_back().orientation(2, 2) == c.orientation(3, 2));
    } else if kp == 3 && jp == 3 {
        assert(c.tipped_back().orientation(2, 3) == c.orientation(3, 3));
    } else if kp == 4 && jp == 0 {
        assert(c.tipped_back().orientation(4, 1) == c.orientation(4, 0));
    } else if kp == 4 && jp == 1 {
        assert(c.tipped_back().orientation(4, 2) == c.orientation(4, 1));
    } else if kp == 4 && jp == 2 {
        assert(c.tipped_back().orientation(4, 3) == c.orientation(4, 2));
    } else if kp == 4 && jp == 3 {
        assert(c.tipped_back().orientation(4, 0) == c.orientation(4, 3));
    } else if kp == 5 && jp == 0 {
        assert(c.tipped_back().orientation(5, 3) == c.orientation(5, 0));
    } else if kp == 5 && jp == 1 {
        assert(c.tipped_back().orientation(5, 0) == c.orientation(5, 1));
    } else if kp == 5 && jp == 2 {
        assert(c.tipped_back().orientation(5, 1) == c.orientation(5, 2));
    } else if kp == 5 && jp == 3 {
        assert(c.tipped_back().orientation(5, 2) == c.orientation(5, 3));
    }
}

proof fn lemma_turned_keeps_solved(c: Cube)
    requires
        c.solved(),
    ensures
        c.turned().solved(),
{
    let (kp, jp) = choose|kp: int, jp: int| 0 <= kp < 6 && 0 <= jp < 4 && #[trigger] c.orientation(kp, jp) == solved_cube();
    lemma_turned_orientation(c, kp, jp);
}

proof fn lemma_tipped_back_keeps_solved(c: Cube)
    requires
        c.solved(),
    ensures
        c.tipped_back().solved(),
{
    let (kp, jp) = choose|kp: int, jp: int| 0 <= kp < 6 && 0 <= jp < 4 && #[trigger] c.orientation(kp, jp) == solved_cube();
    lemma_tipped_back_orientation(c, kp, jp);
}

proof fn lemma_turned_solved_iff(c: Cube)
    ensures
        c.turned().solved() == c.solved(),
{
    if c.solved() {
        lemma_turned_keeps_solved(c);
    }
    if c.turned().solved() {
        lemma_turned_keeps_solved(c.turned());
        lemma_turned_keeps_solved(c.turned().turned());
        lemma_turned_keeps_solved(c.turned().turned().turned());
        assert(c.turned().turned().turned().turned() == c);
    }
}

proof fn lemma_tipped_back_solved_iff(c: Cube)
    ensures
        c.tipped_back().solved() == c.solved(),
{
    if c.solved() {
        lemma_tipped_back_keeps_solved(c);
    }
    if c.tipped_back().solved() {
        let d = c.tipped_back();
        lemma_tipped_back_keeps_solved(d);
        lemma_tipped_back_keeps_solved(d.tipped_back());
        lemma_tipped_back_keeps_solved(d.tipped_back().tipped_back());
        assert(d.tipped_back().tipped_back().tipped_back() == c);
    }
}

proof fn lemma_tipped_right_solved_iff(c: Cube)
    ensures
        c.tipped_right().solved() == c.solved(),
{
    // tipping right is a turn, a tip forwards and a turn back
    let d = c.turned();
    let e = d.tipped_back().tipped_back().tipped_back();
    lemma_turned_solved_iff(c);
    lemma_tipped_back_solved_iff(d);
    lemma_tipped_back_solved_iff(d.tipped_back());
    lemma_tipped_back_solved_iff(d.tipped_back().tipped_back());
    lemma_turned_solved_iff(e);
    lemma_turned_solved_iff(e.turned());
    lemma_turned_solved_iff(e.turned().turned());
    assert(c.tipped_right() == e.turned().turned().turned());
}

/// Turning or tipping the whole cube does not change whether it is solved.
pub proof fn lemma_rotation_keeps_solved(c: Cube, m: Move)
    requires
        is_rotation(m),
    ensures
        moved(c, m).solved() == c.solved(),
{
    reveal(moved);
    match m {
        Move::Turn => {
            lemma_turned_solved_iff(c);
        },
        Move::TurnBack => {
            lemma_turned_solved_iff(c);
            lemma_turned_solved_iff(c.turned());
            lemma_turned_solved_iff(c.turned().turned());
            assert(c.turned_back() == c.turned().turned().turned());
        },
        Move::TipBack => {
            lemma_tipped_back_solved_iff(c);
        },
        Move::TipForwards => {
            lemma_tipped_back_solved_iff(c);
            lemma_tipped_back_solved_iff(c.tipped_back());
            lemma_tipped_back_solved_iff(c.tipped_back().tipped_back());
            assert(c.tipped_forwards() == c.tipped_back().tipped_back().tipped_back());
        },
        Move::TipRight => {
            lemma_tipped_right_solved_iff(c);
        },
        _ => {
            let r = c.tipped_right();
            lemma_tipped_right_solved_iff(c);
            lemma_tipped_right_solved_iff(r);
            lemma_tipped_right_solved_iff(r.tipped_right());
            assert(c.tipped_left() == r.tipped_right().tipped_right());
        },
    }
}

/// Any sequence of whole-cube turns and tips leaves the solved test unchanged.
pub proof fn lemma_rotations_keep_solved(c: Cube, rs: Seq<Move>)
    requires
        all_rotations(rs),
    ensures
        apply_moves(c, rs).solved() == c.solved(),
    decreases rs.len(),
{
    if rs.len() > 0 {
        let p = rs.drop_last();
        assert(all_rotations(p)) by {
            assert forall|i: int| 0 <= i < p.len() implies is_rotation(#[trigger] p[i]) by {
                assert(p[i] == rs[i]);
            }
        }
        lemma_rotations_keep_solved(c, p);
        assert(is_rotation(rs[rs.len() - 1]));
        lemma_rotation_keeps_solved(apply_moves(c, p), rs.last());
    }
}

/// Every composition of whole-cube turns and tips applied to the solved
/// configuration gives a solved cube.
pub proof fn lemma_rotations_of_solved(rs: Seq<Move>)
    requires
        all_rotations(rs),
    ensures
        apply_moves(solved_cube(), rs).solved(),
{
    lemma_new_is_solved();
    lemma_rotations_keep_solved(solved_cube(), rs);
}

/// Applying `a` and then `b` is applying their concatenation.
pub proof fn lemma_apply_concat(c: Cube, a: Seq<Move>, b: Seq<Move>)
    ensures
        apply_moves(c, a + b) == apply_moves(apply_moves(c, a), b),
    decreases b.len(),
{
    if b.len() == 0 {
        assert(a + b =~= a);
    } else {
        lemma_apply_concat(c, a, b.drop_last());
        assert((a + b).drop_last() =~= a + b.drop_last());
        assert((a + b).last() == b.last());
    }
}

/// [`undo_sequence`] takes a state back to where the sequence started.
pub proof fn lemma_undo_sequence(c: Cube, ms: Seq<Move>)
    ensures
        apply_moves(apply_moves(c, ms), undo_sequence(ms)) == c,
        all_generators(ms) ==> all_generators(undo_sequence(ms)),
    decreases ms.len(),
{
    if ms.len() > 0 {
        let m = ms.last();
        let p = ms.drop_last();
        let d = apply_moves(c, ms);
        let three = seq![m, m, m];
        lemma_undo_sequence(c, p);
        lemma_apply_concat(d, three, undo_sequence(p));
        assert(three.drop_last().drop_last().drop_last() =~= Seq::<Move>::empty());
        assert(apply_moves(d, three) == moved(moved(moved(d, m), m), m)) by {
            assert(three.drop_last() =~= seq![m, m]);
            assert(three.drop_last().drop_last() =~= seq![m]);
            reveal_with_fuel(apply_moves, 4);
        }
        lemma_order_four(apply_moves(c, p), m);
        if all_generators(ms) {
            let u = undo_sequence(ms);
            assert(all_generators(p)) by {
                assert forall|i: int| 0 <= i < p.len() implies crate::moves::is_generator(#[trigger] p[i]) by {
                    assert(p[i] == ms[i]);
                }
            }
            assert(crate::moves::is_generator(ms[ms.len() - 1]));
            assert forall|i: int| 0 <= i < u.len() implies crate::moves::is_generator(#[trigger] u[i]) by {
                if i >= 3 {
                    assert(u[i] == undo_sequence(p)[i - 3]);
                }
            }
        }
    }
}

/// Every state that the generators reach from the solved configuration can
/// be brought back to a solved state by generators alone.
pub proof fn lemma_reachable_is_solvable(ms: Seq<Move>)
    requires
        all_generators(ms),
    ensures
        solvable(apply_moves(solved_cube(), ms)),
{
    lemma_undo_sequence(solved_cube(), ms);
    lemma_new_is_solved();
    let back = undo_sequence(ms);
    assert(all_generators(back) && apply_moves(apply_moves(solved_cube(), ms), back).solved());
}

proof fn lemma_twisted_keeps_pieces(c: Cube)
    ensures
        c.twisted().pieces() == c.pieces(),
{
    lemma_palettes(c.b0);
    lemma_palettes(c.b1);
    lemma_palettes(c.b2);
    lemma_palettes(c.b3);
    lemma_palettes(c.b4);
    lemma_palettes(c.b5);
    lemma_palettes(c.b6);
    lemma_palettes(c.b7);
    assert(c.twisted().pieces() =~= c.pieces());
}

proof fn lemma_twisted_back_keeps_pieces(c: Cube)
    ensures
        c.twisted_back().pieces() == c.pieces(),
{
    lemma_palettes(c.b0);
    lemma_palettes(c.b1);
    lemma_palettes(c.b2);
    lemma_palettes(c.b3);
    lemma_palettes(c.b4);
    lemma_palettes(c.b5);
    lemma_palettes(c.b6);
    lemma_palettes(c.b7);
    assert(c.twisted_back().pieces() =~= c.pieces());
}

proof fn lemma_turned_keeps_pieces(c: Cube)
    ensures
        c.turned().pieces() == c.pieces(),
{
    lemma_palettes(c.b0);
    lemma_palettes(c.b1);
    lemma_palettes(c.b2);
    lemma_palettes(c.b3);
    lemma_palettes(c.b4);
    lemma_palettes(c.b5);
    lemma_palettes(c.b6);
    lemma_palettes(c.b7);
    assert(c.turned().pieces() =~= c.pieces());
}

proof fn lemma_turned_back_keeps_pieces(c: Cube)
    ensures
        c.turned_back().pieces() == c.pieces(),
{
    lemma_palettes(c.b0);
    lemma_palettes(c.b1);
    lemma_palettes(c.b2);
    lemma_palettes(c.b3);
    lemma_palettes(c.b4);
    lemma_palettes(c.b5);
    lemma_palettes(c.b6);
    lemma_palettes(c.b7);
    assert(c.turned_back().pieces() =~= c.pieces());
}

proof fn lemma_tipped_back_keeps_pieces(c: Cube)
    ensures
        c.tipped_back().pieces() == c.pieces(),
{
    lemma_palettes(c.b0);
    lemma_palettes(c.b1);
    lemma_palettes(c.b2);
    lemma_palettes(c.b3);
    lemma_palettes(c.b4);
    lemma_palettes(c.b5);
    lemma_palettes(c.b6);
    lemma_palettes(c.b7);
    assert(c.tipped_back().pieces() =~= c.pieces());
}

proof fn lemma_tipped_forwards_keeps_pieces(c: Cube)
    ensures
        c.tipped_forwards().pieces() == c.pieces(),
{
    lemma_palettes(c.b0);
    lemma_palettes(c.b1);
    lemma_palettes(c.b2);
    lemma_palettes(c.b3);
    lemma_palettes(c.b4);
    lemma_palettes(c.b5);
    lemma_palettes(c.b6);
    lemma_palettes(c.b7);
    assert(c.tipped_forwards().pieces() =~= c.pieces());
}

proof fn lemma_tipped_right_keeps_pieces(c: Cube)
    ensures
        c.tipped_right().pieces() == c.pieces(),
{
    lemma_palettes(c.b0);
    lemma_palettes(c.b1);
    lemma_palettes(c.b2);
    lemma_palettes(c.b3);
    lemma_palettes(c.b4);
    lemma_palettes(c.b5);
    lemma_palettes(c.b6);
    lemma_palettes(c.b7);
    assert(c.tipped_right().pieces() =~= c.pieces());
}

proof fn lemma_tipped_left_keeps_pieces(c: Cube)
    ensures
        c.tipped_left().pieces() == c.pieces(),
{
    lemma_palettes(c.b0);
    lemma_palettes(c.b1);
    lemma_palettes(c.b2);
    lemma_palettes(c.b3);
    lemma_palettes(c.b4);
    lemma_palettes(c.b5);
    lemma_palettes(c.b6);
    lemma_palettes(c.b7);
    assert(c.tipped_left().pieces() =~= c.pieces());
}

proof fn lemma_front_twisted_keeps_pieces(c: Cube)
    ensures
        c.front_twisted().pieces() == c.pieces(),
{
    lemma_palettes(c.b0);
    lemma_palettes(c.b1);
    lemma_palettes(c.b2);
    lemma_palettes(c.b3);
    lemma_palettes(c.b4);
    lemma_palettes(c.b5);
    lemma_palettes(c.b6);
    lemma_palettes(c.b7);
    assert(c.front_twisted().pieces() =~= c.pieces());
}

proof fn lemma_front_twisted_back_keeps_pieces(c: Cube)
    ensures
        c.front_twisted_back().pieces() == c.pieces(),
{
    lemma_palettes(c.b0);
    lemma_palettes(c.b1);
    lemma_palettes(c.b2);
    lemma_palettes(c.b3);
    lemma_palettes(c.b4);
    lemma_palettes(c.b5);
    lemma_palettes(c.b6);
    lemma_palettes(c.b7);
    assert(c.front_twisted_back().pieces() =~= c.pieces());
}

proof fn lemma_bottom_twisted_keeps_pieces(c: Cube)
    ensures
        c.bottom_twisted().pieces() == c.pieces(),
{
    lemma_palettes(c.b0);
    lemma_palettes(c.b1);
    lemma_palettes(c.b2);
    lemma_palettes(c.b3);
    lemma_palettes(c.b4);
    lemma_palettes(c.b5);
    lemma_palettes(c.b6);
    lemma_palettes(c.b7);
    assert(c.bottom_twisted().pieces() =~= c.pieces());
}

proof fn lemma_bottom_twisted_back_keeps_pieces(c: Cube)
    ensures
        c.bottom_twisted_back().pieces() == c.pieces(),
{
    lemma_palettes(c.b0);
    lemma_palettes(c.b1);
    lemma_palettes(c.b2);
    lemma_palettes(c.b3);
    lemma_palettes(c.b4);
    lemma_palettes(c.b5);
    lemma_palettes(c.b6);
    lemma_palettes(c.b7);
    assert(c.bottom_twisted_back().pieces() =~= c.pieces());
}

/// No move creates, destroys, duplicates or recolours a piece: the pieces,
/// each known by its six face colours, stay the same as a multiset.
pub proof fn lemma_move_keeps_pieces(c: Cube, m: Move)
    ensures
        moved(c, m).pieces() == c.pieces(),
{
    reveal(moved);
    match m {
        Move::Twist => lemma_twisted_keeps_pieces(c),
        Move::TwistBack => lemma_twisted_back_keeps_pieces(c),
        Move::Turn => lemma_turned_keeps_pieces(c),
        Move::TurnBack => lemma_turned_back_keeps_pieces(c),
        Move::TipBack => lemma_tipped_back_keeps_pieces(c),
        Move::TipForwards => lemma_tipped_forwards_keeps_pieces(c),
        Move::TipRight => lemma_tipped_right_keeps_pieces(c),
        Move::TipLeft => lemma_tipped_left_keeps_pieces(c),
        Move::FrontTwist => lemma_front_twisted_keeps_pieces(c),
        Move::UndoFrontTwist => lemma_front_twisted_back_keeps_pieces(c),
        Move::BottomTwist => lemma_bottom_twisted_keeps_pieces(c),
        Move::BottomTwistBack => lemma_bottom_twisted_back_keeps_pieces(c),
    }
}

} // verus!
