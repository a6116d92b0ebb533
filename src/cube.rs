//! The puzzle state: eight corner blocks on a 2×2×2 grid, the moves that
//! permute and reorient them, and the rotation-tolerant solved test.
//!
//! Positions are numbered `4·z + 2·y + x`, where `x` is 0 on the left and 1
//! on the right, `y` is 0 at the back and 1 at the front, and `z` is 0 on top
//! and 1 at the bottom. Every move is specified by a direct formula saying
//! which block lands where and how it is turned; the composite moves are
//! implemented as sequences of primitive ones and proved equal to their formula.
use vstd::prelude::*;
use vstd::multiset::Multiset;

verus! {

/// A sticker colour; `X` marks a face that points into the puzzle and is never seen.
#[derive(Clone, Copy, Debug, PartialEq, Eq, Hash, Structural)]
pub enum Color {
    Y,
    P,
    B,
    R,
    G,
    W,
    X,
}

/// Why a face colour could not be read.
#[derive(Clone, Copy, Debug, PartialEq, Eq, Hash, Structural)]
pub enum FaceError {
    /// The face asked for is no visible sticker: it points into the puzzle,
    /// or its index names none of the twelve faces that the picture shows.
    HiddenFaceAccessed,
}

/// One corner piece: the colour facing each of the six absolute directions.
#[derive(Clone, Copy, Debug, PartialEq, Eq, Hash, Structural)]
pub struct Block {
    pub(crate) top: Color,
    pub(crate) bottom: Color,
    pub(crate) lhs: Color,
    pub(crate) rhs: Color,
    pub(crate) front: Color,
    pub(crate) back: Color,
}

/// Tipped away from the viewer: front goes to top, top to back.
pub open(crate) spec fn tipped_back_block(b: Block) -> Block {
    Block { top: b.front, back: b.top, bottom: b.back, front: b.bottom, lhs: b.lhs, rhs: b.rhs }
}

/// Tipped towards the viewer: back goes to top, top to front.
pub open(crate) spec fn tipped_forwards_block(b: Block) -> Block {
    Block { top: b.back, front: b.top, bottom: b.front, back: b.bottom, lhs: b.lhs, rhs: b.rhs }
}

/// Turned right about the vertical axis: the left face now faces front.
pub open(crate) spec fn turned_right_block(b: Block) -> Block {
    Block { front: b.lhs, rhs: b.front, back: b.rhs, lhs: b.back, top: b.top, bottom: b.bottom }
}

/// Turned left about the vertical axis: the right face now faces front.
pub open(crate) spec fn turned_left_block(b: Block) -> Block {
    Block { front: b.rhs, lhs: b.front, back: b.lhs, rhs: b.back, top: b.top, bottom: b.bottom }
}

/// Rolled clockwise as seen from the front: the top face now faces right.
pub open(crate) spec fn rolled_right_block(b: Block) -> Block {
    Block { rhs: b.top, bottom: b.rhs, lhs: b.bottom, top: b.lhs, front: b.front, back: b.back }
}

/// Rolled anticlockwise as seen from the front: the top face now faces left.
pub open(crate) spec fn rolled_left_block(b: Block) -> Block {
    Block { lhs: b.top, bottom: b.lhs, rhs: b.bottom, top: b.rhs, front: b.front, back: b.back }
}

/// The block at a corner of the solved puzzle: the solved colour on each
/// outward face and `X` on each inward one.
pub open(crate) spec fn home_block(right: bool, front: bool, low: bool) -> Block {
    Block {
        top: if low { Color::X } else { Color::Y },
        bottom: if low { Color::W } else { Color::X },
        lhs: if right { Color::X } else { Color::G },
        rhs: if right { Color::B } else { Color::X },
        front: if front { Color::R } else { Color::X },
        back: if front { Color::X } else { Color::P },
    }
}

/// A block standing at the given corner shows a real colour on exactly its
/// three outward faces.
pub open(crate) spec fn faces_out(b: Block, right: bool, front: bool, low: bool) -> bool {
    &&& (b.top != Color::X) == !low
    &&& (b.bottom != Color::X) == low
    &&& (b.lhs != Color::X) == !right
    &&& (b.rhs != Color::X) == right
    &&& (b.back != Color::X) == !front
    &&& (b.front != Color::X) == front
}

impl Block {
    /// Tips the block away from the viewer.
    pub fn tip_back(&self) -> (r: Block)
        ensures
            r == tipped_back_block(*self),
    {
        Block {
            bottom: self.back,
            front: self.bottom,
            top: self.front,
            back: self.top,
            lhs: self.lhs,
            rhs: self.rhs,
        }
    }

    /// Tips the block towards the viewer: three tips away.
    pub fn tip_forwards(&self) -> (r: Block)
        ensures
            r == tipped_forwards_block(*self),
    {
        self.tip_back().tip_back().tip_back()
    }

    /// Turns the block to the right, so that its left face is now at the front.
    pub fn turn_right(&self) -> (r: Block)
        ensures
            r == turned_right_block(*self),
    {
        Block {
            bottom: self.bottom,
            front: self.lhs,
            top: self.top,
            back: self.rhs,
            lhs: self.back,
            rhs: self.front,
        }
    }

    /// Turns the block to the left: three turns to the right.
    pub fn turn_left(&self) -> (r: Block)
        ensures
            r == turned_left_block(*self),
    {
        self.turn_right().turn_right().turn_right()
    }
}

fn corner(right: bool, front: bool, low: bool) -> (r: Block)
    ensures
        r == home_block(right, front, low),
{
    Block {
        top: if low { Color::X } else { Color::Y },
        bottom: if low { Color::W } else { Color::X },
        lhs: if right { Color::X } else { Color::G },
        rhs: if right { Color::B } else { Color::X },
        front: if front { Color::R } else { Color::X },
        back: if front { Color::X } else { Color::P },
    }
}

/// The whole puzzle: block `bN` stands at grid position `N`.
#[derive(Clone, Copy, Debug, PartialEq, Eq, Hash, Structural)]
pub struct Cube {
    pub(crate) b0: Block,
    pub(crate) b1: Block,
    pub(crate) b2: Block,
    pub(crate) b3: Block,
    pub(crate) b4: Block,
    pub(crate) b5: Block,
    pub(crate) b6: Block,
    pub(crate) b7: Block,
}

/// The canonical solved configuration.
pub open(crate) spec fn solved_cube() -> Cube {
    Cube {
        b0: home_block(false, false, false),
        b1: home_block(true, false, false),
        b2: home_block(false, true, false),
        b3: home_block(true, true, false),
        b4: home_block(false, false, true),
        b5: home_block(true, false, true),
        b6: home_block(false, true, true),
        b7: home_block(true, true, true),
    }
}

impl Cube {
    /// Each block shows its colours on exactly the three faces that its grid
    /// position exposes; moves only ever carry a block to another position
    /// together with the matching reorientation.
    #[verifier::type_invariant]
    pub(crate) closed spec fn well_formed(self) -> bool {
        &&& faces_out(self.b0, false, false, false)
        &&& faces_out(self.b1, true, false, false)
        &&& faces_out(self.b2, false, true, false)
        &&& faces_out(self.b3, true, true, false)
        &&& faces_out(self.b4, false, false, true)
        &&& faces_out(self.b5, true, false, true)
        &&& faces_out(self.b6, false, true, true)
        &&& faces_out(self.b7, true, true, true)
    }

    /// The right face turned a quarter towards the viewer.
    pub open(crate) spec fn twisted(self) -> Cube {
        Cube {
            b1: tipped_forwards_block(self.b5),
            b3: tipped_forwards_block(self.b1),
            b5: tipped_forwards_block(self.b7),
            b7: tipped_forwards_block(self.b3),
            ..self
        }
    }

    /// The right face turned a quarter away from the viewer.
    pub open(crate) spec fn twisted_back(self) -> Cube {
        Cube {
            b5: tipped_back_block(self.b1),
            b1: tipped_back_block(self.b3),
            b7: tipped_back_block(self.b5),
            b3: tipped_back_block(self.b7),
            ..self
        }
    }

    /// The whole cube turned left about the vertical axis: the right side now faces front.
    pub open(crate) spec fn turned(self) -> Cube {
        Cube {
            b0: turned_left_block(self.b2),
            b1: turned_left_block(self.b0),
            b2: turned_left_block(self.b3),
            b3: turned_left_block(self.b1),
            b4: turned_left_block(self.b6),
            b5: turned_left_block(self.b4),
            b6: turned_left_block(self.b7),
            b7: turned_left_block(self.b5),
        }
    }

    /// The whole cube turned right about the vertical axis: the left side now faces front.
    pub open(crate) spec fn turned_back(self) -> Cube {
        Cube {
            b2: turned_right_block(self.b0),
            b0: turned_right_block(self.b1),
            b3: turned_right_block(self.b2),
            b1: turned_right_block(self.b3),
            b6: turned_right_block(self.b4),
            b4: turned_right_block(self.b5),
            b7: turned_right_block(self.b6),
            b5: turned_right_block(self.b7),
        }
    }

    /// The bottom layer turned a quarter to the right.
    pub open(crate) spec fn bottom_twisted(self) -> Cube {
        Cube {
            b6: turned_right_block(self.b4),
            b4: turned_right_block(self.b5),
            b7: turned_right_block(self.b6),
            b5: turned_right_block(self.b7),
            ..self
        }
    }

    /// The bottom layer turned a quarter to the left.
    pub open(crate) spec fn bottom_twisted_back(self) -> Cube {
        Cube {
            b4: turned_left_block(self.b6),
            b5: turned_left_block(self.b4),
            b6: turned_left_block(self.b7),
            b7: turned_left_block(self.b5),
            ..self
        }
    }

    /// The whole cube tipped away from the viewer: the front now faces up.
    pub open(crate) spec fn tipped_back(self) -> Cube {
        Cube {
            b0: tipped_back_block(self.b2),
            b4: tipped_back_block(self.b0),
            b6: tipped_back_block(self.b4),
            b2: tipped_back_block(self.b6),
            b1: tipped_back_block(self.b3),
            b5: tipped_back_block(self.b1),
            b7: tipped_back_block(self.b5),
            b3: tipped_back_block(self.b7),
        }
    }

    /// The whole cube tipped towards the viewer: the back now faces up.
    pub open(crate) spec fn tipped_forwards(self) -> Cube {
        Cube {
            b2: tipped_forwards_block(self.b0),
            b0: tipped_forwards_block(self.b4),
            b4: tipped_forwards_block(self.b6),
            b6: tipped_forwards_block(self.b2),
            b3: tipped_forwards_block(self.b1),
            b1: tipped_forwards_block(self.b5),
            b5: tipped_forwards_block(self.b7),
            b7: tipped_forwards_block(self.b3),
        }
    }

    /// The whole cube tipped to the right: the top now faces right.
    pub open(crate) spec fn tipped_right(self) -> Cube {
        Cube {
            b5: rolled_right_block(self.b1),
            b1: rolled_right_block(self.b0),
            b0: rolled_right_block(self.b4),
            b4: rolled_right_block(self.b5),
            b7: rolled_right_block(self.b3),
            b3: rolled_right_block(self.b2),
            b2: rolled_right_block(self.b6),
            b6: rolled_right_block(self.b7),
        }
    }

    /// The whole cube tipped to the left: the top now faces left.
    pub open(crate) spec fn tipped_left(self) -> Cube {
        Cube {
            b1: rolled_left_block(self.b5),
            b0: rolled_left_block(self.b1),
            b4: rolled_left_block(self.b0),
            b5: rolled_left_block(self.b4),
            b3: rolled_left_block(self.b7),
            b2: rolled_left_block(self.b3),
            b6: rolled_left_block(self.b2),
            b7: rolled_left_block(self.b6),
        }
    }

    /// The front face turned a quarter clockwise, as seen by the viewer.
    pub open(crate) spec fn front_twisted(self) -> Cube {
        Cube {
            b7: rolled_right_block(self.b3),
            b3: rolled_right_block(self.b2),
            b2: rolled_right_block(self.b6),
            b6: rolled_right_block(self.b7),
            ..self
        }
    }

    /// The front face turned a quarter anticlockwise, as seen by the viewer.
    pub open(crate) spec fn front_twisted_back(self) -> Cube {
        Cube {
            b3: rolled_left_block(self.b7),
            b2: rolled_left_block(self.b3),
            b6: rolled_left_block(self.b2),
            b7: rolled_left_block(self.b6),
            ..self
        }
    }

    /// The right face turned towards the viewer `n` times.
    pub open(crate) spec fn twisted_times(self, n: nat) -> Cube
        decreases n,
    {
        if n == 0 {
            self
        } else {
            self.twisted_times((n - 1) as nat).twisted()
        }
    }

    /// The first step of each of the six ways to bring a face on top.
    pub open(crate) spec fn base_orientation(self, k: int) -> Cube {
        if k == 0 {
            self
        } else if k == 1 {
            self.tipped_back()
        } else if k == 2 {
            self.tipped_back().tipped_back()
        } else if k == 3 {
            self.tipped_forwards()
        } else if k == 4 {
            self.tipped_right()
        } else {
            self.tipped_left()
        }
    }

    /// One of the 24 whole-cube rotations: base orientation `k`, then `j` turns.
    pub open(crate) spec fn orientation(self, k: int, j: int) -> Cube {
        let b = self.base_orientation(k);
        if j == 0 {
            b
        } else if j == 1 {
            b.turned()
        } else if j == 2 {
            b.turned().turned()
        } else {
            b.turned().turned().turned()
        }
    }

    /// Some rotation of the whole cube makes it exactly the solved configuration.
    pub open(crate) spec fn solved(self) -> bool {
        exists|k: int, j: int| 0 <= k < 6 && 0 <= j < 4 && #[trigger] self.orientation(k, j) == solved_cube()
    }

    /// The colour that the renderer shows on face `i` (0 to 11): the four top
    /// faces, then the right side and the front side, row by row.
    pub open(crate) spec fn face_color(self, i: int) -> Color {
        if i == 0 {
            self.b0.top
        } else if i == 1 {
            self.b1.top
        } else if i == 2 {
            self.b2.top
        } else if i == 3 {
            self.b3.top
        } else if i == 4 {
            self.b1.rhs
        } else if i == 5 {
            self.b3.rhs
        } else if i == 6 {
            self.b2.front
        } else if i == 7 {
            self.b3.front
        } else if i == 8 {
            self.b5.rhs
        } else if i == 9 {
            self.b7.rhs
        } else if i == 10 {
            self.b6.front
        } else {
            self.b7.front
        }
    }
}

impl Cube {
    /// The canonical solved configuration.
    pub fn new() -> (r: Cube)
        ensures
            r == solved_cube(),
    {
        Cube {
            b0: corner(false, false, false),
            b1: corner(true, false, false),
            b2: corner(false, true, false),
            b3: corner(true, true, false),
            b4: corner(false, false, true),
            b5: corner(true, false, true),
            b6: corner(false, true, true),
            b7: corner(true, true, true),
        }
    }

    /// Rotates the right-hand side of the cube towards the viewer.
    pub fn twist(&mut self)
        ensures
            *final(self) == old(self).twisted(),
    {
        proof {
            use_type_invariant(&*self);
        }
        let c = *self;
        let b1 = c.b5.tip_forwards();
        let b3 = c.b1.tip_forwards();
        let b5 = c.b7.tip_forwards();
        let b7 = c.b3.tip_forwards();
        *self = Cube { b0: c.b0, b1, b2: c.b2, b3, b4: c.b4, b5, b6: c.b6, b7 };
    }

    /// Rotates the bottom of the cube to the right.
    pub fn bottom_twist(&mut self)
        ensures
            *final(self) == old(self).bottom_twisted(),
    {
        proof {
            use_type_invariant(&*self);
        }
        let c = *self;
        let b6 = c.b4.turn_right();
        let b4 = c.b5.turn_right();
        let b7 = c.b6.turn_right();
        let b5 = c.b7.turn_right();
        *self = Cube { b0: c.b0, b1: c.b1, b2: c.b2, b3: c.b3, b4, b5, b6, b7 };
    }

    /// Turns the cube to the left so the rhs now faces to the front.
    pub fn turn(&mut self)
        ensures
            *final(self) == old(self).turned(),
    {
        proof {
            use_type_invariant(&*self);
        }
        let c = *self;
        let b0 = c.b2.turn_left();
        let b1 = c.b0.turn_left();
        let b2 = c.b3.turn_left();
        let b3 = c.b1.turn_left();
        let b4 = c.b6.turn_left();
        let b5 = c.b4.turn_left();
        let b6 = c.b7.turn_left();
        let b7 = c.b5.turn_left();
        *self = Cube { b0, b1, b2, b3, b4, b5, b6, b7 };
    }

    /// Rotates the right-hand side of the cube towards the viewer `amount`
    /// times; a negative amount does nothing.
    fn twist_by(&mut self, amount: i8)
        ensures
            *final(self) == old(self).twisted_times(if amount < 0 { 0 } else { amount as nat }),
    {
        let mut i: i8 = 0;
        while i < amount
            invariant
                0 <= i,
                amount < 0 ==> i == 0,
                amount >= 0 ==> i <= amount,
                *self == old(self).twisted_times(i as nat),
            decreases amount - i,
        {
            self.twist();
            i = i + 1;
        }
    }

    /// Rotates the right-hand side of the cube away from the viewer.
    pub fn twist_back(&mut self)
        ensures
            *final(self) == old(self).twisted_back(),
    {
        self.twist_by(3);
        assert(old(self).twisted_times(3) == old(self).twisted().twisted().twisted()) by {
            reveal_with_fuel(Cube::twisted_times, 4);
        }
    }

    /// Turns the cube to the right so the lhs now faces to the front.
    pub fn turn_back(&mut self)
        ensures
            *final(self) == old(self).turned_back(),
    {
        self.turn();
        self.turn();
        self.turn();
    }

    /// Rotates the bottom of the cube to the left.
    pub fn bottom_twist_back(&mut self)
        ensures
            *final(self) == old(self).bottom_twisted_back(),
    {
        let mut i: u8 = 0;
        while i < 3
            invariant
                i <= 3,
                i == 0 ==> *self == *old(self),
                i == 1 ==> *self == old(self).bottom_twisted(),
                i == 2 ==> *self == old(self).bottom_twisted().bottom_twisted(),
                i == 3 ==> *self == old(self).bottom_twisted().bottom_twisted().bottom_twisted(),
            decreases 3 - i,
        {
            self.bottom_twist();
            i = i + 1;
        }
    }

    /// Rotates the front of the cube clockwise.
    pub fn front_twist(&mut self)
        ensures
            *final(self) == old(self).front_twisted(),
    {
        self.turn_back();
        self.twist_back();
        self.turn();
    }

    /// Rotates the front of the cube counter clockwise.
    pub fn undo_front_twist(&mut self)
        ensures
            *final(self) == old(self).front_twisted_back(),
    {
        self.front_twist();
        self.front_twist();
        self.front_twist();
    }

    /// Tips the cube away from the viewer.
    pub fn tip_back(&mut self)
        ensures
            *final(self) == old(self).tipped_back(),
    {
        self.twist_back();
        self.turn();
        self.turn();
        self.twist();
        self.turn();
        self.turn();
    }

    /// Tips the cube towards the viewer.
    pub fn tip_forwards(&mut self)
        ensures
            *final(self) == old(self).tipped_forwards(),
    {
        self.tip_back();
        self.tip_back();
        self.tip_back();
    }

    /// Tips the cube to the right so the top now faces to the rhs.
    pub fn tip_right(&mut self)
        ensures
            *final(self) == old(self).tipped_right(),
    {
        self.turn();
        self.tip_forwards();
        self.turn_back();
    }

    /// Tips the cube to the left so the top now faces to the lhs.
    pub fn tip_left(&mut self)
        ensures
            *final(self) == old(self).tipped_left(),
    {
        self.tip_right();
        self.tip_right();
        self.tip_right();
    }
}

impl Cube {
    /// This cube after base orientation `k` of [`Cube::orientation`].
    fn base_oriented(&self, k: usize) -> (r: Cube)
        requires
            k < 6,
        ensures
            r == self.base_orientation(k as int),
    {
        let mut t = *self;
        if k == 1 {
            t.tip_back();
        } else if k == 2 {
            t.tip_back();
            t.tip_back();
        } else if k == 3 {
            t.tip_forwards();
        } else if k == 4 {
            t.tip_right();
        } else if k == 5 {
            t.tip_left();
        }
        t
    }

    /// Whether some whole-cube rotation, out of all 24, makes this cube exactly
    /// the solved configuration. Works on copies; the cube itself is untouched.
    pub fn is_solved(&self) -> (r: bool)
        ensures
            r == self.solved(),
    {
        let reference = Cube::new();
        let mut k: usize = 0;
        while k < 6
            invariant
                k <= 6,
                reference == solved_cube(),
                forall|kk: int, jj: int|
                    0 <= kk < k && 0 <= jj < 4 ==> #[trigger] self.orientation(kk, jj) != solved_cube(),
            decreases 6 - k,
        {
            let mut t = self.base_oriented(k);
            let mut j: usize = 0;
            while j < 4
                invariant
                    k < 6,
                    j <= 4,
                    reference == solved_cube(),
                    t == self.orientation(k as int, j as int) || j == 4,
                    forall|kk: int, jj: int|
                        0 <= kk < k && 0 <= jj < 4 ==> #[trigger] self.orientation(kk, jj) != solved_cube(),
                    forall|jj: int| 0 <= jj < j ==> #[trigger] self.orientation(k as int, jj) != solved_cube(),
                decreases 4 - j,
            {
                if t == reference {
                    return true;
                }
                t.turn();
                j = j + 1;
            }
            k = k + 1;
        }
        false
    }

    /// The colour shown on face `face_index` (see [`Cube::face_color`]).
    pub fn color_at(&self, face_index: i8) -> (r: Result<Color, FaceError>)
        ensures
            0 <= face_index < 12 ==> r == Ok::<Color, FaceError>(self.face_color(face_index as int)),
            !(0 <= face_index < 12) ==> r == Err::<Color, FaceError>(FaceError::HiddenFaceAccessed),
            r matches Ok(c) ==> c != Color::X,
    {
        proof {
            use_type_invariant(self);
        }
        match face_index {
            0 => Ok(self.b0.top),
            1 => Ok(self.b1.top),
            2 => Ok(self.b2.top),
            3 => Ok(self.b3.top),
            4 => Ok(self.b1.rhs),
            5 => Ok(self.b3.rhs),
            6 => Ok(self.b2.front),
            7 => Ok(self.b3.front),
            8 => Ok(self.b5.rhs),
            9 => Ok(self.b7.rhs),
            10 => Ok(self.b6.front),
            11 => Ok(self.b7.front),
            _ => Err(FaceError::HiddenFaceAccessed),
        }
    }
}

/// A number for each colour, the hidden `X` included.
pub open(crate) spec fn color_index(c: Color) -> u128 {
    match c {
        Color::Y => 0,
        Color::P => 1,
        Color::B => 2,
        Color::R => 3,
        Color::G => 4,
        Color::W => 5,
        Color::X => 6,
    }
}

/// The colours that a block shows on the three outward faces of the given
/// corner, as one number below 343.
#[verifier::opaque]
pub open(crate) spec fn block_code(b: Block, right: bool, front: bool, low: bool) -> u128 {
    (color_index(if low { b.bottom } else { b.top }) * 49
        + color_index(if right { b.rhs } else { b.lhs }) * 7
        + color_index(if front { b.front } else { b.back })) as u128
}

/// Eight numbers below 512 side by side, nine bits each.
#[verifier::opaque]
pub open(crate) spec fn pack(a0: u128, a1: u128, a2: u128, a3: u128, a4: u128, a5: u128, a6: u128, a7: u128) -> u128 {
    a0 | (a1 << 9) | (a2 << 18) | (a3 << 27) | (a4 << 36) | (a5 << 45) | (a6 << 54) | (a7 << 63)
}

proof fn lemma_pack_injective(
    a0: u128, a1: u128, a2: u128, a3: u128, a4: u128, a5: u128, a6: u128, a7: u128,
    b0: u128, b1: u128, b2: u128, b3: u128, b4: u128, b5: u128, b6: u128, b7: u128,
)
    by (bit_vector)
    requires
        a0 < 512 && a1 < 512 && a2 < 512 && a3 < 512 && a4 < 512 && a5 < 512 && a6 < 512 && a7 < 512,
        b0 < 512 && b1 < 512 && b2 < 512 && b3 < 512 && b4 < 512 && b5 < 512 && b6 < 512 && b7 < 512,
        a0 | (a1 << 9) | (a2 << 18) | (a3 << 27) | (a4 << 36) | (a5 << 45) | (a6 << 54) | (a7 << 63) == b0 | (b1 << 9) | (b2 << 18) | (b3 << 27) | (b4 << 36) | (b5 << 45) | (b6 << 54) | (b7 << 63),
    ensures
        a0 == b0 && a1 == b1 && a2 == b2 && a3 == b3 && a4 == b4 && a5 == b5 && a6 == b6 && a7 == b7,
{
}

proof fn lemma_pack_eq(a0: u128, a1: u128, a2: u128, a3: u128, a4: u128, a5: u128, a6: u128, a7: u128, b0: u128, b1: u128, b2: u128, b3: u128, b4: u128, b5: u128, b6: u128, b7: u128)
    requires
        a0 < 512 && a1 < 512 && a2 < 512 && a3 < 512 && a4 < 512 && a5 < 512 && a6 < 512 && a7 < 512,
        b0 < 512 && b1 < 512 && b2 < 512 && b3 < 512 && b4 < 512 && b5 < 512 && b6 < 512 && b7 < 512,
        pack(a0, a1, a2, a3, a4, a5, a6, a7) == pack(b0, b1, b2, b3, b4, b5, b6, b7),
    ensures
        a0 == b0 && a1 == b1 && a2 == b2 && a3 == b3 && a4 == b4 && a5 == b5 && a6 == b6 && a7 == b7,
{
    reveal(pack);
    lemma_pack_injective(a0, a1, a2, a3, a4, a5, a6, a7, b0, b1, b2, b3, b4, b5, b6, b7);
}

fn color_number(c: Color) -> (r: u128)
    ensures
        r == color_index(c),
{
    match c {
        Color::Y => 0,
        Color::P => 1,
        Color::B => 2,
        Color::R => 3,
        Color::G => 4,
        Color::W => 5,
        Color::X => 6,
    }
}

fn code_of(b: &Block, right: bool, front: bool, low: bool) -> (r: u128)
    ensures
        r == block_code(*b, right, front, low),
        r < 343,
{
    let v = color_number(if low { b.bottom } else { b.top });
    let h = color_number(if right { b.rhs } else { b.lhs });
    let d = color_number(if front { b.front } else { b.back });
    proof {
        reveal(block_code);
    }
    v * 49 + h * 7 + d
}

impl Cube {
    /// The number that identifies this state in a solver's visited set.
    pub open(crate) spec fn key_of(self) -> u128 {
        pack(
            block_code(self.b0, false, false, false),
            block_code(self.b1, true, false, false),
            block_code(self.b2, false, true, false),
            block_code(self.b3, true, true, false),
            block_code(self.b4, false, false, true),
            block_code(self.b5, true, false, true),
            block_code(self.b6, false, true, true),
            block_code(self.b7, true, true, true),
        )
    }

    pub(crate) fn key(&self) -> (r: u128)
        ensures
            r == self.key_of(),
            self.well_formed(),
    {
        proof {
            use_type_invariant(self);
        }
        let a0 = code_of(&self.b0, false, false, false);
        let a1 = code_of(&self.b1, true, false, false);
        let a2 = code_of(&self.b2, false, true, false);
        let a3 = code_of(&self.b3, true, true, false);
        let a4 = code_of(&self.b4, false, false, true);
        let a5 = code_of(&self.b5, true, false, true);
        let a6 = code_of(&self.b6, false, true, true);
        let a7 = code_of(&self.b7, true, true, true);
        proof {
            reveal(pack);
        }
        a0 | (a1 << 9) | (a2 << 18) | (a3 << 27) | (a4 << 36) | (a5 << 45) | (a6 << 54) | (a7 << 63)
    }
}

/// Two blocks at the same corner that show the same outward colours are equal.
proof fn lemma_block_code_injective(a: Block, b: Block, right: bool, front: bool, low: bool)
    requires
        faces_out(a, right, front, low),
        faces_out(b, right, front, low),
        block_code(a, right, front, low) == block_code(b, right, front, low),
    ensures
        a == b,
{
    reveal(block_code);
}

proof fn lemma_block_code_bound(b: Block, right: bool, front: bool, low: bool)
    ensures
        block_code(b, right, front, low) < 512,
{
    reveal(block_code);
}

/// Distinct well-formed states have distinct keys.
pub(crate) proof fn lemma_key_injective(a: Cube, b: Cube)
    requires
        a.well_formed(),
        b.well_formed(),
        a.key_of() == b.key_of(),
    ensures
        a == b,
{
    lemma_block_code_bound(a.b0, false, false, false);
    lemma_block_code_bound(a.b1, true, false, false);
    lemma_block_code_bound(a.b2, false, true, false);
    lemma_block_code_bound(a.b3, true, true, false);
    lemma_block_code_bound(a.b4, false, false, true);
    lemma_block_code_bound(a.b5, true, false, true);
    lemma_block_code_bound(a.b6, false, true, true);
    lemma_block_code_bound(a.b7, true, true, true);
    lemma_block_code_bound(b.b0, false, false, false);
    lemma_block_code_bound(b.b1, true, false, false);
    lemma_block_code_bound(b.b2, false, true, false);
    lemma_block_code_bound(b.b3, true, true, false);
    lemma_block_code_bound(b.b4, false, false, true);
    lemma_block_code_bound(b.b5, true, false, true);
    lemma_block_code_bound(b.b6, false, true, true);
    lemma_block_code_bound(b.b7, true, true, true);
    lemma_pack_eq(
        block_code(a.b0, false, false, false),
        block_code(a.b1, true, false, false),
        block_code(a.b2, false, true, false),
        block_code(a.b3, true, true, false),
        block_code(a.b4, false, false, true),
        block_code(a.b5, true, false, true),
        block_code(a.b6, false, true, true),
        block_code(a.b7, true, true, true),
        block_code(b.b0, false, false, false),
        block_code(b.b1, true, false, false),
        block_code(b.b2, false, true, false),
        block_code(b.b3, true, true, false),
        block_code(b.b4, false, false, true),
        block_code(b.b5, true, false, true),
        block_code(b.b6, false, true, true),
        block_code(b.b7, true, true, true),
    );
    lemma_block_code_injective(a.b0, b.b0, false, false, false);
    lemma_block_code_injective(a.b1, b.b1, true, false, false);
    lemma_block_code_injective(a.b2, b.b2, false, true, false);
    lemma_block_code_injective(a.b3, b.b3, true, true, false);
    lemma_block_code_injective(a.b4, b.b4, false, false, true);
    lemma_block_code_injective(a.b5, b.b5, true, false, true);
    lemma_block_code_injective(a.b6, b.b6, false, true, true);
    lemma_block_code_injective(a.b7, b.b7, true, true, true);
}

proof fn lemma_pack_bound(a0: u128, a1: u128, a2: u128, a3: u128, a4: u128, a5: u128, a6: u128, a7: u128)
    by (bit_vector)
    requires
        a0 < 512 && a1 < 512 && a2 < 512 && a3 < 512 && a4 < 512 && a5 < 512 && a6 < 512 && a7 < 512,
    ensures
        a0 | (a1 << 9) | (a2 << 18) | (a3 << 27) | (a4 << 36) | (a5 << 45) | (a6 << 54) | (a7 << 63) < 0x1000000000000000000u128,
{
}

/// Every key is below 2^72.
pub(crate) proof fn lemma_key_bound(c: Cube)
    ensures
        c.key_of() < 0x1000000000000000000u128,
{
    lemma_block_code_bound(c.b0, false, false, false);
    lemma_block_code_bound(c.b1, true, false, false);
    lemma_block_code_bound(c.b2, false, true, false);
    lemma_block_code_bound(c.b3, true, true, false);
    lemma_block_code_bound(c.b4, false, false, true);
    lemma_block_code_bound(c.b5, true, false, true);
    lemma_block_code_bound(c.b6, false, true, true);
    lemma_block_code_bound(c.b7, true, true, true);
    reveal(pack);
    lemma_pack_bound(
        block_code(c.b0, false, false, false),
        block_code(c.b1, true, false, false),
        block_code(c.b2, false, true, false),
        block_code(c.b3, true, true, false),
        block_code(c.b4, false, false, true),
        block_code(c.b5, true, false, true),
        block_code(c.b6, false, true, true),
        block_code(c.b7, true, true, true),
    );
}

impl Cube {
    /// The block at grid position `position`, if there is one.
    pub open(crate) spec fn block_at(self, position: int) -> Option<Block> {
        if position == 0 {
            Some(self.b0)
        } else if position == 1 {
            Some(self.b1)
        } else if position == 2 {
            Some(self.b2)
        } else if position == 3 {
            Some(self.b3)
        } else if position == 4 {
            Some(self.b4)
        } else if position == 5 {
            Some(self.b5)
        } else if position == 6 {
            Some(self.b6)
        } else if position == 7 {
            Some(self.b7)
        } else {
            None
        }
    }

    /// The block at grid position `position` (0 to 7), or `None` past the grid.
    pub fn block(&self, position: u8) -> (r: Option<Block>)
        ensures
            r == self.block_at(position as int),
    {
        match position {
            0 => Some(self.b0),
            1 => Some(self.b1),
            2 => Some(self.b2),
            3 => Some(self.b3),
            4 => Some(self.b4),
            5 => Some(self.b5),
            6 => Some(self.b6),
            7 => Some(self.b7),
            _ => None,
        }
    }
}

/// The six face colours of a block, hidden faces included.
pub open(crate) spec fn palette(b: Block) -> Multiset<Color> {
    Multiset::empty().insert(b.top).insert(b.bottom).insert(b.lhs).insert(b.rhs).insert(b.front).insert(
        b.back,
    )
}

impl Cube {
    /// The pieces of the cube, each known by its colours, wherever it stands
    /// and however it is turned.
    pub open(crate) spec fn pieces(self) -> Multiset<Multiset<Color>> {
        Multiset::empty().insert(palette(self.b0)).insert(palette(self.b1)).insert(
            palette(self.b2),
        ).insert(palette(self.b3)).insert(palette(self.b4)).insert(palette(self.b5)).insert(
            palette(self.b6),
        ).insert(palette(self.b7))
    }
}

proof fn lemma_palette_tipped_back_block(b: Block)
    ensures
        palette(tipped_back_block(b)) == palette(b),
{
    assert(palette(tipped_back_block(b)) =~= palette(b));
}

proof fn lemma_palette_tipped_forwards_block(b: Block)
    ensures
        palette(tipped_forwards_block(b)) == palette(b),
{
    assert(palette(tipped_forwards_block(b)) =~= palette(b));
}

proof fn lemma_palette_turned_right_block(b: Block)
    ensures
        palette(turned_right_block(b)) == palette(b),
{
    assert(palette(turned_right_block(b)) =~= palette(b));
}

proof fn lemma_palette_turned_left_block(b: Block)
    ensures
        palette(turned_left_block(b)) == palette(b),
{
    assert(palette(turned_left_block(b)) =~= palette(b));
}

proof fn lemma_palette_rolled_right_block(b: Block)
    ensures
        palette(rolled_right_block(b)) == palette(b),
{
    assert(palette(rolled_right_block(b)) =~= palette(b));
}

proof fn lemma_palette_rolled_left_block(b: Block)
    ensures
        palette(rolled_left_block(b)) == palette(b),
{
    assert(palette(rolled_left_block(b)) =~= palette(b));
}

/// Turning a block never changes its colours.
pub(crate) proof fn lemma_palettes(b: Block)
    ensures
        palette(tipped_back_block(b)) == palette(b),
        palette(tipped_forwards_block(b)) == palette(b),
        palette(turned_right_block(b)) == palette(b),
        palette(turned_left_block(b)) == palette(b),
        palette(rolled_right_block(b)) == palette(b),
        palette(rolled_left_block(b)) == palette(b),
{
    lemma_palette_tipped_back_block(b);
    lemma_palette_tipped_forwards_block(b);
    lemma_palette_turned_right_block(b);
    lemma_palette_turned_left_block(b);
    lemma_palette_rolled_right_block(b);
    lemma_palette_rolled_left_block(b);
}

} // verus!
