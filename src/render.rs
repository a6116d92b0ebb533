//! The text picture of the puzzle: the top, front and right faces drawn as
//! an isometric box, one letter per visible sticker.
use vstd::prelude::*;
use vstd::string::*;
use crate::cube::{Color, Cube, FaceError};

verus! {

/// The lower-case letter of a sticker colour; the hidden `X` has none.
pub open spec fn color_letter(c: Color) -> Option<char> {
    match c {
        Color::Y => Some('y'),
        Color::P => Some('p'),
        Color::B => Some('b'),
        Color::R => Some('r'),
        Color::G => Some('g'),
        Color::W => Some('w'),
        Color::X => None,
    }
}

impl Color {
    /// The letter that the picture shows for this colour; a hidden face has
    /// none to show.
    pub fn to_char(self) -> (r: Result<char, FaceError>)
        ensures
            r == (match color_letter(self) {
                Some(ch) => Ok::<char, FaceError>(ch),
                None => Err::<char, FaceError>(FaceError::HiddenFaceAccessed),
            }),
    {
        match self {
            Color::Y => Ok('y'),
            Color::P => Ok('p'),
            Color::B => Ok('b'),
            Color::R => Ok('r'),
            Color::G => Ok('g'),
            Color::W => Ok('w'),
            Color::X => Err(FaceError::HiddenFaceAccessed),
        }
    }
}

/// The fixed text between the letters of the picture: segment `i` comes
/// before face `i`, and segment 12 closes the picture.
pub open spec fn segment(i: int) -> Seq<char> {
    if i == 0 {
        "\n                ____________\n               /  "@
    } else if i == 1 {
        "  /  "@
    } else if i == 2 {
        "  /|\n              /_____/_____/ |\n             /  "@
    } else if i == 3 {
        "  /  "@
    } else if i == 4 {
        "  /|"@
    } else if i == 5 {
        "|\n            /_____/_____/ | |\n            |     |     |"@
    } else if i == 6 {
        "|/|\n            |  "@
    } else if i == 7 {
        "  |  "@
    } else if i == 8 {
        "  | /"@
    } else if i == 9 {
        "|\n            |_____|_____|/| |\n            |     |     |"@
    } else if i == 10 {
        "|/\n            |  "@
    } else if i == 11 {
        "  |  "@
    } else {
        "  | /\n            |_____|_____|/\n"@
    }
}

fn segment_text(i: usize) -> (r: &'static str)
    requires
        i < 13,
    ensures
        r@ == segment(i as int),
{
    if i == 0 {
        "\n                ____________\n               /  "
    } else if i == 1 {
        "  /  "
    } else if i == 2 {
        "  /|\n              /_____/_____/ |\n             /  "
    } else if i == 3 {
        "  /  "
    } else if i == 4 {
        "  /|"
    } else if i == 5 {
        "|\n            /_____/_____/ | |\n            |     |     |"
    } else if i == 6 {
        "|/|\n            |  "
    } else if i == 7 {
        "  |  "
    } else if i == 8 {
        "  | /"
    } else if i == 9 {
        "|\n            |_____|_____|/| |\n            |     |     |"
    } else if i == 10 {
        "|/\n            |  "
    } else if i == 11 {
        "  |  "
    } else {
        "  | /\n            |_____|_____|/\n"
    }
}

/// The letter drawn on face `i` of `c`.
pub open spec fn face_letter(c: Cube, i: int) -> char {
    match color_letter(c.face_color(i)) {
        Some(ch) => ch,
        None => ' ',
    }
}

/// The picture up to and including segment `n`.
pub open spec fn picture_upto(c: Cube, n: nat) -> Seq<char>
    decreases n,
{
    if n == 0 {
        segment(0)
    } else {
        picture_upto(c, (n - 1) as nat) + seq![face_letter(c, n - 1)] + segment(n as int)
    }
}

/// The whole picture of `c`.
pub open spec fn picture(c: Cube) -> Seq<char> {
    picture_upto(c, 12)
}

/// The one-letter text of a visible colour.
fn letter_text(c: Color) -> (r: &'static str)
    requires
        c != Color::X,
    ensures
        r@ == seq![color_letter(c)->Some_0],
{
    match c {
        Color::Y => {
            proof {
                reveal_strlit("y");
            }
            "y"
        },
        Color::P => {
            proof {
                reveal_strlit("p");
            }
            "p"
        },
        Color::B => {
            proof {
                reveal_strlit("b");
            }
            "b"
        },
        Color::R => {
            proof {
                reveal_strlit("r");
            }
            "r"
        },
        Color::G => {
            proof {
                reveal_strlit("g");
            }
            "g"
        },
        _ => {
            proof {
                reveal_strlit("w");
            }
            "w"
        },
    }
}

impl Cube {
    /// The letter drawn on face `face_index` (0 to 11), as text.
    fn face_text(&self, face_index: i8) -> (r: &'static str)
        requires
            0 <= face_index < 12,
        ensures
            r@ == seq![face_letter(*self, face_index as int)],
    {
        match self.color_at(face_index) {
            Ok(c) => letter_text(c),
            Err(_) => " ",
        }
    }

    /// Draws the top, front and right faces of the cube as text.
    pub fn to_string(&self) -> (r: String)
        ensures
            r@ == picture(*self),
    {
        let mut out = String::new();
        out.append(segment_text(0));
        let mut i: i8 = 0;
        while i < 12
            invariant
                0 <= i <= 12,
                out@ == picture_upto(*self, i as nat),
            decreases 12 - i,
        {
            out.append(self.face_text(i));
            out.append(segment_text((i + 1) as usize));
            i = i + 1;
        }
        out
    }
}

} // verus!
