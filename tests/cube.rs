use cube_solver::cube::Cube;

#[test]
fn test_new_cube_is_solved() {
    let cube = Cube::new();
    assert!(cube.is_solved());
}

#[test]
fn test_cube_twisted_once_is_not_solved() {
    let mut cube = Cube::new();
    cube.twist();
    assert!(!cube.is_solved());
}

#[test]
fn test_cube_twisted_twice_is_not_solved() {
    let mut cube = Cube::new();
    cube.twist();
    cube.twist();
    assert!(!cube.is_solved());
}

#[test]
fn test_cube_twisted_four_times_is_solved() {
    let mut cube = Cube::new();
    cube.twist();
    cube.twist();
    cube.twist();
    cube.twist();
    assert_eq!(cube, Cube::new());
    assert!(cube.is_solved());
}

#[test]
fn test_twist_and_twist_back_is_solved() {
    let mut cube = Cube::new();
    cube.twist();
    assert!(!cube.is_solved());
    cube.twist_back();
    assert!(cube.is_solved(), "{:#?}", cube);
}

#[test]
fn test_twist_front_four_times_is_solved() {
    let mut cube = Cube::new();
    cube.front_twist();
    cube.front_twist();
    cube.front_twist();
    cube.front_twist();
    assert!(cube.is_solved(), "{:#?}", cube);
}

#[test]
fn test_turned_cube_is_still_solved() {
    let mut cube = Cube::new();
    cube.turn();
    assert!(cube.is_solved());
}

#[test]
fn test_turn_and_tip_back_is_still_solved() {
    let mut cube = Cube::new();
    cube.turn();
    cube.tip_back();
    assert!(cube.is_solved());
}

#[test]
fn test_tip_back_and_turn_is_still_solved() {
    let mut cube = Cube::new();
    cube.tip_back();
    cube.turn();
    assert!(cube.is_solved());
}

#[test]
fn test_turn_back_is_still_solved() {
    let mut cube = Cube::new();
    cube.turn_back();
    assert!(cube.is_solved());
}

#[test]
fn test_tip_forwards_is_still_solved() {
    let mut cube = Cube::new();
    cube.tip_forwards();
    assert!(cube.is_solved());
}

#[test]
fn test_tip_back_is_still_solved() {
    let mut cube = Cube::new();
    cube.tip_back();
    assert!(cube.is_solved());
}

#[test]
fn test_turn_and_turn_back_same_as_original() {
    let mut cube = Cube::new();
    cube.turn();
    cube.turn_back();
    assert_eq!(&cube.to_string(), &Cube::new().to_string());
}

#[test]
fn test_cube_to_string() {
    let cube = Cube::new();
    let expected = "
                ____________
               /  y  /  y  /|
              /_____/_____/ |
             /  y  /  y  /|b|
            /_____/_____/ | |
            |     |     |b|/|
            |  r  |  r  | /b|
            |_____|_____|/| |
            |     |     |b|/
            |  r  |  r  | /
            |_____|_____|/
";
    assert_eq!(&cube.to_string(), expected);
}

#[test]
fn test_bottom_twist_to_string() {
    let mut cube = Cube::new();
    cube.bottom_twist();
    let expected = "
                ____________
               /  y  /  y  /|
              /_____/_____/ |
             /  y  /  y  /|b|
            /_____/_____/ | |
            |     |     |b|/|
            |  r  |  r  | /r|
            |_____|_____|/| |
            |     |     |r|/
            |  g  |  g  | /
            |_____|_____|/
";
    assert_eq!(&cube.to_string(), expected);
}

#[test]
fn test_tip_back_to_string() {
    let mut cube = Cube::new();
    cube.tip_back();
    let expected = "
                ____________
               /  r  /  r  /|
              /_____/_____/ |
             /  r  /  r  /|b|
            /_____/_____/ | |
            |     |     |b|/|
            |  w  |  w  | /b|
            |_____|_____|/| |
            |     |     |b|/
            |  w  |  w  | /
            |_____|_____|/
";
    assert_eq!(&cube.to_string(), expected);
}

#[test]
fn test_front_twist_cube_to_string() {
    let mut cube = Cube::new();
    cube.front_twist();
    let expected = "
                ____________
               /  y  /  y  /|
              /_____/_____/ |
             /  g  /  g  /|b|
            /_____/_____/ | |
            |     |     |y|/|
            |  r  |  r  | /b|
            |_____|_____|/| |
            |     |     |y|/
            |  r  |  r  | /
            |_____|_____|/
";
    assert_eq!(&cube.to_string(), expected);
}

#[test]
fn test_twice_twisted_cube_to_string() {
    let mut cube = Cube::new();

    cube.twist();
    cube.twist();

    let expected = "
                ____________
               /  y  /  w  /|
              /_____/_____/ |
             /  y  /  w  /|b|
            /_____/_____/ | |
            |     |     |b|/|
            |  r  |  p  | /b|
            |_____|_____|/| |
            |     |     |b|/
            |  r  |  p  | /
            |_____|_____|/
";
    assert!(!cube.is_solved(), "{:#?}", cube);
    assert_eq!(&cube.to_string(), expected);
}

#[test]
fn test_twisted_cube_to_string() {
    let mut cube = Cube::new();

    cube.twist();

    let expected = "
                ____________
               /  y  /  p  /|
              /_____/_____/ |
             /  y  /  p  /|b|
            /_____/_____/ | |
            |     |     |b|/|
            |  r  |  y  | /b|
            |_____|_____|/| |
            |     |     |b|/
            |  r  |  y  | /
            |_____|_____|/
";
    assert_eq!(&cube.to_string(), expected);
}

#[test]
fn test_twist_then_turn_to_string() {
    let mut cube = Cube::new();

    cube.twist();
    cube.turn();

    let expected = "
                ____________
               /  y  /  y  /|
              /_____/_____/ |
             /  p  /  p  /|p|
            /_____/_____/ | |
            |     |     |w|/|
            |  b  |  b  | /p|
            |_____|_____|/| |
            |     |     |w|/
            |  b  |  b  | /
            |_____|_____|/
";
    assert_eq!(&cube.to_string(), expected);
}

#[test]
fn test_turned_cube_to_string() {
    let mut cube = Cube::new();

    cube.turn();

    let expected = "
                ____________
               /  y  /  y  /|
              /_____/_____/ |
             /  y  /  y  /|p|
            /_____/_____/ | |
            |     |     |p|/|
            |  b  |  b  | /p|
            |_____|_____|/| |
            |     |     |p|/
            |  b  |  b  | /
            |_____|_____|/
";
    assert_eq!(&cube.to_string(), expected);
}

#[test]
fn test_tip_right_to_string() {
    let mut cube = Cube::new();

    cube.tip_right();

    let expected = "
                ____________
               /  g  /  g  /|
              /_____/_____/ |
             /  g  /  g  /|y|
            /_____/_____/ | |
            |     |     |y|/|
            |  r  |  r  | /y|
            |_____|_____|/| |
            |     |     |y|/
            |  r  |  r  | /
            |_____|_____|/
";
    assert_eq!(&cube.to_string(), expected);
}
#[test]
fn test_turn_then_twist_to_string() {
    let mut cube = Cube::new();

    cube.turn();
    cube.twist();

    let expected = "
                ____________
               /  y  /  g  /|
              /_____/_____/ |
             /  y  /  g  /|p|
            /_____/_____/ | |
            |     |     |p|/|
            |  b  |  y  | /p|
            |_____|_____|/| |
            |     |     |p|/
            |  b  |  y  | /
            |_____|_____|/
";
    assert_eq!(expected, &cube.to_string(), "{:#?}", cube);
    assert_eq!(&cube.to_string(), expected);
}
#[test]
fn test_thrice_twisted_to_string_same_as_twist_back() {
    let orig_cube = Cube::new();
    let mut cube_a = orig_cube;
    let mut cube_b = orig_cube;

    cube_a.twist();
    cube_a.twist();
    cube_a.twist();

    cube_b.twist_back();

    assert_eq!(&cube_b.to_string(), &cube_a.to_string());
}
