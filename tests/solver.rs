use cube_solver::cube::Cube;
use cube_solver::moves::Move;
use cube_solver::solver::{solve_cube, Solver};

#[test]
fn test_solve_is_noop_on_already_solved_cube() {
    let cube = Cube::new();
    let mut solver = Solver::new();
    let (result, _) = solver.solve(cube).unwrap();

    assert!(result.is_solved());
}

#[test]
fn test_can_solve_twisted_cube() {
    let mut solver = Solver::new();
    let mut cube = Cube::new();
    cube.twist();
    cube.twist();
    let (result, _) = solver.solve(cube).unwrap();

    assert!(result.is_solved());
}

#[test]
fn test_can_solve_turned_and_twisted_cube() {
    let mut solver = Solver::new();
    let mut cube = Cube::new();
    cube.turn();
    cube.turn();
    cube.twist();
    cube.twist();
    let (result, _) = solver.solve(cube).unwrap();

    assert!(result.is_solved());
}

#[test]
fn test_solve_cube_after_various_operations() {
    let mut cube = Cube::new();
    cube.twist();
    cube.turn();

    cube.twist();
    cube.turn();

    cube.twist();
    cube.turn();

    cube.bottom_twist();

    assert!(!cube.is_solved());

    let mut solver = Solver::new();
    let (result, _) = solver.solve(cube).unwrap();

    assert!(result.is_solved());
}

fn replay(start: Cube, moves: &[Move]) -> Cube {
    let mut c = start;
    for m in moves {
        c.apply(*m);
    }
    c
}

#[test]
fn solving_a_solved_cube_returns_it_unchanged() {
    let (result, history) = solve_cube(Cube::new()).unwrap();
    assert_eq!(result, Cube::new());
    assert!(history.is_empty());
}

#[test]
fn solving_two_twists_takes_two_twists() {
    let mut cube = Cube::new();
    cube.twist();
    cube.twist();
    let (result, history) = solve_cube(cube).unwrap();
    assert_eq!(history, vec![Move::Twist, Move::Twist]);
    assert_eq!(result, Cube::new());
    assert_eq!(replay(cube, &history), result);
}

#[test]
fn solving_twist_then_turn_takes_one_front_twist() {
    let mut cube = Cube::new();
    cube.twist();
    cube.turn();
    let (result, history) = solve_cube(cube).unwrap();
    assert_eq!(history, vec![Move::FrontTwist]);
    assert!(result.is_solved());
    assert_eq!(replay(cube, &history), result);
}

#[test]
fn solution_history_replays_to_the_result() {
    let mut cube = Cube::new();
    cube.twist();
    cube.turn();
    cube.twist();
    cube.turn();
    cube.twist();
    cube.turn();
    cube.bottom_twist();
    let (result, history) = solve_cube(cube).unwrap();
    assert!(result.is_solved());
    assert_eq!(history.len(), 8);
    for m in &history {
        assert!(matches!(m, Move::Twist | Move::FrontTwist | Move::BottomTwist));
    }
    assert_eq!(replay(cube, &history), result);
}

#[test]
fn three_move_scramble_takes_nine_generator_moves() {
    let scramble = [Move::FrontTwist, Move::BottomTwist, Move::Twist];
    let cube = replay(Cube::new(), &scramble);
    let (result, history) = solve_cube(cube).unwrap();
    assert!(result.is_solved());
    assert_eq!(history.len(), 9);
}

#[test]
fn repeated_solves_give_the_same_answer() {
    let mut other = Cube::new();
    other.front_twist();
    other.bottom_twist();
    let mut cube = Cube::new();
    cube.twist();
    cube.turn();
    cube.bottom_twist();
    let mut solver = Solver::new();
    let first = solver.solve(cube).unwrap();
    let _ = solver.solve(other).unwrap();
    let again = solver.solve(cube).unwrap();
    let fresh = Solver::new().solve(cube).unwrap();
    assert_eq!(first, again);
    assert_eq!(first, fresh);
}
