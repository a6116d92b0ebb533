//! Breadth-first search over the states that the generator moves reach.
use vstd::prelude::*;
use vstd::set_lib::{set_int_range, lemma_int_range, lemma_len_subset};
use std::collections::HashSet;
use crate::cube::{Cube, lemma_key_injective, lemma_key_bound};
use crate::cube::solved_cube;
use crate::laws::lemma_reachable_is_solvable;
use crate::moves::{
    Move, moved, apply_moves, is_generator, all_generators, solvable, gen_rank, lex_before,
    shortlex_lt, shortlex_le,
};

verus! {

broadcast use vstd::std_specs::hash::group_hash_axioms;

/// The search ran out of states without reaching a solved one.
#[derive(Clone, Copy, Debug, PartialEq, Eq, Hash, Structural)]
pub struct SearchExhausted;

/// Finds the first shortest sequence of generator moves that solves a cube.
#[derive(Clone, Copy, Debug, PartialEq, Eq, Hash, Structural)]
pub struct Solver;

/// How many distinct keys there are: each state gets one below this.
pub open spec fn key_space() -> int {
    0x1000000000000000000
}

/// What `solve` owes for the start state `start`: success exactly when some
/// generator sequence solves it, and then the solved state reached by the
/// returned sequence, which is the first solving generator sequence in
/// shortlex order (shortest first, then twist before front twist before
/// bottom twist at the first difference).
pub open spec fn solve_result(start: Cube, r: Result<(Cube, Vec<Move>), SearchExhausted>) -> bool {
    &&& r is Ok <==> solvable(start)
    &&& r matches Ok((s, h)) ==> {
        &&& s.solved()
        &&& s == apply_moves(start, h@)
        &&& all_generators(h@)
        &&& forall|ms: Seq<Move>|
            all_generators(ms) && (#[trigger] apply_moves(start, ms)).solved() ==> shortlex_le(h@, ms)
    }
}

proof fn lemma_lt_irreflexive(a: Seq<Move>)
    ensures
        !shortlex_lt(a, a),
{
    reveal(lex_before);
}

proof fn lemma_lt_transitive(a: Seq<Move>, b: Seq<Move>, c: Seq<Move>)
    requires
        shortlex_lt(a, b),
        shortlex_lt(b, c),
    ensures
        shortlex_lt(a, c),
{
    reveal(lex_before);
    if a.len() == b.len() && b.len() == c.len() {
        let k1 = choose|k: int|
            0 <= k < a.len() && k < b.len() && (forall|i: int| 0 <= i < k ==> a[i] == b[i]) && #[trigger] gen_rank(a[k])
                < gen_rank(b[k]);
        let k2 = choose|k: int|
            0 <= k < b.len() && k < c.len() && (forall|i: int| 0 <= i < k ==> b[i] == c[i]) && #[trigger] gen_rank(b[k])
                < gen_rank(c[k]);
        let k = if k1 < k2 { k1 } else { k2 };
        assert(forall|i: int| 0 <= i < k ==> a[i] == c[i]);
        assert(gen_rank(a[k]) < gen_rank(c[k]));
    }
}

proof fn lemma_le_lt_transitive(a: Seq<Move>, b: Seq<Move>, c: Seq<Move>)
    requires
        shortlex_le(a, b),
        shortlex_lt(b, c),
    ensures
        shortlex_lt(a, c),
{
    if a != b {
        lemma_lt_transitive(a, b, c);
    }
}

proof fn lemma_le_transitive(a: Seq<Move>, b: Seq<Move>, c: Seq<Move>)
    requires
        shortlex_le(a, b),
        shortlex_le(b, c),
    ensures
        shortlex_le(a, c),
{
    if a != b && b != c {
        lemma_lt_transitive(a, b, c);
    }
}

/// Generator sequences are totally ordered.
proof fn lemma_total(a: Seq<Move>, b: Seq<Move>)
    requires
        all_generators(a),
        all_generators(b),
    ensures
        shortlex_le(a, b) || shortlex_lt(b, a),
    decreases a.len(),
{
    reveal(lex_before);
    if a.len() == b.len() && a.len() > 0 {
        let a1 = a.drop_last();
        let b1 = b.drop_last();
        let n = a.len() - 1;
        assert(all_generators(a1)) by {
            assert forall|i: int| 0 <= i < a1.len() implies is_generator(#[trigger] a1[i]) by {
                assert(a1[i] == a[i]);
            }
        }
        assert(all_generators(b1)) by {
            assert forall|i: int| 0 <= i < b1.len() implies is_generator(#[trigger] b1[i]) by {
                assert(b1[i] == b[i]);
            }
        }
        assert(is_generator(a[n]) && is_generator(b[n]));
        lemma_total(a1, b1);
        if a1 == b1 {
            if a[n] == b[n] {
                assert forall|i: int| 0 <= i < a.len() implies a[i] == b[i] by {
                    if i < n {
                        assert(a[i] == a1[i] && b[i] == b1[i]);
                    }
                }
                assert(a =~= b);
            } else if gen_rank(a[n]) < gen_rank(b[n]) {
                assert(forall|i: int| 0 <= i < n ==> a[i] == a1[i] && b[i] == b1[i]);
                assert(lex_before(a, b));
            } else {
                assert(forall|i: int| 0 <= i < n ==> a[i] == a1[i] && b[i] == b1[i]);
                assert(lex_before(b, a));
            }
        } else if shortlex_lt(a1, b1) {
            let k = choose|k: int|
                0 <= k < a1.len() && k < b1.len() && (forall|i: int| 0 <= i < k ==> a1[i] == b1[i]) && #[trigger] gen_rank(
                    a1[k],
                ) < gen_rank(b1[k]);
            assert(forall|i: int| 0 <= i < k ==> a[i] == a1[i] && b[i] == b1[i]);
            assert(gen_rank(a[k]) < gen_rank(b[k]));
            assert(lex_before(a, b));
        } else {
            let k = choose|k: int|
                0 <= k < b1.len() && k < a1.len() && (forall|i: int| 0 <= i < k ==> b1[i] == a1[i]) && #[trigger] gen_rank(
                    b1[k],
                ) < gen_rank(a1[k]);
            assert(forall|i: int| 0 <= i < k ==> a[i] == a1[i] && b[i] == b1[i]);
            assert(gen_rank(b[k]) < gen_rank(a[k]));
            assert(lex_before(b, a));
        }
    } else if a.len() == 0 && b.len() == 0 {
        assert(a =~= b);
    }
}

/// Appending keeps a strict order, whatever is appended.
proof fn lemma_lt_push(a: Seq<Move>, b: Seq<Move>, x: Move, y: Move)
    requires
        shortlex_lt(a, b),
    ensures
        shortlex_lt(a.push(x), b.push(y)),
{
    reveal(lex_before);
    if a.len() == b.len() {
        let k = choose|k: int|
            0 <= k < a.len() && k < b.len() && (forall|i: int| 0 <= i < k ==> a[i] == b[i]) && #[trigger] gen_rank(a[k])
                < gen_rank(b[k]);
        assert(forall|i: int| 0 <= i < k ==> a.push(x)[i] == b.push(y)[i]);
        assert(gen_rank(a.push(x)[k]) < gen_rank(b.push(y)[k]));
    }
}

/// Appending the same move keeps the order.
proof fn lemma_le_push(a: Seq<Move>, b: Seq<Move>, g: Move)
    requires
        shortlex_le(a, b),
    ensures
        shortlex_le(a.push(g), b.push(g)),
{
    if a != b {
        lemma_lt_push(a, b, g, g);
    }
}

/// After the same prefix, an earlier generator comes first.
proof fn lemma_push_rank(a: Seq<Move>, x: Move, y: Move)
    requires
        gen_rank(x) < gen_rank(y),
    ensures
        shortlex_lt(a.push(x), a.push(y)),
{
    reveal(lex_before);
    let k = a.len() as int;
    assert(forall|i: int| 0 <= i < k ==> a.push(x)[i] == a.push(y)[i]);
    assert(gen_rank(a.push(x)[k]) < gen_rank(a.push(y)[k]));
}

/// Whatever `solve` returns for a state that the generators reach from the
/// solved configuration is a solved state.
pub proof fn lemma_solve_reachable(ms: Seq<Move>, r: Result<(Cube, Vec<Move>), SearchExhausted>)
    requires
        all_generators(ms),
        solve_result(apply_moves(solved_cube(), ms), r),
    ensures
        r matches Ok((s, _)) && s.solved(),
{
    lemma_reachable_is_solvable(ms);
}

/// Solving a cube that is already solved returns it unchanged, with no moves.
pub proof fn lemma_solve_solved(start: Cube, r: Result<(Cube, Vec<Move>), SearchExhausted>)
    requires
        start.solved(),
        solve_result(start, r),
    ensures
        r matches Ok((s, h)) && s == start && h@.len() == 0,
{
    let none = Seq::<Move>::empty();
    assert(all_generators(none) && apply_moves(start, none).solved());
    if let Ok((s, h)) = r {
        assert(shortlex_le(h@, none));
        assert(h@ =~= none);
    }
}

/// When `ms` solves `start` and no shorter generator sequence does, `solve`
/// returns a sequence of exactly the length of `ms`.
pub proof fn lemma_solve_shortest(
    start: Cube,
    ms: Seq<Move>,
    r: Result<(Cube, Vec<Move>), SearchExhausted>,
)
    requires
        all_generators(ms),
        apply_moves(start, ms).solved(),
        forall|ns: Seq<Move>|
            all_generators(ns) && ns.len() < ms.len() ==> !(#[trigger] apply_moves(start, ns)).solved(),
        solve_result(start, r),
    ensures
        r matches Ok((_, h)) && h@.len() == ms.len(),
{
    assert(solvable(start));
    if let Ok((s, h)) = r {
        assert(shortlex_le(h@, ms));
        assert(apply_moves(start, h@).solved());
    }
}

/// The answer depends on the start state alone: two results that both meet
/// the contract for one cube are the same.
pub proof fn lemma_solve_determined(
    start: Cube,
    r1: Result<(Cube, Vec<Move>), SearchExhausted>,
    r2: Result<(Cube, Vec<Move>), SearchExhausted>,
)
    requires
        solve_result(start, r1),
        solve_result(start, r2),
    ensures
        r1 is Ok <==> r2 is Ok,
        r1 matches Ok((s1, h1)) ==> r2 matches Ok((s2, h2)) && s1 == s2 && h1@ == h2@,
{
    if let Ok((s1, h1)) = r1 {
        if let Ok((s2, h2)) = r2 {
            assert(shortlex_le(h1@, h2@));
            assert(shortlex_le(h2@, h1@));
            if h1@ != h2@ {
                lemma_lt_transitive(h1@, h2@, h1@);
                lemma_lt_irreflexive(h1@);
            }
        }
    }
}

/// Some state of the list equals `c` and its path comes no later than `bound`.
pub open spec fn listed_by(states: Seq<Cube>, paths: Seq<Vec<Move>>, c: Cube, bound: Seq<Move>) -> bool {
    exists|j: int| 0 <= j < states.len() && states[j] == c && shortlex_le(paths[j]@, bound)
}

/// The generator that the solver tries `gi`-th.
pub open spec fn gen_at(gi: int) -> Move {
    if gi == 0 {
        Move::Twist
    } else if gi == 1 {
        Move::FrontTwist
    } else {
        Move::BottomTwist
    }
}

/// Every listed path comes before the next candidate `base + gen_at(gi)`; once
/// all three generators were tried, no listed path comes after the last one.
pub open spec fn frontier(paths: Seq<Vec<Move>>, base: Seq<Move>, gi: int) -> bool {
    forall|i: int|
        0 <= i < paths.len() ==> if gi < 3 {
            shortlex_lt(#[trigger] paths[i]@, base.push(gen_at(gi)))
        } else {
            shortlex_le(#[trigger] paths[i]@, base.push(Move::BottomTwist))
        }
}

/// The breadth-first search state: `states[i]` was reached from `start` by the
/// generator sequence `paths[i]`, the paths are strictly increasing in shortlex
/// order, the states before `head` were checked and expanded, and none of them
/// is solved.
#[verifier::opaque]
pub open spec fn search_invariant(start: Cube, states: Seq<Cube>, paths: Seq<Vec<Move>>, head: int) -> bool {
    &&& states.len() == paths.len()
    &&& 0 < states.len()
    &&& 0 <= head <= states.len()
    &&& states[0] == start
    &&& paths[0]@.len() == 0
    &&& forall|i: int|
        0 <= i < states.len() ==> #[trigger] states[i] == apply_moves(start, paths[i]@) && all_generators(paths[i]@)
    &&& forall|i: int, j: int|
        #![trigger paths[i], paths[j]]
        0 <= i < j < states.len() ==> shortlex_lt(paths[i]@, paths[j]@)
    &&& forall|i: int| 0 <= i < head ==> !(#[trigger] states[i]).solved()
    &&& forall|i: int, g: Move|
        0 <= i < head && is_generator(g) ==> #[trigger] listed_by(
            states,
            paths,
            moved(states[i], g),
            paths[i]@.push(g),
        )
}

proof fn lemma_sorted_le(start: Cube, states: Seq<Cube>, paths: Seq<Vec<Move>>, head: int, i: int, j: int)
    requires
        search_invariant(start, states, paths, head),
        0 <= i <= j < states.len(),
    ensures
        shortlex_le(paths[i]@, paths[j]@),
{
    reveal(search_invariant);
    if i < j {
        assert(shortlex_lt(paths[i]@, paths[j]@));
    }
}

/// Every state that `ms` reaches is listed with a path no later than `ms`, as
/// long as `ms` comes before the paths still to be expanded.
proof fn lemma_reach(start: Cube, states: Seq<Cube>, paths: Seq<Vec<Move>>, head: int, ms: Seq<Move>)
    requires
        search_invariant(start, states, paths, head),
        all_generators(ms),
        head < states.len() ==> shortlex_lt(ms, paths[head]@),
    ensures
        listed_by(states, paths, apply_moves(start, ms), ms),
    decreases ms.len(),
{
    reveal(search_invariant);
    if ms.len() == 0 {
        assert(states[0] == apply_moves(start, ms));
        assert(paths[0]@ =~= ms);
    } else {
        let p = ms.drop_last();
        let g = ms.last();
        assert(all_generators(p)) by {
            assert forall|i: int| 0 <= i < p.len() implies is_generator(#[trigger] p[i]) by {
                assert(p[i] == ms[i]);
            }
        }
        assert(is_generator(ms[ms.len() - 1]));
        assert(shortlex_lt(p, ms));
        if head < states.len() {
            lemma_lt_transitive(p, ms, paths[head]@);
        }
        lemma_reach(start, states, paths, head, p);
        let j = choose|j: int|
            0 <= j < states.len() && states[j] == apply_moves(start, p) && shortlex_le(paths[j]@, p);
        if j >= head {
            lemma_sorted_le(start, states, paths, head, head, j);
            lemma_le_transitive(paths[head]@, paths[j]@, p);
            lemma_le_lt_transitive(paths[head]@, p, paths[head]@);
            lemma_lt_irreflexive(paths[head]@);
        }
        assert(j < head);
        assert(listed_by(states, paths, moved(states[j], g), paths[j]@.push(g)));
        let j2 = choose|j2: int|
            0 <= j2 < states.len() && states[j2] == moved(states[j], g) && shortlex_le(paths[j2]@, paths[j]@.push(g));
        assert(states[j2] == apply_moves(start, ms));
        lemma_le_push(paths[j]@, p, g);
        assert(p.push(g) =~= ms);
        lemma_le_transitive(paths[j2]@, paths[j]@.push(g), ms);
    }
}

#[verifier::rlimit(100)]
proof fn lemma_found_before(start: Cube, states: Seq<Cube>, paths: Seq<Vec<Move>>, head: int, ms: Seq<Move>)
    requires
        search_invariant(start, states, paths, head),
        head < states.len(),
        all_generators(ms),
        apply_moves(start, ms).solved(),
    ensures
        shortlex_le(paths[head]@, ms),
{
    reveal(search_invariant);
    assert(states[head] == apply_moves(start, paths[head]@));
    assert(all_generators(paths[head]@));
    lemma_total(paths[head]@, ms);
    if shortlex_lt(ms, paths[head]@) {
        lemma_reach(start, states, paths, head, ms);
        let j = choose|j: int|
            0 <= j < states.len() && states[j] == apply_moves(start, ms) && shortlex_le(paths[j]@, ms);
        if j >= head {
            lemma_sorted_le(start, states, paths, head, head, j);
            lemma_le_transitive(paths[head]@, paths[j]@, ms);
            lemma_le_lt_transitive(paths[head]@, ms, paths[head]@);
            lemma_lt_irreflexive(paths[head]@);
        }
    }
}

/// Once a solved state comes up at `head`, its path is the first solving
/// generator sequence.
proof fn lemma_found_is_first(start: Cube, states: Seq<Cube>, paths: Seq<Vec<Move>>, head: int)
    requires
        search_invariant(start, states, paths, head),
        head < states.len(),
    ensures
        states[head] == apply_moves(start, paths[head]@),
        all_generators(paths[head]@),
        forall|ms: Seq<Move>|
            all_generators(ms) && (#[trigger] apply_moves(start, ms)).solved() ==> shortlex_le(paths[head]@, ms),
{
    reveal(search_invariant);
    assert(states[head] == apply_moves(start, paths[head]@));
    assert forall|ms: Seq<Move>|
        all_generators(ms) && (#[trigger] apply_moves(start, ms)).solved() implies shortlex_le(paths[head]@, ms) by {
        lemma_found_before(start, states, paths, head, ms);
    }
}

/// Once every listed state has been expanded, no generator sequence solves
/// the start state.
proof fn lemma_exhausted(start: Cube, states: Seq<Cube>, paths: Seq<Vec<Move>>)
    requires
        search_invariant(start, states, paths, states.len() as int),
    ensures
        !solvable(start),
{
    reveal(search_invariant);
    assert forall|ms: Seq<Move>| all_generators(ms) implies !(#[trigger] apply_moves(start, ms)).solved() by {
        lemma_reach(start, states, paths, states.len() as int, ms);
    }
}

/// The frontier moves from one candidate to the next.
proof fn lemma_frontier_step(paths: Seq<Vec<Move>>, base: Seq<Move>, gi: int)
    requires
        0 <= gi < 3,
        forall|i: int| 0 <= i < paths.len() ==> shortlex_le(#[trigger] paths[i]@, base.push(gen_at(gi))),
    ensures
        frontier(paths, base, gi + 1),
{
    if gi + 1 < 3 {
        lemma_push_rank(base, gen_at(gi), gen_at(gi + 1));
        assert forall|i: int| 0 <= i < paths.len() implies shortlex_lt(#[trigger] paths[i]@, base.push(gen_at(gi + 1))) by {
            lemma_le_lt_transitive(paths[i]@, base.push(gen_at(gi)), base.push(gen_at(gi + 1)));
        }
    }
}

/// Once every successor of the state at `head` is listed, `head` can move on.
#[verifier::rlimit(100)]
proof fn lemma_advance(start: Cube, states: Seq<Cube>, paths: Seq<Vec<Move>>, head: int)
    requires
        search_invariant(start, states, paths, head),
        head < states.len(),
        !states[head].solved(),
        forall|g2: int|
            0 <= g2 < 3 ==> #[trigger] listed_by(states, paths, moved(states[head], gen_at(g2)), paths[head]@.push(gen_at(g2))),
        frontier(paths, paths[head]@, 3),
    ensures
        search_invariant(start, states, paths, head + 1),
        head + 1 < states.len() ==> frontier(paths, paths[head + 1]@, 0),
{
    reveal(search_invariant);
    assert forall|i: int, g3: Move|
        0 <= i < head + 1 && is_generator(g3) implies #[trigger] listed_by(
            states,
            paths,
            moved(states[i], g3),
            paths[i]@.push(g3),
        ) by {
        if i == head {
            if g3 == Move::Twist {
                assert(listed_by(states, paths, moved(states[head], gen_at(0)), paths[head]@.push(gen_at(0))));
            } else if g3 == Move::FrontTwist {
                assert(listed_by(states, paths, moved(states[head], gen_at(1)), paths[head]@.push(gen_at(1))));
            } else {
                assert(listed_by(states, paths, moved(states[head], gen_at(2)), paths[head]@.push(gen_at(2))));
            }
        }
    }
    if head + 1 < states.len() {
        assert(shortlex_lt(paths[head]@, paths[head + 1]@));
        lemma_lt_push(paths[head]@, paths[head + 1]@, Move::BottomTwist, Move::Twist);
        assert forall|i: int| 0 <= i < paths.len() implies shortlex_lt(#[trigger] paths[i]@, paths[head + 1]@.push(gen_at(0))) by {
            lemma_le_lt_transitive(paths[i]@, paths[head]@.push(Move::BottomTwist), paths[head + 1]@.push(Move::Twist));
        }
    }
}

/// Listing a new successor `t` of the state at `head`, reached by generator
/// `gen_at(gi)`, keeps the search state valid.
proof fn lemma_push(
    start: Cube,
    states: Seq<Cube>,
    paths: Seq<Vec<Move>>,
    head: int,
    gi: int,
    t: Cube,
    p: Vec<Move>,
)
    requires
        search_invariant(start, states, paths, head),
        head < states.len(),
        0 <= gi < 3,
        t == moved(states[head], gen_at(gi)),
        p@ == paths[head]@.push(gen_at(gi)),
        frontier(paths, paths[head]@, gi),
        forall|g2: int|
            0 <= g2 < gi ==> #[trigger] listed_by(states, paths, moved(states[head], gen_at(g2)), paths[head]@.push(gen_at(g2))),
    ensures
        search_invariant(start, states.push(t), paths.push(p), head),
        frontier(paths.push(p), paths[head]@, gi + 1),
        forall|g2: int|
            0 <= g2 <= gi ==> #[trigger] listed_by(
                states.push(t),
                paths.push(p),
                moved(states[head], gen_at(g2)),
                paths[head]@.push(gen_at(g2)),
            ),
{
    reveal(search_invariant);
    let s2 = states.push(t);
    let p2 = paths.push(p);
    let n = states.len() as int;
    let g = gen_at(gi);
    assert(p@.drop_last() =~= paths[head]@);
    assert(all_generators(p@)) by {
        assert forall|i: int| 0 <= i < p@.len() implies is_generator(#[trigger] p@[i]) by {
            if i < p@.len() - 1 {
                assert(p@[i] == paths[head]@[i]);
            }
        }
    }
    assert(t == apply_moves(start, p@));
    assert forall|i: int| 0 <= i < s2.len() implies #[trigger] s2[i] == apply_moves(start, p2[i]@) && all_generators(p2[i]@) by {
        if i < n {
            assert(s2[i] == states[i]);
            assert(p2[i] == paths[i]);
        }
    }
    assert forall|i: int, j: int|
        #![trigger p2[i], p2[j]]
        0 <= i < j < s2.len() implies shortlex_lt(p2[i]@, p2[j]@) by {
        assert(p2[i] == paths[i]);
        if j < n {
            assert(p2[j] == paths[j]);
        } else {
            assert(shortlex_lt(paths[i]@, paths[head]@.push(gen_at(gi))));
        }
    }
    assert forall|i: int, g3: Move|
        0 <= i < head && is_generator(g3) implies #[trigger] listed_by(
            s2,
            p2,
            moved(s2[i], g3),
            p2[i]@.push(g3),
        ) by {
        assert(s2[i] == states[i]);
        assert(p2[i] == paths[i]);
        assert(listed_by(states, paths, moved(states[i], g3), paths[i]@.push(g3)));
        let j = choose|j: int|
            0 <= j < states.len() && states[j] == moved(states[i], g3) && shortlex_le(paths[j]@, paths[i]@.push(g3));
        assert(s2[j] == states[j] && p2[j] == paths[j]);
    }
    assert forall|g2: int| 0 <= g2 <= gi implies #[trigger] listed_by(
        s2,
        p2,
        moved(states[head], gen_at(g2)),
        paths[head]@.push(gen_at(g2)),
    ) by {
        if g2 < gi {
            assert(listed_by(states, paths, moved(states[head], gen_at(g2)), paths[head]@.push(gen_at(g2))));
            let j = choose|j: int|
                0 <= j < states.len() && states[j] == moved(states[head], gen_at(g2))
                    && shortlex_le(paths[j]@, paths[head]@.push(gen_at(g2)));
            assert(s2[j] == states[j] && p2[j] == paths[j]);
        } else {
            assert(s2[n] == moved(states[head], gen_at(g2)));
            assert(p2[n]@ == paths[head]@.push(gen_at(g2)));
        }
    }
    assert forall|i: int| 0 <= i < head implies !(#[trigger] s2[i]).solved() by {
        assert(s2[i] == states[i]);
    }
    assert(s2[0] == states[0] && p2[0] == paths[0]);
    assert(p2[head] == paths[head]);
    assert forall|i: int| 0 <= i < p2.len() implies shortlex_le(#[trigger] p2[i]@, paths[head]@.push(gen_at(gi))) by {
        if i < n {
            assert(p2[i] == paths[i]);
        }
    }
    lemma_frontier_step(p2, paths[head]@, gi);
}

/// A copy of a move sequence.
fn copied(p: &Vec<Move>) -> (r: Vec<Move>)
    ensures
        r@ == p@,
{
    let mut r: Vec<Move> = Vec::new();
    let mut i: usize = 0;
    while i < p.len()
        invariant
            i <= p.len(),
            r@ == p@.subrange(0, i as int),
        decreases p.len() - i,
    {
        r.push(p[i]);
        i = i + 1;
    }
    assert(r@ =~= p@);
    r
}

impl Solver {
    /// A solver; each search keeps its own frontier and visited set.
    pub fn new() -> Solver {
        Solver
    }

    /// Searches breadth-first from `cube` over the generator moves (right,
    /// front and bottom twists, tried in that order), never revisiting an
    /// exactly equal state, until a solved state comes up; returns it with the
    /// moves that led to it.
    pub fn solve(&mut self, cube: Cube) -> (r: Result<(Cube, Vec<Move>), SearchExhausted>)
        ensures
            *final(self) == *old(self),
            solve_result(cube, r),
    {
        breadth_first(cube)
    }
}

/// Solves `cube` with a fresh [`Solver`].
pub fn solve_cube(cube: Cube) -> (r: Result<(Cube, Vec<Move>), SearchExhausted>)
    ensures
        solve_result(cube, r),
{
    let mut solver = Solver::new();
    solver.solve(cube)
}

#[verifier::rlimit(100)]
fn breadth_first(cube: Cube) -> (r: Result<(Cube, Vec<Move>), SearchExhausted>)
    ensures
        solve_result(cube, r),
{
    let gens: Vec<Move> = vec![Move::Twist, Move::FrontTwist, Move::BottomTwist];
    let mut states: Vec<Cube> = Vec::new();
    let mut paths: Vec<Vec<Move>> = Vec::new();
    let mut visited: HashSet<u128> = HashSet::new();
    let k0 = cube.key();
    visited.insert(k0);
    states.push(cube);
    paths.push(Vec::new());
    let ghost mut seen: Set<int> = Set::empty().insert(k0 as int);
    proof {
        lemma_key_bound(cube);
        lemma_int_range(0, key_space());
        assert(visited@ == Set::<u128>::empty().insert(k0));
        assert(shortlex_lt(paths@[0]@, paths@[0]@.push(gen_at(0))));
        assert(states@[0].key_of() == k0);
        reveal(search_invariant);
        assert(states@[0] == apply_moves(cube, paths@[0]@));
        assert(all_generators(paths@[0]@));
    }
    let mut head: usize = 0;
    while head < states.len()
        invariant
            search_invariant(cube, states@, paths@, head as int),
            states@.len() == paths@.len(),
            head < states.len() ==> frontier(paths@, paths@[head as int]@, 0),
            gens@ == seq![Move::Twist, Move::FrontTwist, Move::BottomTwist],
            forall|i: int|
                0 <= i < states.len() ==> (#[trigger] states@[i]).well_formed() && visited@.contains(
                    states@[i].key_of(),
                ),
            forall|k: u128|
                #[trigger] visited@.contains(k) ==> exists|i: int|
                    0 <= i < states.len() && (#[trigger] states@[i]).key_of() == k,
            forall|k: u128| #[trigger] visited@.contains(k) <==> seen.contains(k as int),
            seen.finite(),
            seen.len() == states.len(),
            seen.subset_of(set_int_range(0, key_space())),
            set_int_range(0, key_space()).finite(),
            set_int_range(0, key_space()).len() == key_space(),
        decreases key_space() - head,
    {
        proof {
            lemma_len_subset(seen, set_int_range(0, key_space()));
        }
        let s = states[head];
        if s.is_solved() {
            let path = copied(&paths[head]);
            proof {
                lemma_found_is_first(cube, states@, paths@, head as int);
            }
            return Ok((s, path));
        }
        let ghost base = paths@[head as int]@;
        let mut gi: usize = 0;
        while gi < 3
            invariant
                0 <= head < states.len(),
                s == states@[head as int],
                !s.solved(),
                gi <= 3,
                base == paths@[head as int]@,
                search_invariant(cube, states@, paths@, head as int),
                states@.len() == paths@.len(),
                frontier(paths@, base, gi as int),
                forall|g2: int|
                    0 <= g2 < gi ==> #[trigger] listed_by(states@, paths@, moved(s, gen_at(g2)), base.push(gen_at(g2))),
                gens@ == seq![Move::Twist, Move::FrontTwist, Move::BottomTwist],
                forall|i: int|
                    0 <= i < states.len() ==> (#[trigger] states@[i]).well_formed() && visited@.contains(
                        states@[i].key_of(),
                    ),
                forall|k: u128|
                    #[trigger] visited@.contains(k) ==> exists|i: int|
                        0 <= i < states.len() && (#[trigger] states@[i]).key_of() == k,
                forall|k: u128| #[trigger] visited@.contains(k) <==> seen.contains(k as int),
                seen.finite(),
                seen.len() == states.len(),
                seen.subset_of(set_int_range(0, key_space())),
                set_int_range(0, key_space()).finite(),
                set_int_range(0, key_space()).len() == key_space(),
            decreases 3 - gi,
        {
            let g = gens[gi];
            assert(g == gen_at(gi as int));
            let mut t = s;
            t.apply(g);
            let k = t.key();
            proof {
                lemma_key_bound(t);
            }
            let ghost old_states = states@;
            let ghost old_paths = paths@;
            if visited.insert(k) {
                let mut p = copied(&paths[head]);
                p.push(g);
                states.push(t);
                paths.push(p);
                proof {
                    seen = seen.insert(k as int);
                    assert(states@ == old_states.push(t));
                    assert(paths@ == old_paths.push(p));
                    assert(p@ == old_paths[head as int]@.push(g));
                    lemma_push(cube, old_states, old_paths, head as int, gi as int, t, p);
                    assert(paths@[head as int] == old_paths[head as int]);
                    assert forall|i: int|
                        0 <= i < states@.len() implies (#[trigger] states@[i]).well_formed() && visited@.contains(
                            states@[i].key_of(),
                        ) by {
                        if i < old_states.len() {
                            assert(states@[i] == old_states[i]);
                        }
                    }
                    assert forall|k2: u128| #[trigger] visited@.contains(k2) implies exists|i: int|
                        0 <= i < states@.len() && (#[trigger] states@[i]).key_of() == k2 by {
                        if k2 == k {
                            assert(states@[old_states.len() as int].key_of() == k2);
                        } else {
                            let i = choose|i: int| 0 <= i < old_states.len() && (#[trigger] old_states[i]).key_of() == k2;
                            assert(states@[i] == old_states[i]);
                        }
                    }
                }
            } else {
                proof {
                    let i = choose|i: int| 0 <= i < states@.len() && (#[trigger] states@[i]).key_of() == k;
                    lemma_key_injective(states@[i], t);
                    assert(shortlex_lt(paths@[i]@, base.push(gen_at(gi as int))));
                    assert(listed_by(states@, paths@, moved(s, gen_at(gi as int)), base.push(gen_at(gi as int))));
                    assert forall|j: int| 0 <= j < paths@.len() implies shortlex_le(#[trigger] paths@[j]@, base.push(gen_at(gi as int))) by {
                        assert(shortlex_lt(paths@[j]@, base.push(gen_at(gi as int))));
                    }
                    lemma_frontier_step(paths@, base, gi as int);
                }
            }
            gi = gi + 1;
        }
        proof {
            lemma_advance(cube, states@, paths@, head as int);
        }
        head = head + 1;
    }
    proof {
        lemma_exhausted(cube, states@, paths@);
    }
    Err(SearchExhausted)
}

} // verus!
