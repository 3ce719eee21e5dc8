use vstd::prelude::*;

use crate::game::Asteroid;

verus! {

pub open spec fn squared_distance(ax: int, ay: int, bx: int, by: int) -> int {
    (ax - bx) * (ax - bx) + (ay - by) * (ay - by)
}

/// Squared distance from an asteroid to a point.
pub open spec fn gap(a: Asteroid, x: i32, y: i32) -> int {
    squared_distance(a.x as int, a.y as int, x as int, y as int)
}

/// Index of the asteroid nearest to a point; of several equally near, the
/// first. Zero for an empty sequence.
pub open spec fn nearest_index(s: Seq<Asteroid>, x: i32, y: i32) -> int
    decreases s.len(),
{
    if s.len() <= 1 {
        0
    } else {
        let i = nearest_index(s.drop_last(), x, y);
        if gap(s.last(), x, y) < gap(s[i], x, y) {
            s.len() - 1
        } else {
            i
        }
    }
}

/// The asteroid that `nearest_index` picks is no farther than any other, and
/// strictly nearer than every one before it.
pub proof fn lemma_nearest_is_first_minimum(s: Seq<Asteroid>, x: i32, y: i32)
    requires
        s.len() > 0,
    ensures
        0 <= nearest_index(s, x, y) < s.len(),
        forall|j: int| 0 <= j < s.len() ==> gap(s[nearest_index(s, x, y)], x, y) <= gap(#[trigger] s[j], x, y),
        forall|j: int| 0 <= j < nearest_index(s, x, y) ==> gap(s[nearest_index(s, x, y)], x, y) < gap(#[trigger] s[j], x, y),
    decreases s.len(),
{
    if s.len() > 1 {
        let t = s.drop_last();
        lemma_nearest_is_first_minimum(t, x, y);
        assert forall|j: int| 0 <= j < t.len() implies #[trigger] s[j] == t[j] by {}
    }
}

/// Squared distance from an asteroid to a point, computed exactly.
pub fn squared_gap(a: &Asteroid, x: i32, y: i32) -> (r: i128)
    ensures
        r == gap(*a, x, y),
{
    let dx = a.x as i128 - x as i128;
    let dy = a.y as i128 - y as i128;
    proof {
        assert(0 <= dx * dx <= 0x1_0000_0000_0000_0000) by (nonlinear_arith)
            requires
                -0x1_0000_0000 <= dx <= 0x1_0000_0000,
        ;
        assert(0 <= dy * dy <= 0x1_0000_0000_0000_0000) by (nonlinear_arith)
            requires
                -0x1_0000_0000 <= dy <= 0x1_0000_0000,
        ;
    }
    dx * dx + dy * dy
}

/// The index of the asteroid nearest to a point, the first of several
/// equally near; `None` where there is no asteroid.
pub fn nearest(asteroids: &Vec<Asteroid>, x: i32, y: i32) -> (r: Option<usize>)
    ensures
        asteroids@.len() == 0 ==> r is None,
        asteroids@.len() > 0 ==> r is Some && r->0 == nearest_index(asteroids@, x, y),
{
    if asteroids.len() == 0 {
        return None;
    }
    let mut best: usize = 0;
    let mut best_gap = squared_gap(&asteroids[0], x, y);
    let mut i: usize = 1;
    while i < asteroids.len()
        invariant
            1 <= i <= asteroids.len(),
            best as int == nearest_index(asteroids@.take(i as int), x, y),
            best < i,
            best_gap == gap(asteroids@[best as int], x, y),
        decreases asteroids.len() - i,
    {
        proof {
            let t = asteroids@.take(i + 1);
            assert(t.drop_last() =~= asteroids@.take(i as int));
            lemma_nearest_is_first_minimum(asteroids@.take(i as int), x, y);
            assert(t[best as int] == asteroids@[best as int]);
            assert(t.last() == asteroids@[i as int]);
        }
        let g = squared_gap(&asteroids[i], x, y);
        if g < best_gap {
            best = i;
            best_gap = g;
        }
        i = i + 1;
    }
    assert(asteroids@.take(i as int) =~= asteroids@);
    Some(best)
}

} // verus!
