use vstd::prelude::*;

use crate::game::{Asteroid, AsteroidDraw, Motion, Player, SAFE_RADIUS};
use crate::level::Level;
use crate::targeting::squared_distance;

verus! {

/// A fresh ship at a position, at rest.
pub open spec fn ship_at(id: u64, x: i32, y: i32) -> Player {
    Player { id, x, y, angular_velocity: 0, thrusting: false, last_fired: 0 }
}

/// A candidate far enough from the centre to start an asteroid on.
pub open spec fn clear_of_spawn(d: AsteroidDraw) -> bool {
    squared_distance(d.x as int, d.y as int, 0, 0) >= SAFE_RADIUS * SAFE_RADIUS
}

/// The smallest coordinate inside an arena of the given extent.
pub open spec fn arena_low(extent: u32) -> int {
    -(extent as int / 2)
}

/// One past the largest coordinate inside an arena of the given extent.
pub open spec fn arena_high(extent: u32) -> int {
    extent as int - extent as int / 2
}

/// A candidate drawn within the limits that a level sets.
pub open spec fn draw_within(d: AsteroidDraw, level: Level) -> bool {
    &&& arena_low(level.width) <= d.x < arena_high(level.width)
    &&& arena_low(level.height) <= d.y < arena_high(level.height)
    &&& d.heading < 6283
    &&& 10 <= d.speed < 100
    &&& -1500 <= d.spin < 1500
}

/// A level a game can be played on.
pub open spec fn playable(level: Level) -> bool {
    level.width > 0 && level.height > 0 && level.lives >= 1
}

/// The candidates clear of the centre, in the order drawn.
pub open spec fn clear_draws(s: Seq<AsteroidDraw>) -> Seq<AsteroidDraw>
    decreases s.len(),
{
    if s.len() == 0 {
        s
    } else if clear_of_spawn(s.last()) {
        clear_draws(s.drop_last()).push(s.last())
    } else {
        clear_draws(s.drop_last())
    }
}

/// Where the asteroids of a level start: the first `n` candidates clear of
/// the centre.
pub open spec fn spawn_sites(s: Seq<AsteroidDraw>, n: nat) -> Seq<AsteroidDraw> {
    let c = clear_draws(s);
    if c.len() <= n {
        c
    } else {
        c.take(n as int)
    }
}

pub open spec fn asteroid_from(d: AsteroidDraw, id: u64) -> Asteroid {
    Asteroid {
        id,
        x: d.x,
        y: d.y,
        motion: Motion::Drift { heading: d.heading, speed: d.speed },
        spin: d.spin,
    }
}

/// The asteroids started on the given sites, numbered from one.
pub open spec fn asteroids_on(sites: Seq<AsteroidDraw>) -> Seq<Asteroid> {
    Seq::new(sites.len(), |k: int| asteroid_from(sites[k], (k + 1) as u64))
}

pub(crate) proof fn lemma_clear_draws_prefix(s: Seq<AsteroidDraw>, i: int)
    requires
        0 <= i <= s.len(),
    ensures
        clear_draws(s.take(i)).len() <= clear_draws(s).len(),
        clear_draws(s.take(i)) == clear_draws(s).take(clear_draws(s.take(i)).len() as int),
    decreases s.len(),
{
    if i == s.len() {
        assert(s.take(i) =~= s);
        assert(clear_draws(s).take(clear_draws(s).len() as int) =~= clear_draws(s));
    } else {
        assert(s.drop_last().take(i) =~= s.take(i));
        lemma_clear_draws_prefix(s.drop_last(), i);
        let c = clear_draws(s.drop_last());
        let p = clear_draws(s.take(i));
        if clear_of_spawn(s.last()) {
            assert(c.push(s.last()).take(p.len() as int) =~= c.take(p.len() as int));
        }
    }
}

pub(crate) proof fn lemma_clear_draws_within(s: Seq<AsteroidDraw>, level: Level)
    requires
        forall|k: int| 0 <= k < s.len() ==> draw_within(#[trigger] s[k], level),
    ensures
        forall|k: int| 0 <= k < clear_draws(s).len() ==> #[trigger] draw_within(clear_draws(s)[k], level)
            && clear_of_spawn(clear_draws(s)[k]),
    decreases s.len(),
{
    if s.len() > 0 {
        assert forall|k: int| 0 <= k < s.drop_last().len() implies draw_within(
            #[trigger] s.drop_last()[k],
            level,
        ) by {
            assert(s.drop_last()[k] == s[k]);
        }
        lemma_clear_draws_within(s.drop_last(), level);
        let c = clear_draws(s.drop_last());
        if clear_of_spawn(s.last()) {
            assert forall|k: int| 0 <= k < c.push(s.last()).len() implies #[trigger] draw_within(
                c.push(s.last())[k],
                level,
            ) && clear_of_spawn(c.push(s.last())[k]) by {
                if k < c.len() {
                    assert(c.push(s.last())[k] == c[k]);
                }
            }
        }
    }
}

} // verus!
