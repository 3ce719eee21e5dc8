use vstd::prelude::*;

use crate::game::{
    Asteroid, AudioStart, Explosion, GameState, GameView, Laser, Motion, Player, EXPLOSION_MS,
    FIRE_COOLDOWN_MS, LASER_LIFETIME_MS, PULL_DISTANCE, PULL_SPEED,
};
use crate::spawning::ship_at;
use crate::targeting::{gap, lemma_nearest_is_first_minimum, nearest_index};

verus! {

/// The id handed out after `id`.
pub open spec fn id_after(id: u64) -> u64 {
    if id == u64::MAX {
        0
    } else {
        (id + 1) as u64
    }
}

pub open spec fn has_asteroid(s: Seq<Asteroid>, id: u64) -> bool {
    exists|k: int| 0 <= k < s.len() && (#[trigger] s[k]).id == id
}

pub open spec fn has_laser(s: Seq<Laser>, id: u64) -> bool {
    exists|k: int| 0 <= k < s.len() && (#[trigger] s[k]).id == id
}

/// The asteroids other than those with the given id, in order.
pub open spec fn asteroids_without(s: Seq<Asteroid>, id: u64) -> Seq<Asteroid>
    decreases s.len(),
{
    if s.len() == 0 {
        s
    } else if s.last().id == id {
        asteroids_without(s.drop_last(), id)
    } else {
        asteroids_without(s.drop_last(), id).push(s.last())
    }
}

/// The lasers other than those with the given id, in order.
pub open spec fn lasers_without(s: Seq<Laser>, id: u64) -> Seq<Laser>
    decreases s.len(),
{
    if s.len() == 0 {
        s
    } else if s.last().id == id {
        lasers_without(s.drop_last(), id)
    } else {
        lasers_without(s.drop_last(), id).push(s.last())
    }
}

/// The lasers after `delta` milliseconds: those whose time runs out are
/// gone, the others have that much less left.
pub open spec fn tick_lasers(s: Seq<Laser>, delta: u64) -> Seq<Laser>
    decreases s.len(),
{
    if s.len() == 0 {
        s
    } else if s.last().remaining <= delta {
        tick_lasers(s.drop_last(), delta)
    } else {
        tick_lasers(s.drop_last(), delta).push(
            Laser { id: s.last().id, remaining: (s.last().remaining - delta) as u64 },
        )
    }
}

/// The splash screen after `delta` milliseconds: the start menu follows once
/// its time runs out.
pub open spec fn splash_step(v: GameView, delta: u64) -> GameView {
    if v.state == GameState::Splash && v.splash_remaining > 0 {
        if delta >= v.splash_remaining {
            GameView { state: GameState::StartMenu, splash_remaining: 0, ..v }
        } else {
            GameView { splash_remaining: (v.splash_remaining - delta) as u64, ..v }
        }
    } else {
        v
    }
}

/// The explosion after `delta` milliseconds. When its time runs out, a life
/// is spent on a new ship where it stood; with none left, the game is lost
/// and the start menu follows.
pub open spec fn explosion_step(v: GameView, delta: u64) -> (GameView, Option<AudioStart>) {
    if v.state == GameState::Game && v.explosion is Some {
        let e = v.explosion->0;
        if delta >= e.remaining {
            if v.lives == 0 {
                (v.leaving_game(GameState::StartMenu), Some(AudioStart::Lose))
            } else {
                (
                    GameView {
                        lives: (v.lives - 1) as u32,
                        explosion: None,
                        player: Some(ship_at(v.next_id, e.x, e.y)),
                        next_id: id_after(v.next_id),
                        ..v
                    },
                    None,
                )
            }
        } else {
            (
                GameView {
                    explosion: Some(Explosion { remaining: (e.remaining - delta) as u64, ..e }),
                    ..v
                },
                None,
            )
        }
    } else {
        (v, None)
    }
}

/// The ship meets the asteroid with the given id: the ship is replaced by an
/// explosion; the asteroid stays.
pub open spec fn ship_hit_step(v: GameView, asteroid: u64) -> (GameView, Option<AudioStart>) {
    if v.state == GameState::Game && v.player is Some && has_asteroid(v.asteroids, asteroid) {
        let p = v.player->0;
        (
            GameView {
                player: None,
                explosion: Some(
                    Explosion { id: v.next_id, x: p.x, y: p.y, remaining: EXPLOSION_MS },
                ),
                next_id: id_after(v.next_id),
                ..v
            },
            Some(AudioStart::ShipExplosion),
        )
    } else {
        (v, None)
    }
}

/// A laser meets an asteroid: both are gone.
pub open spec fn laser_hit_step(v: GameView, laser: u64, asteroid: u64) -> (
    GameView,
    Option<AudioStart>,
) {
    if v.state == GameState::Game && has_laser(v.lasers, laser) && has_asteroid(
        v.asteroids,
        asteroid,
    ) {
        (
            GameView {
                asteroids: asteroids_without(v.asteroids, asteroid),
                lasers: lasers_without(v.lasers, laser),
                ..v
            },
            Some(AudioStart::AsteroidExplosion),
        )
    } else {
        (v, None)
    }
}

/// Whether the ship may fire at clock reading `now`: more than the cooldown
/// after its last shot.
pub open spec fn may_fire(p: Player, now: u64) -> bool {
    now > p.last_fired + FIRE_COOLDOWN_MS
}

/// The ship asks to fire at clock reading `now`. Within the cooldown the
/// request is dropped.
pub open spec fn fire_step(v: GameView, now: u64) -> (GameView, Option<AudioStart>) {
    if v.state == GameState::Game && v.player is Some && may_fire(v.player->0, now) {
        (
            GameView {
                player: Some(Player { last_fired: now, ..v.player->0 }),
                lasers: v.lasers.push(Laser { id: v.next_id, remaining: LASER_LIFETIME_MS }),
                next_id: id_after(v.next_id),
                ..v
            },
            Some(AudioStart::Laser),
        )
    } else {
        (v, None)
    }
}

/// The lasers after `delta` milliseconds of a game.
pub open spec fn laser_range_step(v: GameView, delta: u64) -> GameView {
    if v.state == GameState::Game {
        GameView { lasers: tick_lasers(v.lasers, delta), ..v }
    } else {
        v
    }
}

/// A game with no asteroid left is won.
pub open spec fn win_step(v: GameView) -> (GameView, Option<AudioStart>) {
    if v.state == GameState::Game && v.asteroids.len() == 0 {
        (v.leaving_game(GameState::Won), Some(AudioStart::Win))
    } else {
        (v, None)
    }
}

/// The nearest asteroid to the ship is picked, with whether it is pulled:
/// beyond the pull distance it is sent back toward the ship.
pub open spec fn target_step(v: GameView) -> (GameView, Option<(u64, bool)>) {
    if v.state == GameState::Game && v.player is Some && v.asteroids.len() > 0 {
        let p = v.player->0;
        let i = nearest_index(v.asteroids, p.x, p.y);
        let a = v.asteroids[i];
        if gap(a, p.x, p.y) > PULL_DISTANCE * PULL_DISTANCE {
            (
                GameView {
                    asteroids: v.asteroids.update(
                        i,
                        Asteroid { motion: Motion::Toward { x: p.x, y: p.y, speed: PULL_SPEED }, ..a },
                    ),
                    ..v
                },
                Some((a.id, true)),
            )
        } else {
            (v, Some((a.id, false)))
        }
    } else {
        (v, None)
    }
}

/// A collision begins between the entity `target` and the entity `collider`;
/// the ship and the lasers react to asteroids.
pub open spec fn collision_step(v: GameView, target: u64, collider: u64) -> (
    GameView,
    Option<AudioStart>,
) {
    if v.player is Some && v.player->0.id == target {
        ship_hit_step(v, collider)
    } else if has_laser(v.lasers, target) {
        laser_hit_step(v, target, collider)
    } else {
        (v, None)
    }
}


/// When an explosion's time runs out, a player with lives left gets a new
/// ship, one life spent; a player with none gets no ship, and the game goes
/// back to the start menu with the losing cue.
pub proof fn lemma_respawn_policy(v: GameView, delta: u64)
    requires
        v.state == GameState::Game,
        v.explosion is Some,
        delta >= v.explosion->0.remaining,
    ensures
        v.lives > 0 ==> ({
            let (next, cue) = explosion_step(v, delta);
            &&& next.state == GameState::Game
            &&& next.lives == v.lives - 1
            &&& next.player == Some(ship_at(v.next_id, v.explosion->0.x, v.explosion->0.y))
            &&& next.explosion is None
            &&& cue is None
        }),
        v.lives == 0 ==> ({
            let (next, cue) = explosion_step(v, delta);
            &&& next.state == GameState::StartMenu
            &&& next.player is None
            &&& cue == Some(AudioStart::Lose)
        }),
{
}

/// Two shots asked for no more than the cooldown apart give one laser; two
/// asked for more than the cooldown apart give two.
pub proof fn lemma_fire_rate(v: GameView, first: u64, second: u64)
    requires
        v.state == GameState::Game,
        v.player is Some,
        may_fire(v.player->0, first),
        first <= second,
    ensures
        ({
            let (after_first, cue) = fire_step(v, first);
            &&& cue == Some(AudioStart::Laser)
            &&& after_first.lasers.len() == v.lasers.len() + 1
        }),
        second - first <= FIRE_COOLDOWN_MS ==> ({
            let (after_second, cue) = fire_step(fire_step(v, first).0, second);
            &&& cue is None
            &&& after_second.lasers.len() == v.lasers.len() + 1
        }),
        second - first > FIRE_COOLDOWN_MS ==> ({
            let (after_second, cue) = fire_step(fire_step(v, first).0, second);
            &&& cue == Some(AudioStart::Laser)
            &&& after_second.lasers.len() == v.lasers.len() + 2
        }),
{
}

/// While asteroids are left a game is not won. Once a laser destroys the
/// last asteroid, the next look at the asteroid count enters the winning
/// screen, once, with the winning cue; later looks change nothing and cue
/// nothing.
pub proof fn lemma_last_asteroid_wins(v: GameView, laser: u64)
    requires
        v.state == GameState::Game,
        v.asteroids.len() == 1,
        has_laser(v.lasers, laser),
    ensures
        win_step(v) == (v, None::<AudioStart>),
        ({
            let (hit, _) = laser_hit_step(v, laser, v.asteroids[0].id);
            let (won, cue) = win_step(hit);
            &&& hit.asteroids.len() == 0
            &&& won.state == GameState::Won
            &&& cue == Some(AudioStart::Win)
            &&& win_step(won) == (won, None::<AudioStart>)
        }),
{
    let s = v.asteroids;
    assert(has_asteroid(s, s[0].id));
    assert(s.last() == s[0]);
    assert(asteroids_without(s.drop_last(), s[0].id) == s.drop_last());
}


/// Rotation speed gained per millisecond that a turn is held, in
/// milliradians per second.
pub const TURN_RATE: i64 = 12;

pub open spec fn clamp_i64(x: int) -> i64 {
    if x < i64::MIN {
        i64::MIN
    } else if x > i64::MAX {
        i64::MAX
    } else {
        x as i64
    }
}

/// A turn held for `delta` milliseconds, counter-clockwise for a positive
/// `direction` and clockwise for a negative one, speeds up the ship's
/// rotation in proportion to `delta`.
pub open spec fn rotate_step(v: GameView, direction: i32, delta: u64) -> GameView {
    if v.state == GameState::Game && v.player is Some && direction != 0 {
        let p = v.player->0;
        let change = if direction > 0 {
            TURN_RATE * delta
        } else {
            -(TURN_RATE * delta)
        };
        GameView {
            player: Some(Player { angular_velocity: clamp_i64(p.angular_velocity + change), ..p }),
            ..v
        }
    } else {
        v
    }
}

/// The ship's jets are lit or put out.
pub open spec fn thrust_step(v: GameView, on: bool) -> GameView {
    if v.state == GameState::Game && v.player is Some {
        GameView { player: Some(Player { thrusting: on, ..v.player->0 }), ..v }
    } else {
        v
    }
}

/// The asteroids with the one of the given id moved to a new position.
pub open spec fn moved_asteroids(s: Seq<Asteroid>, id: u64, x: i32, y: i32) -> Seq<Asteroid> {
    Seq::new(
        s.len(),
        |k: int|
            if s[k].id == id {
                Asteroid { x, y, ..s[k] }
            } else {
                s[k]
            },
    )
}


proof fn lemma_asteroids_without_len(s: Seq<Asteroid>, id: u64)
    ensures
        asteroids_without(s, id).len() <= s.len(),
        has_asteroid(s, id) ==> asteroids_without(s, id).len() < s.len(),
    decreases s.len(),
{
    if s.len() > 0 {
        lemma_asteroids_without_len(s.drop_last(), id);
        if has_asteroid(s, id) && s.last().id != id {
            let k = choose|k: int| 0 <= k < s.len() && (#[trigger] s[k]).id == id;
            assert(s.drop_last()[k] == s[k]);
        }
    }
}

/// During a game the number of asteroids never grows: no rule adds one, and
/// a laser hit on an asteroid that is there lowers the count.
pub proof fn lemma_asteroids_never_increase(
    v: GameView,
    delta: u64,
    now: u64,
    direction: i32,
    on: bool,
    target: u64,
    collider: u64,
)
    requires
        v.state == GameState::Game,
    ensures
        explosion_step(v, delta).0.asteroids.len() <= v.asteroids.len(),
        ship_hit_step(v, collider).0.asteroids.len() == v.asteroids.len(),
        laser_hit_step(v, target, collider).0.asteroids.len() <= v.asteroids.len(),
        laser_hit_step(v, target, collider).1 is Some ==> laser_hit_step(
            v,
            target,
            collider,
        ).0.asteroids.len() < v.asteroids.len(),
        fire_step(v, now).0.asteroids.len() == v.asteroids.len(),
        laser_range_step(v, delta).asteroids.len() == v.asteroids.len(),
        win_step(v).0.asteroids.len() <= v.asteroids.len(),
        target_step(v).0.asteroids.len() == v.asteroids.len(),
        rotate_step(v, direction, delta).asteroids.len() == v.asteroids.len(),
        thrust_step(v, on).asteroids.len() == v.asteroids.len(),
        collision_step(v, target, collider).0.asteroids.len() <= v.asteroids.len(),
{
    lemma_asteroids_without_len(v.asteroids, collider);
    if v.player is Some && v.asteroids.len() > 0 {
        lemma_nearest_is_first_minimum(
            v.asteroids,
            v.player->0.x,
            v.player->0.y,
        );
    }
}

} // verus!
