use rand::Rng;
use vstd::prelude::*;

use crate::level::Level;
use crate::rules::{
    asteroids_without, collision_step, explosion_step, fire_step, has_asteroid, has_laser,
    id_after, laser_hit_step, laser_range_step, lasers_without, moved_asteroids, rotate_step,
    ship_hit_step, splash_step, target_step, thrust_step, tick_lasers, win_step, TURN_RATE,
};
use crate::spawning::{
    arena_high, arena_low, asteroids_on, clear_draws, clear_of_spawn, draw_within,
    lemma_clear_draws_prefix, lemma_clear_draws_within, playable, ship_at, spawn_sites,
};
use crate::targeting::{lemma_nearest_is_first_minimum, nearest, squared_distance, squared_gap};

verus! {

/// Length of the splash screen, in milliseconds.
pub const SPLASH_MS: u64 = 2000;

/// Time an explosion stays before the ship respawns or the game ends.
pub const EXPLOSION_MS: u64 = 1000;

/// Time a laser flies before it vanishes.
pub const LASER_LIFETIME_MS: u64 = 1000;

/// Shortest time between two shots of one ship.
pub const FIRE_COOLDOWN_MS: u64 = 500;

/// No asteroid is placed closer than this to the centre, where the ship starts.
pub const SAFE_RADIUS: i64 = 200;

/// Beyond this distance from the ship, the nearest asteroid is pulled back.
pub const PULL_DISTANCE: i64 = 1000;

/// Speed of an asteroid pulled back toward the ship.
pub const PULL_SPEED: u32 = 100;

/// Random positions tried per asteroid before a level start gives up on
/// placing the rest.
pub const DRAWS_PER_ASTEROID: u64 = 1000;

/// The phase of the whole program; exactly one is active at a time.
#[derive(Clone, Copy, Debug, PartialEq, Eq, Structural)]
pub enum GameState {
    Splash,
    StartMenu,
    Game,
    Won,
}

/// One-shot sound cues handed to the audio player.
#[derive(Clone, Copy, Debug, PartialEq, Eq, Structural)]
pub enum AudioStart {
    Laser,
    ShipExplosion,
    AsteroidExplosion,
    Start,
    Win,
    Lose,
}

/// Lives left after the current ship.
#[derive(Clone, Copy, Debug, PartialEq, Eq, Structural)]
pub struct LivesRemaining(pub u32);

/// The player's ship.
#[derive(Clone, Copy, Debug, PartialEq, Eq, Structural)]
pub struct Player {
    pub id: u64,
    pub x: i32,
    pub y: i32,
    /// Milliradians per second, positive counter-clockwise.
    pub angular_velocity: i64,
    /// Whether the jets are lit.
    pub thrusting: bool,
    /// Clock reading of the last shot; zero before the first.
    pub last_fired: u64,
}

/// How an asteroid moves.
#[derive(Clone, Copy, Debug, PartialEq, Eq, Structural)]
pub enum Motion {
    /// Straight on, heading in milliradians.
    Drift { heading: u32, speed: u32 },
    /// Toward a point, at the given speed.
    Toward { x: i32, y: i32, speed: u32 },
}

/// A rock to be shot; destroyed by a laser, never split.
#[derive(Clone, Copy, Debug, PartialEq, Eq, Structural)]
pub struct Asteroid {
    pub id: u64,
    pub x: i32,
    pub y: i32,
    pub motion: Motion,
    /// Milliradians per second.
    pub spin: i32,
}

/// What is left of a ship; when its time runs out the next ship starts here.
#[derive(Clone, Copy, Debug, PartialEq, Eq, Structural)]
pub struct Explosion {
    pub id: u64,
    pub x: i32,
    pub y: i32,
    pub remaining: u64,
}

/// A shot, with the time it has left to fly.
#[derive(Clone, Copy, Debug, PartialEq, Eq, Structural)]
pub struct Laser {
    pub id: u64,
    pub remaining: u64,
}

/// One random candidate for an asteroid: a position, a heading, a speed and
/// a spin.
#[derive(Clone, Copy, Debug, PartialEq, Eq, Structural)]
pub struct AsteroidDraw {
    pub x: i32,
    pub y: i32,
    pub heading: u32,
    pub speed: u32,
    pub spin: i32,
}

/// The figures the heads-up display shows.
#[derive(Clone, Copy, Debug, PartialEq, Eq, Structural)]
pub struct Hud {
    pub asteroids: usize,
    pub lives: u32,
    pub seconds: u64,
}

/// The whole state of the program: its phase and the entities of a game.
pub struct Game {
    state: GameState,
    splash_remaining: u64,
    lives: LivesRemaining,
    player: Option<Player>,
    asteroids: Vec<Asteroid>,
    explosion: Option<Explosion>,
    lasers: Vec<Laser>,
    duration: u64,
    next_id: u64,
}

/// What a `Game` holds, as plain values.
pub struct GameView {
    pub state: GameState,
    pub splash_remaining: u64,
    pub lives: u32,
    pub player: Option<Player>,
    pub asteroids: Seq<Asteroid>,
    pub explosion: Option<Explosion>,
    pub lasers: Seq<Laser>,
    pub duration: u64,
    pub next_id: u64,
}

impl View for Game {
    type V = GameView;

    closed spec fn view(&self) -> GameView {
        GameView {
            state: self.state,
            splash_remaining: self.splash_remaining,
            lives: self.lives.0,
            player: self.player,
            asteroids: self.asteroids@,
            explosion: self.explosion,
            lasers: self.lasers@,
            duration: self.duration,
            next_id: self.next_id,
        }
    }
}

impl GameView {
    /// At most one ship is about: the player, or the explosion it left.
    pub open spec fn wf(self) -> bool {
        !(self.player is Some && self.explosion is Some)
    }

    /// This view with every entity of a game gone and `next` as the phase.
    pub open spec fn leaving_game(self, next: GameState) -> GameView {
        GameView {
            state: next,
            player: None,
            asteroids: Seq::empty(),
            explosion: None,
            lasers: Seq::empty(),
            ..self
        }
    }
}

fn is_clear_of_spawn(d: &AsteroidDraw) -> (r: bool)
    ensures
        r == clear_of_spawn(*d),
{
    let x = d.x as i64;
    let y = d.y as i64;
    proof {
        assert(0 <= x * x <= 0x4000_0000_0000_0000) by (nonlinear_arith)
            requires
                i32::MIN <= x <= i32::MAX,
        ;
        assert(0 <= y * y <= 0x4000_0000_0000_0000) by (nonlinear_arith)
            requires
                i32::MIN <= y <= i32::MAX,
        ;
    }
    (x * x) as u64 + (y * y) as u64 >= (SAFE_RADIUS * SAFE_RADIUS) as u64
}

/// Relies on rand::thread_rng and rand::Rng::gen_range: a number drawn from
/// the half-open range `low..high`; gen_range panics where that range is
/// empty.
#[verifier::external_body]
fn random_in(low: i64, high: i64) -> (r: i64)
    requires
        low < high,
    ensures
        low <= r < high,
{
    rand::thread_rng().gen_range(low..high)
}

/// One random candidate within the limits of a level.
fn draw_asteroid(level: &Level) -> (d: AsteroidDraw)
    requires
        level.width > 0,
        level.height > 0,
    ensures
        draw_within(d, *level),
{
    let half_w = (level.width / 2) as i64;
    let half_h = (level.height / 2) as i64;
    let x = random_in(-half_w, level.width as i64 - half_w);
    let y = random_in(-half_h, level.height as i64 - half_h);
    let heading = random_in(0, 6283);
    let speed = random_in(10, 100);
    let spin = random_in(-1500, 1500);
    AsteroidDraw {
        x: x as i32,
        y: y as i32,
        heading: heading as u32,
        speed: speed as u32,
        spin: spin as i32,
    }
}

fn contains_asteroid(s: &Vec<Asteroid>, id: u64) -> (r: bool)
    ensures
        r == has_asteroid(s@, id),
{
    let mut i: usize = 0;
    while i < s.len()
        invariant
            i <= s.len(),
            forall|k: int| 0 <= k < i ==> (#[trigger] s@[k]).id != id,
        decreases s.len() - i,
    {
        if s[i].id == id {
            return true;
        }
        i = i + 1;
    }
    false
}

fn contains_laser(s: &Vec<Laser>, id: u64) -> (r: bool)
    ensures
        r == has_laser(s@, id),
{
    let mut i: usize = 0;
    while i < s.len()
        invariant
            i <= s.len(),
            forall|k: int| 0 <= k < i ==> (#[trigger] s@[k]).id != id,
        decreases s.len() - i,
    {
        if s[i].id == id {
            return true;
        }
        i = i + 1;
    }
    false
}

fn remove_asteroid(s: &Vec<Asteroid>, id: u64) -> (r: Vec<Asteroid>)
    ensures
        r@ == asteroids_without(s@, id),
{
    let mut out: Vec<Asteroid> = Vec::new();
    let mut i: usize = 0;
    while i < s.len()
        invariant
            i <= s.len(),
            out@ == asteroids_without(s@.take(i as int), id),
        decreases s.len() - i,
    {
        proof {
            assert(s@.take(i + 1).drop_last() =~= s@.take(i as int));
        }
        if s[i].id != id {
            out.push(s[i]);
        }
        i = i + 1;
    }
    assert(s@.take(i as int) =~= s@);
    out
}

fn remove_laser(s: &Vec<Laser>, id: u64) -> (r: Vec<Laser>)
    ensures
        r@ == lasers_without(s@, id),
{
    let mut out: Vec<Laser> = Vec::new();
    let mut i: usize = 0;
    while i < s.len()
        invariant
            i <= s.len(),
            out@ == lasers_without(s@.take(i as int), id),
        decreases s.len() - i,
    {
        proof {
            assert(s@.take(i + 1).drop_last() =~= s@.take(i as int));
        }
        if s[i].id != id {
            out.push(s[i]);
        }
        i = i + 1;
    }
    assert(s@.take(i as int) =~= s@);
    out
}

fn age_lasers(s: &Vec<Laser>, delta: u64) -> (r: Vec<Laser>)
    ensures
        r@ == tick_lasers(s@, delta),
{
    let mut out: Vec<Laser> = Vec::new();
    let mut i: usize = 0;
    while i < s.len()
        invariant
            i <= s.len(),
            out@ == tick_lasers(s@.take(i as int), delta),
        decreases s.len() - i,
    {
        proof {
            assert(s@.take(i + 1).drop_last() =~= s@.take(i as int));
        }
        let l = s[i];
        if l.remaining > delta {
            out.push(Laser { id: l.id, remaining: l.remaining - delta });
        }
        i = i + 1;
    }
    assert(s@.take(i as int) =~= s@);
    out
}

fn next_id_after(id: u64) -> (r: u64)
    ensures
        r == id_after(id),
{
    if id == u64::MAX {
        0
    } else {
        id + 1
    }
}

impl Game {
    /// The program as it starts: on the splash screen, with no game entities.
    pub fn new() -> (g: Game)
        ensures
            g@.state == GameState::Splash,
            g@.splash_remaining == SPLASH_MS,
            g@.lives == 0,
            g@.player is None,
            g@.asteroids.len() == 0,
            g@.explosion is None,
            g@.lasers.len() == 0,
            g@.duration == 0,
            g@.next_id == 0,
    {
        Game {
            state: GameState::Splash,
            splash_remaining: SPLASH_MS,
            lives: LivesRemaining(0),
            player: None,
            asteroids: Vec::new(),
            explosion: None,
            lasers: Vec::new(),
            duration: 0,
            next_id: 0,
        }
    }

    /// Starts a game on a level, with asteroids on the first candidates of
    /// `draws` that lie clear of the centre: one ship at the centre, as many
    /// asteroids as the level asks for (fewer where `draws` has too few clear
    /// candidates), and one life fewer than the level gives, the current
    /// ship being the first.
    pub fn start_session(&mut self, level: &Level, draws: &Vec<AsteroidDraw>)
        requires
            level.lives >= 1,
        ensures
            final(self)@ == (GameView {
                state: GameState::Game,
                splash_remaining: old(self)@.splash_remaining,
                lives: (level.lives - 1) as u32,
                player: Some(ship_at(0, 0, 0)),
                asteroids: asteroids_on(spawn_sites(draws@, level.asteroids as nat)),
                explosion: None,
                lasers: Seq::empty(),
                duration: 0,
                next_id: (spawn_sites(draws@, level.asteroids as nat).len() + 1) as u64,
            }),
    {
        let n = level.asteroids as usize;
        let mut asteroids: Vec<Asteroid> = Vec::new();
        let mut i: usize = 0;
        while i < draws.len() && asteroids.len() < n
            invariant
                n == level.asteroids,
                i <= draws.len(),
                asteroids.len() <= n,
                asteroids@ == asteroids_on(clear_draws(draws@.take(i as int))),
            decreases draws.len() - i,
        {
            let d = draws[i];
            proof {
                assert(draws@.take(i + 1).drop_last() =~= draws@.take(i as int));
                assert(draws@.take(i + 1).last() == d);
            }
            if is_clear_of_spawn(&d) {
                let id = (asteroids.len() + 1) as u64;
                asteroids.push(
                    Asteroid {
                        id,
                        x: d.x,
                        y: d.y,
                        motion: Motion::Drift { heading: d.heading, speed: d.speed },
                        spin: d.spin,
                    },
                );
            }
            i = i + 1;
            assert(asteroids@ =~= asteroids_on(clear_draws(draws@.take(i as int))));
        }
        proof {
            lemma_clear_draws_prefix(draws@, i as int);
            let sites = spawn_sites(draws@, n as nat);
            if i == draws.len() {
                assert(draws@.take(i as int) =~= draws@);
            } else {
                assert(clear_draws(draws@.take(i as int)) =~= sites);
            }
            assert(asteroids@ =~= asteroids_on(sites));
        }
        let count = asteroids.len() as u64;
        self.state = GameState::Game;
        self.lives = LivesRemaining(level.lives - 1);
        self.player = Some(
            Player { id: 0, x: 0, y: 0, angular_velocity: 0, thrusting: false, last_fired: 0 },
        );
        self.asteroids = asteroids;
        self.explosion = None;
        self.lasers = Vec::new();
        self.duration = 0;
        self.next_id = count + 1;
        assert(self.lasers@ =~= Seq::<Laser>::empty());
    }

    /// Starts a game on a level with randomly placed asteroids. Each is drawn
    /// uniformly within the arena, drawn again while it falls inside the safe
    /// radius around the centre, and given a random heading, speed and spin.
    /// Draws are capped per asteroid, so an arena with little room outside
    /// the safe radius may get fewer asteroids than the level asks for.
    pub fn display_level(&mut self, level: &Level)
        requires
            playable(*level),
        ensures
            final(self)@.state == GameState::Game,
            final(self)@.lives == level.lives - 1,
            final(self)@.player == Some(ship_at(0, 0, 0)),
            final(self)@.explosion is None,
            final(self)@.lasers.len() == 0,
            final(self)@.asteroids.len() <= level.asteroids,
            forall|k: int|
                0 <= k < final(self)@.asteroids.len() ==> {
                    let a = #[trigger] final(self)@.asteroids[k];
                    &&& squared_distance(a.x as int, a.y as int, 0, 0) >= SAFE_RADIUS
                        * SAFE_RADIUS
                    &&& arena_low(level.width) <= a.x < arena_high(level.width)
                    &&& arena_low(level.height) <= a.y < arena_high(level.height)
                },
    {
        let n = level.asteroids as u64;
        let limit = (n + 1) * DRAWS_PER_ASTEROID;
        let mut draws: Vec<AsteroidDraw> = Vec::new();
        let mut placed: u64 = 0;
        let mut tries: u64 = 0;
        while placed < n && tries < limit
            invariant
                playable(*level),
                placed == clear_draws(draws@).len(),
                tries == draws.len(),
                tries <= limit,
                forall|k: int| 0 <= k < draws@.len() ==> draw_within(#[trigger] draws@[k], *level),
            decreases limit - tries,
        {
            let d = draw_asteroid(level);
            let clear = is_clear_of_spawn(&d);
            let ghost before = draws@;
            draws.push(d);
            proof {
                assert(draws@.drop_last() =~= before);
            }
            if clear {
                placed = placed + 1;
            }
            tries = tries + 1;
        }
        self.start_session(level, &draws);
        proof {
            lemma_clear_draws_within(draws@, *level);
            let c = clear_draws(draws@);
            let sites = spawn_sites(draws@, n as nat);
            assert forall|k: int| 0 <= k < sites.len() implies draw_within(
                #[trigger] sites[k],
                *level,
            ) && clear_of_spawn(sites[k]) by {
                assert(sites[k] == c[k]);
                assert(draw_within(c[k], *level));
            }
        }
    }

    /// Removes every entity of the game and enters `next`.
    fn leave_game(&mut self, next: GameState)
        ensures
            final(self)@ == old(self)@.leaving_game(next),
    {
        self.state = next;
        self.player = None;
        self.asteroids = Vec::new();
        self.explosion = None;
        self.lasers = Vec::new();
        assert(self.asteroids@ =~= Seq::<Asteroid>::empty());
        assert(self.lasers@ =~= Seq::<Laser>::empty());
    }

    /// Advances the splash screen by `delta` milliseconds; the start menu
    /// follows once its time runs out.
    pub fn switch_to_menu(&mut self, delta: u64)
        ensures
            final(self)@ == splash_step(old(self)@, delta),
    {
        if self.state == GameState::Splash && self.splash_remaining > 0 {
            if delta >= self.splash_remaining {
                self.state = GameState::StartMenu;
                self.splash_remaining = 0;
            } else {
                self.splash_remaining = self.splash_remaining - delta;
            }
        }
    }

    /// On the start menu, a key press starts a game on `level`
    /// (see `display_level`) and cues the start sound.
    pub fn start_game(&mut self, key_pressed: bool, level: &Level) -> (r: Option<AudioStart>)
        requires
            playable(*level),
        ensures
            old(self)@.state == GameState::StartMenu && key_pressed ==> r == Some(AudioStart::Start)
                && final(self)@.state == GameState::Game && final(self)@.lives == level.lives - 1
                && final(self)@.player == Some(ship_at(0, 0, 0)) && final(self)@.explosion is None
                && final(self)@.lasers.len() == 0 && final(self)@.asteroids.len()
                <= level.asteroids,
            !(old(self)@.state == GameState::StartMenu && key_pressed) ==> r is None
                && final(self)@ == old(self)@,
    {
        if self.state == GameState::StartMenu && key_pressed {
            self.display_level(level);
            Some(AudioStart::Start)
        } else {
            None
        }
    }

    /// On the winning screen, a key press goes back to the start menu.
    pub fn back_to_menu(&mut self, key_pressed: bool)
        ensures
            final(self)@ == if old(self)@.state == GameState::Won && key_pressed {
                GameView { state: GameState::StartMenu, ..old(self)@ }
            } else {
                old(self)@
            },
    {
        if self.state == GameState::Won && key_pressed {
            self.state = GameState::StartMenu;
        }
    }

    /// Advances the explosion by `delta` milliseconds. When its time runs
    /// out with lives left, one is spent on a new ship where the explosion
    /// stood; with none left the game is lost: every entity of it goes, the
    /// start menu follows and the losing sound is cued.
    pub fn tick_explosion(&mut self, delta: u64) -> (r: Option<AudioStart>)
        ensures
            (final(self)@, r) == explosion_step(old(self)@, delta),
            old(self)@.wf() ==> final(self)@.wf(),
    {
        if self.state != GameState::Game {
            return None;
        }
        match self.explosion {
            None => None,
            Some(e) => {
                if delta >= e.remaining {
                    if self.lives.0 == 0 {
                        self.leave_game(GameState::StartMenu);
                        Some(AudioStart::Lose)
                    } else {
                        self.lives = LivesRemaining(self.lives.0 - 1);
                        self.explosion = None;
                        self.player = Some(
                            Player {
                                id: self.next_id,
                                x: e.x,
                                y: e.y,
                                angular_velocity: 0,
                                thrusting: false,
                                last_fired: 0,
                            },
                        );
                        self.next_id = next_id_after(self.next_id);
                        None
                    }
                } else {
                    self.explosion = Some(
                        Explosion { id: e.id, x: e.x, y: e.y, remaining: e.remaining - delta },
                    );
                    None
                }
            },
        }
    }

    /// The ship meets the asteroid `asteroid`: the ship is destroyed and an
    /// explosion takes its place; the asteroid stays. Nothing happens without
    /// a ship or without such an asteroid.
    pub fn asteroid_collision(&mut self, asteroid: u64) -> (r: Option<AudioStart>)
        ensures
            (final(self)@, r) == ship_hit_step(old(self)@, asteroid),
            old(self)@.wf() ==> final(self)@.wf(),
    {
        if self.state != GameState::Game {
            return None;
        }
        match self.player {
            None => None,
            Some(p) => {
                if !contains_asteroid(&self.asteroids, asteroid) {
                    return None;
                }
                self.explosion = Some(
                    Explosion { id: self.next_id, x: p.x, y: p.y, remaining: EXPLOSION_MS },
                );
                self.player = None;
                self.next_id = next_id_after(self.next_id);
                Some(AudioStart::ShipExplosion)
            },
        }
    }

    /// The ship fires at clock reading `now`, in milliseconds: a laser starts
    /// unless the last shot was no more than the cooldown ago.
    pub fn fire_laser(&mut self, now: u64) -> (r: Option<AudioStart>)
        ensures
            (final(self)@, r) == fire_step(old(self)@, now),
            old(self)@.wf() ==> final(self)@.wf(),
    {
        if self.state != GameState::Game {
            return None;
        }
        match self.player {
            None => None,
            Some(p) => {
                if now > p.last_fired && now - p.last_fired > FIRE_COOLDOWN_MS {
                    self.player = Some(Player { last_fired: now, ..p });
                    self.lasers.push(Laser { id: self.next_id, remaining: LASER_LIFETIME_MS });
                    self.next_id = next_id_after(self.next_id);
                    Some(AudioStart::Laser)
                } else {
                    None
                }
            },
        }
    }

    /// Ages the lasers by `delta` milliseconds; those whose time runs out are
    /// gone.
    pub fn laser_range(&mut self, delta: u64)
        ensures
            final(self)@ == laser_range_step(old(self)@, delta),
            old(self)@.wf() ==> final(self)@.wf(),
    {
        if self.state == GameState::Game {
            self.lasers = age_lasers(&self.lasers, delta);
        }
    }

    /// The laser `laser` meets the asteroid `asteroid`: both are destroyed.
    pub fn laser_attack(&mut self, laser: u64, asteroid: u64) -> (r: Option<AudioStart>)
        ensures
            (final(self)@, r) == laser_hit_step(old(self)@, laser, asteroid),
            old(self)@.wf() ==> final(self)@.wf(),
    {
        if self.state == GameState::Game && contains_laser(&self.lasers, laser)
            && contains_asteroid(&self.asteroids, asteroid) {
            self.asteroids = remove_asteroid(&self.asteroids, asteroid);
            self.lasers = remove_laser(&self.lasers, laser);
            Some(AudioStart::AsteroidExplosion)
        } else {
            None
        }
    }

    /// A game with no asteroid left is won: every entity of it goes, the
    /// winning screen follows and the winning sound is cued.
    pub fn has_won(&mut self) -> (r: Option<AudioStart>)
        ensures
            (final(self)@, r) == win_step(old(self)@),
            old(self)@.wf() ==> final(self)@.wf(),
    {
        if self.state == GameState::Game && self.asteroids.len() == 0 {
            self.leave_game(GameState::Won);
            Some(AudioStart::Win)
        } else {
            None
        }
    }

    /// Picks the asteroid nearest to the ship and returns its id, with
    /// whether it is pulled: one farther than the pull distance is sent back
    /// toward the ship.
    pub fn closest(&mut self) -> (r: Option<(u64, bool)>)
        ensures
            (final(self)@, r) == target_step(old(self)@),
            old(self)@.wf() ==> final(self)@.wf(),
    {
        if self.state != GameState::Game {
            return None;
        }
        match self.player {
            None => None,
            Some(p) => {
                match nearest(&self.asteroids, p.x, p.y) {
                    None => None,
                    Some(i) => {
                        proof {
                            lemma_nearest_is_first_minimum(self.asteroids@, p.x, p.y);
                        }
                        let a = self.asteroids[i];
                        let far = squared_gap(&a, p.x, p.y) > (PULL_DISTANCE * PULL_DISTANCE) as i128;
                        if far {
                            self.asteroids.set(
                                i,
                                Asteroid {
                                    motion: Motion::Toward { x: p.x, y: p.y, speed: PULL_SPEED },
                                    ..a
                                },
                            );
                        }
                        Some((a.id, far))
                    },
                }
            },
        }
    }

    /// A collision begins between the entity `target` and the entity
    /// `collider`. The ship hit by an asteroid explodes; a laser that hits an
    /// asteroid destroys it; anything else is ignored.
    pub fn collision_started(&mut self, target: u64, collider: u64) -> (r: Option<AudioStart>)
        ensures
            (final(self)@, r) == collision_step(old(self)@, target, collider),
            old(self)@.wf() ==> final(self)@.wf(),
    {
        match self.player {
            Some(p) => {
                if p.id == target {
                    return self.asteroid_collision(collider);
                }
            },
            None => {},
        }
        if contains_laser(&self.lasers, target) {
            self.laser_attack(target, collider)
        } else {
            None
        }
    }

    /// Turns the ship for `delta` milliseconds; see `rotate_step`.
    pub fn rotate(&mut self, direction: i32, delta: u64)
        ensures
            final(self)@ == rotate_step(old(self)@, direction, delta),
            old(self)@.wf() ==> final(self)@.wf(),
    {
        if self.state != GameState::Game || direction == 0 {
            return;
        }
        match self.player {
            None => {},
            Some(p) => {
                let rate = TURN_RATE as i128 * delta as i128;
                let next = if direction > 0 {
                    p.angular_velocity as i128 + rate
                } else {
                    p.angular_velocity as i128 - rate
                };
                let clamped = if next < i64::MIN as i128 {
                    i64::MIN
                } else if next > i64::MAX as i128 {
                    i64::MAX
                } else {
                    next as i64
                };
                self.player = Some(Player { angular_velocity: clamped, ..p });
            },
        }
    }

    /// Lights the ship's jets.
    pub fn thrust(&mut self)
        ensures
            final(self)@ == thrust_step(old(self)@, true),
            old(self)@.wf() ==> final(self)@.wf(),
    {
        self.set_thrust(true);
    }

    /// Puts the ship's jets out.
    pub fn thrust_stop(&mut self)
        ensures
            final(self)@ == thrust_step(old(self)@, false),
            old(self)@.wf() ==> final(self)@.wf(),
    {
        self.set_thrust(false);
    }

    fn set_thrust(&mut self, on: bool)
        ensures
            final(self)@ == thrust_step(old(self)@, on),
    {
        if self.state == GameState::Game {
            match self.player {
                None => {},
                Some(p) => {
                    self.player = Some(Player { thrusting: on, ..p });
                },
            }
        }
    }

    /// Where the camera goes: onto the ship, while there is one.
    pub fn follow_player(&self) -> (r: Option<(i32, i32)>)
        ensures
            r == if self@.state == GameState::Game && self@.player is Some {
                Some((self@.player->0.x, self@.player->0.y))
            } else {
                None::<(i32, i32)>
            },
    {
        if self.state != GameState::Game {
            return None;
        }
        match self.player {
            None => None,
            Some(p) => Some((p.x, p.y)),
        }
    }

    /// Advances the game clock by `delta` milliseconds and gives the figures
    /// to display: asteroids left, lives left and whole seconds played.
    pub fn update_hud(&mut self, delta: u64) -> (r: Option<Hud>)
        ensures
            old(self)@.state == GameState::Game ==> final(self)@ == (GameView {
                duration: if old(self)@.duration + delta > u64::MAX {
                    u64::MAX
                } else {
                    (old(self)@.duration + delta) as u64
                },
                ..old(self)@
            }) && r == Some(
                Hud {
                    asteroids: old(self)@.asteroids.len() as usize,
                    lives: old(self)@.lives,
                    seconds: final(self)@.duration / 1000,
                },
            ),
            old(self)@.state != GameState::Game ==> final(self)@ == old(self)@ && r is None,
    {
        if self.state != GameState::Game {
            return None;
        }
        self.duration = self.duration.saturating_add(delta);
        Some(Hud { asteroids: self.asteroids.len(), lives: self.lives.0, seconds: self.duration / 1000 })
    }

    /// Records where the physics engine has moved the ship.
    pub fn move_player(&mut self, x: i32, y: i32)
        ensures
            final(self)@ == match old(self)@.player {
                Some(p) => GameView { player: Some(Player { x, y, ..p }), ..old(self)@ },
                None => old(self)@,
            },
            old(self)@.wf() ==> final(self)@.wf(),
    {
        match self.player {
            None => {},
            Some(p) => {
                self.player = Some(Player { x, y, ..p });
            },
        }
    }

    /// Records where the physics engine has moved the asteroid `id`.
    pub fn move_asteroid(&mut self, id: u64, x: i32, y: i32)
        ensures
            final(self)@ == (GameView {
                asteroids: moved_asteroids(old(self)@.asteroids, id, x, y),
                ..old(self)@
            }),
            old(self)@.wf() ==> final(self)@.wf(),
    {
        let mut out: Vec<Asteroid> = Vec::new();
        let mut i: usize = 0;
        while i < self.asteroids.len()
            invariant
                i <= self.asteroids.len(),
                out@.len() == i,
                forall|k: int|
                    0 <= k < i ==> #[trigger] out@[k] == moved_asteroids(self.asteroids@, id, x, y)[k],
            decreases self.asteroids.len() - i,
        {
            let a = self.asteroids[i];
            if a.id == id {
                out.push(Asteroid { x, y, ..a });
            } else {
                out.push(a);
            }
            i = i + 1;
        }
        assert(out@ =~= moved_asteroids(self.asteroids@, id, x, y));
        self.asteroids = out;
    }

    pub fn state(&self) -> (r: GameState)
        ensures
            r == self@.state,
    {
        self.state
    }

    pub fn lives(&self) -> (r: LivesRemaining)
        ensures
            r.0 == self@.lives,
    {
        self.lives
    }

    pub fn player(&self) -> (r: Option<Player>)
        ensures
            r == self@.player,
    {
        self.player
    }

    pub fn asteroids(&self) -> (r: &Vec<Asteroid>)
        ensures
            r@ == self@.asteroids,
    {
        &self.asteroids
    }

    pub fn explosion(&self) -> (r: Option<Explosion>)
        ensures
            r == self@.explosion,
    {
        self.explosion
    }

    pub fn lasers(&self) -> (r: &Vec<Laser>)
        ensures
            r@ == self@.lasers,
    {
        &self.lasers
    }
}

} // verus!
