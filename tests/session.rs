use asteroids::{
    nearest, Asteroid, AsteroidDraw, AudioStart, Game, GameState, Hud, Level, LivesRemaining,
    Motion, Player,
};

fn level(asteroids: u32, lives: u32) -> Level {
    Level { width: 1000, height: 800, asteroids, lives }
}

fn draw(x: i32, y: i32) -> AsteroidDraw {
    AsteroidDraw { x, y, heading: 100, speed: 50, spin: -20 }
}

/// A game on a level with asteroids at the given positions, all clear of
/// the centre.
fn game_with(positions: &[(i32, i32)], lives: u32) -> Game {
    let mut g = Game::new();
    let draws: Vec<AsteroidDraw> = positions.iter().map(|&(x, y)| draw(x, y)).collect();
    g.start_session(&level(positions.len() as u32, lives), &draws);
    g
}

fn squared(a: &Asteroid, x: i32, y: i32) -> i64 {
    let dx = a.x as i64 - x as i64;
    let dy = a.y as i64 - y as i64;
    dx * dx + dy * dy
}

#[test]
fn the_program_starts_on_the_splash_screen() {
    let g = Game::new();
    assert_eq!(g.state(), GameState::Splash);
    assert_eq!(g.player(), None);
    assert!(g.asteroids().is_empty());
}

#[test]
fn splash_gives_way_to_the_menu_after_two_seconds() {
    let mut g = Game::new();
    g.switch_to_menu(1999);
    assert_eq!(g.state(), GameState::Splash);
    g.switch_to_menu(1);
    assert_eq!(g.state(), GameState::StartMenu);
    g.switch_to_menu(5000);
    assert_eq!(g.state(), GameState::StartMenu);
}

#[test]
fn menu_waits_for_a_key() {
    let mut g = Game::new();
    g.switch_to_menu(2000);
    assert_eq!(g.start_game(false, &level(4, 3)), None);
    assert_eq!(g.state(), GameState::StartMenu);
    assert_eq!(g.start_game(true, &level(4, 3)), Some(AudioStart::Start));
    assert_eq!(g.state(), GameState::Game);
}

#[test]
fn session_start_on_a_thousand_by_eight_hundred_level() {
    let mut g = Game::new();
    g.switch_to_menu(2000);
    g.start_game(true, &level(4, 3));
    assert_eq!(g.state(), GameState::Game);
    assert_eq!(g.lives(), LivesRemaining(2));
    let p = g.player().unwrap();
    assert_eq!((p.x, p.y), (0, 0));
    assert_eq!(g.explosion(), None);
    assert_eq!(g.asteroids().len(), 4);
    for a in g.asteroids() {
        assert!(squared(a, 0, 0) >= 200 * 200);
        assert!(-500 <= a.x && a.x < 500);
        assert!(-400 <= a.y && a.y < 400);
        match a.motion {
            Motion::Drift { heading, speed } => {
                assert!(heading < 6283);
                assert!((10..100).contains(&speed));
            }
            Motion::Toward { .. } => panic!("a new asteroid drifts"),
        }
        assert!((-1500..1500).contains(&a.spin));
    }
    let first = g.asteroids()[0];
    assert!(g.asteroids().iter().any(|a| (a.x, a.y) != (first.x, first.y)));
}

#[test]
fn session_start_spends_the_first_life() {
    let mut g = Game::new();
    g.start_session(&level(0, 1), &vec![]);
    assert_eq!(g.lives(), LivesRemaining(0));
    let mut g = Game::new();
    g.start_session(&level(0, 7), &vec![]);
    assert_eq!(g.lives(), LivesRemaining(6));
}

#[test]
fn candidates_near_the_centre_are_skipped() {
    let mut g = Game::new();
    let draws = vec![draw(10, 10), draw(300, 0), draw(199, 0), draw(0, -200), draw(400, 400)];
    g.start_session(&level(2, 3), &draws);
    let got: Vec<(u64, i32, i32)> = g.asteroids().iter().map(|a| (a.id, a.x, a.y)).collect();
    assert_eq!(got, vec![(1, 300, 0), (2, 0, -200)]);
    assert_eq!(g.asteroids()[0].motion, Motion::Drift { heading: 100, speed: 50 });
    assert_eq!(g.asteroids()[0].spin, -20);
    assert_eq!(g.player().unwrap().id, 0);
}

#[test]
fn too_few_clear_candidates_give_fewer_asteroids() {
    let mut g = Game::new();
    g.start_session(&level(3, 3), &vec![draw(0, 0), draw(500, 0)]);
    assert_eq!(g.asteroids().len(), 1);
}

#[test]
fn ship_hit_by_asteroid_becomes_an_explosion() {
    let mut g = game_with(&[(300, 0)], 3);
    g.move_player(20, -30);
    assert_eq!(g.asteroid_collision(1), Some(AudioStart::ShipExplosion));
    assert_eq!(g.player(), None);
    let e = g.explosion().unwrap();
    assert_eq!((e.x, e.y, e.remaining), (20, -30, 1000));
    assert_eq!(g.asteroids().len(), 1);
    assert_eq!(g.lives(), LivesRemaining(2));
}

#[test]
fn collision_with_unknown_asteroid_is_ignored() {
    let mut g = game_with(&[(300, 0)], 3);
    assert_eq!(g.asteroid_collision(42), None);
    assert!(g.player().is_some());
}

#[test]
fn explosion_expiry_respawns_with_one_life_less() {
    let mut g = game_with(&[(300, 0)], 3);
    g.move_player(20, -30);
    g.asteroid_collision(1);
    assert_eq!(g.tick_explosion(999), None);
    assert!(g.explosion().is_some());
    assert_eq!(g.player(), None);
    assert_eq!(g.tick_explosion(1), None);
    assert_eq!(g.explosion(), None);
    assert_eq!(g.lives(), LivesRemaining(1));
    let p = g.player().unwrap();
    assert_eq!((p.x, p.y, p.angular_velocity, p.thrusting), (20, -30, 0, false));
    assert_eq!(g.state(), GameState::Game);
}

#[test]
fn last_life_lost_goes_back_to_the_menu() {
    let mut g = game_with(&[(300, 0)], 1);
    assert_eq!(g.lives(), LivesRemaining(0));
    assert_eq!(g.asteroid_collision(1), Some(AudioStart::ShipExplosion));
    assert_eq!(g.tick_explosion(500), None);
    assert_eq!(g.tick_explosion(500), Some(AudioStart::Lose));
    assert_eq!(g.state(), GameState::StartMenu);
    assert_eq!(g.player(), None);
    assert_eq!(g.explosion(), None);
    assert!(g.asteroids().is_empty());
    assert_eq!(g.tick_explosion(1000), None);
    assert_eq!(g.player(), None);
}

#[test]
fn shots_closer_than_the_cooldown_give_one_laser() {
    let mut g = game_with(&[(300, 0)], 3);
    assert_eq!(g.fire_laser(600), Some(AudioStart::Laser));
    assert_eq!(g.fire_laser(900), None);
    assert_eq!(g.lasers().len(), 1);
    assert_eq!(g.lasers()[0].remaining, 1000);
}

#[test]
fn shots_further_apart_than_the_cooldown_each_give_a_laser() {
    let mut g = game_with(&[(300, 0)], 3);
    assert_eq!(g.fire_laser(600), Some(AudioStart::Laser));
    assert_eq!(g.fire_laser(1101), Some(AudioStart::Laser));
    assert_eq!(g.lasers().len(), 2);
    assert_ne!(g.lasers()[0].id, g.lasers()[1].id);
}

#[test]
fn shots_exactly_the_cooldown_apart_give_one_laser() {
    let mut g = game_with(&[(300, 0)], 3);
    assert_eq!(g.fire_laser(600), Some(AudioStart::Laser));
    assert_eq!(g.fire_laser(1100), None);
    assert_eq!(g.lasers().len(), 1);
}

#[test]
fn a_new_ship_waits_for_the_first_cooldown() {
    let mut g = game_with(&[(300, 0)], 3);
    assert_eq!(g.fire_laser(500), None);
    assert_eq!(g.fire_laser(501), Some(AudioStart::Laser));
}

#[test]
fn without_a_ship_controls_do_nothing() {
    let mut g = game_with(&[(300, 0)], 3);
    g.asteroid_collision(1);
    assert_eq!(g.fire_laser(5000), None);
    g.rotate(1, 16);
    g.thrust();
    assert_eq!(g.player(), None);
    assert!(g.lasers().is_empty());
    assert_eq!(g.follow_player(), None);
}

#[test]
fn lasers_vanish_after_a_second() {
    let mut g = game_with(&[(300, 0)], 3);
    g.fire_laser(600);
    g.laser_range(400);
    g.fire_laser(1200);
    g.laser_range(599);
    assert_eq!(g.lasers().iter().map(|l| l.remaining).collect::<Vec<_>>(), vec![1, 401]);
    g.laser_range(1);
    assert_eq!(g.lasers().iter().map(|l| l.remaining).collect::<Vec<_>>(), vec![400]);
    g.laser_range(400);
    assert!(g.lasers().is_empty());
}

#[test]
fn laser_destroys_the_asteroid_it_hits() {
    let mut g = game_with(&[(300, 0), (0, 300)], 3);
    g.fire_laser(600);
    let laser = g.lasers()[0].id;
    assert_eq!(g.laser_attack(laser, 2), Some(AudioStart::AsteroidExplosion));
    assert!(g.lasers().is_empty());
    let ids: Vec<u64> = g.asteroids().iter().map(|a| a.id).collect();
    assert_eq!(ids, vec![1]);
    assert_eq!(g.lives(), LivesRemaining(2));
    assert_eq!(g.laser_attack(laser, 1), None);
    assert_eq!(g.asteroids().len(), 1);
}

#[test]
fn last_asteroid_destroyed_wins_once() {
    let mut g = game_with(&[(300, 0)], 3);
    assert_eq!(g.has_won(), None);
    g.fire_laser(600);
    let laser = g.lasers()[0].id;
    g.laser_attack(laser, 1);
    assert_eq!(g.has_won(), Some(AudioStart::Win));
    assert_eq!(g.state(), GameState::Won);
    assert_eq!(g.player(), None);
    assert_eq!(g.has_won(), None);
    assert_eq!(g.state(), GameState::Won);
}

#[test]
fn won_screen_goes_back_to_the_menu_on_a_key() {
    let mut g = game_with(&[], 3);
    g.has_won();
    g.back_to_menu(false);
    assert_eq!(g.state(), GameState::Won);
    g.back_to_menu(true);
    assert_eq!(g.state(), GameState::StartMenu);
}

#[test]
fn collision_events_reach_the_ship_and_the_lasers() {
    let mut g = game_with(&[(300, 0), (0, 300)], 3);
    g.fire_laser(600);
    let laser = g.lasers()[0].id;
    assert_eq!(g.collision_started(laser, 1), Some(AudioStart::AsteroidExplosion));
    assert_eq!(g.collision_started(999, 2), None);
    let ship = g.player().unwrap().id;
    assert_eq!(g.collision_started(ship, 2), Some(AudioStart::ShipExplosion));
    assert!(g.explosion().is_some());
}

#[test]
fn targeting_picks_the_nearest_asteroid() {
    let mut g = game_with(&[(300, 0), (0, 300), (300, 300)], 3);
    g.move_asteroid(1, 1, 3);
    g.move_asteroid(2, 20, 0);
    g.move_asteroid(3, 5, 5);
    let sq: Vec<i64> = g.asteroids().iter().map(|a| squared(a, 0, 0)).collect();
    assert_eq!(sq, vec![10, 400, 50]);
    assert_eq!(g.closest(), Some((1, false)));
    assert_eq!(g.asteroids()[0].motion, Motion::Drift { heading: 100, speed: 50 });
}

#[test]
fn targeting_pulls_back_a_distant_nearest_asteroid() {
    let mut g = game_with(&[(3000, 0), (0, 4000)], 3);
    g.move_player(10, 20);
    assert_eq!(g.closest(), Some((1, true)));
    assert_eq!(g.asteroids()[0].motion, Motion::Toward { x: 10, y: 20, speed: 100 });
    assert_eq!(g.asteroids()[1].motion, Motion::Drift { heading: 100, speed: 50 });
}

#[test]
fn targeting_at_exactly_the_pull_distance_does_not_pull() {
    let mut g = game_with(&[(1000, 0)], 3);
    assert_eq!(g.closest(), Some((1, false)));
    assert_eq!(g.asteroids()[0].motion, Motion::Drift { heading: 100, speed: 50 });
    g.move_asteroid(1, 1001, 0);
    assert_eq!(g.closest(), Some((1, true)));
    assert_eq!(g.asteroids()[0].motion, Motion::Toward { x: 0, y: 0, speed: 100 });
}

#[test]
fn targeting_without_asteroids_does_nothing() {
    let mut g = game_with(&[], 3);
    assert_eq!(g.closest(), None);
}

#[test]
fn nearest_prefers_the_first_of_equals() {
    let a = |id: u64, x: i32, y: i32| Asteroid {
        id,
        x,
        y,
        motion: Motion::Drift { heading: 0, speed: 10 },
        spin: 0,
    };
    let list = vec![a(1, 50, 0), a(2, 0, 30), a(3, -30, 0), a(4, 30, 0)];
    assert_eq!(nearest(&list, 0, 0), Some(1));
    assert_eq!(nearest(&list, 100, 0), Some(0));
    assert_eq!(nearest(&vec![], 0, 0), None);
    assert_eq!(
        nearest(&vec![a(1, i32::MIN, i32::MIN), a(2, i32::MAX, i32::MAX)], i32::MAX, i32::MIN),
        Some(0)
    );
}

#[test]
fn rotation_grows_with_the_time_held() {
    let mut g = game_with(&[(300, 0)], 3);
    g.rotate(1, 16);
    assert_eq!(g.player().unwrap().angular_velocity, 192);
    g.rotate(-1, 32);
    assert_eq!(g.player().unwrap().angular_velocity, -192);
    g.rotate(0, 32);
    assert_eq!(g.player().unwrap().angular_velocity, -192);
}

#[test]
fn thrust_lights_and_puts_out_the_jets() {
    let mut g = game_with(&[(300, 0)], 3);
    g.thrust();
    assert!(g.player().unwrap().thrusting);
    g.thrust_stop();
    assert!(!g.player().unwrap().thrusting);
}

#[test]
fn camera_follows_the_ship() {
    let mut g = game_with(&[(300, 0)], 3);
    g.move_player(-7, 8);
    assert_eq!(g.follow_player(), Some((-7, 8)));
    assert_eq!(
        g.player(),
        Some(Player { id: 0, x: -7, y: 8, angular_velocity: 0, thrusting: false, last_fired: 0 })
    );
}

#[test]
fn hud_counts_asteroids_lives_and_seconds() {
    let mut g = game_with(&[(300, 0), (0, 300)], 3);
    assert_eq!(g.update_hud(999), Some(Hud { asteroids: 2, lives: 2, seconds: 0 }));
    assert_eq!(g.update_hud(2001), Some(Hud { asteroids: 2, lives: 2, seconds: 3 }));
    let mut menu = Game::new();
    assert_eq!(menu.update_hud(1000), None);
}
