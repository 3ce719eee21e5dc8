//! Engine-independent core of a small Asteroids game: the level file
//! format, the session state machine, the lifecycle of players, asteroids,
//! lasers and explosions, the nearest-asteroid heuristic, and the fan-out of
//! physics collision events to the entities involved.
//!
//! Lengths are in whole world units, angles in milliradians and durations
//! in milliseconds.

pub mod game;
pub mod level;
pub mod rapier_events;
pub mod rules;
pub mod spawning;
pub mod targeting;

pub use game::{
    Asteroid, AsteroidDraw, AudioStart, Explosion, Game, GameState, GameView, Hud, Laser,
    LivesRemaining, Motion, Player,
};
pub use level::{Level, LevelLoader, LevelLoaderError};
pub use rapier_events::{
    send_bevy_events, CollisionEvent, OnCollisionStart, OnCollisionStop, Targeted,
};
pub use targeting::{nearest, squared_gap};
