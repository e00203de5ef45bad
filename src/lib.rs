//! Simulation core of a "grow by eating" arcade game: tiers of autonomous fish,
//! a weighted spawner, collision and growth rules, the session state machine,
//! the ledger of finished sessions and the snapshot codec of a paused session.
//!
//! Units used throughout: sizes are hundredths of a size unit (`25` is a size
//! of 0.25), positions are thousandths of a pixel, velocities are pixels per
//! second and time is counted in milliseconds.

pub mod tier;
pub mod entity;
pub mod spawner;
pub mod ledger;
pub mod session;
pub mod snapshot;

pub use tier::{EnemyDirection, EnemySize};
pub use entity::{EnemyFish, PlayerFish, PlayerInput, Vec2};
pub use spawner::EnemySpawner;
pub use ledger::{GameDatabase, GameRecord};
pub use session::{AppState, BigFishApp, FrameOutcome, GameState, InputHandler, KeysDown, Tally};
pub use snapshot::{decode_snapshot, encode_snapshot};
