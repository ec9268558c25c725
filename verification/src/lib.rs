//! The discrete rules of an asteroids game: slot pools for projectiles and
//! asteroids, collision resolution, spawning geometry and outline data.
//! Continuous motion (positions, velocities, timers) is kept by the caller.

pub mod input;
pub mod settings;
pub mod world;
pub mod spawn;
pub mod shapes;
