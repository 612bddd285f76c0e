//! Decision logic of an unattended replay player: the bounded play queue,
//! metadata resolution, playback targets and the lifecycle events it publishes.

pub mod queue;
pub mod resolve;
pub mod target;
pub mod cycle;
pub mod relay;
