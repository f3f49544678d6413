//! Tile-grid overworld core: grid-snapped player movement, wall collision,
//! danger-zone detection with a step-counter threshold that requests a combat
//! transition, an experience-to-stats progression rule, camera tracking and a
//! visibility gate.

pub mod grid;
pub mod movement;
pub mod pipeline;
pub mod player;
