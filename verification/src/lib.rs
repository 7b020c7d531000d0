//! Core of a small 2-D game client: an entity-component store with a phase
//! scheduler, a string-keyed asset registry, and the sprite-atlas /
//! animation subsystem that the scheduler drives once per frame.
//!
//! Rendering, audio output, configuration-file parsing and window or input
//! handling are external collaborators: the library computes on plain
//! values and hands draw batches across that boundary.

pub mod assets;
pub mod ecs;
pub mod game_state;
