//! Simulation core of a terminal block-breaker game: axis-aligned rectangle
//! geometry with saturating movement, entities (paddle, ball, blocks), and the
//! per-tick state machine that advances physics and resolves collisions.

pub mod breaker;
pub mod phys;
