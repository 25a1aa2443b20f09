//! Orchestration logic of a small physics demo: a jar, and coins dropped into
//! it on a key press once their model has loaded.
//!
//! The physics and rendering engines are driven from outside this crate; the
//! library decides, tick by tick, what they are asked to do.
pub mod game;
pub mod load;
pub mod spawn;
pub mod world;
