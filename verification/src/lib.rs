//! Core logic of a JJY long-wave radio clock: pulse-width classification,
//! frame decoding with BCD fields and even parity, time-base extrapolation,
//! the renderer's character stream, and the bounded status channel that
//! couples decoder and renderer.

pub mod channel;
pub mod classify;
pub mod decoder;
pub mod frame;
pub mod render;
pub mod symbol;
pub mod timebase;

pub use symbol::BitWidth;
