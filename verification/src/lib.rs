//! Compositor screen-capture and overlay pipeline: capture negotiation with
//! zero-copy buffer import planning, per-output overlay configuration, draw
//! batching, and the pure decision logic of the surrounding event loops.

pub mod egl;
pub mod error;
pub mod export;
pub mod gfx;
pub mod gl;
pub mod input;
pub mod registry;
pub mod renderer;
pub mod scanner;
pub mod screens;
pub mod texturepacker;
pub mod wayland_overlay;
pub mod wayland_screencopy;
