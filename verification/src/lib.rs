//! A persistent-canvas paint engine, written against an abstract rendering
//! backend.
//!
//! Strokes accumulate in an off-screen canvas target, and after every
//! stroke the canvas target is composited onto the visible surface.
//!
//! The engine never touches a graphics context itself. Every operation
//! hands back the list of [`command::Command`]s that the host has to carry
//! out on its rendering context, in order. Most commands cannot fail; where
//! one does, the host stops there, tells the engine how far it got with a
//! [`report::Report`], and carries out the cleanup that
//! [`recovery::recover`] works out for it.
//!
//! What a list of commands does to the backend is defined by the model in
//! [`gpu`]. The contracts of the engine say which commands an operation
//! asks for and what those commands do in that model: that a stroke lands
//! on the canvas target in the brush color, that a frame shows all that was
//! painted, that every operation leaves the backend with nothing bound,
//! and that a failure leaves nothing behind.
//!
//! Floating point stays with the host. Colors pass through as bit patterns
//! ([`color`]) and positions as ratios of integers ([`geometry`]).

pub mod brush;
pub mod canvas;
pub mod color;
pub mod command;
pub mod context;
pub mod engine;
pub mod error;
pub mod geometry;
pub mod gpu;
pub mod pass;
pub mod pointer_state;
pub mod recovery;
pub mod report;
pub mod session;
pub mod shader;
