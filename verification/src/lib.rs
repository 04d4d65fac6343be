//! Verified core of a small Vulkan shader playground.
//!
//! The library holds the computations that the renderer makes around its
//! Vulkan calls: buffer layouts, descriptor pool and layout descriptions,
//! descriptor writes, command sequences, and the small state machines that
//! pick which resources a frame uses. Each of them is a function from plain
//! values to plain values with a contract; the calls into the Vulkan driver
//! are made by the program around the library.
pub mod app;
pub mod graphics;
pub mod fullscreen_effect;
