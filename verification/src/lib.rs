//! A small desktop application model: a three-page navigable window with a
//! decorative animated canvas, a context drawer for about/settings panels,
//! and a persisted username setting.
//!
//! The library holds the application's state machine and the animation
//! mathematics; the binary around it drives the event loop, renders, and
//! performs I/O actions the state machine requests.

pub mod arith;
pub mod canvas;
pub mod config;
pub mod geom;
pub mod messages;
pub mod model;
pub mod pages;
pub mod text;
pub mod trig;
