//! A declarative, compositional layout engine for pixel-addressable displays.
//!
//! A screen is described as a tree of views. Every view answers two
//! questions: how large it is within an available size, and what it asks of
//! the surface when it is given a size and an origin. The answers are stated
//! as mathematical functions of the tree, and the executable passes are
//! proved to compute them.

pub mod alignment;
pub mod background;
pub mod border;
pub mod conditional;
pub mod draw_target;
pub mod frame;
pub mod geometry;
pub mod hstack;
pub mod padding;
pub mod text;
pub mod tuple;
pub mod view;
pub mod vstack;
pub mod zstack;
