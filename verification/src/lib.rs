//! A backend-agnostic scene recorder.
//!
//! A [`Renderer`] collects what a pass over a widget tree draws as a
//! sequence of [`Primitive`]s, and hands that sequence, with its
//! [`Backend`], to whoever presents the frame. It draws nothing itself.
//!
//! Layers give each subtree a sequence of its own: what is drawn inside a
//! layer is gathered apart and joins the parent's sequence as one clipped
//! group, so that the finished sequence is a tree in draw order.
pub mod appearance;
pub mod backend;
pub mod geometry;
pub mod laws;
pub mod primitive;
pub mod renderer;

pub use backend::Backend;
pub use geometry::{Point, Rectangle, Scalar, Size, Vector};
pub use primitive::Primitive;
pub use renderer::Renderer;
