//! The verified core of a small spinning-cube demo: the cube's mesh, the
//! layout of its vertex data, and the decisions of the window event loop.

pub mod cube;
pub mod bytes;
pub mod event_loop;
