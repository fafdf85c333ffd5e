//! A chessboard rendering library.
//!
//! The library turns an abstract chess position plus a cell size into an
//! ordered list of drawable primitives (filled rectangles, text labels and
//! piece sprites), handles board orientation, and offers the widget contract
//! (size negotiation, layout key, rendering, message handling) that a host
//! UI toolkit drives. Chess positions are obtained from the `pleco` crate;
//! everything the renderer computes from them is verified.
//!
//! Geometry is expressed in tenths of a pixel ("deci-pixels"), so that all
//! coordinates are exact integers; a paint backend divides by ten.

pub mod builder;
pub mod catalog;
pub mod fen;
pub mod geometry;
pub mod piece;
pub mod position;
pub mod primitive;
pub mod widget;
