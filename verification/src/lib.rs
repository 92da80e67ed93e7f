//! The verified core of a small real-time rendering harness.
//!
//! The crate holds everything about the harness that is pure decision and
//! data transformation: the geometry and colour model, the batch builder
//! that merges independently indexed draw calls, the container layout that
//! turns styled rectangles into quads, and the control logic of the
//! per-frame presentation loop. Window and GPU work is left to a driver
//! that performs the actions this crate asks for and reports what happened.

pub mod graphics;
pub mod ui;
