//! The engine of an interactive Mandelbrot-set orbit explorer.
//!
//! All arithmetic on the complex plane is exact fixed-point arithmetic on
//! integers (see [`fixed`]), so that every result below is stated and
//! proved exactly:
//! - [`viewport`] maps pixels to the complex plane and back, and zooms and
//!   pans the viewed region;
//! - [`field`] renders the escape-time field, rows in parallel;
//! - [`orbit`] traces the orbit of one point;
//! - [`interaction`] turns input events ([`input`]) into view changes and
//!   recompute decisions;
//! - [`menu`], [`rect`] and [`readout`] hold the menu's layout, screen
//!   rectangles and the coordinate readout.

pub mod field;
pub mod fixed;
pub mod input;
pub mod interaction;
pub mod menu;
pub mod orbit;
pub mod readout;
pub mod rect;
pub mod viewport;
