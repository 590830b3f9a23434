//! Core of an infinitely zooming Fibonacci-spiral animation.
//!
//! Every frame the host asks this library to advance the animation clock,
//! lay out the golden-ratio tiling of squares, project the model-space
//! geometry to screen space under an exponentially shrinking zoom scale, and
//! decide which squares are drawn, at what opacity, and with which labels.
//! All geometry is carried in exact fixed-point integers: model coordinates
//! in whole model units (micro-units where sub-unit precision is needed),
//! screen coordinates in thousandths of a pixel, and the animation time in
//! tenths of a millisecond. The host supplies the two quantities that are
//! inherently approximate — the zoom scale for the current time and a table
//! of unit-circle samples for the arc polylines — as plain integer inputs.

pub mod clock;
pub mod fib;
pub mod layout;
pub mod frame;
pub mod project;
pub mod style;

pub use clock::AnimationClock;
