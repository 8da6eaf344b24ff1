//! Turns pointer motion made while a drag button is held into presses and
//! releases of four direction keys.
//!
//! Each of the two axes accumulates the motion it sees. Once the accumulated
//! motion leaves the dead zone the axis engages the key of that direction and
//! gives one threshold's worth of motion back, so that sustained motion keeps
//! the key held; once the motion is used up, or the drag ends, the key is
//! released. The library decides; the caller reads the pointer and delivers
//! the key events that the library hands back, in the order given.
//!
//! When motion returns to the dead zone the axis becomes neutral and the held
//! key is released without a replacement: a direction is never kept alive
//! beyond the motion that carried it.

pub mod axis;
pub mod keys;
pub mod mouse;
pub mod sample;
