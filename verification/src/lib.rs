//! Rendering for an e-ink panel: a verified model of the display's frame
//! memory and refresh protocol, a relative-layout resolver for widgets, and
//! a page compositor that flattens positioned drawables into one pixel
//! buffer. Device I/O stays outside; the library computes geometry, pixel
//! addresses, buffers and update commands, and proves them right.

pub mod framebuffer;
pub mod gui;
pub mod math;
pub mod page;
pub mod screen;
pub mod util;
