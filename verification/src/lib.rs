//! The protocol core of an emoji display.
//!
//! A display service follows a stream of events that announce the current
//! emoji, finds the bitmap that belongs to it and sends its pixels to an LED
//! matrix on a serial bus. This crate holds what such a service decides and
//! computes, and leaves every read, write and wait to its caller:
//!
//! - [`stream`] reads the blocks of the event stream out of the chunks that
//!   arrive;
//! - [`session`] keeps the connection alive: it says when to connect, read
//!   and wait, whatever fails;
//! - [`resolver`] names the bitmap file of an emoji, and its fallback;
//! - [`bitmap`] turns the bytes of such a file into a frame;
//! - [`frame`] is the pixel buffer of the display;
//! - [`device`] frames that buffer for the bus, write by write;
//! - [`text`] holds the character-level helpers that the others share.

pub mod bitmap;
pub mod device;
pub mod frame;
pub mod resolver;
pub mod session;
pub mod stream;
pub mod text;
