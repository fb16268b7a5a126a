//! Control core of a USB media-key macropad.
//!
//! The device samples a rotary encoder and four buttons, turns them into
//! media keys for the host, pulses an LED in answer, and lets the host read
//! and set its LED brightness over a protocol of fixed eight-byte frames.
//! This crate holds the logic of both ends of that link, free of hardware:
//!
//! - [`encoder`] decodes the encoder's two pins into a rotation count;
//! - [`input`] settles on the one event of each tick;
//! - [`hid`] decides when the keyboard report has to be sent;
//! - [`led`] fades the indicator's pulse;
//! - [`main_loop`] puts these together into one tick of the device;
//! - [`protocol`] encodes and decodes the frames;
//! - [`control`] holds the device's settings and answers requests;
//! - [`host`] picks the device among the host's serial ports and reads its
//!   answers.
//!
//! Each function states what it computes over a mathematical model of its
//! data, and the laws that tie the functions together (decoding undoes
//! encoding, what the host sets it reads back, a turn outranks a button, a
//! pulse ends after its phase over the step) are proved next to them.

pub mod control;
pub mod encoder;
pub mod hid;
pub mod host;
pub mod input;
pub mod led;
pub mod main_loop;
pub mod protocol;
