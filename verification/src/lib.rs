//! Control library for Fractal Audio devices speaking the vendor SysEx
//! protocol over a byte transport: a bit-exact wire codec with an XOR
//! checksum, a byte-stream resynchronizer, a typed message dispatcher, a
//! request/response correlator and the device session state machine.

pub mod backend;
pub mod buffer;
pub mod checksum;
pub mod codec;
pub mod commands;
pub mod common;
pub mod config;
pub mod consts;
pub mod correlator;
pub mod error;
pub mod functions;
pub mod keyboard;
pub mod message;
pub mod messages;
pub mod model;
pub mod payload;
pub mod state;
pub mod status_bar;
pub mod struct_generic;
pub mod text;
pub mod transport;
