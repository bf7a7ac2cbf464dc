//! Codec for the event stream of a Standard MIDI File (SMF).
//!
//! The crate decodes and re-encodes the timed event records stored inside a
//! track chunk: channel voice/mode messages, system messages, system-exclusive
//! blocks and meta events, framed by variable-length delta times and threaded
//! through the running-status state machine.  Decoding a canonical byte
//! stream and encoding the result reproduces the original bytes.

pub mod errors;
pub mod event;
pub mod header;
pub mod midi_file;
pub mod track;
pub mod utils;
pub mod variable_length_quantity;
