//! Reconstruction and dispatch of MIDI channel-voice messages.
//!
//! Bytes arriving one at a time from a serial line are assembled into
//! discrete messages by a resynchronizing state machine, routed by a
//! dispatcher to a stateful handler, and acted on by a reference handler
//! that implements velocity-gated note-off semantics.

pub mod assembler;
pub mod dispatch;
pub mod handler;
pub mod message;
pub mod pipeline;
pub mod runtime;

pub use assembler::AssemblerState;
pub use assembler::MessageAssembler;
pub use dispatch::DispatchError;
pub use dispatch::MidiHandler;
pub use handler::BasicMidiHandler;
pub use message::MidiMessage;
pub use runtime::LibcAlloc;
