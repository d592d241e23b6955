//! The reconstructed protocol unit: a status byte plus up to two data bytes.

use vstd::prelude::*;

verus! {

/// A byte with the high bit set marks the start of a message (a status byte).
pub open spec fn is_status_byte(b: u8) -> bool {
    b >= 0x80
}

/// A byte with the high bit clear carries a 7-bit payload (a data byte).
pub open spec fn is_data_byte(b: u8) -> bool {
    b < 0x80
}

/// A reconstructed MIDI channel-voice message.
///
/// `data1` / `data2` are absent when the stream produced a new status byte
/// before the expected data bytes arrived (early resynchronization), not on
/// an input-validation error.
#[derive(Clone, Copy, Debug, PartialEq, Eq)]
pub struct MidiMessage {
    /// Always has the high bit set; high nibble = message kind, low nibble = channel.
    pub status: u8,
    /// First data byte, if one was collected before resynchronization.
    pub data1: Option<u8>,
    /// Second data byte, if one was collected.
    pub data2: Option<u8>,
}

impl MidiMessage {
    /// Well-formedness: the status byte is a status byte, every collected
    /// data byte is a data byte, and a second data byte implies a first.
    pub open spec fn wf(self) -> bool {
        &&& is_status_byte(self.status)
        &&& (self.data1 matches Some(d) ==> is_data_byte(d))
        &&& (self.data2 matches Some(d) ==> is_data_byte(d))
        &&& (self.data2 is Some ==> self.data1 is Some)
    }

    /// The message kind: the high nibble of the status byte.
    pub open spec fn kind(self) -> u8 {
        self.status / 16
    }

    /// The channel the message addresses: the low nibble of the status byte.
    pub open spec fn channel(self) -> u8 {
        self.status % 16
    }

    /// Classify a single byte read from the line: a status byte starts a new
    /// message carrying no data yet; a data byte outside a message is dropped.
    pub fn from_status_byte(b: u8) -> (m: Option<MidiMessage>)
        ensures
            is_status_byte(b) ==> m == Some(MidiMessage { status: b, data1: None::<u8>, data2: None::<u8> }),
            is_data_byte(b) ==> m is None,
            m matches Some(msg) ==> msg.wf(),
    {
        if b >= 0x80 {
            Some(MidiMessage { status: b, data1: None, data2: None })
        } else {
            None
        }
    }
}

} // verus!
