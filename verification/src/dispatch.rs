//! Routing a reconstructed message to a stateful handler by its status nibble.

use vstd::prelude::*;
use crate::message::MidiMessage;

verus! {

/// The message kind that carries a note-off event.
pub const KIND_NOTE_OFF: u8 = 8;

/// The message kind that carries a note-on event.
pub const KIND_NOTE_ON: u8 = 9;

/// A routed message missed the data bytes its kind requires; it is dropped,
/// not fatal.
#[derive(Clone, Copy, Debug, PartialEq, Eq)]
pub enum DispatchError {
    MalformedMessage,
}

/// A stateful consumer of note-on / note-off events.
///
/// Each implementation describes its own behaviour through the two spec
/// functions; the executable methods promise to realize exactly that
/// behaviour. Implementations are free to ignore `channel`.
pub trait MidiHandler: Sized {
    /// The handler's state after a note-on event.
    spec fn note_on_spec(self, channel: u8, note: u8, velocity: u8) -> Self;

    /// The handler's state after a note-off event.
    spec fn note_off_spec(self, channel: u8, note: u8, velocity: u8) -> Self;

    /// Consume a note-on event.
    fn handle_note_on(&mut self, channel: u8, note: u8, velocity: u8)
        ensures
            *final(self) == old(self).note_on_spec(channel, note, velocity),
    ;

    /// Consume a note-off event.
    fn handle_note_off(&mut self, channel: u8, note: u8, velocity: u8)
        ensures
            *final(self) == old(self).note_off_spec(channel, note, velocity),
    ;
}

/// Route `message` by the high nibble of its status byte: kind 8 to
/// `handle_note_off`, kind 9 to `handle_note_on`, anything else is silently
/// dropped. A kind-8 or kind-9 message missing a data byte is reported and
/// dropped.
pub fn handle<H: MidiHandler>(handler: &mut H, message: MidiMessage) -> (r: Result<(), DispatchError>)
    ensures
        *final(handler) == spec_handle(*old(handler), message).0,
        r == spec_handle(*old(handler), message).1,
{
    let kind = message.status / 16;
    let channel = message.status % 16;
    if kind == KIND_NOTE_OFF {
        match (message.data1, message.data2) {
            (Some(note), Some(velocity)) => {
                handler.handle_note_off(channel, note, velocity);
                Ok(())
            },
            _ => Err(DispatchError::MalformedMessage),
        }
    } else if kind == KIND_NOTE_ON {
        match (message.data1, message.data2) {
            (Some(note), Some(velocity)) => {
                handler.handle_note_on(channel, note, velocity);
                Ok(())
            },
            _ => Err(DispatchError::MalformedMessage),
        }
    } else {
        Ok(())
    }
}

/// What dispatching `m` does to a handler: the state it leaves, and whether
/// the message was routed, dropped as unrecognized (`Ok`), or dropped as
/// malformed (`Err`).
pub open spec fn spec_handle<H: MidiHandler>(h: H, m: MidiMessage) -> (H, Result<(), DispatchError>) {
    if m.kind() == KIND_NOTE_OFF {
        match (m.data1, m.data2) {
            (Some(note), Some(velocity)) => (h.note_off_spec(m.channel(), note, velocity), Ok(())),
            _ => (h, Err(DispatchError::MalformedMessage)),
        }
    } else if m.kind() == KIND_NOTE_ON {
        match (m.data1, m.data2) {
            (Some(note), Some(velocity)) => (h.note_on_spec(m.channel(), note, velocity), Ok(())),
            _ => (h, Err(DispatchError::MalformedMessage)),
        }
    } else {
        (h, Ok(()))
    }
}

/// The handler state left by dispatching each message of `msgs` in order.
pub open spec fn spec_handle_all<H: MidiHandler>(h: H, msgs: Seq<MidiMessage>) -> H
    decreases msgs.len(),
{
    if msgs.len() == 0 {
        h
    } else {
        spec_handle_all(spec_handle(h, msgs[0]).0, msgs.drop_first())
    }
}

/// The number of messages of `msgs` that dispatch drops as malformed.
pub open spec fn spec_count_malformed(msgs: Seq<MidiMessage>) -> int
    decreases msgs.len(),
{
    if msgs.len() == 0 {
        0
    } else {
        (if spec_handle_result(msgs[0]) is Err { 1int } else { 0int }) + spec_count_malformed(msgs.drop_first())
    }
}

/// Whether dispatching `m` succeeds; it depends on the message alone.
pub open spec fn spec_handle_result(m: MidiMessage) -> Result<(), DispatchError> {
    if (m.kind() == KIND_NOTE_OFF || m.kind() == KIND_NOTE_ON) && !(m.data1 is Some && m.data2 is Some) {
        Err(DispatchError::MalformedMessage)
    } else {
        Ok(())
    }
}

/// Dispatching one more message extends the fold.
pub proof fn lemma_handle_all_snoc<H: MidiHandler>(h: H, msgs: Seq<MidiMessage>, m: MidiMessage)
    ensures
        spec_handle_all(h, msgs.push(m)) == spec_handle(spec_handle_all(h, msgs), m).0,
    decreases msgs.len(),
{
    if msgs.len() == 0 {
        reveal_with_fuel(spec_handle_all, 3);
        assert(msgs.push(m)[0] == m);
        assert(msgs.push(m).drop_first() =~= Seq::<MidiMessage>::empty());
    } else {
        assert(msgs.push(m).drop_first() =~= msgs.drop_first().push(m));
        lemma_handle_all_snoc(spec_handle(h, msgs[0]).0, msgs.drop_first(), m);
    }
}

/// Counting malformed messages extends the same way.
pub proof fn lemma_count_malformed_snoc(msgs: Seq<MidiMessage>, m: MidiMessage)
    ensures
        spec_count_malformed(msgs.push(m)) == spec_count_malformed(msgs)
            + (if spec_handle_result(m) is Err { 1int } else { 0int }),
    decreases msgs.len(),
{
    if msgs.len() == 0 {
        reveal_with_fuel(spec_count_malformed, 3);
        assert(msgs.push(m)[0] == m);
        assert(msgs.push(m).drop_first() =~= Seq::<MidiMessage>::empty());
    } else {
        assert(msgs.push(m).drop_first() =~= msgs.drop_first().push(m));
        lemma_count_malformed_snoc(msgs.drop_first(), m);
    }
}

} // verus!
