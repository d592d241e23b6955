//! A best-effort resynchronizing parser that reconstructs messages from a
//! byte stream, one byte at a time.
//!
//! Any byte with the high bit set is always taken as the start of a new
//! message, never as data; any byte with the high bit clear is only ever a
//! data byte of the message in progress. A status byte that arrives before
//! the expected two data bytes closes the current message short and is
//! carried over as the next message's status without being consumed twice.

use vstd::prelude::*;
use crate::message::{is_status_byte, is_data_byte, MidiMessage};

verus! {

/// What the assembler holds between bytes.
#[derive(Clone, Copy, Debug, PartialEq, Eq)]
pub enum AssemblerState {
    /// No status byte seen yet: data bytes are discarded (protocol framing).
    Seeking,
    /// A status byte was seen; waiting for the first data byte.
    GotStatus { status: u8 },
    /// A status byte and one data byte were seen; waiting for the second.
    GotData1 { status: u8, data1: u8 },
}

impl AssemblerState {
    /// Every status held is a status byte; every data byte held is one.
    pub open spec fn wf(self) -> bool {
        match self {
            AssemblerState::Seeking => true,
            AssemblerState::GotStatus { status } => is_status_byte(status),
            AssemblerState::GotData1 { status, data1 } => is_status_byte(status) && is_data_byte(data1),
        }
    }
}

/// One transition of the assembler: the state after consuming `b`, and the
/// message emitted by that byte, if any.
pub open spec fn spec_step(st: AssemblerState, b: u8) -> (AssemblerState, Option<MidiMessage>) {
    match st {
        AssemblerState::Seeking => {
            if is_status_byte(b) {
                (AssemblerState::GotStatus { status: b }, None)
            } else {
                (AssemblerState::Seeking, None)
            }
        },
        AssemblerState::GotStatus { status } => {
            if is_data_byte(b) {
                (AssemblerState::GotData1 { status, data1: b }, None)
            } else {
                // Early resynchronization: a zero-data message, and `b` is
                // carried over as the next message's status.
                (
                    AssemblerState::GotStatus { status: b },
                    Some(MidiMessage { status, data1: None, data2: None }),
                )
            }
        },
        AssemblerState::GotData1 { status, data1 } => {
            if is_data_byte(b) {
                (
                    AssemblerState::Seeking,
                    Some(MidiMessage { status, data1: Some(data1), data2: Some(b) }),
                )
            } else {
                // Early resynchronization: a one-data-byte message.
                (
                    AssemblerState::GotStatus { status: b },
                    Some(MidiMessage { status, data1: Some(data1), data2: None }),
                )
            }
        },
    }
}

/// The state and the messages emitted after consuming `bytes` from `st`,
/// in emission order.
pub open spec fn spec_run(st: AssemblerState, bytes: Seq<u8>) -> (AssemblerState, Seq<MidiMessage>)
    decreases bytes.len(),
{
    if bytes.len() == 0 {
        (st, Seq::empty())
    } else {
        let (st1, emitted) = spec_step(st, bytes[0]);
        let (st2, rest) = spec_run(st1, bytes.drop_first());
        match emitted {
            Some(m) => (st2, seq![m] + rest),
            None => (st2, rest),
        }
    }
}

/// A step from a well-formed state leaves a well-formed state, and whatever
/// it emits is a well-formed message.
pub proof fn lemma_step_wf(st: AssemblerState, b: u8)
    requires
        st.wf(),
    ensures
        spec_step(st, b).0.wf(),
        spec_step(st, b).1 matches Some(m) ==> m.wf(),
{
}

/// Running any byte sequence from a well-formed state leaves a well-formed
/// state and emits only well-formed messages.
pub proof fn lemma_run_wf(st: AssemblerState, bytes: Seq<u8>)
    requires
        st.wf(),
    ensures
        spec_run(st, bytes).0.wf(),
        forall|i: int| 0 <= i < spec_run(st, bytes).1.len() ==> #[trigger] spec_run(st, bytes).1[i].wf(),
    decreases bytes.len(),
{
    if bytes.len() > 0 {
        lemma_step_wf(st, bytes[0]);
        let (st1, emitted) = spec_step(st, bytes[0]);
        lemma_run_wf(st1, bytes.drop_first());
    }
}

/// Consuming one more byte extends the run: the messages of `bytes + [b]`
/// are the messages of `bytes` followed by whatever `b` emits.
pub proof fn lemma_run_snoc(st: AssemblerState, bytes: Seq<u8>, b: u8)
    ensures
        spec_run(st, bytes.push(b)).0 == spec_step(spec_run(st, bytes).0, b).0,
        spec_run(st, bytes.push(b)).1 == match spec_step(spec_run(st, bytes).0, b).1 {
            Some(m) => spec_run(st, bytes).1.push(m),
            None => spec_run(st, bytes).1,
        },
    decreases bytes.len(),
{
    if bytes.len() == 0 {
        reveal_with_fuel(spec_run, 3);
        assert(bytes.push(b)[0] == b);
        assert(bytes.push(b).drop_first() =~= Seq::<u8>::empty());
        let (st1, emitted) = spec_step(st, b);
        assert(spec_run(st1, Seq::<u8>::empty()).1 =~= Seq::<MidiMessage>::empty());
        match emitted {
            Some(m) => {
                assert(spec_run(st, bytes.push(b)).1 =~= seq![m]);
                assert(spec_run(st, bytes).1.push(m) =~= seq![m]);
            },
            None => {},
        }
    } else {
        let (st1, emitted) = spec_step(st, bytes[0]);
        assert(bytes.push(b).drop_first() =~= bytes.drop_first().push(b));
        lemma_run_snoc(st1, bytes.drop_first(), b);
        match emitted {
            Some(m) => {
                match spec_step(spec_run(st, bytes).0, b).1 {
                    Some(m2) => {
                        assert(seq![m] + spec_run(st1, bytes.drop_first()).1.push(m2)
                            =~= (seq![m] + spec_run(st1, bytes.drop_first()).1).push(m2));
                    },
                    None => {},
                }
            },
            None => {},
        }
    }
}

/// A message carrying a status byte and no data.
pub open spec fn zero_data_message(status: u8) -> MidiMessage {
    MidiMessage { status, data1: None, data2: None }
}

/// A status byte followed by two data bytes yields exactly one full message,
/// and the assembler resumes scanning for the next status byte.
pub proof fn lemma_full_message(status: u8, d1: u8, d2: u8)
    requires
        is_status_byte(status),
        is_data_byte(d1),
        is_data_byte(d2),
    ensures
        spec_run(AssemblerState::Seeking, seq![status, d1, d2]).0 == AssemblerState::Seeking,
        spec_run(AssemblerState::Seeking, seq![status, d1, d2]).1
            =~= seq![(MidiMessage { status, data1: Some(d1), data2: Some(d2) })],
{
    reveal_with_fuel(spec_run, 5);
    let bytes = seq![status, d1, d2];
    assert(bytes.drop_first() =~= seq![d1, d2]);
    assert(seq![d1, d2].drop_first() =~= seq![d2]);
    assert(seq![d2].drop_first() =~= Seq::<u8>::empty());
}

/// Helper for runs over status bytes only: from a pending status `s`, each
/// status byte closes the message before it, and the last one stays pending.
proof fn lemma_status_run(s: u8, bytes: Seq<u8>)
    requires
        is_status_byte(s),
        forall|i: int| 0 <= i < bytes.len() ==> is_status_byte(#[trigger] bytes[i]),
    ensures
        spec_run(AssemblerState::GotStatus { status: s }, bytes).1.len() == bytes.len(),
        forall|i: int| 0 <= i < bytes.len()
            ==> spec_run(AssemblerState::GotStatus { status: s }, bytes).1[i]
                == zero_data_message(if i == 0 { s } else { bytes[i - 1] }),
        spec_run(AssemblerState::GotStatus { status: s }, bytes).0
            == (AssemblerState::GotStatus {
                status: if bytes.len() == 0 { s } else { bytes.last() },
            }),
    decreases bytes.len(),
{
    if bytes.len() > 0 {
        lemma_status_run(bytes[0], bytes.drop_first());
    }
}

/// A stream of consecutive status bytes yields one zero-data message per
/// status byte: each of the first `n - 1` bytes is emitted as such a message
/// the instant its successor arrives, and the last byte is held as the next
/// message's pending status. Each byte is consumed exactly once: the state
/// machine takes every byte through `spec_step` once and never re-reads.
pub proof fn lemma_consecutive_status_bytes(bytes: Seq<u8>)
    requires
        bytes.len() >= 1,
        forall|i: int| 0 <= i < bytes.len() ==> is_status_byte(#[trigger] bytes[i]),
    ensures
        spec_run(AssemblerState::Seeking, bytes).1.len() == bytes.len() - 1,
        forall|i: int| 0 <= i < bytes.len() - 1
            ==> spec_run(AssemblerState::Seeking, bytes).1[i] == zero_data_message(bytes[i]),
        spec_run(AssemblerState::Seeking, bytes).0
            == (AssemblerState::GotStatus { status: bytes.last() }),
{
    lemma_status_run(bytes[0], bytes.drop_first());
}

/// One data byte and then a new status byte yield a one-data-byte message,
/// and the new status byte itself becomes the pending status of the next
/// message without being read again.
pub proof fn lemma_one_data_then_status(status: u8, d1: u8, status2: u8)
    requires
        is_status_byte(status),
        is_data_byte(d1),
        is_status_byte(status2),
    ensures
        spec_run(AssemblerState::Seeking, seq![status, d1, status2]).0
            == (AssemblerState::GotStatus { status: status2 }),
        spec_run(AssemblerState::Seeking, seq![status, d1, status2]).1
            =~= seq![(MidiMessage { status, data1: Some(d1), data2: None })],
{
    reveal_with_fuel(spec_run, 5);
    let bytes = seq![status, d1, status2];
    assert(bytes.drop_first() =~= seq![d1, status2]);
    assert(seq![d1, status2].drop_first() =~= seq![status2]);
    assert(seq![status2].drop_first() =~= Seq::<u8>::empty());
}

/// Data bytes arriving before any status byte are discarded silently: they
/// are protocol framing, not an error, and leave the assembler scanning.
pub proof fn lemma_leading_data_discarded(bytes: Seq<u8>)
    requires
        forall|i: int| 0 <= i < bytes.len() ==> is_data_byte(#[trigger] bytes[i]),
    ensures
        spec_run(AssemblerState::Seeking, bytes).0 == AssemblerState::Seeking,
        spec_run(AssemblerState::Seeking, bytes).1 =~= Seq::<MidiMessage>::empty(),
    decreases bytes.len(),
{
    if bytes.len() > 0 {
        lemma_leading_data_discarded(bytes.drop_first());
    }
}

/// Resynchronization makes progress on every finite stream: once some status
/// byte has arrived, the assembler has either emitted a message or holds one
/// in progress — it is never left fruitlessly scanning. (That no input makes
/// it block or fail at all is stated by `push_byte` and `assemble` having no
/// precondition: every byte is consumed in one non-blocking transition.)
pub proof fn lemma_resync_progress(bytes: Seq<u8>)
    requires
        exists|i: int| 0 <= i < bytes.len() && is_status_byte(#[trigger] bytes[i]),
    ensures
        spec_run(AssemblerState::Seeking, bytes).0 != AssemblerState::Seeking
            || spec_run(AssemblerState::Seeking, bytes).1.len() > 0,
{
    lemma_progress_from(AssemblerState::Seeking, bytes);
}

/// Helper: once the assembler holds a partial message, or a status byte is
/// still to come, the run ends holding one or has emitted one.
proof fn lemma_progress_from(st: AssemblerState, bytes: Seq<u8>)
    requires
        st != AssemblerState::Seeking
            || exists|i: int| 0 <= i < bytes.len() && is_status_byte(#[trigger] bytes[i]),
    ensures
        spec_run(st, bytes).0 != AssemblerState::Seeking || spec_run(st, bytes).1.len() > 0,
    decreases bytes.len(),
{
    if bytes.len() == 0 {
        // No status byte can be found in an empty sequence, so the state is
        // already a partial message.
        assert(st != AssemblerState::Seeking);
    } else {
        let (st1, emitted) = spec_step(st, bytes[0]);
        if emitted is Some {
            // A message is already out; whatever follows only appends.
        } else {
            if st is Seeking && is_data_byte(bytes[0]) {
                let i = choose|i: int| 0 <= i < bytes.len() && is_status_byte(#[trigger] bytes[i]);
                assert(bytes.drop_first()[i - 1] == bytes[i]);
            }
            lemma_progress_from(st1, bytes.drop_first());
        }
    }
}

/// The assembler: holds the state machine's current state between bytes.
pub struct MessageAssembler {
    /// The state reached by the bytes consumed so far.
    pub state: AssemblerState,
}

impl MessageAssembler {
    /// A fresh assembler, scanning for its first status byte.
    pub fn new() -> (a: MessageAssembler)
        ensures
            a.state == AssemblerState::Seeking,
    {
        MessageAssembler { state: AssemblerState::Seeking }
    }

    /// Consume one byte; return the message it completes, if any.
    ///
    /// Each byte is consumed exactly once: a status byte that cuts a message
    /// short is retained in the new state rather than re-read.
    pub fn push_byte(&mut self, b: u8) -> (emitted: Option<MidiMessage>)
        ensures
            final(self).state == spec_step(old(self).state, b).0,
            emitted == spec_step(old(self).state, b).1,
    {
        match self.state {
            AssemblerState::Seeking => {
                if b >= 0x80 {
                    self.state = AssemblerState::GotStatus { status: b };
                }
                None
            },
            AssemblerState::GotStatus { status } => {
                if b < 0x80 {
                    self.state = AssemblerState::GotData1 { status, data1: b };
                    None
                } else {
                    self.state = AssemblerState::GotStatus { status: b };
                    Some(MidiMessage { status, data1: None, data2: None })
                }
            },
            AssemblerState::GotData1 { status, data1 } => {
                if b < 0x80 {
                    self.state = AssemblerState::Seeking;
                    Some(MidiMessage { status, data1: Some(data1), data2: Some(b) })
                } else {
                    self.state = AssemblerState::GotStatus { status: b };
                    Some(MidiMessage { status, data1: Some(data1), data2: None })
                }
            },
        }
    }
}

/// Assemble a whole byte sequence from a fresh assembler; the messages come
/// out in emission order.
pub fn assemble(bytes: &Vec<u8>) -> (msgs: Vec<MidiMessage>)
    ensures
        msgs@ == spec_run(AssemblerState::Seeking, bytes@).1,
        forall|i: int| 0 <= i < msgs@.len() ==> #[trigger] msgs@[i].wf(),
{
    let mut assembler = MessageAssembler::new();
    let mut msgs: Vec<MidiMessage> = Vec::new();
    let mut i: usize = 0;
    while i < bytes.len()
        invariant
            i <= bytes@.len(),
            assembler.state == spec_run(AssemblerState::Seeking, bytes@.take(i as int)).0,
            msgs@ == spec_run(AssemblerState::Seeking, bytes@.take(i as int)).1,
        decreases bytes@.len() - i,
    {
        proof {
            assert(bytes@.take(i as int).push(bytes@[i as int]) =~= bytes@.take(i + 1));
            lemma_run_snoc(AssemblerState::Seeking, bytes@.take(i as int), bytes@[i as int]);
        }
        let emitted = assembler.push_byte(bytes[i]);
        if let Some(m) = emitted {
            msgs.push(m);
        }
        i = i + 1;
    }
    proof {
        assert(bytes@.take(bytes@.len() as int) =~= bytes@);
        lemma_run_wf(AssemblerState::Seeking, bytes@);
    }
    msgs
}

} // verus!
