use midi_core::assembler::{assemble, AssemblerState, MessageAssembler};
use midi_core::dispatch::{handle, DispatchError, MidiHandler};
use midi_core::handler::{BasicMidiHandler, Release};
use midi_core::message::MidiMessage;
use midi_core::pipeline::run;
use midi_core::runtime::{fault_response, on_oom, FaultKind, FaultResponse, LibcAlloc};

fn full(status: u8, d1: u8, d2: u8) -> MidiMessage {
    MidiMessage { status, data1: Some(d1), data2: Some(d2) }
}

#[test]
fn status_then_two_data_emits_full_message() {
    let mut a = MessageAssembler::new();
    assert_eq!(a.push_byte(0x90), None);
    assert_eq!(a.push_byte(0x40), None);
    assert_eq!(a.push_byte(0x7F), Some(full(0x90, 0x40, 0x7F)));
    // Scanning resumes after the second data byte.
    assert_eq!(a.state, AssemblerState::Seeking);
    assert_eq!(assemble(&vec![0x90, 0x40, 0x7F]), vec![full(0x90, 0x40, 0x7F)]);
}

#[test]
fn consecutive_status_bytes_emit_zero_data_messages() {
    let mut a = MessageAssembler::new();
    assert_eq!(a.push_byte(0x90), None);
    assert_eq!(
        a.push_byte(0x85),
        Some(MidiMessage { status: 0x90, data1: None, data2: None })
    );
    assert_eq!(
        a.push_byte(0xF0),
        Some(MidiMessage { status: 0x85, data1: None, data2: None })
    );
    // The last status byte is held, consumed exactly once.
    assert_eq!(a.state, AssemblerState::GotStatus { status: 0xF0 });
    assert_eq!(
        assemble(&vec![0x90, 0x85, 0xF0]),
        vec![
            MidiMessage { status: 0x90, data1: None, data2: None },
            MidiMessage { status: 0x85, data1: None, data2: None },
        ]
    );
}

#[test]
fn one_data_byte_then_status_resynchronizes() {
    let mut a = MessageAssembler::new();
    assert_eq!(a.push_byte(0x90), None);
    assert_eq!(a.push_byte(0x40), None);
    assert_eq!(
        a.push_byte(0x85),
        Some(MidiMessage { status: 0x90, data1: Some(0x40), data2: None })
    );
    // The new status byte becomes the next message's status without an
    // extra read: two data bytes complete it.
    assert_eq!(a.state, AssemblerState::GotStatus { status: 0x85 });
    assert_eq!(a.push_byte(0x10), None);
    assert_eq!(a.push_byte(0x20), Some(full(0x85, 0x10, 0x20)));
}

#[test]
fn leading_data_bytes_are_discarded() {
    assert_eq!(
        assemble(&vec![0x10, 0x7F, 0x90, 0x40, 0x7F]),
        vec![full(0x90, 0x40, 0x7F)]
    );
}

#[test]
fn any_finite_stream_is_consumed() {
    // Streams with no status byte produce nothing and never block.
    assert_eq!(assemble(&vec![]), vec![]);
    assert_eq!(assemble(&vec![0x00, 0x7F, 0x33]), vec![]);
    // A lone status byte stays pending.
    assert_eq!(assemble(&vec![0x90]), vec![]);
    // Arbitrary garbage is resynchronized, one message per boundary.
    let msgs = assemble(&vec![0x01, 0x90, 0x40, 0xA3, 0xA3, 0x05, 0x06, 0x99]);
    assert_eq!(
        msgs,
        vec![
            MidiMessage { status: 0x90, data1: Some(0x40), data2: None },
            MidiMessage { status: 0xA3, data1: None, data2: None },
            full(0xA3, 0x05, 0x06),
        ]
    );
}

#[test]
fn status_byte_classification() {
    assert_eq!(
        MidiMessage::from_status_byte(0x90),
        Some(MidiMessage { status: 0x90, data1: None, data2: None })
    );
    assert_eq!(MidiMessage::from_status_byte(0x80), Some(MidiMessage { status: 0x80, data1: None, data2: None }));
    assert_eq!(MidiMessage::from_status_byte(0x7F), None);
    assert_eq!(MidiMessage::from_status_byte(0x00), None);
}

#[test]
fn dispatch_routes_note_on() {
    let mut h = BasicMidiHandler::new();
    let before_releases = h.releases;
    assert_eq!(handle(&mut h, full(0x90, 0x40, 0x7F)), Ok(()));
    // Routed only to handle_note_on: state recorded, no release fired.
    assert_eq!(h.last_note, 0x40);
    assert_eq!(h.last_velocity, 0x7F);
    assert_eq!(h.releases, before_releases);
    assert_eq!(h.last_release, None);
}

#[test]
fn dispatch_routes_note_off_with_channel() {
    let mut h = BasicMidiHandler::new();
    assert_eq!(handle(&mut h, full(0x90, 0x40, 0x7F)), Ok(()));
    assert_eq!(handle(&mut h, full(0x8F, 0x40, 0x7F)), Ok(()));
    // Routed only to handle_note_off, with channel 0x0F.
    assert_eq!(h.releases, 1);
    assert_eq!(
        h.last_release,
        Some(Release { channel: 0x0F, note: 0x40, velocity: 0x7F })
    );
    // The note-on state is untouched by a note-off.
    assert_eq!(h.last_note, 0x40);
    assert_eq!(h.last_velocity, 0x7F);
}

#[test]
fn dispatch_drops_unrecognized_kinds() {
    let mut h = BasicMidiHandler::new();
    assert_eq!(handle(&mut h, full(0xA0, 0x40, 0x7F)), Ok(()));
    assert_eq!(h, BasicMidiHandler::new());
}

#[test]
fn dispatch_reports_malformed_messages() {
    let mut h = BasicMidiHandler::new();
    let zero_data = MidiMessage { status: 0x90, data1: None, data2: None };
    assert_eq!(handle(&mut h, zero_data), Err(DispatchError::MalformedMessage));
    let one_data = MidiMessage { status: 0x80, data1: Some(0x40), data2: None };
    assert_eq!(handle(&mut h, one_data), Err(DispatchError::MalformedMessage));
    // The dropped messages left no trace on the handler.
    assert_eq!(h, BasicMidiHandler::new());
}

#[test]
fn release_gate_honors_equal_velocity() {
    let mut h = BasicMidiHandler::new();
    h.handle_note_on(0, 0x40, 0x7F);
    h.handle_note_off(0, 0x40, 0x7F);
    assert_eq!(h.releases, 1);
    assert_eq!(h.last_release, Some(Release { channel: 0, note: 0x40, velocity: 0x7F }));
}

#[test]
fn release_gate_rejects_weaker_velocity() {
    let mut h = BasicMidiHandler::new();
    h.handle_note_on(0, 0x40, 0x7F);
    h.handle_note_off(0, 0x40, 0x10);
    assert_eq!(h.releases, 0);
    assert_eq!(h.last_release, None);
}

#[test]
fn release_gate_rejects_other_notes() {
    let mut h = BasicMidiHandler::new();
    h.handle_note_on(0, 0x40, 0x7F);
    h.handle_note_off(0, 0x41, 0x7F);
    assert_eq!(h.releases, 0);
    assert_eq!(h.last_release, None);
}

#[test]
fn release_count_saturates() {
    let mut h = BasicMidiHandler::new();
    h.releases = u64::MAX;
    h.handle_note_on(0, 0x40, 0x7F);
    h.handle_note_off(0, 0x40, 0x7F);
    assert_eq!(h.releases, u64::MAX);
    assert_eq!(h.last_release, Some(Release { channel: 0, note: 0x40, velocity: 0x7F }));
}

#[test]
fn end_to_end_note_on_then_note_off() {
    let mut a = MessageAssembler::new();
    let mut h = BasicMidiHandler::new();
    let dropped = run(&mut a, &mut h, &vec![0x90, 0x40, 0x7F, 0x80, 0x40, 0x7F]);
    assert_eq!(dropped, 0);
    // The handler saw note_on(0, 0x40, 0x7F) then note_off(0, 0x40, 0x7F),
    // and the release action fired exactly once.
    assert_eq!(h.last_note, 0x40);
    assert_eq!(h.last_velocity, 0x7F);
    assert_eq!(h.releases, 1);
    assert_eq!(h.last_release, Some(Release { channel: 0, note: 0x40, velocity: 0x7F }));
    // The second message's closing data byte returned the assembler to scanning.
    assert_eq!(a.state, AssemblerState::Seeking);
}

#[test]
fn end_to_end_counts_dropped_messages() {
    let mut a = MessageAssembler::new();
    let mut h = BasicMidiHandler::new();
    // 0x90 is cut short by 0x91 (malformed note-on, dropped and counted);
    // 0x91 then completes and is handled.
    let dropped = run(&mut a, &mut h, &vec![0x90, 0x91, 0x40, 0x7F]);
    assert_eq!(dropped, 1);
    assert_eq!(h.last_note, 0x40);
    assert_eq!(h.last_velocity, 0x7F);
    assert_eq!(h.releases, 0);
}

#[test]
fn pipeline_state_carries_across_chunks() {
    let mut a = MessageAssembler::new();
    let mut h = BasicMidiHandler::new();
    assert_eq!(run(&mut a, &mut h, &vec![0x90, 0x40]), 0);
    assert_eq!(run(&mut a, &mut h, &vec![0x7F, 0x80]), 0);
    assert_eq!(run(&mut a, &mut h, &vec![0x40, 0x7F]), 0);
    assert_eq!(h.releases, 1);
}

#[test]
fn fault_policy() {
    assert_eq!(fault_response(FaultKind::TransportFailure), FaultResponse::Resynchronize);
    assert_eq!(fault_response(FaultKind::MalformedMessage), FaultResponse::DropMessage);
    assert_eq!(fault_response(FaultKind::AllocationFailure), FaultResponse::Halt);
    assert_eq!(fault_response(FaultKind::RuntimeFault), FaultResponse::HaltWithIndicator);
    assert_eq!(on_oom(), FaultResponse::Halt);
}

#[test]
fn allocation_alignment_is_at_least_a_word() {
    assert_eq!(LibcAlloc::effective_align(1, 8), 8);
    assert_eq!(LibcAlloc::effective_align(8, 8), 8);
    assert_eq!(LibcAlloc::effective_align(64, 8), 64);
}
