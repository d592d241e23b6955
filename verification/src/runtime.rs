//! Process-level error policy and the allocator handle.
//!
//! Errors are routed to a single top-level policy that decides, per kind,
//! whether the pipeline resynchronizes, drops a message, or halts. The halt
//! itself, the visual fault indicator, and the unsafe platform allocation
//! calls are performed outside the library.

use vstd::prelude::*;

verus! {

/// The kinds of failure the system distinguishes.
#[derive(Clone, Copy, Debug, PartialEq, Eq)]
pub enum FaultKind {
    /// The byte source could not produce the next byte.
    TransportFailure,
    /// A routed message was missing data bytes its kind requires.
    MalformedMessage,
    /// The allocator could not satisfy a request.
    AllocationFailure,
    /// An unrecoverable runtime fault.
    RuntimeFault,
}

/// What the driving loop must do about a failure.
#[derive(Clone, Copy, Debug, PartialEq, Eq)]
pub enum FaultResponse {
    /// Keep reading: the assembler resynchronizes on the next status byte.
    Resynchronize,
    /// Discard the offending message and go on.
    DropMessage,
    /// Stop permanently, without driving the indicator.
    Halt,
    /// Drive the visual fault indicator, then stop permanently.
    HaltWithIndicator,
}

/// The per-kind policy: framing and transport irregularities are absorbed
/// locally; only resource exhaustion and runtime faults are fatal.
pub open spec fn spec_fault_response(kind: FaultKind) -> FaultResponse {
    match kind {
        FaultKind::TransportFailure => FaultResponse::Resynchronize,
        FaultKind::MalformedMessage => FaultResponse::DropMessage,
        FaultKind::AllocationFailure => FaultResponse::Halt,
        FaultKind::RuntimeFault => FaultResponse::HaltWithIndicator,
    }
}

/// Decide what to do about a failure of the given kind.
pub fn fault_response(kind: FaultKind) -> (r: FaultResponse)
    ensures
        r == spec_fault_response(kind),
{
    match kind {
        FaultKind::TransportFailure => FaultResponse::Resynchronize,
        FaultKind::MalformedMessage => FaultResponse::DropMessage,
        FaultKind::AllocationFailure => FaultResponse::Halt,
        FaultKind::RuntimeFault => FaultResponse::HaltWithIndicator,
    }
}

/// The response to an out-of-memory condition: halt, with no recovery.
pub fn on_oom() -> (r: FaultResponse)
    ensures
        r == spec_fault_response(FaultKind::AllocationFailure),
        r == FaultResponse::Halt,
{
    fault_response(FaultKind::AllocationFailure)
}

/// Handle for the process-wide allocator, constructed once at startup. Its
/// unsafe aligned-allocation calls live with the binary, outside the library.
pub struct LibcAlloc;

impl LibcAlloc {
    /// The alignment handed to the platform's aligned-allocation primitive:
    /// the requested alignment, raised to at least one machine word.
    pub fn effective_align(align: usize, word_size: usize) -> (r: usize)
        ensures
            r == if align >= word_size { align } else { word_size },
            r >= align,
            r >= word_size,
    {
        if align >= word_size {
            align
        } else {
            word_size
        }
    }
}

} // verus!
