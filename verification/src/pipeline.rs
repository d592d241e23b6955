//! The assemble-then-dispatch pipeline over a batch of received bytes.
//!
//! The blocking read from the serial line lives outside the library; whatever
//! bytes a read produced are pushed through here, and the assembler and the
//! handler carry their state across calls, so a stream may be fed in chunks
//! of any size.

use vstd::prelude::*;
use crate::assembler::{MessageAssembler, spec_run, lemma_run_snoc};
use crate::dispatch::{
    MidiHandler, spec_handle_all, spec_count_malformed,
    lemma_handle_all_snoc, lemma_count_malformed_snoc, handle,
};

verus! {

/// Feed `bytes` through the assembler and dispatch every message it emits to
/// `handler`, in emission order. Malformed messages are dropped and counted;
/// nothing here fails or panics, whatever the input.
pub fn run<H: MidiHandler>(
    assembler: &mut MessageAssembler,
    handler: &mut H,
    bytes: &Vec<u8>,
) -> (dropped: usize)
    ensures
        final(assembler).state == spec_run(old(assembler).state, bytes@).0,
        *final(handler) == spec_handle_all(*old(handler), spec_run(old(assembler).state, bytes@).1),
        dropped == spec_count_malformed(spec_run(old(assembler).state, bytes@).1),
{
    let ghost st0 = assembler.state;
    let ghost h0 = *handler;
    let mut dropped: usize = 0;
    let mut i: usize = 0;
    while i < bytes.len()
        invariant
            i <= bytes@.len(),
            assembler.state == spec_run(st0, bytes@.take(i as int)).0,
            *handler == spec_handle_all(h0, spec_run(st0, bytes@.take(i as int)).1),
            dropped == spec_count_malformed(spec_run(st0, bytes@.take(i as int)).1),
            dropped <= i,
        decreases bytes@.len() - i,
    {
        proof {
            assert(bytes@.take(i as int).push(bytes@[i as int]) =~= bytes@.take(i + 1));
            lemma_run_snoc(st0, bytes@.take(i as int), bytes@[i as int]);
        }
        let ghost msgs_before = spec_run(st0, bytes@.take(i as int)).1;
        let emitted = assembler.push_byte(bytes[i]);
        if let Some(m) = emitted {
            proof {
                lemma_handle_all_snoc(h0, msgs_before, m);
                lemma_count_malformed_snoc(msgs_before, m);
            }
            let r = handle(handler, m);
            if r.is_err() {
                dropped = dropped + 1;
            }
        }
        i = i + 1;
    }
    proof {
        assert(bytes@.take(bytes@.len() as int) =~= bytes@);
    }
    dropped
}

} // verus!
