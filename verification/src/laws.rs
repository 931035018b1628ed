//! The guarantees of the identifier layout, proved once over the spec-level
//! model: strict growth across issuance steps, pairwise distinctness along a
//! whole issuance chain, and exact recovery of the encoded fields.

use vstd::prelude::*;

use crate::compose_id;
use crate::issued_after;
use crate::max_sequence_of;
use crate::sequence_bits_of;
use crate::timestamp_mask_of;
use crate::valid_params;

verus! {

/// One issuance step strictly increases the composed identifier: another
/// identifier within the same millisecond carries the next counter value, and
/// the first identifier of a later millisecond sorts above everything issued
/// in earlier ones, as long as the timestamps fit the timestamp field.
pub proof fn lemma_issue_monotonic(
    machine_id: u8,
    machine_id_bits: u8,
    timestamp_bits: u8,
    since1: u64,
    seq1: u64,
    since2: u64,
    seq2: u64,
)
    by (bit_vector)
    requires
        valid_params(machine_id, machine_id_bits, timestamp_bits),
        since1 <= timestamp_mask_of(timestamp_bits),
        since2 <= timestamp_mask_of(timestamp_bits),
        seq1 <= max_sequence_of(machine_id_bits, timestamp_bits),
        seq2 <= max_sequence_of(machine_id_bits, timestamp_bits),
        issued_after(since1, seq1, since2, seq2),
    ensures
        compose_id(machine_id, machine_id_bits, timestamp_bits, since1, seq1) < compose_id(
            machine_id,
            machine_id_bits,
            timestamp_bits,
            since2,
            seq2,
        ),
{
}

/// Decomposing an identifier with the derived shift and masks recovers
/// exactly the timestamp, machine identifier and sequence counter that were
/// composed into it.
pub proof fn lemma_layout_round_trip(
    machine_id: u8,
    machine_id_bits: u8,
    timestamp_bits: u8,
    since: u64,
    seq: u64,
)
    by (bit_vector)
    requires
        valid_params(machine_id, machine_id_bits, timestamp_bits),
        since <= timestamp_mask_of(timestamp_bits),
        seq <= max_sequence_of(machine_id_bits, timestamp_bits),
    ensures
        (compose_id(machine_id, machine_id_bits, timestamp_bits, since, seq) >> sequence_bits_of(
            machine_id_bits,
            timestamp_bits,
        )) & timestamp_mask_of(timestamp_bits) == since,
        compose_id(machine_id, machine_id_bits, timestamp_bits, since, seq) >> ((64
            - machine_id_bits) as u64) == machine_id as u64,
        compose_id(machine_id, machine_id_bits, timestamp_bits, since, seq) & max_sequence_of(
            machine_id_bits,
            timestamp_bits,
        ) == seq,
{
}

/// Generators with distinct machine identifiers under the same widths never
/// compose the same identifier, whatever their sequencing states: the machine
/// identifier field is recoverable from every identifier, so the output
/// spaces are disjoint without any coordination.
pub proof fn lemma_distinct_machines(
    machine_id1: u8,
    machine_id2: u8,
    machine_id_bits: u8,
    timestamp_bits: u8,
    since1: u64,
    seq1: u64,
    since2: u64,
    seq2: u64,
)
    by (bit_vector)
    requires
        valid_params(machine_id1, machine_id_bits, timestamp_bits),
        valid_params(machine_id2, machine_id_bits, timestamp_bits),
        machine_id1 != machine_id2,
        seq1 <= max_sequence_of(machine_id_bits, timestamp_bits),
        seq2 <= max_sequence_of(machine_id_bits, timestamp_bits),
    ensures
        compose_id(machine_id1, machine_id_bits, timestamp_bits, since1, seq1) != compose_id(
            machine_id2,
            machine_id_bits,
            timestamp_bits,
            since2,
            seq2,
        ),
{
}

/// States in a chain of issuance steps compose to strictly increasing
/// identifiers, from any earlier position to any later one.
proof fn lemma_chain_monotonic(
    machine_id: u8,
    machine_id_bits: u8,
    timestamp_bits: u8,
    states: Seq<(u64, u64)>,
    i: int,
    j: int,
)
    requires
        valid_params(machine_id, machine_id_bits, timestamp_bits),
        forall|k: int|
            0 <= k < states.len() ==> (#[trigger] states[k]).0 <= timestamp_mask_of(timestamp_bits)
                && states[k].1 <= max_sequence_of(machine_id_bits, timestamp_bits),
        forall|k: int|
            0 <= k < states.len() - 1 ==> issued_after(
                (#[trigger] states[k]).0,
                states[k].1,
                states[k + 1].0,
                states[k + 1].1,
            ),
        0 <= i < j < states.len(),
    ensures
        compose_id(machine_id, machine_id_bits, timestamp_bits, states[i].0, states[i].1)
            < compose_id(machine_id, machine_id_bits, timestamp_bits, states[j].0, states[j].1),
    decreases j - i,
{
    if i + 1 < j {
        lemma_chain_monotonic(machine_id, machine_id_bits, timestamp_bits, states, i, j - 1);
    }
    lemma_issue_monotonic(
        machine_id,
        machine_id_bits,
        timestamp_bits,
        states[j - 1].0,
        states[j - 1].1,
        states[j].0,
        states[j].1,
    );
}

/// Along any run of issuance steps under one valid layout, every identifier
/// is strictly above all earlier ones, so all identifiers of the run are
/// pairwise distinct. Each chain entry is one sequencing state, the
/// timestamp first and the sequence counter second; adjacent entries are
/// related by one issuance step and every timestamp fits the timestamp field.
pub proof fn lemma_stream_unique(
    machine_id: u8,
    machine_id_bits: u8,
    timestamp_bits: u8,
    states: Seq<(u64, u64)>,
)
    requires
        valid_params(machine_id, machine_id_bits, timestamp_bits),
        forall|k: int|
            0 <= k < states.len() ==> (#[trigger] states[k]).0 <= timestamp_mask_of(timestamp_bits)
                && states[k].1 <= max_sequence_of(machine_id_bits, timestamp_bits),
        forall|k: int|
            0 <= k < states.len() - 1 ==> issued_after(
                (#[trigger] states[k]).0,
                states[k].1,
                states[k + 1].0,
                states[k + 1].1,
            ),
    ensures
        forall|i: int, j: int|
            0 <= i < j < states.len() ==> compose_id(
                machine_id,
                machine_id_bits,
                timestamp_bits,
                (#[trigger] states[i]).0,
                states[i].1,
            ) < compose_id(
                machine_id,
                machine_id_bits,
                timestamp_bits,
                (#[trigger] states[j]).0,
                states[j].1,
            ),
        forall|i: int, j: int|
            0 <= i < states.len() && 0 <= j < states.len() && i != j ==> compose_id(
                machine_id,
                machine_id_bits,
                timestamp_bits,
                (#[trigger] states[i]).0,
                states[i].1,
            ) != compose_id(
                machine_id,
                machine_id_bits,
                timestamp_bits,
                (#[trigger] states[j]).0,
                states[j].1,
            ),
{
    assert forall|i: int, j: int| 0 <= i < j < states.len() implies compose_id(
        machine_id,
        machine_id_bits,
        timestamp_bits,
        (#[trigger] states[i]).0,
        states[i].1,
    ) < compose_id(
        machine_id,
        machine_id_bits,
        timestamp_bits,
        (#[trigger] states[j]).0,
        states[j].1,
    ) by {
        lemma_chain_monotonic(machine_id, machine_id_bits, timestamp_bits, states, i, j);
    }
}

} // verus!
