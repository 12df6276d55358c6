use vstd::prelude::*;

verus! {

/// The index of the winning entry: the finalizing ledger's timestamp plus its
/// sequence number, reduced modulo the number of tickets sold. Both inputs are
/// public before the call is made, so whoever picks the moment of
/// finalization can steer the outcome: this is a placeholder for a committed
/// random beacon, not a fair draw.
pub open spec fn draw_index_spec(timestamp: u64, sequence: u32, sold: u32) -> int
    recommends
        sold > 0,
{
    (timestamp as int + sequence as int) % (sold as int)
}

/// Computes `draw_index_spec`; the sum is taken without wrapping.
pub fn draw_index(timestamp: u64, sequence: u32, sold: u32) -> (r: u32)
    requires
        sold > 0,
    ensures
        r as int == draw_index_spec(timestamp, sequence, sold),
        r < sold,
{
    let seed: u128 = timestamp as u128 + sequence as u128;
    let idx: u128 = seed % (sold as u128);
    idx as u32
}

} // verus!
