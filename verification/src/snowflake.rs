//! Time-stamped 64-bit identifiers used for every persistent entity.

use vstd::prelude::*;

verus! {

/// Milliseconds between the Unix epoch and the platform's own epoch.
pub const SNOWFLAKE_EPOCH_MS: u64 = 1420070400000;

/// A 64-bit opaque identifier with extractable timestamp, worker, process and
/// sequence bits. Ordered by numeric value; equality is bitwise.
#[derive(Clone, Copy, Debug, PartialEq, Eq, Hash, Structural)]
pub struct Snowflake {
    pub value: u64,
}

impl Snowflake {
    /// The raw 64-bit value, as it appears on the wire.
    pub fn to_u64(&self) -> (r: u64)
        ensures
            r == self.value,
    {
        self.value
    }

    pub fn new(value: u64) -> (r: Snowflake)
        ensures
            r.value == value,
    {
        Snowflake { value }
    }

    /// Milliseconds since the Unix epoch at which the id was minted.
    pub fn timestamp_ms(&self) -> (r: u64)
        ensures
            r == spec_timestamp_ms(self.value),
    {
        let v = self.value;
        proof {
            assert((v >> 22) <= 0x3ff_ffff_ffffu64) by (bit_vector);
        }
        (v >> 22) + SNOWFLAKE_EPOCH_MS
    }

    /// The internal worker id (5 bits).
    pub fn worker(&self) -> (r: u64)
        ensures
            r == spec_worker(self.value),
    {
        (self.value >> 17) & 0x1f
    }

    /// The internal process id (5 bits).
    pub fn process(&self) -> (r: u64)
        ensures
            r == spec_process(self.value),
    {
        (self.value >> 12) & 0x1f
    }

    /// The per-process sequence number (12 bits).
    pub fn increment(&self) -> (r: u64)
        ensures
            r == spec_increment(self.value),
    {
        self.value & 0xfff
    }
}

pub open spec fn spec_timestamp_ms(value: u64) -> u64 {
    ((value >> 22) + SNOWFLAKE_EPOCH_MS) as u64
}

pub open spec fn spec_worker(value: u64) -> u64 {
    (value >> 17) & 0x1f
}

pub open spec fn spec_process(value: u64) -> u64 {
    (value >> 12) & 0x1f
}

pub open spec fn spec_increment(value: u64) -> u64 {
    value & 0xfff
}

} // verus!
