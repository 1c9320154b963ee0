use vstd::prelude::*;

use crate::pcap::{PcapMagicNumber, PcapPacketRecord, RecordView};

verus! {

/// Nanoseconds in one second.
pub const NANOS_PER_SEC: u64 = 1_000_000_000;

/// The absolute time of a record, in nanoseconds since the epoch of its
/// capture.
///
/// In microsecond mode the fraction is scaled by 1000 in 32 bits; where that
/// product does not fit, the overflow stands for exactly one more second and
/// the wrapped product is the nanosecond remainder.
pub open spec fn timestamp_nanos(mode: PcapMagicNumber, secs: u32, fraction: u32) -> int {
    match mode {
        PcapMagicNumber::LeMicros => {
            let product = fraction * 1000;
            if product > u32::MAX {
                (secs + 1) * NANOS_PER_SEC + product % 0x1_0000_0000
            } else {
                secs * NANOS_PER_SEC + product
            }
        },
        PcapMagicNumber::BeNanos => secs * NANOS_PER_SEC + fraction,
    }
}

/// The absolute time of a record, in nanoseconds.
pub open spec fn record_timestamp(mode: PcapMagicNumber, r: RecordView) -> int {
    timestamp_nanos(mode, r.ts_secs, r.ts_secs_fraction)
}

/// Every record timestamp fits in 64 bits.
pub proof fn lemma_timestamp_fits(mode: PcapMagicNumber, secs: u32, fraction: u32)
    ensures
        0 <= timestamp_nanos(mode, secs, fraction) <= u64::MAX,
{
}

/// The time of `packet`, in nanoseconds, under the timestamp encoding `mode`.
pub fn duration_from_timestamp(mode: &PcapMagicNumber, packet: &PcapPacketRecord) -> (r: u64)
    ensures
        r == record_timestamp(*mode, packet@),
{
    let (fraction, overflow): (u64, bool) = match mode {
        PcapMagicNumber::LeMicros => {
            let product = packet.ts_secs_fraction as u64 * 1000;
            (product % 0x1_0000_0000, product > u32::MAX as u64)
        },
        PcapMagicNumber::BeNanos => (packet.ts_secs_fraction as u64, false),
    };
    let seconds: u64 = if overflow {
        packet.ts_secs as u64 + 1
    } else {
        packet.ts_secs as u64
    };
    seconds * NANOS_PER_SEC + fraction
}

} // verus!
