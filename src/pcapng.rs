use vstd::prelude::*;

use crate::pcap::PcapError;

verus! {

/// A capture in the segment-based container format. Decoding it is not
/// supported: every attempt fails cleanly.
#[derive(Debug)]
pub struct PcapNG {
    pub placeholder: usize,
}

impl PcapNG {
    /// Decodes a segment-based capture; this always reports that the format
    /// is not supported.
    pub fn try_from(buf: &[u8]) -> (r: Result<PcapNG, PcapError>)
        ensures
            r == Err::<PcapNG, PcapError>(PcapError::ParsePcapNgError),
    {
        Err(PcapError::ParsePcapNgError)
    }
}

} // verus!
