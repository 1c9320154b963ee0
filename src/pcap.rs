use vstd::prelude::*;

verus! {

/// Byte length of an Ethernet II header.
pub const ETHERNET_HEADER_LENGTH_BYTES: usize = 14;

/// Byte length of an IPv4 header without options.
pub const IP_HEADER_LENGTH_BYTES: usize = 20;

/// Byte length of a UDP header.
pub const UDP_HEADER_LENGTH_BYTES: usize = 8;

/// Byte length of the global header of a classic capture file.
pub const FILE_HEADER_LENGTH_BYTES: usize = 24;

/// Byte length of the header in front of each captured frame.
pub const RECORD_HEADER_LENGTH_BYTES: usize = 16;

/// The two timestamp encodings of a classic capture file, told apart by its
/// magic number.
#[derive(Clone, Copy, Debug, PartialEq, Eq, Structural)]
pub enum PcapMagicNumber {
    /// Little-endian fields, sub-second part in microseconds.
    LeMicros,
    /// Big-endian fields, sub-second part in nanoseconds.
    BeNanos,
}

/// Errors of the capture decoders.
#[derive(Clone, Copy, Debug, PartialEq, Eq, Structural)]
pub enum PcapError {
    ParsePcapError,
    ParsePcapNgError,
}

/// The global header of a classic capture file.
#[derive(Clone, Copy, Debug, PartialEq, Eq, Structural)]
pub struct PcapHeader {
    pub magic_number: PcapMagicNumber,
    pub version_major: u16,
    pub version_minor: u16,
    pub thiszone: i32,
    pub sigfigs: u32,
    pub snaplen: u32,
    pub network: u32,
}

/// One captured frame with its timestamp.
#[derive(Debug)]
pub struct PcapPacketRecord {
    pub ts_secs: u32,
    pub ts_secs_fraction: u32,
    pub incl_len: u32,
    pub orig_len: u32,
    /// The whole link-layer frame, headers included.
    pub packet_data: Vec<u8>,
}

/// The value of four bytes read in the given byte order.
pub open spec fn u32_from(big_endian: bool, b0: u8, b1: u8, b2: u8, b3: u8) -> int {
    if big_endian {
        b3 + 256 * b2 + 65536 * b1 + 16777216 * b0
    } else {
        b0 + 256 * b1 + 65536 * b2 + 16777216 * b3
    }
}

/// The value of two bytes read in the given byte order.
pub open spec fn u16_from(big_endian: bool, b0: u8, b1: u8) -> int {
    if big_endian {
        b1 + 256 * b0
    } else {
        b0 + 256 * b1
    }
}

/// The 32-bit field at offset `at` of `b`.
pub open spec fn field_u32(big_endian: bool, b: Seq<u8>, at: int) -> int {
    u32_from(big_endian, b[at], b[at + 1], b[at + 2], b[at + 3])
}

/// The 16-bit field at offset `at` of `b`.
pub open spec fn field_u16(big_endian: bool, b: Seq<u8>, at: int) -> int {
    u16_from(big_endian, b[at], b[at + 1])
}

fn read_u32(big_endian: bool, b: &[u8], at: usize) -> (r: u32)
    requires
        at + 4 <= b@.len(),
    ensures
        r == field_u32(big_endian, b@, at as int),
{
    let b0 = b[at] as u32;
    let b1 = b[at + 1] as u32;
    let b2 = b[at + 2] as u32;
    let b3 = b[at + 3] as u32;
    if big_endian {
        b3 + 256 * b2 + 65536 * b1 + 16777216 * b0
    } else {
        b0 + 256 * b1 + 65536 * b2 + 16777216 * b3
    }
}

fn read_u16(big_endian: bool, b: &[u8], at: usize) -> (r: u16)
    requires
        at + 2 <= b@.len(),
    ensures
        r == field_u16(big_endian, b@, at as int),
{
    let b0 = b[at] as u16;
    let b1 = b[at + 1] as u16;
    if big_endian {
        b1 + 256 * b0
    } else {
        b0 + 256 * b1
    }
}


/// A capture: its global header and its records in capture order.
#[derive(Debug)]
pub struct Pcap {
    pub header: PcapHeader,
    pub packets: Vec<PcapPacketRecord>,
}

/// What a packet record holds, with its frame as a sequence of bytes.
pub struct RecordView {
    pub ts_secs: u32,
    pub ts_secs_fraction: u32,
    pub incl_len: u32,
    pub orig_len: u32,
    pub packet_data: Seq<u8>,
}

/// What a capture holds.
pub struct CaptureView {
    pub header: PcapHeader,
    pub packets: Seq<RecordView>,
}

impl View for PcapPacketRecord {
    type V = RecordView;

    open spec fn view(&self) -> RecordView {
        RecordView {
            ts_secs: self.ts_secs,
            ts_secs_fraction: self.ts_secs_fraction,
            incl_len: self.incl_len,
            orig_len: self.orig_len,
            packet_data: self.packet_data@,
        }
    }
}

/// The views of a sequence of records.
pub open spec fn record_views(s: Seq<PcapPacketRecord>) -> Seq<RecordView> {
    s.map_values(|r: PcapPacketRecord| r@)
}

impl View for Pcap {
    type V = CaptureView;

    open spec fn view(&self) -> CaptureView {
        CaptureView { header: self.header, packets: record_views(self.packets@) }
    }
}

/// The timestamp encoding that the first four bytes of a file announce, if any.
pub open spec fn magic_of(b: Seq<u8>) -> Option<PcapMagicNumber> {
    if b.len() < 4 {
        None
    } else if b[0] == 0xd4 && b[1] == 0xc3 && b[2] == 0xb2 && b[3] == 0xa1 {
        Some(PcapMagicNumber::LeMicros)
    } else if b[0] == 0xa1 && b[1] == 0xb2 && b[2] == 0x3c && b[3] == 0x4d {
        Some(PcapMagicNumber::BeNanos)
    } else {
        None
    }
}

/// Whether the fields of a file with this encoding are big-endian.
pub open spec fn is_big_endian(m: PcapMagicNumber) -> bool {
    m == PcapMagicNumber::BeNanos
}

/// A 32-bit two's complement reading of an unsigned 32-bit value.
pub open spec fn signed_of(v: int) -> int {
    if v > 0x7fff_ffff {
        v - 0x1_0000_0000
    } else {
        v
    }
}

/// The global header that `b` starts with, if it is one.
pub open spec fn decode_header(b: Seq<u8>) -> Option<PcapHeader> {
    if b.len() < FILE_HEADER_LENGTH_BYTES {
        None
    } else {
        match magic_of(b) {
            None => None,
            Some(m) => {
                let be = is_big_endian(m);
                Some(
                    PcapHeader {
                        magic_number: m,
                        version_major: field_u16(be, b, 4) as u16,
                        version_minor: field_u16(be, b, 6) as u16,
                        thiszone: signed_of(field_u32(be, b, 8)) as i32,
                        sigfigs: field_u32(be, b, 12) as u32,
                        snaplen: field_u32(be, b, 16) as u32,
                        network: field_u32(be, b, 20) as u32,
                    },
                )
            },
        }
    }
}

/// `prefix` in front of the records of `rest`, if `rest` decoded.
pub open spec fn prepend(prefix: Seq<RecordView>, rest: Option<Seq<RecordView>>) -> Option<
    Seq<RecordView>,
> {
    match rest {
        Some(r) => Some(prefix + r),
        None => None,
    }
}

/// The record whose header starts at offset `at` of `b`.
pub open spec fn record_at(be: bool, b: Seq<u8>, at: int) -> RecordView {
    let incl = field_u32(be, b, at + 8);
    RecordView {
        ts_secs: field_u32(be, b, at) as u32,
        ts_secs_fraction: field_u32(be, b, at + 4) as u32,
        incl_len: incl as u32,
        orig_len: field_u32(be, b, at + 12) as u32,
        packet_data: b.subrange(at + RECORD_HEADER_LENGTH_BYTES, at + RECORD_HEADER_LENGTH_BYTES + incl),
    }
}

/// The records that `b` holds back to back, or `None` where a record is cut short.
pub open spec fn decode_records(be: bool, b: Seq<u8>) -> Option<Seq<RecordView>>
    decreases b.len(),
{
    if b.len() == 0 {
        Some(Seq::empty())
    } else if b.len() < RECORD_HEADER_LENGTH_BYTES {
        None
    } else {
        let incl = field_u32(be, b, 8);
        if b.len() - RECORD_HEADER_LENGTH_BYTES < incl {
            None
        } else {
            let end = RECORD_HEADER_LENGTH_BYTES + incl;
            prepend(seq![record_at(be, b, 0)], decode_records(be, b.subrange(end, b.len() as int)))
        }
    }
}

/// Decoding the records from offset `off` of `b` on takes the record at `off`
/// and goes on after its frame.
proof fn lemma_records_from(be: bool, b: Seq<u8>, off: int)
    requires
        0 <= off < b.len(),
    ensures
        ({
            let n = b.len() as int;
            let incl = field_u32(be, b, off + 8);
            decode_records(be, b.subrange(off, n)) == if n - off < RECORD_HEADER_LENGTH_BYTES {
                None
            } else if n - off - RECORD_HEADER_LENGTH_BYTES < incl {
                None
            } else {
                prepend(
                    seq![record_at(be, b, off)],
                    decode_records(be, b.subrange(off + RECORD_HEADER_LENGTH_BYTES + incl, n)),
                )
            }
        }),
{
    let n = b.len() as int;
    let rest = b.subrange(off, n);
    if n - off >= RECORD_HEADER_LENGTH_BYTES {
        assert(field_u32(be, rest, 8) == field_u32(be, b, off + 8));
        let incl = field_u32(be, b, off + 8);
        if n - off - RECORD_HEADER_LENGTH_BYTES >= incl {
            assert(field_u32(be, rest, 0) == field_u32(be, b, off));
            assert(field_u32(be, rest, 4) == field_u32(be, b, off + 4));
            assert(field_u32(be, rest, 12) == field_u32(be, b, off + 12));
            assert(record_at(be, rest, 0).packet_data =~= record_at(be, b, off).packet_data);
            let end = RECORD_HEADER_LENGTH_BYTES + incl;
            assert(rest.subrange(end, rest.len() as int) =~= b.subrange(off + end, n));
        }
    }
}

/// Records decoded so far, in front of the records of the rest, step by one record.
proof fn lemma_prepend_one(done: Seq<RecordView>, r: RecordView, rest: Option<Seq<RecordView>>)
    ensures
        prepend(done, prepend(seq![r], rest)) == prepend(done.push(r), rest),
{
    match rest {
        Some(t) => {
            assert(done + (seq![r] + t) =~= done.push(r) + t);
        },
        None => {},
    }
}

/// The capture that the bytes of a classic capture file hold, or `None` where
/// the magic number is unknown or the file is cut short.
pub open spec fn decode_pcap(b: Seq<u8>) -> Option<CaptureView> {
    match decode_header(b) {
        None => None,
        Some(h) => match decode_records(
            is_big_endian(h.magic_number),
            b.subrange(FILE_HEADER_LENGTH_BYTES as int, b.len() as int),
        ) {
            None => None,
            Some(packets) => Some(CaptureView { header: h, packets }),
        },
    }
}

fn read_magic(b: &[u8]) -> (r: Option<PcapMagicNumber>)
    requires
        b@.len() >= 4,
    ensures
        r == magic_of(b@),
{
    if b[0] == 0xd4 && b[1] == 0xc3 && b[2] == 0xb2 && b[3] == 0xa1 {
        Some(PcapMagicNumber::LeMicros)
    } else if b[0] == 0xa1 && b[1] == 0xb2 && b[2] == 0x3c && b[3] == 0x4d {
        Some(PcapMagicNumber::BeNanos)
    } else {
        None
    }
}

fn read_header(b: &[u8]) -> (r: Option<PcapHeader>)
    ensures
        r == decode_header(b@),
{
    if b.len() < FILE_HEADER_LENGTH_BYTES {
        return None;
    }
    let magic_number = match read_magic(b) {
        None => {
            return None;
        },
        Some(m) => m,
    };
    let be = magic_number == PcapMagicNumber::BeNanos;
    let zone = read_u32(be, b, 8);
    let thiszone: i32 = if zone > 0x7fff_ffff {
        (zone as i64 - 0x1_0000_0000i64) as i32
    } else {
        zone as i32
    };
    Some(
        PcapHeader {
            magic_number,
            version_major: read_u16(be, b, 4),
            version_minor: read_u16(be, b, 6),
            thiszone,
            sigfigs: read_u32(be, b, 12),
            snaplen: read_u32(be, b, 16),
            network: read_u32(be, b, 20),
        },
    )
}

impl Pcap {
    /// Decodes the bytes of a classic capture file.
    pub fn parse(bytes: &[u8]) -> (r: Result<Pcap, PcapError>)
        ensures
            match decode_pcap(bytes@) {
                Some(c) => r matches Ok(p) && p@ == c,
                None => r == Err::<Pcap, PcapError>(PcapError::ParsePcapError),
            },
    {
        let header = match read_header(bytes) {
            None => {
                return Err(PcapError::ParsePcapError);
            },
            Some(h) => h,
        };
        let be = header.magic_number == PcapMagicNumber::BeNanos;
        let n = bytes.len();
        let ghost all = bytes@.subrange(FILE_HEADER_LENGTH_BYTES as int, n as int);
        let mut packets: Vec<PcapPacketRecord> = Vec::new();
        let mut off: usize = FILE_HEADER_LENGTH_BYTES;
        while off < n
            invariant
                n == bytes@.len(),
                FILE_HEADER_LENGTH_BYTES <= off <= n,
                decode_header(bytes@) == Some(header),
                all == bytes@.subrange(FILE_HEADER_LENGTH_BYTES as int, n as int),
                be == is_big_endian(header.magic_number),
                decode_records(be, all) == prepend(
                    record_views(packets@),
                    decode_records(be, bytes@.subrange(off as int, n as int)),
                ),
            decreases n - off,
        {
            proof {
                lemma_records_from(be, bytes@, off as int);
            }
            if n - off < RECORD_HEADER_LENGTH_BYTES {
                return Err(PcapError::ParsePcapError);
            }
            let incl_len = read_u32(be, bytes, off + 8);
            if n - off - RECORD_HEADER_LENGTH_BYTES < incl_len as usize {
                return Err(PcapError::ParsePcapError);
            }
            let start = off + RECORD_HEADER_LENGTH_BYTES;
            let end = start + incl_len as usize;
            let record = PcapPacketRecord {
                ts_secs: read_u32(be, bytes, off),
                ts_secs_fraction: read_u32(be, bytes, off + 4),
                incl_len,
                orig_len: read_u32(be, bytes, off + 12),
                packet_data: vstd::slice::slice_to_vec(vstd::slice::slice_subrange(bytes, start, end)),
            };
            assert(record@ == record_at(be, bytes@, off as int));
            let ghost before = packets@;
            packets.push(record);
            proof {
                assert(record_views(packets@) =~= record_views(before).push(record@));
                lemma_prepend_one(
                    record_views(before),
                    record@,
                    decode_records(be, bytes@.subrange(end as int, n as int)),
                );
            }
            off = end;
        }
        proof {
            assert(bytes@.subrange(n as int, n as int) =~= Seq::<u8>::empty());
            assert(record_views(packets@) + Seq::<RecordView>::empty() =~= record_views(packets@));
        }
        Ok(Pcap { header, packets })
    }
}

} // verus!
