//! The Echo Responder: the state taken from one inbound Echo Request, and the
//! byte-exact IPv4 + ICMP Echo Reply built from it.

use vstd::prelude::*;
use crate::checksum::{calculate_checksum, checksum, internet_checksum, store_be16, with_word};
use crate::header::InboundHeader;

verus! {

/// IP protocol number of ICMP.
pub const ICMP_PROTOCOL: u8 = 1;

/// ICMP type of an Echo Request.
pub const ECHO_REQUEST: u8 = 8;

/// ICMP type of an Echo Reply.
pub const ECHO_REPLY: u8 = 0;

/// Length of the reply's IPv4 header, which carries no options.
pub const IPV4_HEADER_LEN: usize = 20;

/// Length of the reply's ICMP message: an 8-byte header and 56 payload bytes.
pub const ICMP_MESSAGE_LEN: usize = 64;

/// Length of the ICMP header that holds type, code, checksum, identifier and
/// sequence number.
pub const ICMP_HEADER_LEN: usize = 8;

/// Why an inbound packet could not be answered.
#[derive(Clone, Copy, Debug, PartialEq, Eq)]
pub enum EchoError {
    /// Fewer bytes follow the IPv4 header than the 8 of an ICMP header.
    TruncatedIcmp,
}

/// The 16-bit big-endian value in bytes `pos` and `pos + 1` of `s`.
pub open spec fn be16_at(s: Seq<u8>, pos: int) -> u16 {
    (s[pos] * 256 + s[pos + 1]) as u16
}

/// The two big-endian bytes of `v`.
pub open spec fn be_bytes(v: u16) -> Seq<u8> {
    seq![(v / 256) as u8, (v % 256) as u8]
}

/// The reply's IPv4 header with its checksum field still zero: version 4 and
/// IHL 5, total length 84, identification 0, don't-fragment, the given TTL,
/// protocol ICMP, then source and destination.
pub open spec fn ip_header_unsealed(ttl: u8, source: Seq<u8>, destination: Seq<u8>) -> Seq<u8> {
    seq![0x45u8, 0x00, 0x00, 84, 0x00, 0x00, 0x40, 0x00, ttl, 1, 0x00, 0x00] + source + destination
}

/// The 56 payload bytes of the reply: bytes 8..64 of the inbound ICMP
/// message, with zero where the inbound message is shorter.
pub open spec fn payload_window(data: Seq<u8>) -> Seq<u8> {
    Seq::new(56, |k: int| if 8 + k < data.len() { data[8 + k] } else { 0u8 })
}

/// The reply's ICMP message with its checksum field still zero: type 0,
/// code 0, identifier, sequence number, payload.
pub open spec fn icmp_unsealed(icmp_id: u16, seq_no: u16, data: Seq<u8>) -> Seq<u8> {
    seq![0u8, 0u8, 0u8, 0u8] + be_bytes(icmp_id) + be_bytes(seq_no) + payload_window(data)
}

/// `s` with its own checksum stored at `pos`.
pub open spec fn sealed(s: Seq<u8>, pos: int) -> Seq<u8> {
    with_word(s, pos, internet_checksum(s))
}

/// The whole reply: the IPv4 header, checksummed over its 20 bytes, then the
/// ICMP message, checksummed over its 64 bytes.
pub open spec fn reply_frame(
    ttl: u8,
    source: Seq<u8>,
    destination: Seq<u8>,
    icmp_id: u16,
    seq_no: u16,
    data: Seq<u8>,
) -> Seq<u8> {
    sealed(ip_header_unsealed(ttl, source, destination), 10) + sealed(
        icmp_unsealed(icmp_id, seq_no, data),
        2,
    )
}

/// What is needed to answer one Echo Request. `source` and `destination`
/// are the reply's, so swapped against the request's; `data` borrows the
/// inbound ICMP message, header included.
#[derive(Clone, Copy, Debug)]
pub struct Connection<'a> {
    /// TTL stamped on the reply, taken unchanged from the request.
    pub ttl: u8,
    /// Reply source: the request's destination.
    pub source: [u8; 4],
    /// Reply destination: the request's source.
    pub destination: [u8; 4],
    /// ICMP identifier of the request.
    pub icmp_id: u16,
    /// ICMP sequence number of the request.
    pub seq_no: u16,
    /// The inbound ICMP message.
    pub data: &'a [u8],
}

/// Reads the big-endian 16-bit value at `pos` of an inbound ICMP message;
/// fails when the message ends before `pos + 2`.
pub fn read_be16(data: &[u8], pos: usize) -> (r: Result<u16, EchoError>)
    ensures
        pos + 2 <= data@.len() ==> r == Ok::<u16, EchoError>(be16_at(data@, pos as int)),
        pos + 2 > data@.len() ==> r == Err::<u16, EchoError>(EchoError::TruncatedIcmp),
{
    if pos >= data.len() || data.len() - pos < 2 {
        return Err(EchoError::TruncatedIcmp);
    }
    let hi: u8 = data[pos];
    let lo: u8 = data[pos + 1];
    assert(((hi as u16) << 8) | (lo as u16) == hi * 256 + lo) by (bit_vector);
    Ok(((hi as u16) << 8) | (lo as u16))
}

impl<'a> Connection<'a> {
    /// Takes what a reply needs from an inbound packet's header and the ICMP
    /// message that follows it. Only ICMP Echo Requests are answered: another
    /// protocol, or another ICMP type, gives `Ok(None)`. A message too short to
    /// hold identifier and sequence number is an error.
    pub fn start(iph: &InboundHeader, data: &'a [u8]) -> (r: Result<Option<Connection<'a>>, EchoError>)
        ensures
            iph.protocol != ICMP_PROTOCOL ==> r == Ok::<Option<Connection<'a>>, EchoError>(None),
            iph.protocol == ICMP_PROTOCOL && data@.len() < 8 ==> r == Err::<
                Option<Connection<'a>>,
                EchoError,
            >(EchoError::TruncatedIcmp),
            iph.protocol == ICMP_PROTOCOL && data@.len() >= 8 && data@[0] != ECHO_REQUEST ==> r
                == Ok::<Option<Connection<'a>>, EchoError>(None),
            iph.protocol == ICMP_PROTOCOL && data@.len() >= 8 && data@[0] == ECHO_REQUEST ==> (r matches Ok(Some(c)) && {
                &&& c.ttl == iph.ttl
                &&& c.source == iph.destination
                &&& c.destination == iph.source
                &&& c.icmp_id == be16_at(data@, 4)
                &&& c.seq_no == be16_at(data@, 6)
                &&& c.data@ == data@
            }),
    {
        if iph.protocol != ICMP_PROTOCOL {
            return Ok(None);
        }
        let icmp_id: u16 = match read_be16(data, 4) {
            Ok(v) => v,
            Err(e) => return Err(e),
        };
        let seq_no: u16 = match read_be16(data, 6) {
            Ok(v) => v,
            Err(e) => return Err(e),
        };
        if data[0] != ECHO_REQUEST {
            return Ok(None);
        }
        Ok(Some(Connection {
            ttl: iph.ttl,
            source: iph.destination,
            destination: iph.source,
            icmp_id,
            seq_no,
            data,
        }))
    }

    /// Builds the 84-byte Echo Reply: the IPv4 header and the ICMP message,
    /// each with its own checksum. Payload bytes beyond the end of the
    /// inbound message are zero.
    pub fn respond(&self) -> (r: Vec<u8>)
        ensures
            r@ == reply_frame(
                self.ttl,
                self.source@,
                self.destination@,
                self.icmp_id,
                self.seq_no,
                self.data@,
            ),
            r@.len() == IPV4_HEADER_LEN + ICMP_MESSAGE_LEN,
    {
        let total: u16 = (IPV4_HEADER_LEN + ICMP_MESSAGE_LEN) as u16;
        assert((total >> 8) as u8 == 0 && (total & 0xff) as u8 == 84) by (bit_vector)
            requires
                total == 84,
        ;
        let mut ip_header: Vec<u8> = Vec::new();
        ip_header.push(0x45);
        ip_header.push(0x00);
        ip_header.push((total >> 8) as u8);
        ip_header.push((total & 0xff) as u8);
        ip_header.push(0x00);
        ip_header.push(0x00);
        ip_header.push(0x40);
        ip_header.push(0x00);
        ip_header.push(self.ttl);
        ip_header.push(ICMP_PROTOCOL);
        ip_header.push(0x00);
        ip_header.push(0x00);
        ip_header.push(self.source[0]);
        ip_header.push(self.source[1]);
        ip_header.push(self.source[2]);
        ip_header.push(self.source[3]);
        ip_header.push(self.destination[0]);
        ip_header.push(self.destination[1]);
        ip_header.push(self.destination[2]);
        ip_header.push(self.destination[3]);
        assert(ip_header@ =~= ip_header_unsealed(self.ttl, self.source@, self.destination@));
        let ip_sum: u16 = checksum(ip_header.as_slice());
        store_be16(ip_header.as_mut_slice(), 10, ip_sum);

        let mut icmp: Vec<u8> = Vec::new();
        icmp.push(ECHO_REPLY);
        icmp.push(0);
        icmp.push(0);
        icmp.push(0);
        icmp.push((self.icmp_id >> 8) as u8);
        icmp.push((self.icmp_id & 0xff) as u8);
        icmp.push((self.seq_no >> 8) as u8);
        icmp.push((self.seq_no & 0xff) as u8);
        let id: u16 = self.icmp_id;
        let sq: u16 = self.seq_no;
        assert((id >> 8) as u8 == (id / 256) as u8 && (id & 0xff) as u8 == (id % 256) as u8) by (bit_vector);
        assert((sq >> 8) as u8 == (sq / 256) as u8 && (sq & 0xff) as u8 == (sq % 256) as u8) by (bit_vector);
        let ghost head = seq![0u8, 0u8, 0u8, 0u8] + be_bytes(self.icmp_id) + be_bytes(self.seq_no);
        assert(icmp@ =~= head);
        let mut j: usize = ICMP_HEADER_LEN;
        while j < ICMP_MESSAGE_LEN
            invariant
                8 <= j <= 64,
                icmp@ == head + payload_window(self.data@).subrange(0, j - 8),
            decreases 64 - j,
        {
            let b: u8 = if j < self.data.len() { self.data[j] } else { 0 };
            icmp.push(b);
            j = j + 1;
            assert(payload_window(self.data@).subrange(0, j - 8) =~= payload_window(self.data@).subrange(0, j - 9).push(b));
        }
        assert(icmp@ =~= icmp_unsealed(self.icmp_id, self.seq_no, self.data@));
        calculate_checksum(icmp.as_mut_slice());

        let mut frame: Vec<u8> = ip_header;
        frame.append(&mut icmp);
        frame
    }
}

} // verus!
