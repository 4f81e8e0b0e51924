//! The fields of an inbound IPv4 header that the responder reads, and the
//! parse that finds them in a raw frame.

use vstd::prelude::*;

verus! {

/// What the responder needs of an inbound IPv4 header, as plain values.
#[derive(Clone, Copy, Debug, PartialEq, Eq)]
pub struct InboundHeader {
    /// Source address (header bytes 12..16).
    pub source: [u8; 4],
    /// Destination address (header bytes 16..20).
    pub destination: [u8; 4],
    /// Time to live (header byte 8).
    pub ttl: u8,
    /// Protocol number (header byte 9); 1 is ICMP.
    pub protocol: u8,
    /// Length of the header with its options, in bytes.
    pub header_len: usize,
}

/// Length in bytes of the header that starts `frame`, from its IHL nibble.
pub open spec fn header_len_of(frame: Seq<u8>) -> int {
    (frame[0] % 16) * 4
}

/// `frame` starts with an IPv4 header: at least 20 bytes, version 4, an IHL
/// of at least 5 words, and all of the header's bytes present.
pub open spec fn is_ipv4_header(frame: Seq<u8>) -> bool {
    &&& frame.len() >= 20
    &&& frame[0] / 16 == 4
    &&& frame[0] % 16 >= 5
    &&& frame.len() >= header_len_of(frame)
}

/// `h` holds the fields of the IPv4 header that starts `frame`.
pub open spec fn reads_header(h: InboundHeader, frame: Seq<u8>) -> bool {
    &&& h.source@ == frame.subrange(12, 16)
    &&& h.destination@ == frame.subrange(16, 20)
    &&& h.ttl == frame[8]
    &&& h.protocol == frame[9]
    &&& h.header_len == header_len_of(frame)
}

/// Relies on etherparse's `Ipv4HeaderSlice::from_slice`, which accepts a
/// slice exactly when it is at least 20 bytes long, has version 4, an IHL of
/// at least 5, and holds IHL * 4 bytes; and on the slice's readers `source`,
/// `destination`, `ttl`, `protocol` and `slice`, which return bytes 12..16,
/// 16..20, 8 and 9 and the first IHL * 4 bytes.
#[verifier::external_body]
pub(crate) fn read_ipv4_header(frame: &[u8]) -> (r: Option<InboundHeader>)
    ensures
        r.is_some() == is_ipv4_header(frame@),
        r matches Some(h) ==> reads_header(h, frame@),
{
    match etherparse::Ipv4HeaderSlice::from_slice(frame) {
        Ok(h) => Some(InboundHeader {
            source: h.source(),
            destination: h.destination(),
            ttl: h.ttl(),
            protocol: h.protocol().0,
            header_len: h.slice().len(),
        }),
        Err(_) => None,
    }
}

} // verus!
