//! From one inbound raw frame to at most one outbound reply frame.

use vstd::prelude::*;
use vstd::slice::slice_subrange;
use crate::checksum::{internet_checksum, lemma_checksum_validates};
use crate::echo::{
    be16_at, icmp_unsealed, ip_header_unsealed, reply_frame, sealed, Connection, EchoError,
};
use crate::header::{header_len_of, is_ipv4_header, read_ipv4_header};

verus! {

/// The bytes of `frame` that follow its IPv4 header: the ICMP message.
pub open spec fn icmp_of(frame: Seq<u8>) -> Seq<u8> {
    frame.subrange(header_len_of(frame), frame.len() as int)
}

/// `frame` is an IPv4 datagram carrying an ICMP Echo Request whose 8-byte
/// ICMP header is complete.
pub open spec fn is_echo_request(frame: Seq<u8>) -> bool {
    &&& is_ipv4_header(frame)
    &&& frame[9] == 1
    &&& icmp_of(frame).len() >= 8
    &&& icmp_of(frame)[0] == 8
}

/// The reply owed to the Echo Request in `frame`: addresses swapped, the
/// request's TTL, identifier, sequence number and payload.
pub open spec fn reply_to(frame: Seq<u8>) -> Seq<u8> {
    let icmp = icmp_of(frame);
    reply_frame(
        frame[8],
        frame.subrange(16, 20),
        frame.subrange(12, 16),
        be16_at(icmp, 4),
        be16_at(icmp, 6),
        icmp,
    )
}

/// Answers one inbound frame. A frame that is not IPv4, or not ICMP, or an
/// ICMP message other than an Echo Request, gives `Ok(None)`; an ICMP
/// message shorter than its 8-byte header gives an error; an Echo Request
/// gives the reply frame to send.
pub fn answer_frame(frame: &[u8]) -> (r: Result<Option<Vec<u8>>, EchoError>)
    ensures
        !is_ipv4_header(frame@) ==> r == Ok::<Option<Vec<u8>>, EchoError>(None),
        is_ipv4_header(frame@) && frame@[9] != 1 ==> r == Ok::<Option<Vec<u8>>, EchoError>(None),
        is_ipv4_header(frame@) && frame@[9] == 1 && icmp_of(frame@).len() < 8 ==> r == Err::<
            Option<Vec<u8>>,
            EchoError,
        >(EchoError::TruncatedIcmp),
        is_ipv4_header(frame@) && frame@[9] == 1 && icmp_of(frame@).len() >= 8 && icmp_of(
            frame@,
        )[0] != 8 ==> r == Ok::<Option<Vec<u8>>, EchoError>(None),
        is_echo_request(frame@) ==> (r matches Ok(Some(v)) && v@ == reply_to(frame@)),
{
    let iph = match read_ipv4_header(frame) {
        Some(h) => h,
        None => return Ok(None),
    };
    let data = slice_subrange(frame, iph.header_len, frame.len());
    match Connection::start(&iph, data) {
        Ok(Some(c)) => Ok(Some(c.respond())),
        Ok(None) => Ok(None),
        Err(e) => Err(e),
    }
}

/// The reply to an Echo Request keeps its identifier and sequence number,
/// has type 0 and code 0, carries its payload bytes 8..64, and both of its
/// checksums validate: the IPv4 header's over its 20 bytes and the ICMP
/// message's over its 64 bytes.
pub proof fn lemma_echo_symmetry(frame: Seq<u8>)
    requires
        is_echo_request(frame),
    ensures
        reply_to(frame).len() == 84,
        reply_to(frame)[20] == 0,
        reply_to(frame)[21] == 0,
        reply_to(frame).subrange(24, 26) == icmp_of(frame).subrange(4, 6),
        reply_to(frame).subrange(26, 28) == icmp_of(frame).subrange(6, 8),
        forall|k: int|
            8 <= k < 64 && k < icmp_of(frame).len() ==> reply_to(frame)[20 + k] == icmp_of(frame)[k],
        internet_checksum(reply_to(frame).subrange(0, 20)) == 0,
        internet_checksum(reply_to(frame).subrange(20, 84)) == 0,
{
    let icmp = icmp_of(frame);
    let h = ip_header_unsealed(frame[8], frame.subrange(16, 20), frame.subrange(12, 16));
    let m = icmp_unsealed(be16_at(icmp, 4), be16_at(icmp, 6), icmp);
    let r = reply_to(frame);
    assert(r == sealed(h, 10) + sealed(m, 2));
    lemma_checksum_validates(h, 10);
    lemma_checksum_validates(m, 2);
    assert(r.subrange(0, 20) =~= sealed(h, 10));
    assert(r.subrange(20, 84) =~= sealed(m, 2));
    assert(r.subrange(24, 26) =~= icmp.subrange(4, 6));
    assert(r.subrange(26, 28) =~= icmp.subrange(6, 8));
}

/// The reply to an Echo Request goes from the request's destination back
/// to its source.
pub proof fn lemma_address_swap(frame: Seq<u8>)
    requires
        is_echo_request(frame),
    ensures
        reply_to(frame).subrange(12, 16) == frame.subrange(16, 20),
        reply_to(frame).subrange(16, 20) == frame.subrange(12, 16),
{
    let r = reply_to(frame);
    assert(r.subrange(12, 16) =~= frame.subrange(16, 20));
    assert(r.subrange(16, 20) =~= frame.subrange(12, 16));
}

} // verus!
