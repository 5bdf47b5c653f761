//! EtherIP framing: the two-byte header that carries an Ethernet frame in an
//! IP datagram, and the checks made on datagrams that come in.

use vstd::prelude::*;

verus! {

/// First byte of the EtherIP header: version 3 in the high nibble, reserved
/// bits zero.
pub const ETHERIP_VERSION_BYTE: u8 = 0x30;

/// Length of the EtherIP header in bytes.
pub const ETHERIP_HEADER_LEN: usize = 2;

/// The protocol version that every EtherIP header carries.
pub const ETHERIP_VERSION: u8 = 3;

/// Why a received datagram carries no frame.
#[derive(Debug, Clone, Copy, PartialEq, Eq, Structural)]
pub enum ValidationError {
    /// Fewer bytes than the IP header and the EtherIP header need.
    TooShort,
    /// The EtherIP version nibble is not 3.
    BadVersion,
}

/// The EtherIP header as it is sent: version 3, reserved bits zero.
pub open spec fn etherip_header() -> Seq<u8> {
    seq![ETHERIP_VERSION_BYTE, 0u8]
}

/// The datagram payload that carries `frame`.
pub open spec fn encapsulated(frame: Seq<u8>) -> Seq<u8> {
    etherip_header() + frame
}

/// Length of the IP header in front of the EtherIP header: none on an IPv6
/// socket, else the IHL field (low nibble of the first byte) in 4-byte words.
/// An empty IPv4 datagram has no header to read, and is taken to have none.
pub open spec fn ip_header_len_of(datagram: Seq<u8>, is_ipv6: bool) -> nat {
    if is_ipv6 || datagram.len() == 0 {
        0
    } else {
        ((datagram[0] % 16) * 4) as nat
    }
}

/// The version nibble of an EtherIP header's first byte.
pub open spec fn version_of(b: u8) -> u8 {
    b / 16
}

/// What a received datagram carries: the frame behind both headers, or why
/// there is none.
pub open spec fn decapsulated(datagram: Seq<u8>, is_ipv6: bool) -> Result<Seq<u8>, ValidationError> {
    let h = ip_header_len_of(datagram, is_ipv6);
    if datagram.len() < h + 2 {
        Err(ValidationError::TooShort)
    } else if version_of(datagram[h as int]) != ETHERIP_VERSION {
        Err(ValidationError::BadVersion)
    } else {
        Ok(datagram.subrange(h + 2 as int, datagram.len() as int))
    }
}

/// Where the frame starts in a datagram that carries one.
pub open spec fn frame_start_of(datagram: Seq<u8>, is_ipv6: bool) -> nat {
    ip_header_len_of(datagram, is_ipv6) + 2
}

/// Wraps an Ethernet frame in an EtherIP header.
pub fn build_etherip_packet(buf: &[u8]) -> (packet: Vec<u8>)
    requires
        buf@.len() + 2 <= usize::MAX,
    ensures
        packet@ == encapsulated(buf@),
{
    let mut packet: Vec<u8> = Vec::with_capacity(ETHERIP_HEADER_LEN + buf.len());
    packet.push(ETHERIP_VERSION_BYTE);
    packet.push(0u8);
    let mut i: usize = 0;
    while i < buf.len()
        invariant
            i <= buf@.len(),
            packet@ == etherip_header() + buf@.subrange(0, i as int),
        decreases buf@.len() - i,
    {
        packet.push(buf[i]);
        proof {
            assert(buf@.subrange(0, i + 1) == buf@.subrange(0, i as int).push(buf@[i as int]));
        }
        i = i + 1;
    }
    proof {
        assert(buf@.subrange(0, buf@.len() as int) == buf@);
    }
    packet
}

/// Length of the IP header in front of the EtherIP header of `datagram`.
pub fn ip_header_len(datagram: &[u8], is_ipv6: bool) -> (len: usize)
    ensures
        len == ip_header_len_of(datagram@, is_ipv6),
        len <= 60,
{
    if is_ipv6 || datagram.len() == 0 {
        0
    } else {
        let b = datagram[0];
        let ihl = b & 0x0F;
        assert(b & 0x0F == b % 16) by (bit_vector);
        (ihl as usize) * 4
    }
}

/// Checks a received datagram and finds where its frame starts.
pub fn frame_start(datagram: &[u8], is_ipv6: bool) -> (r: Result<usize, ValidationError>)
    ensures
        match decapsulated(datagram@, is_ipv6) {
            Ok(_) => r == Ok::<usize, ValidationError>(frame_start_of(datagram@, is_ipv6) as usize),
            Err(e) => r == Err::<usize, ValidationError>(e),
        },
        r is Ok ==> r->Ok_0 <= datagram@.len(),
{
    let h = ip_header_len(datagram, is_ipv6);
    if datagram.len() < h + ETHERIP_HEADER_LEN {
        return Err(ValidationError::TooShort);
    }
    let b = datagram[h];
    let version = b >> 4;
    assert(b >> 4 == b / 16) by (bit_vector);
    if version != ETHERIP_VERSION {
        return Err(ValidationError::BadVersion);
    }
    Ok(h + ETHERIP_HEADER_LEN)
}

/// Strips the IP header and the EtherIP header from a received datagram and
/// returns the Ethernet frame it carries, which may be empty.
pub fn decapsulate(datagram: &[u8], is_ipv6: bool) -> (r: Result<Vec<u8>, ValidationError>)
    ensures
        match decapsulated(datagram@, is_ipv6) {
            Ok(frame) => r is Ok && r->Ok_0@ == frame,
            Err(e) => r == Err::<Vec<u8>, ValidationError>(e),
        },
{
    match frame_start(datagram, is_ipv6) {
        Ok(start) => {
            let frame = vstd::slice::slice_subrange(datagram, start, datagram.len());
            Ok(vstd::slice::slice_to_vec(frame))
        },
        Err(e) => Err(e),
    }
}

/// Unwrapping what was wrapped gives the frame back, on either address
/// family: the header's first byte has IHL zero, so an IPv4 reading finds no
/// IP header in front of it either.
pub proof fn lemma_round_trip(frame: Seq<u8>, is_ipv6: bool)
    ensures
        decapsulated(encapsulated(frame), is_ipv6) == Ok::<Seq<u8>, ValidationError>(frame),
{
    let d = encapsulated(frame);
    assert(d[0] == ETHERIP_VERSION_BYTE);
    assert(ip_header_len_of(d, is_ipv6) == 0);
    assert(d.subrange(2, d.len() as int) =~= frame);
}

/// A datagram with no room for both headers is too short, whatever its bytes.
pub proof fn lemma_too_short(datagram: Seq<u8>, is_ipv6: bool)
    requires
        datagram.len() < ip_header_len_of(datagram, is_ipv6) + 2,
    ensures
        decapsulated(datagram, is_ipv6) == Err::<Seq<u8>, ValidationError>(ValidationError::TooShort),
{
}

/// A datagram long enough for both headers whose EtherIP version nibble is
/// not 3 is refused for its version.
pub proof fn lemma_bad_version(datagram: Seq<u8>, is_ipv6: bool)
    requires
        datagram.len() >= ip_header_len_of(datagram, is_ipv6) + 2,
        version_of(datagram[ip_header_len_of(datagram, is_ipv6) as int]) != ETHERIP_VERSION,
    ensures
        decapsulated(datagram, is_ipv6) == Err::<Seq<u8>, ValidationError>(ValidationError::BadVersion),
{
}

/// A wrapped frame is two bytes longer, starts with `0x30, 0x00`, and holds
/// the frame unchanged after that.
pub proof fn lemma_encapsulated_layout(frame: Seq<u8>)
    ensures
        encapsulated(frame).len() == frame.len() + 2,
        encapsulated(frame)[0] == 0x30u8,
        encapsulated(frame)[1] == 0x00u8,
        forall|i: int| 0 <= i < frame.len() ==> #[trigger] encapsulated(frame)[i + 2] == frame[i],
{
}

} // verus!
