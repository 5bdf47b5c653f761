//! The decisions of the two relay directions, one unit at a time. The loops
//! that receive and send live around the library; each received unit is
//! handed here, and what comes back says what to send, if anything.

use vstd::prelude::*;
use crate::buffer::{buffer_bytes, buffer_slice};
use crate::codec::{build_etherip_packet, decapsulated, encapsulated, frame_start, ValidationError};

verus! {

/// Bytes that a receive buffer holds beyond the device MTU: room for
/// link-layer metadata that the device hands over, and for the EtherIP header.
pub const RECEIVE_OVERHEAD: usize = 50;

/// An IP socket address as the socket reports it. Two addresses of the same
/// family are the same address exactly when these fields agree.
#[derive(Debug, Clone, Copy, PartialEq, Eq, Structural)]
pub enum PeerAddr {
    V4 { ip: u32, port: u16 },
    V6 { ip: u128, port: u16, flowinfo: u32, scope_id: u32 },
}

impl PeerAddr {
    /// Whether this is an IPv6 address; such a socket hands over datagrams
    /// without their IP header.
    pub fn is_ipv6(&self) -> (r: bool)
        ensures
            r == (*self is V6),
    {
        match self {
            PeerAddr::V4 { .. } => false,
            PeerAddr::V6 { .. } => true,
        }
    }
}

/// Whether a datagram from `source` comes from the one peer of the tunnel.
/// A source that is no IP address (`None`) never does.
pub open spec fn from_peer(source: Option<PeerAddr>, peer: PeerAddr) -> bool {
    source == Some(peer)
}

/// Compares the source of a received datagram with the configured peer.
pub fn is_from_peer(source: &Option<PeerAddr>, peer: &PeerAddr) -> (r: bool)
    ensures
        r == from_peer(*source, *peer),
{
    match source {
        Some(s) => *s == *peer,
        None => false,
    }
}

/// What becomes of one datagram received on the socket.
pub enum Inbound {
    /// It came from another address than the peer's: dropped unread.
    Foreign,
    /// It came from the peer but is malformed: dropped, worth a log line.
    Rejected(ValidationError),
    /// It came from the peer and carries an empty frame: nothing to send.
    Empty,
    /// The frame to send to the device.
    Deliver(bytes::BytesMut),
}

/// Decides on a datagram that the socket wrote into the first `received`
/// bytes of `buf`, from `source`. Only a datagram from `peer` is read at all;
/// one that carries a frame gives it up, split off the buffer, which keeps
/// the headers.
pub fn take_frame(buf: &mut bytes::BytesMut, received: usize, source: Option<PeerAddr>, peer: PeerAddr) -> (r: Inbound)
    requires
        received <= buffer_bytes(*old(buf)).len(),
    ensures
        !from_peer(source, peer) ==> r is Foreign && buffer_bytes(*final(buf)) == buffer_bytes(*old(buf)),
        from_peer(source, peer) ==> match decapsulated(
            buffer_bytes(*old(buf)).take(received as int),
            peer is V6,
        ) {
            Err(e) => r == Inbound::Rejected(e),
            Ok(frame) => if frame.len() == 0 {
                r is Empty
            } else {
                r is Deliver && buffer_bytes(r->Deliver_0) == frame
            },
        },
{
    if !is_from_peer(&source, &peer) {
        return Inbound::Foreign;
    }
    let is_ipv6 = peer.is_ipv6();
    buf.truncate(received);
    let ghost datagram = buffer_bytes(*buf);
    let start = match frame_start(buffer_slice(buf), is_ipv6) {
        Ok(start) => start,
        Err(e) => return Inbound::Rejected(e),
    };
    let frame = buf.split_off(start);
    proof {
        assert(datagram.skip(start as int) =~= datagram.subrange(start as int, datagram.len() as int));
    }
    if frame.len() == 0 {
        Inbound::Empty
    } else {
        Inbound::Deliver(frame)
    }
}

/// Wraps the frame that the device wrote into the first `received` bytes of
/// `buf` into the datagram to send to the peer. The buffer keeps the frame.
pub fn frame_to_datagram(buf: &mut bytes::BytesMut, received: usize) -> (datagram: Vec<u8>)
    requires
        received <= buffer_bytes(*old(buf)).len(),
        received + 2 <= usize::MAX,
    ensures
        buffer_bytes(*final(buf)) == buffer_bytes(*old(buf)).take(received as int),
        datagram@ == encapsulated(buffer_bytes(*old(buf)).take(received as int)),
{
    buf.truncate(received);
    build_etherip_packet(buffer_slice(buf))
}

/// Whether a send put out fewer bytes than the datagram holds. Such a send is
/// reported and not retried.
pub fn is_short_write(sent: usize, datagram_len: usize) -> (r: bool)
    ensures
        r == (sent < datagram_len),
{
    sent < datagram_len
}

/// Size of the receive buffer of a worker on a device of the given MTU.
pub fn receive_buffer_len(mtu: u16) -> (len: usize)
    ensures
        len == mtu + RECEIVE_OVERHEAD,
{
    mtu as usize + RECEIVE_OVERHEAD
}

} // verus!
