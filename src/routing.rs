use vstd::prelude::*;
use crate::types::{AppCookie, PortId, RouterError, MAX_MTU};
use crate::header::{parse_header, header_valid, header_of};
use crate::pktbuf::set_result;
use crate::listeners::{ListenerTable, has_type, slot_of};

verus! {

/// Where a completed local message goes.
#[derive(Debug, Clone, Copy, PartialEq, Eq)]
pub enum Dispatch {
    /// A request for the listener in this slot.
    Listener(AppCookie),
    /// A request that no listener takes: it is discarded.
    Discard,
    /// A response, for whichever request channel waits on its tag.
    Response,
}

/// What a receiver waits for: a listener by its slot, or a request
/// channel by the response tag and the peer.
#[derive(Debug, Clone, Copy)]
pub enum RecvSelector {
    Cookie(AppCookie),
    TagEid(mctp::Tag, mctp::Eid),
}

/// What a receiver does on one poll.
#[derive(Debug, Clone, Copy, PartialEq, Eq)]
pub enum RecvPoll {
    /// A matching message is there: fetch and copy it.
    Deliver,
    /// Register with the waker of this listener slot and wait.
    WaitListener(AppCookie),
    /// Register with the shared set of request-channel waiters and wait.
    WaitReceivers,
    /// The listener's slot is not bound: nothing will wake it.
    Unbound,
}

/// The source and destination endpoints of an inbound packet, or `None`
/// when its header is not valid.
pub fn inbound_endpoints(pkt: &[u8]) -> (r: Option<(mctp::Eid, mctp::Eid)>)
    ensures
        r is Some <==> header_valid(pkt@),
        r is Some ==> r->0 == (
            mctp::Eid(header_of(pkt@).source),
            mctp::Eid(header_of(pkt@).dest),
        ),
{
    match parse_header(pkt) {
        Ok(h) => Some((mctp::Eid(h.source), mctp::Eid(h.dest))),
        Err(_) => None,
    }
}

/// The port chosen by a route lookup, where it names one of `n_ports`.
pub open spec fn route_index(route: Option<PortId>, n_ports: usize) -> Option<usize> {
    match route {
        Some(p) => if (p.0 as usize) < n_ports {
            Some(p.0 as usize)
        } else {
            None
        },
        None => None,
    }
}

/// Turns a route lookup for a forwarded packet into a port index; `None`
/// drops the packet.
pub fn forward_port(route: Option<PortId>, n_ports: usize) -> (r: Option<usize>)
    ensures
        r == route_index(route, n_ports),
{
    match route {
        Some(p) => if (p.0 as usize) < n_ports {
            Some(p.0 as usize)
        } else {
            None
        },
        None => None,
    }
}

/// Turns a route lookup for a local send into a port index.
///
/// No route, or a port out of range, is `TxFailure`.
pub fn send_port(route: Option<PortId>, n_ports: usize) -> (r: Result<usize, RouterError>)
    ensures
        r == (match route_index(route, n_ports) {
            Some(i) => Ok(i),
            None => Err(RouterError::TxFailure),
        }),
{
    match forward_port(route, n_ports) {
        Some(i) => Ok(i),
        None => Err(RouterError::TxFailure),
    }
}

/// The outcome of checking a packet of `pkt_len` bytes against an MTU.
pub open spec fn forward_check(pkt_len: int, mtu: int) -> Result<(), RouterError> {
    if pkt_len > mtu {
        Err(RouterError::NoSpace)
    } else {
        Ok(())
    }
}

/// Checks that a packet fits a port's MTU before a queue slot is taken.
pub fn check_forward(pkt_len: usize, mtu: usize) -> (r: Result<(), RouterError>)
    ensures
        r == forward_check(pkt_len as int, mtu as int),
{
    if pkt_len > mtu {
        Err(RouterError::NoSpace)
    } else {
        Ok(())
    }
}

/// A valid packet that passed the MTU check of a port whose MTU is within
/// `MAX_MTU` is always copied whole into the queue slot that was taken for
/// it: forwarding either drops a packet before it takes a slot, or writes
/// all of it.
pub proof fn lemma_forward_never_partial(pkt: Seq<u8>, mtu: usize)
    requires
        header_valid(pkt),
        mtu <= MAX_MTU,
        forward_check(pkt.len() as int, mtu as int) is Ok,
    ensures
        set_result(pkt) == Ok::<(), RouterError>(()),
{
}

/// Checks a port's MTU when the port is built.
pub fn check_mtu(mtu: usize) -> (r: Result<usize, RouterError>)
    ensures
        r == (if mtu > MAX_MTU {
            Err(RouterError::BadArgument)
        } else {
            Ok(mtu)
        }),
{
    if mtu > MAX_MTU {
        Err(RouterError::BadArgument)
    } else {
        Ok(mtu)
    }
}

/// Decides where a completed local message goes.
///
/// A message whose tag the peer owns is a request: it goes to the listener
/// bound to its type, or is discarded when none is. Any other is a response.
pub fn dispatch_local(table: &ListenerTable, tag: mctp::Tag, typ: mctp::MsgType) -> (r: Dispatch)
    requires
        table.wf(),
    ensures
        tag is Owned && has_type(table@, typ) <==> r is Listener,
        tag is Owned && !has_type(table@, typ) <==> r is Discard,
        tag is Unowned <==> r is Response,
        r matches Dispatch::Listener(c) ==> slot_of(c) < table@.len() && table@[slot_of(c)]
            == Some(typ),
{
    match tag {
        mctp::Tag::Owned(_) => match table.find(typ) {
            Some(c) => Dispatch::Listener(c),
            None => Dispatch::Discard,
        },
        mctp::Tag::Unowned(_) => Dispatch::Response,
    }
}

/// Decides one poll of a receiver, given whether the stack holds a
/// matching message.
pub fn recv_poll(table: &ListenerTable, sel: RecvSelector, found: bool) -> (r: RecvPoll)
    ensures
        found ==> r == RecvPoll::Deliver,
        !found ==> r == (match sel {
            RecvSelector::Cookie(c) => if slot_of(c) < table@.len() && table@[slot_of(c)] is Some {
                RecvPoll::WaitListener(c)
            } else {
                RecvPoll::Unbound
            },
            RecvSelector::TagEid(_, _) => RecvPoll::WaitReceivers,
        }),
{
    if found {
        return RecvPoll::Deliver;
    }
    match sel {
        RecvSelector::Cookie(c) => if table.is_bound(c) {
            RecvPoll::WaitListener(c)
        } else {
            RecvPoll::Unbound
        },
        RecvSelector::TagEid(_, _) => RecvPoll::WaitReceivers,
    }
}

/// Copies a received payload to the front of the caller's buffer.
///
/// Fails with `NoSpace`, leaving the buffer as it was, when the payload
/// does not fit; otherwise returns the payload's length.
pub fn copy_payload(payload: &[u8], buf: &mut [u8]) -> (r: Result<usize, RouterError>)
    ensures
        final(buf)@.len() == old(buf)@.len(),
        r == (if payload@.len() > old(buf)@.len() {
            Err(RouterError::NoSpace)
        } else {
            Ok(payload@.len() as usize)
        }),
        r is Err ==> final(buf)@ == old(buf)@,
        r is Ok ==> final(buf)@ == payload@ + old(buf)@.subrange(
            payload@.len() as int,
            old(buf)@.len() as int,
        ),
{
    if payload.len() > buf.len() {
        return Err(RouterError::NoSpace);
    }
    let mut i: usize = 0;
    while i < payload.len()
        invariant
            i <= payload@.len() <= buf@.len(),
            buf@.len() == old(buf)@.len(),
            forall|j: int| 0 <= j < i ==> buf@[j] == payload@[j],
            forall|j: int| i <= j < buf@.len() ==> buf@[j] == old(buf)@[j],
        decreases payload@.len() - i,
    {
        buf[i] = payload[i];
        i = i + 1;
    }
    assert(buf@ =~= payload@ + old(buf)@.subrange(payload@.len() as int, old(buf)@.len() as int));
    Ok(payload.len())
}

} // verus!
