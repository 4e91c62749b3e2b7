use embassy_sync::blocking_mutex::raw::NoopRawMutex;
use embassy_sync::zerocopy_channel::Channel;
use mctp::{Eid, MsgType, Tag, TagValue};
use mctp_router::channels::{ReqChannelState, RespChannelState};
use mctp_router::flatten::flatten;
use mctp_router::header::{parse_header, Header};
use mctp_router::listeners::ListenerTable;
use mctp_router::pktbuf::PktBuf;
use mctp_router::routing::{
    check_forward, check_mtu, copy_payload, dispatch_local, forward_port, inbound_endpoints,
    recv_poll, send_port, Dispatch, RecvPoll, RecvSelector,
};
use mctp_router::{AppCookie, PortId, RouterError, MAX_LISTENERS, MAX_MTU, MAX_PAYLOAD};

fn packet(dest: u8, src: u8, flags: u8, payload: &[u8]) -> Vec<u8> {
    let mut p = vec![0x01, dest, src, flags];
    p.extend_from_slice(payload);
    p
}

#[test]
fn header_fields() {
    // SOM, EOM, seq 2, tag owner, tag 3
    let p = packet(8, 9, 0x80 | 0x40 | 0x20 | 0x08 | 0x03, &[0x7e]);
    let h = parse_header(&p).unwrap();
    assert_eq!(
        h,
        Header { dest: 8, source: 9, som: true, eom: true, seq: 2, tag_owner: true, tag: 3 }
    );
}

#[test]
fn header_rejects_short_and_bad_version() {
    assert_eq!(parse_header(&[0x01, 8, 9]), Err(RouterError::InvalidInput));
    assert_eq!(parse_header(&[0x02, 8, 9, 0xc0]), Err(RouterError::InvalidInput));
    assert_eq!(parse_header(&[]), Err(RouterError::InvalidInput));
}

#[test]
fn local_listener_delivery() {
    let mut table = ListenerTable::new();
    let cookie = table.bind(MsgType(0x7e)).unwrap();
    let pkt = packet(8, 9, 0xc0 | 0x08 | 0x03, &[0x7e, 0xaa, 0xbb]);
    let (src, dest) = inbound_endpoints(&pkt).unwrap();
    assert_eq!(src, Eid(9));
    assert_eq!(dest, Eid(8));
    let h = parse_header(&pkt).unwrap();
    let tag = if h.tag_owner { Tag::Owned(TagValue(h.tag)) } else { Tag::Unowned(TagValue(h.tag)) };
    assert_eq!(dispatch_local(&table, tag, MsgType(0x7e)), Dispatch::Listener(cookie));

    let mut buf = [0u8; 16];
    let n = copy_payload(&pkt[5..], &mut buf).unwrap();
    assert_eq!(&buf[..n], &[0xaa, 0xbb]);

    let resp = RespChannelState::from_request(src, tag, MsgType(0x7e)).unwrap();
    assert_eq!(resp.remote_eid(), Eid(9));
    assert_eq!(resp.send_args(), (Eid(9), MsgType(0x7e), Tag::Unowned(TagValue(3)), false));
}

#[test]
fn dispatch_without_listener_discards() {
    let table = ListenerTable::new();
    assert_eq!(dispatch_local(&table, Tag::Owned(TagValue(1)), MsgType(5)), Dispatch::Discard);
    assert_eq!(dispatch_local(&table, Tag::Unowned(TagValue(1)), MsgType(5)), Dispatch::Response);
}

#[test]
fn forward_by_route() {
    let mut body = vec![0u8; 36];
    body[0] = 0x01;
    let pkt = packet(12, 20, 0xc0, &body);
    assert_eq!(pkt.len(), 40);
    let (src, dest) = inbound_endpoints(&pkt).unwrap();
    assert_eq!(src, Eid(20));
    assert_eq!(dest, Eid(12));
    let port = forward_port(Some(PortId(1)), 2).unwrap();
    assert_eq!(port, 1);
    assert_eq!(check_forward(pkt.len(), 64), Ok(()));
    let mut slot = PktBuf::new();
    slot.set(&pkt).unwrap();
    assert_eq!(slot.as_slice(), &pkt[..]);
    assert_eq!(slot.dest(), Eid(12));
}

#[test]
fn forward_drop_on_ring_full() {
    let pkt = packet(12, 20, 0xc0, &[1, 2, 3]);
    let mut storage = [PktBuf::new()];
    let mut chan: Channel<'_, NoopRawMutex, PktBuf> = Channel::new(&mut storage);
    let (mut tx, mut rx) = chan.split();
    assert_eq!(check_forward(pkt.len(), 64), Ok(()));
    let slot = tx.try_send().unwrap();
    slot.set(&pkt).unwrap();
    tx.send_done();
    assert!(tx.try_send().is_none());
    let got = rx.try_receive().unwrap();
    assert_eq!(got.as_slice(), &pkt[..]);
    assert_eq!(got.dest(), Eid(12));
}

#[test]
fn forward_too_large_for_mtu() {
    assert_eq!(check_forward(65, 64), Err(RouterError::NoSpace));
    assert_eq!(check_forward(64, 64), Ok(()));
}

#[test]
fn routes_out_of_range() {
    assert_eq!(forward_port(Some(PortId(2)), 2), None);
    assert_eq!(forward_port(None, 2), None);
    assert_eq!(send_port(None, 2), Err(RouterError::TxFailure));
    assert_eq!(send_port(Some(PortId(5)), 2), Err(RouterError::TxFailure));
    assert_eq!(send_port(Some(PortId(0)), 2), Ok(0));
}

#[test]
fn request_response_round_trip() {
    let mut req = ReqChannelState::new(Eid(9));
    assert_eq!(req.send_args(), (Eid(9), None, true));
    assert_eq!(req.recv_selector().err(), Some(RouterError::BadArgument));
    req.record_sent(Tag::Owned(TagValue(5)));
    match req.recv_selector().unwrap() {
        RecvSelector::TagEid(t, e) => {
            assert_eq!(t, Tag::Unowned(TagValue(5)));
            assert_eq!(e, Eid(9));
        }
        RecvSelector::Cookie(_) => panic!("wrong selector"),
    }
    let mut buf = [0u8; 8];
    assert_eq!(copy_payload(&[0x04], &mut buf), Ok(1));
    assert_eq!(buf[0], 0x04);
    assert!(!req.leaks_tag());
    assert_eq!(req.release_args(), None);
}

#[test]
fn duplicate_listener_bind() {
    let mut table = ListenerTable::new();
    assert_eq!(table.bind(MsgType(0x10)), Ok(AppCookie(0)));
    assert_eq!(table.bind(MsgType(0x10)), Err(RouterError::AddrInUse));
    assert_eq!(table.bind(MsgType(0x11)), Ok(AppCookie(1)));
}

#[test]
fn listener_table_full() {
    let mut table = ListenerTable::new();
    for i in 0..MAX_LISTENERS {
        assert_eq!(table.bind(MsgType(i as u8)), Ok(AppCookie(i)));
    }
    assert_eq!(table.bind(MsgType(0x70)), Err(RouterError::NoSpace));
    assert_eq!(table.unbind(AppCookie(3)), Ok(()));
    assert_eq!(table.bind(MsgType(0x70)), Ok(AppCookie(3)));
}

#[test]
fn bind_then_unbind_restores() {
    let mut table = ListenerTable::new();
    table.bind(MsgType(1)).unwrap();
    let c = table.bind(MsgType(2)).unwrap();
    assert_eq!(table.unbind(c), Ok(()));
    assert!(!table.is_bound(c));
    assert_eq!(table.find(MsgType(2)), None);
    assert_eq!(table.find(MsgType(1)), Some(AppCookie(0)));
    assert_eq!(table.bind(MsgType(2)), Ok(c));
}

#[test]
fn unbind_bad_cookie() {
    let mut table = ListenerTable::new();
    assert_eq!(table.unbind(AppCookie(0)), Err(RouterError::BadArgument));
    assert_eq!(table.unbind(AppCookie(MAX_LISTENERS)), Err(RouterError::BadArgument));
}

#[test]
fn recv_buffer_too_small() {
    let mut buf = [7u8; 2];
    assert_eq!(copy_payload(&[1, 2, 3], &mut buf), Err(RouterError::NoSpace));
    assert_eq!(buf, [7, 7]);
    assert_eq!(copy_payload(&[1], &mut buf), Ok(1));
    assert_eq!(buf, [1, 7]);
}

#[test]
fn flatten_large_message() {
    let payload: Vec<u8> = (0..200u32).map(|i| i as u8).collect();
    let mut msg: heapless::Vec<u8, MAX_PAYLOAD> = heapless::Vec::new();
    msg.extend_from_slice(&[9, 9]).unwrap();
    let chunks: [&[u8]; 3] = [&payload[..50], &payload[50..120], &payload[120..]];
    assert_eq!(flatten(&chunks, &mut msg), Ok(()));
    assert_eq!(&msg[..], &payload[..]);
    // four packets of at most 64 payload bytes carry it
    assert_eq!((msg.len() + 63) / 64, 4);
}

#[test]
fn flatten_too_large() {
    let big = vec![0u8; MAX_PAYLOAD];
    let chunks: [&[u8]; 2] = [&big[..], &[1]];
    let mut msg: heapless::Vec<u8, MAX_PAYLOAD> = heapless::Vec::new();
    assert_eq!(flatten(&chunks, &mut msg), Err(RouterError::NoSpace));
    let exact: [&[u8]; 1] = [&big[..]];
    assert_eq!(flatten(&exact, &mut msg), Ok(()));
    assert_eq!(msg.len(), MAX_PAYLOAD);
}

#[test]
fn tag_noexpire_only_before_send() {
    let mut req = ReqChannelState::new(Eid(9));
    assert_eq!(req.tag_noexpire(), Ok(()));
    assert_eq!(req.send_args(), (Eid(9), None, false));
    req.record_sent(Tag::Owned(TagValue(2)));
    assert_eq!(req.tag_noexpire(), Err(RouterError::BadArgument));
    assert!(req.leaks_tag());
    assert_eq!(req.release_args(), Some((Eid(9), TagValue(2))));
}

#[test]
fn listener_gets_unowned_tag() {
    assert_eq!(
        RespChannelState::from_request(Eid(9), Tag::Unowned(TagValue(1)), MsgType(3)).err(),
        Some(RouterError::InternalError)
    );
    let resp = RespChannelState::from_request(Eid(9), Tag::Owned(TagValue(1)), MsgType(3)).unwrap();
    let req = resp.req_channel();
    assert_eq!(req.send_args(), (Eid(9), None, true));
}

#[test]
fn port_mtu_limit() {
    assert_eq!(check_mtu(MAX_MTU), Ok(MAX_MTU));
    assert_eq!(check_mtu(MAX_MTU + 1), Err(RouterError::BadArgument));
}

#[test]
fn pktbuf_set_rejects() {
    let mut b = PktBuf::new();
    let big = packet(12, 20, 0xc0, &vec![0u8; MAX_MTU]);
    assert_eq!(b.set(&big), Err(RouterError::NoSpace));
    assert_eq!(b.as_slice().len(), 0);
    assert_eq!(b.set(&[0x05, 1, 2, 3]), Err(RouterError::InvalidInput));
    let ok = packet(12, 20, 0xc0, &[1]);
    assert_eq!(b.set(&ok), Ok(()));
    b.buffer_mut()[4] = 0x55;
    b.commit(5, Eid(30));
    assert_eq!(b.as_slice(), &[0x01, 12, 20, 0xc0, 0x55]);
    assert_eq!(b.dest(), Eid(30));
}

#[test]
fn recv_poll_decisions() {
    let mut table = ListenerTable::new();
    let c = table.bind(MsgType(0x7e)).unwrap();
    assert_eq!(recv_poll(&table, RecvSelector::Cookie(c), true), RecvPoll::Deliver);
    assert_eq!(recv_poll(&table, RecvSelector::Cookie(c), false), RecvPoll::WaitListener(c));
    assert_eq!(recv_poll(&table, RecvSelector::Cookie(AppCookie(4)), false), RecvPoll::Unbound);
    assert_eq!(recv_poll(&table, RecvSelector::Cookie(AppCookie(99)), false), RecvPoll::Unbound);
    let sel = RecvSelector::TagEid(Tag::Unowned(TagValue(1)), Eid(9));
    assert_eq!(recv_poll(&table, sel, false), RecvPoll::WaitReceivers);
    assert_eq!(recv_poll(&table, sel, true), RecvPoll::Deliver);
}

#[test]
fn forward_within_mtu_is_written_whole() {
    let pkt = packet(12, 20, 0xc0, &vec![0x33u8; 60]);
    assert_eq!(check_forward(pkt.len(), 64), Ok(()));
    let mut slot = PktBuf::new();
    slot.set(&packet(40, 41, 0xc0, &[1, 2])).unwrap();
    assert_eq!(slot.set(&pkt), Ok(()));
    assert_eq!(slot.as_slice(), &pkt[..]);
    assert_eq!(slot.dest(), Eid(12));
}
