//! Laws of the tasks behind a test's sockets: what they do with packets.

use crate::net::{EndpointAddress, Host, IpAddr, Ipv4Addr, Ipv6Addr, SocketAddr};
use crate::test::channels::put;
use crate::test::traffic::{
    packet_text, received_texts, EchoAction, EchoActionView, EchoEvent, EchoEventView, EchoServer,
    ForwardError, PacketRelay, RelayAction, RelayActionView, RelayEvent, RelayEventView, RelayState,
    SinglePacket, BUFFER_SIZE, RELAY_CAPACITY,
};
use tokio::sync::oneshot;
use vstd::prelude::*;
use vstd::utf8::{
    decode_utf8, decode_utf8_encode_utf8, encode_utf8, encode_utf8_decode_utf8,
    encode_utf8_valid_utf8, valid_utf8,
};

verus! {

/// A packet holds up to 1024 bytes, and up to ten packets wait for a test.
pub proof fn law_sizes()
    ensures
        BUFFER_SIZE == 1024,
        RELAY_CAPACITY == 10,
{
}

/// The text of a packet, encoded, is the packet: the first `size` bytes of the
/// buffer, and no others. A packet has none if and only if it is not text.
pub proof fn law_packet_text(buf: &[u8], size: usize, text: Option<String>)
    requires
        size <= buf@.len(),
        call_ensures(packet_text, (buf, size), text),
    ensures
        call_requires(packet_text, (buf, size)),
        text is None <==> !valid_utf8(buf@.subrange(0, size as int)),
        text matches Some(t) ==> encode_utf8(t@) == buf@.subrange(0, size as int),
{
    let packet = buf@.take(size as int);
    assert(packet =~= buf@.subrange(0, size as int));
    if valid_utf8(packet) {
        decode_utf8_encode_utf8(packet);
    }
}

/// A text that is sent in a packet, with anything behind it in the buffer, is the
/// packet's text.
pub proof fn law_sent_text_is_received(
    text: Seq<char>,
    buf: &[u8],
    size: usize,
    received: Option<String>,
)
    requires
        size <= buf@.len(),
        buf@.subrange(0, size as int) == encode_utf8(text),
        call_ensures(packet_text, (buf, size), received),
    ensures
        received matches Some(t) && t@ == text,
{
    encode_utf8_valid_utf8(text);
    encode_utf8_decode_utf8(text);
    assert(buf@.take(size as int) =~= buf@.subrange(0, size as int));
}

/// A single packet that is text is put into the channel as that text, and what the
/// channel answers is answered. One that is not text is not put into the channel,
/// whose sending half comes back.
pub proof fn law_single_packet_is_forwarded(
    packet_tx: oneshot::Sender<String>,
    single: SinglePacket,
    buf: &[u8],
    size: usize,
    forwarded: Result<(), ForwardError>,
)
    requires
        size <= buf@.len(),
        call_ensures(SinglePacket::new, (packet_tx,), single),
        call_ensures(SinglePacket::forward, (single, buf, size), forwarded),
    ensures
        call_requires(SinglePacket::forward, (single, buf, size)),
        !valid_utf8(buf@.subrange(0, size as int)) ==> forwarded == Err::<(), ForwardError>(
            ForwardError::NotText(packet_tx),
        ),
        valid_utf8(buf@.subrange(0, size as int)) ==> exists|text: String, sent: Result<(), String>|
            {
                &&& #[trigger] call_ensures(
                    oneshot::Sender::<String>::send,
                    (packet_tx, text),
                    sent,
                )
                &&& encode_utf8(text@) == buf@.subrange(0, size as int)
                &&& match sent {
                    Ok(_) => forwarded is Ok,
                    Err(_) => forwarded == Err::<(), ForwardError>(
                        ForwardError::ReceiverDropped(text),
                    ),
                }
            },
{
    let packet = buf@.take(size as int);
    assert(packet =~= buf@.subrange(0, size as int));
    if valid_utf8(packet) {
        decode_utf8_encode_utf8(packet);
        let (text, sent) = choose|text: String, sent: Result<(), String>|
            {
                &&& #[trigger] put(single.sender(), text, sent)
                &&& text@ == decode_utf8(packet)
                &&& match sent {
                    Ok(_) => forwarded is Ok,
                    Err(_) => forwarded == Err::<(), ForwardError>(
                        ForwardError::ReceiverDropped(text),
                    ),
                }
            };
        assert(call_ensures(oneshot::Sender::<String>::send, (packet_tx, text), sent));
    }
}

/// What a relay does after each event, and what it waits for next.
///
/// After a text packet it forwards the packet's text, and waits for the channel.
/// Once the channel has taken the text it listens, as at first. After a packet that
/// is not text it fails. After a shutdown, or when the receiver is gone, it stops.
pub proof fn law_relay_step<'a>(
    relay: &mut PacketRelay,
    event: RelayEvent<'a>,
    action: RelayAction,
)
    requires
        call_ensures(PacketRelay::step, (relay, event), action),
    ensures
        match event {
            RelayEvent::Received { buf, size } => if valid_utf8(buf@.take(size as int)) {
                &&& final(relay).state() == RelayState::Forwarding
                &&& action matches RelayAction::Forward(text)
                &&& encode_utf8(text@) == buf@.take(size as int)
            } else {
                action is Fail && final(relay).state() == RelayState::Stopped
            },
            RelayEvent::Forwarded => action is Listen && final(relay).state()
                == RelayState::Listening,
            RelayEvent::ReceiverDropped => action is Stop && final(relay).state()
                == RelayState::Stopped,
            RelayEvent::Shutdown => action is Stop && final(relay).state() == RelayState::Stopped,
        },
{
    if let RelayEvent::Received { buf, size } = event {
        if valid_utf8(buf@.take(size as int)) {
            decode_utf8_encode_utf8(buf@.take(size as int));
        }
    }
}

/// While a relay listens, any packet and the shutdown may come. While it forwards,
/// the channel may take the text or be found without a receiver. Nothing else may
/// happen, and nothing at all once it has stopped.
pub proof fn law_relay_expects(state: RelayState, event: RelayEventView)
    ensures
        state.expects(event) <==> {
            ||| state == RelayState::Listening && event is Received
            ||| state == RelayState::Listening && event is Shutdown
            ||| state == RelayState::Forwarding && event is Forwarded
            ||| state == RelayState::Forwarding && event is ReceiverDropped
        },
{
}

/// A relay carries on: a new one takes any text packet, forwards its text and waits
/// for the channel; when the channel has taken the text, the relay takes any next
/// packet, or the shutdown, as a new one does.
pub proof fn law_relay_carries_on<'a, 'b>(
    first: &mut PacketRelay,
    second: &mut PacketRelay,
    third: &mut PacketRelay,
    buf: &'a [u8],
    size: usize,
    to_first: RelayAction,
    to_second: RelayAction,
    next_buf: &'b [u8],
    next_size: usize,
)
    requires
        call_ensures(PacketRelay::new, (), *old(first)) || old(first).state()
            == RelayState::Listening,
        size <= buf@.len(),
        valid_utf8(buf@.take(size as int)),
        next_size <= next_buf@.len(),
        call_ensures(PacketRelay::step, (first, RelayEvent::Received { buf, size }), to_first),
        *old(second) == *final(first),
        call_ensures(PacketRelay::step, (second, RelayEvent::Forwarded), to_second),
        *old(third) == *final(second),
    ensures
        call_requires(PacketRelay::step, (first, RelayEvent::Received { buf, size })),
        to_first matches RelayAction::Forward(text) && encode_utf8(text@) == buf@.take(
            size as int,
        ),
        call_requires(PacketRelay::step, (second, RelayEvent::Forwarded)),
        call_requires(PacketRelay::step, (second, RelayEvent::ReceiverDropped)),
        to_second is Listen,
        old(third).state() == RelayState::Listening,
        call_requires(
            PacketRelay::step,
            (third, RelayEvent::Received { buf: next_buf, size: next_size }),
        ),
        call_requires(PacketRelay::step, (third, RelayEvent::Shutdown)),
{
    decode_utf8_encode_utf8(buf@.take(size as int));
}

/// A relay takes text packets one after the other, however many there are, each
/// after the channel has taken the one before, and then the shutdown; it forwards
/// the text of each packet, in order, and nothing else.
pub proof fn law_relay_takes_packets_until_shutdown(
    packets: Seq<Seq<u8>>,
    events: Seq<RelayEventView>,
)
    requires
        forall|i: int| 0 <= i < packets.len() ==> #[trigger] valid_utf8(packets[i]),
        events.len() == 2 * packets.len() + 1,
        forall|i: int|
            #![trigger packets[i]]
            0 <= i < packets.len() ==> events[2 * i] == (RelayEventView::Received {
                packet: packets[i],
            }) && events[2 * i + 1] is Forwarded,
        events.last() is Shutdown,
    ensures
        RelayState::Listening.expects_all(events),
        RelayState::Listening.forwards(events).len() == packets.len(),
        forall|i: int|
            0 <= i < packets.len() ==> encode_utf8(
                #[trigger] RelayState::Listening.forwards(events)[i],
            ) == packets[i],
    decreases packets.len(),
{
    reveal_with_fuel(RelayState::expects_all, 3);
    reveal_with_fuel(RelayState::forwards, 3);
    if packets.len() > 0 {
        let packet = packets[0];
        let rest = packets.drop_first();
        let later = events.drop_first().drop_first();
        assert(valid_utf8(packet));
        assert(events[0] == (RelayEventView::Received { packet }));
        assert(events[1] is Forwarded);
        assert forall|i: int| 0 <= i < rest.len() implies #[trigger] valid_utf8(rest[i]) by {
            assert(valid_utf8(packets[i + 1]));
        }
        assert forall|i: int|
            #![trigger rest[i]]
            0 <= i < rest.len() implies later[2 * i] == (RelayEventView::Received {
            packet: rest[i],
        }) && later[2 * i + 1] is Forwarded by {
            assert(rest[i] == packets[i + 1]);
            assert(later[2 * i] == events[2 * (i + 1)]);
            assert(later[2 * i + 1] == events[2 * (i + 1) + 1]);
        }
        law_relay_takes_packets_until_shutdown(rest, later);
        decode_utf8_encode_utf8(packet);
        let forwards = RelayState::Listening.forwards(events);
        assert(forwards =~= seq![decode_utf8(packet)] + RelayState::Listening.forwards(later));
        assert forall|i: int| 0 <= i < packets.len() implies encode_utf8(#[trigger] forwards[i])
            == packets[i] by {
            if i > 0 {
                assert(forwards[i] == RelayState::Listening.forwards(later)[i - 1]);
                assert(rest[i - 1] == packets[i]);
            }
        }
    } else {
        assert(events.first() is Shutdown);
    }
}

/// An event of a relay stands for the packet in it: the first `size` bytes of the
/// buffer.
pub proof fn law_relay_event_view<'a>(event: RelayEvent<'a>)
    ensures
        match event {
            RelayEvent::Received { buf, size } => event@ == (RelayEventView::Received {
                packet: buf@.take(size as int),
            }),
            RelayEvent::Forwarded => event@ is Forwarded,
            RelayEvent::ReceiverDropped => event@ is ReceiverDropped,
            RelayEvent::Shutdown => event@ is Shutdown,
        },
{
}

/// What a relay is to do stands for the text in it.
pub proof fn law_relay_action_view(action: RelayAction)
    ensures
        match action {
            RelayAction::Listen => action@ is Listen,
            RelayAction::Forward(text) => action@ == RelayActionView::Forward(text@),
            RelayAction::Stop => action@ is Stop,
            RelayAction::Fail => action@ is Fail,
        },
{
}

/// A relay ends with a packet that is not text, when the receiver is gone and with
/// the shutdown, and with nothing else.
pub proof fn law_last_events(event: RelayEventView)
    ensures
        event.is_last() <==> {
            ||| event matches RelayEventView::Received { packet } && !valid_utf8(packet)
            ||| event is ReceiverDropped
            ||| event is Shutdown
        },
        event.is_last() <==> RelayState::Listening.after(event).0 == RelayState::Stopped,
{
}

/// An echo server behind a socket is reached on the local host, at the socket's
/// port and by its family.
pub proof fn law_echo_server_is_on_localhost(
    bound: SocketAddr,
    server: EchoServer,
    address: EndpointAddress,
)
    requires
        call_ensures(EchoServer::new, (bound,), server),
        call_ensures(EchoServer::address, (&server,), address),
    ensures
        match bound {
            SocketAddr::V4(v4) => {
                &&& address.host == Host::Ip(IpAddr::V4(Ipv4Addr { a: 127, b: 0, c: 0, d: 1 }))
                &&& address.port == v4.port
            },
            SocketAddr::V6(v6) => {
                &&& address.host == Host::Ip(IpAddr::V6(Ipv6Addr { bits: 1 }))
                &&& address.port == v6.port
            },
        },
{
}

/// An echo server behind a socket sends each packet back to its sender, exactly the
/// bytes that came in, and shows the tap its own address: the socket's, on the local
/// host. On the shutdown, and only then, it stops.
pub proof fn law_packet_is_echoed<'a>(
    bound: SocketAddr,
    server: EchoServer,
    event: EchoEvent<'a>,
    action: EchoAction<'a>,
)
    requires
        event matches EchoEvent::Received { buf, size, .. } ==> size <= buf@.len(),
        call_ensures(EchoServer::new, (bound,), server),
        call_ensures(EchoServer::step, (&server, event), action),
    ensures
        call_requires(EchoServer::step, (&server, event)),
        match event {
            EchoEvent::Received { buf, size, sender } => {
                &&& action matches EchoAction::Echo { sender: to, packet, local_addr }
                &&& to == sender
                &&& packet@ == buf@.subrange(0, size as int)
                &&& match (local_addr, bound) {
                    (SocketAddr::V4(l), SocketAddr::V4(b)) => {
                        &&& l.ip.a == 127 && l.ip.b == 0 && l.ip.c == 0 && l.ip.d == 1
                        &&& l.port == b.port
                    },
                    (SocketAddr::V6(l), SocketAddr::V6(b)) => {
                        &&& l.ip.bits == 1 && l.port == b.port
                        &&& l.flowinfo == b.flowinfo && l.scope_id == b.scope_id
                    },
                    _ => false,
                }
            },
            EchoEvent::Shutdown => action is Stop,
        },
{
    if let EchoEvent::Received { buf, size, .. } = event {
        assert(buf@.take(size as int) =~= buf@.subrange(0, size as int));
    }
}

/// An event of an echo server stands for the packet in it and for its sender.
pub proof fn law_echo_event_view<'a>(event: EchoEvent<'a>)
    ensures
        match event {
            EchoEvent::Received { buf, size, sender } => event@ == (EchoEventView::Received {
                packet: buf@.take(size as int),
                sender,
            }),
            EchoEvent::Shutdown => event@ is Shutdown,
        },
{
}

/// What an echo server is to do stands for the packet in it, for whom it goes to and
/// for the server's own address.
pub proof fn law_echo_action_view<'a>(action: EchoAction<'a>)
    ensures
        match action {
            EchoAction::Echo { sender, packet, local_addr } => action@ == (EchoActionView::Echo {
                sender,
                packet: packet@,
                local_addr,
            }),
            EchoAction::Stop => action@ is Stop,
        },
{
}

/// The text in an event, if a text packet came in with it.
pub open spec fn text_in(event: RelayEventView) -> Option<Seq<char>> {
    match event {
        RelayEventView::Received { packet } if valid_utf8(packet) => Some(decode_utf8(packet)),
        _ => None,
    }
}

proof fn lemma_received_last(events: Seq<RelayEventView>)
    requires
        events.len() > 0,
    ensures
        received_texts(events) == match text_in(events.last()) {
            Some(text) => received_texts(events.drop_last()) + seq![text],
            None => received_texts(events.drop_last()),
        },
    decreases events.len(),
{
    reveal_with_fuel(received_texts, 2);
    if events.len() > 1 {
        let rest = events.drop_first();
        lemma_received_last(rest);
        assert(rest.drop_last() =~= events.drop_last().drop_first());
        assert(rest.last() == events.last());
        assert(events.drop_last().first() == events.first());
    }
}

/// The texts that come in are those of the text packets among the events, each once
/// and in order.
pub proof fn law_received_texts(events: Seq<RelayEventView>)
    ensures
        received_texts(events) == events.filter_map(|event: RelayEventView| text_in(event)),
    decreases events.len(),
{
    if events.len() > 0 {
        lemma_received_last(events);
        law_received_texts(events.drop_last());
    }
}

} // verus!
