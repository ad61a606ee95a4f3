//! Laws of the test helper: which channels it opens, whom it hands their halves to
//! and whom a shutdown tells.

use crate::laws::address::law_gives;
use crate::net::{Host, IpAddr, Ipv4Addr, Ipv6Addr, SocketAddr};
use crate::test::address::{drawn, AddressType, LocalAddresses};
use crate::test::channels::{
    opened, opened_bounded, opened_once, put, signalled, subscribed, Signaller,
};
use crate::test::helper::{
    remaining, EchoLaunch, RelayLaunch, ServerLaunch, ShutdownReport, TestHelper,
};
use crate::test::traffic::{ForwardError, RelayState, SinglePacket};
use tokio::sync::{mpsc, oneshot, watch};
use vstd::prelude::*;
use vstd::utf8::{decode_utf8_encode_utf8, encode_utf8, valid_utf8};

verus! {

/// The halves of a watch channel are those of one call of
/// [`tokio::sync::watch::channel`], and a receiver is subscribed to the half that it
/// was cloned from.
pub proof fn law_watch_channels(
    sender: watch::Sender<()>,
    receiver: watch::Receiver<()>,
    another: watch::Receiver<()>,
)
    ensures
        opened((sender, receiver)) <==> call_ensures(
            tokio::sync::watch::channel::<()>,
            ((),),
            (sender, receiver),
        ),
        subscribed(another, receiver) ==> call_ensures(
            <watch::Receiver<()> as Clone>::clone,
            (&receiver,),
            another,
        ) || another == receiver,
{
}

/// The halves of a channel of texts are those of one call: of
/// [`tokio::sync::oneshot::channel`] where it takes one text, and of
/// [`tokio::sync::mpsc::channel`] with that much room where it takes more. To put a
/// text into the first is a call of [`oneshot::Sender::send`].
pub proof fn law_text_channels(
    once: (oneshot::Sender<String>, oneshot::Receiver<String>),
    buffer: usize,
    bounded: (mpsc::Sender<String>, mpsc::Receiver<String>),
    text: String,
    sent: Result<(), String>,
)
    ensures
        opened_once(once) <==> call_ensures(tokio::sync::oneshot::channel::<String>, (), once),
        opened_bounded(buffer, bounded) <==> call_ensures(
            tokio::sync::mpsc::channel::<String>,
            (buffer,),
            bounded,
        ),
        put(once.0, text, sent) <==> call_ensures(
            oneshot::Sender::<String>::send,
            (once.0, text),
            sent,
        ),
{
}

/// A channel that is opened has had nothing sent on it, and its halves are those of
/// one call. To signal it sends one value, which is received if the other half is at
/// hand.
pub proof fn law_opened_channel_is_signalled(
    channel: (Signaller, watch::Receiver<()>),
    at_hand: bool,
    received: bool,
)
    requires
        call_ensures(Signaller::open, (), channel),
        call_ensures(
            Signaller::signal,
            (
                channel.0,
                if at_hand {
                    Some(&channel.1)
                } else {
                    None
                },
            ),
            received,
        ),
    ensures
        call_ensures(
            tokio::sync::watch::channel::<()>,
            ((),),
            (channel.0.sender(), channel.1),
        ),
        channel.0.sends() == 0,
        signalled(channel.0, received, 1),
        at_hand ==> received,
{
}

/// The senders that remain are those that are there, each once and in order.
pub proof fn law_remaining(senders: Seq<Option<Signaller>>)
    ensures
        remaining(senders) == senders.filter_map(|sender: Option<Signaller>| sender),
    decreases senders.len(),
{
    if senders.len() > 0 {
        law_remaining(senders.drop_last());
    }
}

/// A new helper has no channel of its own and no servers.
pub proof fn law_new_helper(helper: TestHelper)
    requires
        call_ensures(<TestHelper as Default>::default, (), helper),
    ensures
        helper.wf(),
        helper.shutdown_channel() is None,
        helper.servers().len() == 0,
{
}

/// A subscriber holds a clone of the receiving half of the helper's channel, on
/// which nothing has been sent. A channel that was there stays, and so do the
/// servers.
pub proof fn law_subscriber_listens_to_the_helper(
    helper: &mut TestHelper,
    receiver: watch::Receiver<()>,
)
    requires
        old(helper).wf(),
        call_ensures(TestHelper::get_shutdown_subscriber, (helper,), receiver),
    ensures
        call_requires(TestHelper::get_shutdown_subscriber, (helper,)),
        final(helper).wf(),
        final(helper).shutdown_channel() matches Some(channel) && cloned(channel.1, receiver)
            && channel.0.sends() == 0 && call_ensures(
            tokio::sync::watch::channel::<()>,
            ((),),
            (channel.0.sender(), channel.1),
        ),
        old(helper).shutdown_channel() is Some ==> final(helper).shutdown_channel() == old(
            helper
        ).shutdown_channel(),
        final(helper).servers() == old(helper).servers(),
{
}

/// Two receivers that a helper hands out one after the other are clones of one half.
pub proof fn law_two_subscribers_listen_to_one_channel(
    first: &mut TestHelper,
    second: &mut TestHelper,
    one: watch::Receiver<()>,
    another: watch::Receiver<()>,
)
    requires
        old(first).wf(),
        call_ensures(TestHelper::get_shutdown_subscriber, (first,), one),
        *old(second) == *final(first),
        call_ensures(TestHelper::get_shutdown_subscriber, (second,), another),
    ensures
        call_requires(TestHelper::get_shutdown_subscriber, (second,)),
        final(second).shutdown_channel() matches Some(channel) && cloned(channel.1, one)
            && cloned(channel.1, another),
{
}

/// The packet that a test waits for is put, as its text, into the channel whose
/// receiving half the test holds.
pub proof fn law_single_packet_reaches_the_test(
    helper: TestHelper,
    halves: (SinglePacket, oneshot::Receiver<String>),
    buf: &[u8],
    size: usize,
    forwarded: Result<(), ForwardError>,
)
    requires
        size <= buf@.len(),
        valid_utf8(buf@.take(size as int)),
        call_ensures(TestHelper::open_socket_and_recv_single_packet, (&helper,), halves),
        call_ensures(SinglePacket::forward, (halves.0, buf, size), forwarded),
    ensures
        call_requires(TestHelper::open_socket_and_recv_single_packet, (&helper,)),
        call_ensures(
            tokio::sync::oneshot::channel::<String>,
            (),
            (halves.0.sender(), halves.1),
        ),
        exists|text: String, sent: Result<(), String>|
            {
                &&& #[trigger] put(halves.0.sender(), text, sent)
                &&& encode_utf8(text@) == buf@.take(size as int)
                &&& sent is Ok <==> forwarded is Ok
            },
{
    let packet = buf@.take(size as int);
    decode_utf8_encode_utf8(packet);
}

/// A relay starts by listening. It has a channel of its own with room for ten texts,
/// and listens to the helper's shutdown.
pub proof fn law_relay_is_started(helper: &mut TestHelper, launch: RelayLaunch)
    requires
        old(helper).wf(),
        call_ensures(TestHelper::recv_multiple_packets, (helper,), launch),
    ensures
        call_requires(TestHelper::recv_multiple_packets, (helper,)),
        final(helper).wf(),
        launch.relay.state() == RelayState::Listening,
        call_ensures(
            tokio::sync::mpsc::channel::<String>,
            (10usize,),
            (launch.packet_tx, launch.packet_rx),
        ),
        final(helper).shutdown_channel() matches Some(channel) && cloned(
            channel.1,
            launch.shutdown_rx,
        ) && channel.0.sends() == 0,
        old(helper).shutdown_channel() is Some ==> final(helper).shutdown_channel() == old(
            helper
        ).shutdown_channel(),
        final(helper).servers() == old(helper).servers(),
{
}

/// An echo server is started if and only if the socket can tell its address of the
/// wanted family. It is bound to that address, reached on the local host at the same
/// port and by the same family, and listens to the helper's shutdown. If it is not
/// started, the helper stays as it was.
pub proof fn law_echo_server_is_started(
    helper: &mut TestHelper,
    address_type: AddressType,
    socket: LocalAddresses,
    launch: Option<EchoLaunch>,
)
    requires
        old(helper).wf(),
        call_ensures(TestHelper::run_echo_server, (helper, &address_type, &socket), launch),
    ensures
        call_requires(TestHelper::run_echo_server, (helper, &address_type, &socket)),
        final(helper).wf(),
        ({
            let bound = match launch {
                Some(launch) => Some(launch.bound),
                None => None,
            };
            &&& address_type == AddressType::Ipv4 ==> bound == socket.ipv4
            &&& address_type == AddressType::Ipv6 ==> bound == socket.ipv6
            &&& address_type == AddressType::Random ==> {
                ||| drawn(true) && bound == socket.ipv6
                ||| drawn(false) && bound == socket.ipv4
            }
        }),
        launch matches Some(launch) ==> match (launch.bound, launch.server.local_addr()) {
            (SocketAddr::V4(b), SocketAddr::V4(l)) => {
                &&& l.ip.a == 127 && l.ip.b == 0 && l.ip.c == 0 && l.ip.d == 1
                &&& l.port == b.port
                &&& launch.address.host == Host::Ip(
                    IpAddr::V4(Ipv4Addr { a: 127, b: 0, c: 0, d: 1 }),
                )
                &&& launch.address.port == b.port
            },
            (SocketAddr::V6(b), SocketAddr::V6(l)) => {
                &&& l.ip.bits == 1 && l.port == b.port
                &&& l.flowinfo == b.flowinfo && l.scope_id == b.scope_id
                &&& launch.address.host == Host::Ip(IpAddr::V6(Ipv6Addr { bits: 1 }))
                &&& launch.address.port == b.port
            },
            _ => false,
        },
        launch matches Some(launch) ==> {
            &&& final(helper).shutdown_channel() matches Some(channel) && cloned(
                channel.1,
                launch.shutdown_rx,
            ) && channel.0.sends() == 0
            &&& old(helper).shutdown_channel() is Some ==> final(helper).shutdown_channel() == old(
                helper
            ).shutdown_channel()
            &&& final(helper).servers() == old(helper).servers()
        },
        launch is None ==> *final(helper) == *old(helper),
{
    let bound = match launch {
        Some(launch) => Some(launch.bound),
        None => None,
    };
    law_gives(address_type, socket, bound);
}

/// A server is started with the admin server that was asked for, and with the
/// receiving half of a channel of its own, on which nothing has been sent. The
/// helper keeps the sending half behind those that it had, and its own channel.
pub proof fn law_server_is_started(
    helper: &mut TestHelper,
    with_admin: Option<Option<SocketAddr>>,
    launch: ServerLaunch,
)
    requires
        old(helper).wf(),
        call_ensures(TestHelper::run_server, (helper, with_admin), launch),
    ensures
        call_requires(TestHelper::run_server, (helper, with_admin)),
        final(helper).wf(),
        launch.admin == with_admin,
        final(helper).servers().len() == old(helper).servers().len() + 1,
        forall|i: int|
            0 <= i < old(helper).servers().len() ==> #[trigger] final(helper).servers()[i] == old(
                helper
            ).servers()[i],
        final(helper).servers().last() matches Some(signaller) && signaller.sends() == 0
            && call_ensures(
            tokio::sync::watch::channel::<()>,
            ((),),
            (signaller.sender(), launch.shutdown_rx),
        ),
        final(helper).shutdown_channel() == old(helper).shutdown_channel(),
{
}

/// A server that is started with nothing but its configuration has no admin server.
/// For the rest it is started as any other.
pub proof fn law_server_is_started_without_admin(helper: &mut TestHelper, launch: ServerLaunch)
    requires
        old(helper).wf(),
        call_ensures(TestHelper::run_server_with_config, (helper,), launch),
    ensures
        call_requires(TestHelper::run_server_with_config, (helper,)),
        final(helper).wf(),
        launch.admin is None,
        final(helper).servers().len() == old(helper).servers().len() + 1,
        forall|i: int|
            0 <= i < old(helper).servers().len() ==> #[trigger] final(helper).servers()[i] == old(
                helper
            ).servers()[i],
        final(helper).servers().last() matches Some(signaller) && signaller.sends() == 0
            && call_ensures(
            tokio::sync::watch::channel::<()>,
            ((),),
            (signaller.sender(), launch.shutdown_rx),
        ),
        final(helper).shutdown_channel() == old(helper).shutdown_channel(),
{
}

/// A shutdown sends one value, the only one, to each server whose sender is there,
/// and reports on each in the order of their start. It sends one to the subscribers,
/// who receive it, if there is a channel, and says so. No sender is left after it.
pub proof fn law_shutdown_tells_all(helper: &mut TestHelper, report: ShutdownReport)
    requires
        old(helper).wf(),
        call_ensures(TestHelper::shutdown, (helper,), report),
    ensures
        call_requires(TestHelper::shutdown, (helper,)),
        final(helper).wf(),
        ({
            let told = old(helper).servers().filter_map(|sender: Option<Signaller>| sender);
            &&& report.servers@.len() == told.len()
            &&& forall|i: int|
                0 <= i < told.len() ==> signalled(#[trigger] told[i], report.servers@[i], 1)
        }),
        report.subscribers <==> old(helper).shutdown_channel() is Some,
        old(helper).shutdown_channel() matches Some(channel) ==> signalled(channel.0, true, 1),
        final(helper).shutdown_channel() is None,
        final(helper).servers().len() == old(helper).servers().len(),
        forall|i: int|
            0 <= i < final(helper).servers().len() ==> #[trigger] final(helper).servers()[i]
                is None,
{
    law_remaining(old(helper).servers());
}

} // verus!
