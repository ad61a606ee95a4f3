//! Shutting test resources down.
//!
//! A [`TestHelper`] keeps the sending halves of watch channels. Each task that
//! a test starts holds a receiving half and ends when a value arrives on it.

use crate::net::{EndpointAddress, EndpointAddressView, SocketAddr};
use crate::test::address::{get_address, gives, on_localhost, AddressType, LocalAddresses};
use crate::test::channels::{
    opened, opened_bounded, opened_once, signalled, subscribed, Signaller,
};
use crate::test::traffic::{EchoServer, PacketRelay, RelayState, SinglePacket, RELAY_CAPACITY};
use tokio::sync::{mpsc, oneshot, watch};
use vstd::prelude::*;

verus! {

/// The senders that are still there, in order.
pub open spec fn remaining(senders: Seq<Option<Signaller>>) -> Seq<Signaller>
    decreases senders.len(),
{
    if senders.len() == 0 {
        Seq::empty()
    } else {
        match senders.last() {
            Some(sender) => remaining(senders.drop_last()).push(sender),
            None => remaining(senders.drop_last()),
        }
    }
}

/// Keeps what is needed to shut down the resources that a test created.
pub struct TestHelper {
    /// Channel to subscribe to, and trigger the shutdown of created resources.
    shutdown_ch: Option<(Signaller, watch::Receiver<()>)>,
    server_shutdown_tx: Vec<Option<Signaller>>,
}

/// What a server is started with.
#[derive(Debug)]
pub struct ServerLaunch {
    /// Tells the server to shut down.
    pub shutdown_rx: watch::Receiver<()>,
    /// Whether to start an admin server first, and at which address if not at
    /// its usual one.
    pub admin: Option<Option<SocketAddr>>,
}

/// What a relay of packets is started with.
#[derive(Debug)]
pub struct RelayLaunch {
    pub relay: PacketRelay,
    /// Where the relay puts the packets.
    pub packet_tx: mpsc::Sender<String>,
    /// Where the test takes them out.
    pub packet_rx: mpsc::Receiver<String>,
    /// Tells the relay to end.
    pub shutdown_rx: watch::Receiver<()>,
}

/// What an echo server is started with.
#[derive(Debug)]
pub struct EchoLaunch {
    pub server: EchoServer,
    /// The socket's own address.
    pub bound: SocketAddr,
    /// Where the server can be reached.
    pub address: EndpointAddress,
    /// Tells the server to end.
    pub shutdown_rx: watch::Receiver<()>,
}

/// Whom a shutdown reached.
#[derive(Debug)]
pub struct ShutdownReport {
    /// For each server that had not been told yet, whether it was still there.
    pub servers: Vec<bool>,
    /// Whether there were subscribers to tell.
    pub subscribers: bool,
}

/// Whether a helper went from one state to another by handing out a receiver:
/// it is subscribed to the helper's channel, which is opened if there was none,
/// and on which nothing has been sent.
pub open spec fn subscribes(
    before: TestHelper,
    after: TestHelper,
    receiver: watch::Receiver<()>,
) -> bool {
    &&& after.shutdown_channel() matches Some(channel) && subscribed(
        receiver,
        channel.1,
    ) && channel.0.sends() == 0
    &&& before.shutdown_channel() is Some ==> after.shutdown_channel()
        == before.shutdown_channel()
    &&& after.servers() == before.servers()
}

/// Whether a helper went from one state to another by preparing the start of a
/// server: it opened a channel, on which nothing has been sent, kept the sending
/// half behind those it had, and handed out the receiving half.
pub open spec fn starts(
    before: TestHelper,
    after: TestHelper,
    receiver: watch::Receiver<()>,
) -> bool {
    &&& after.servers().last() matches Some(signaller) && opened(
        (signaller.sender(), receiver),
    ) && signaller.sends() == 0
    &&& after.servers() == before.servers().push(after.servers().last())
    &&& after.shutdown_channel() == before.shutdown_channel()
}

/// Whether a helper went from one state to another by a shutdown: it sent one
/// value to every server that remained, and one to its own subscribers, whom it
/// reached. The report lists the servers in the order of their start. Nobody is
/// left to tell.
pub open spec fn shuts_down(before: TestHelper, after: TestHelper, report: ShutdownReport) -> bool {
    let told = remaining(before.servers());
    &&& report.servers@.len() == told.len()
    &&& forall|i: int|
        0 <= i < told.len() ==> signalled(#[trigger] told[i], report.servers@[i], 1)
    &&& report.subscribers == (before.shutdown_channel() is Some)
    &&& before.shutdown_channel() matches Some(channel) ==> signalled(channel.0, true, 1)
    &&& after.servers() == Seq::new(before.servers().len(), |i: int| None::<Signaller>)
    &&& after.shutdown_channel() is None
}

impl TestHelper {
    /// The channel of the helper's own shutdown event.
    pub closed spec fn shutdown_channel(&self) -> Option<(Signaller, watch::Receiver<()>)> {
        self.shutdown_ch
    }

    /// The servers' senders, in the order in which they were started. A sender
    /// that was used is gone.
    pub closed spec fn servers(&self) -> Seq<Option<Signaller>> {
        self.server_shutdown_tx@
    }

    /// The two halves of the helper's own channel belong together, and nothing
    /// has been sent yet on any channel whose sending half the helper keeps.
    pub open spec fn wf(&self) -> bool {
        &&& self.shutdown_channel() matches Some(channel) ==> opened(
            (channel.0.sender(), channel.1),
        ) && channel.0.sends() == 0
        &&& forall|i: int|
            0 <= i < self.servers().len() ==> (#[trigger] self.servers()[i] matches Some(signaller)
                ==> signaller.sends() == 0)
    }

    /// Returns a receiver subscribed to the helper's shutdown event.
    pub fn get_shutdown_subscriber(&mut self) -> (receiver: watch::Receiver<()>)
        requires
            old(self).wf(),
        ensures
            final(self).wf(),
            subscribes(*old(self), *final(self), receiver),
    {
        // If this is the first call, then we set up the channel first.
        match &self.shutdown_ch {
            Some(channel) => channel.1.clone(),
            None => {
                let channel = Signaller::open();
                let receiver = channel.1.clone();
                self.shutdown_ch = Some(channel);
                receiver
            },
        }
    }

    /// Prepares to forward the first packet that a socket receives, over the
    /// returned channel.
    pub fn open_socket_and_recv_single_packet(
        &self,
    ) -> (halves: (SinglePacket, oneshot::Receiver<String>))
        ensures
            opened_once((halves.0.sender(), halves.1)),
    {
        let (packet_tx, packet_rx) = oneshot::channel::<String>();
        (SinglePacket::new(packet_tx), packet_rx)
    }

    /// Prepares to forward the packets that a socket receives, over a channel
    /// with room for [`RELAY_CAPACITY`] of them, until the helper's shutdown.
    pub fn recv_multiple_packets(&mut self) -> (launch: RelayLaunch)
        requires
            old(self).wf(),
        ensures
            final(self).wf(),
            launch.relay.state() == RelayState::Listening,
            opened_bounded(RELAY_CAPACITY, (launch.packet_tx, launch.packet_rx)),
            subscribes(*old(self), *final(self), launch.shutdown_rx),
    {
        let (packet_tx, packet_rx) = mpsc::channel::<String>(RELAY_CAPACITY);
        let shutdown_rx = self.get_shutdown_subscriber();
        RelayLaunch { relay: PacketRelay::new(), packet_tx, packet_rx, shutdown_rx }
    }

    /// Prepares to run an echo server behind a socket, until the helper's
    /// shutdown, if the socket can tell its address of the wanted type.
    pub fn run_echo_server(
        &mut self,
        address_type: &AddressType,
        socket: &LocalAddresses,
    ) -> (launch: Option<EchoLaunch>)
        requires
            old(self).wf(),
        ensures
            final(self).wf(),
            match launch {
                Some(launch) => {
                    &&& gives(*address_type, *socket, Some(launch.bound))
                    &&& launch.server.local_addr() == on_localhost(launch.bound)
                    &&& launch.address@ == EndpointAddressView::of_socket(
                        launch.server.local_addr(),
                    )
                    &&& subscribes(*old(self), *final(self), launch.shutdown_rx)
                },
                None => {
                    &&& gives(*address_type, *socket, None)
                    &&& *final(self) == *old(self)
                },
            },
    {
        // sometimes give ipv6, sometimes ipv4.
        match get_address(address_type, socket) {
            Some(bound) => {
                let server = EchoServer::new(bound);
                let shutdown_rx = self.get_shutdown_subscriber();
                let address = server.address();
                Some(EchoLaunch { server, bound, address, shutdown_rx })
            },
            None => None,
        }
    }

    /// Prepares the start of a server without an admin server.
    pub fn run_server_with_config(&mut self) -> (launch: ServerLaunch)
        requires
            old(self).wf(),
        ensures
            final(self).wf(),
            launch.admin is None,
            starts(*old(self), *final(self), launch.shutdown_rx),
    {
        self.run_server(None)
    }

    /// Prepares the start of a server: opens the channel by which it will be
    /// told to shut down, and keeps the sending half.
    pub fn run_server(&mut self, with_admin: Option<Option<SocketAddr>>) -> (launch: ServerLaunch)
        requires
            old(self).wf(),
        ensures
            final(self).wf(),
            launch.admin == with_admin,
            starts(*old(self), *final(self), launch.shutdown_rx),
    {
        let (shutdown_tx, shutdown_rx) = Signaller::open();
        self.server_shutdown_tx.push(Some(shutdown_tx));
        ServerLaunch { shutdown_rx, admin: with_admin }
    }

    /// Tells every server that was not told yet to shut down, in the order of
    /// their start, and then every subscriber.
    pub fn shutdown(&mut self) -> (report: ShutdownReport)
        requires
            old(self).wf(),
        ensures
            final(self).wf(),
            shuts_down(*old(self), *final(self), report),
    {
        let ghost started = self.server_shutdown_tx@;
        let mut servers: Vec<bool> = Vec::new();
        let mut i: usize = 0;
        while i < self.server_shutdown_tx.len()
            invariant
                i <= started.len(),
                self.server_shutdown_tx@.len() == started.len(),
                self.shutdown_ch == old(self).shutdown_ch,
                started == old(self).servers(),
                old(self).wf(),
                forall|j: int| 0 <= j < i ==> self.server_shutdown_tx@[j] is None,
                forall|j: int| i <= j < started.len() ==> self.server_shutdown_tx@[j] == started[j],
                servers@.len() == remaining(started.take(i as int)).len(),
                forall|j: int|
                    0 <= j < servers@.len() ==> signalled(
                        #[trigger] remaining(started.take(i as int))[j],
                        servers@[j],
                        1,
                    ),
            decreases started.len() - i,
        {
            assert(started.take(i + 1).drop_last() =~= started.take(i as int));
            match self.server_shutdown_tx[i].take() {
                Some(shutdown_tx) => {
                    servers.push(shutdown_tx.signal(None));
                },
                None => {},
            }
            i = i + 1;
        }
        assert(started.take(i as int) =~= started);
        assert(self.servers() =~= Seq::new(started.len(), |i: int| None::<Signaller>));

        let subscribers = match self.shutdown_ch.take() {
            Some((shutdown_tx, shutdown_rx)) => {
                shutdown_tx.signal(Some(&shutdown_rx))
            },
            None => false,
        };
        ShutdownReport { servers, subscribers }
    }
}

/// Two receivers that a helper hands out are subscribed to one channel, on which
/// nothing has been sent. Its sending half is not replaced.
pub proof fn law_subscribers_share_a_channel(
    h0: TestHelper,
    h1: TestHelper,
    h2: TestHelper,
    first: watch::Receiver<()>,
    second: watch::Receiver<()>,
)
    requires
        subscribes(h0, h1, first),
        subscribes(h1, h2, second),
    ensures
        h2.shutdown_channel() == h1.shutdown_channel(),
        h2.shutdown_channel() matches Some(channel) && subscribed(first, channel.1) && subscribed(
            second,
            channel.1,
        ) && channel.0.sends() == 0,
{
}

/// Whether a helper went through states by handing out receivers, one at each
/// step, to subscribers or to servers.
pub open spec fn hands_out(
    helpers: Seq<TestHelper>,
    receivers: Seq<watch::Receiver<()>>,
) -> bool {
    &&& helpers.len() == receivers.len() + 1
    &&& forall|i: int|
        0 <= i < receivers.len() ==> {
            ||| subscribes(helpers[i], helpers[i + 1], #[trigger] receivers[i])
            ||| starts(helpers[i], helpers[i + 1], receivers[i])
        }
}

proof fn lemma_channel_stays(
    helpers: Seq<TestHelper>,
    receivers: Seq<watch::Receiver<()>>,
    i: int,
    j: int,
)
    requires
        hands_out(helpers, receivers),
        0 <= i <= j < helpers.len(),
        helpers[i].shutdown_channel() is Some,
    ensures
        helpers[j].shutdown_channel() == helpers[i].shutdown_channel(),
    decreases j - i,
{
    if i < j {
        lemma_channel_stays(helpers, receivers, i, j - 1);
        let step = receivers[j - 1];
        assert(helpers[j - 1 + 1] == helpers[j]);
        assert(subscribes(helpers[j - 1], helpers[j], step) || starts(
            helpers[j - 1],
            helpers[j],
            step,
        ));
    }
}

/// Every subscriber is told of a shutdown, whenever it subscribed: all of them
/// are subscribed to the one channel, nothing is sent on it before, and by the
/// shutdown one value is sent, which is the only one and for which someone is
/// left to receive it.
pub proof fn law_shutdown_tells_every_subscriber(
    helpers: Seq<TestHelper>,
    receivers: Seq<watch::Receiver<()>>,
    i: int,
    after: TestHelper,
    report: ShutdownReport,
)
    requires
        hands_out(helpers, receivers),
        0 <= i < receivers.len(),
        subscribes(helpers[i], helpers[i + 1], receivers[i]),
        shuts_down(helpers.last(), after, report),
    ensures
        helpers.last().shutdown_channel() matches Some(channel) && subscribed(
            receivers[i],
            channel.1,
        ) && channel.0.sends() == 0 && signalled(channel.0, true, 1),
        report.subscribers,
        after.shutdown_channel() is None,
{
    lemma_channel_stays(helpers, receivers, i + 1, helpers.len() - 1);
}

/// A shutdown sends one value to a server that was started, the only one on its
/// channel. The report lists the server after those that were started before
/// it.
pub proof fn law_shutdown_tells_started_servers(
    h0: TestHelper,
    h1: TestHelper,
    h2: TestHelper,
    receiver: watch::Receiver<()>,
    report: ShutdownReport,
)
    requires
        starts(h0, h1, receiver),
        shuts_down(h1, h2, report),
    ensures
        report.servers@.len() == remaining(h0.servers()).len() + 1,
        h1.servers().last() matches Some(signaller) && opened((signaller.sender(), receiver))
            && signaller.sends() == 0 && signalled(signaller, report.servers@.last(), 1),
{
    assert(h1.servers().drop_last() =~= h0.servers());
    let told = remaining(h1.servers());
    assert(signalled(told[told.len() - 1], report.servers@[told.len() - 1], 1));
}

proof fn lemma_servers_stay(
    helpers: Seq<TestHelper>,
    receivers: Seq<watch::Receiver<()>>,
    i: int,
    j: int,
    k: int,
)
    requires
        hands_out(helpers, receivers),
        0 <= i <= j < helpers.len(),
        0 <= k < helpers[i].servers().len(),
    ensures
        k < helpers[j].servers().len(),
        helpers[j].servers()[k] == helpers[i].servers()[k],
    decreases j - i,
{
    if i < j {
        lemma_servers_stay(helpers, receivers, i, j - 1, k);
        let step = receivers[j - 1];
        assert(helpers[j - 1 + 1] == helpers[j]);
        assert(subscribes(helpers[j - 1], helpers[j], step) || starts(
            helpers[j - 1],
            helpers[j],
            step,
        ));
    }
}

proof fn lemma_remains(servers: Seq<Option<Signaller>>, k: int) -> (m: int)
    requires
        0 <= k < servers.len(),
        servers[k] is Some,
    ensures
        0 <= m < remaining(servers).len(),
        Some(remaining(servers)[m]) == servers[k],
    decreases servers.len(),
{
    if k == servers.len() - 1 {
        remaining(servers).len() - 1
    } else {
        lemma_remains(servers.drop_last(), k)
    }
}

/// Every server is told of a shutdown, whenever it was started: one value is
/// sent on its channel, the only one, and the report says whether the server
/// was still there.
pub proof fn law_shutdown_tells_every_server(
    helpers: Seq<TestHelper>,
    receivers: Seq<watch::Receiver<()>>,
    i: int,
    after: TestHelper,
    report: ShutdownReport,
) -> (m: int)
    requires
        hands_out(helpers, receivers),
        0 <= i < receivers.len(),
        starts(helpers[i], helpers[i + 1], receivers[i]),
        shuts_down(helpers.last(), after, report),
    ensures
        0 <= m < report.servers@.len(),
        helpers[i + 1].servers().last() matches Some(signaller) && opened(
            (signaller.sender(), receivers[i]),
        ) && signaller.sends() == 0 && signalled(signaller, report.servers@[m], 1),
{
    let k = helpers[i + 1].servers().len() - 1;
    lemma_servers_stay(helpers, receivers, i + 1, helpers.len() - 1, k);
    let m = lemma_remains(helpers.last().servers(), k);
    assert(signalled(remaining(helpers.last().servers())[m], report.servers@[m], 1));
    m
}

proof fn lemma_nobody_remains(servers: nat)
    ensures
        remaining(Seq::new(servers, |i: int| None::<Signaller>)).len() == 0,
    decreases servers,
{
    let gone = Seq::new(servers, |i: int| None::<Signaller>);
    if servers > 0 {
        let fewer = (servers - 1) as nat;
        lemma_nobody_remains(fewer);
        assert(gone.drop_last() =~= Seq::new(fewer, |i: int| None::<Signaller>));
    }
}

/// A second shutdown tells nobody.
pub proof fn law_shutdown_tells_once(
    h0: TestHelper,
    h1: TestHelper,
    h2: TestHelper,
    first: ShutdownReport,
    second: ShutdownReport,
)
    requires
        shuts_down(h0, h1, first),
        shuts_down(h1, h2, second),
    ensures
        second.servers@.len() == 0,
        !second.subscribers,
{
    lemma_nobody_remains(h0.servers().len());
}

impl Default for TestHelper {
    /// Nothing to shut down.
    fn default() -> (helper: Self)
        ensures
            helper.wf(),
            helper.shutdown_channel() is None,
            helper.servers() == Seq::<Option<Signaller>>::empty(),
    {
        TestHelper { shutdown_ch: None, server_shutdown_tx: Vec::new() }
    }
}

} // verus!
