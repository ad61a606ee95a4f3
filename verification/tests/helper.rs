use quilkin::net::{Ipv4Addr, SocketAddr, SocketAddrV4};
use quilkin::test::channels::Signaller;
use quilkin::test::helper::TestHelper;
use tokio::sync::watch;

/// Whether a value was sent that the receiver has not seen. A sender that is
/// gone without sending gives none.
fn told(receiver: &mut watch::Receiver<()>) -> bool {
    let runtime = tokio::runtime::Builder::new_current_thread().build().unwrap();
    runtime.block_on(receiver.changed()).is_ok()
}

#[test]
fn subscribers_share_one_channel() {
    let mut t = TestHelper::default();
    let first = t.get_shutdown_subscriber();
    let second = t.get_shutdown_subscriber();
    assert!(first.same_channel(&second));
    assert!(!first.has_changed().unwrap());
    let mut other = TestHelper::default();
    assert!(!first.same_channel(&other.get_shutdown_subscriber()));
}

#[test]
fn a_shutdown_reaches_every_subscriber() {
    let mut t = TestHelper::default();
    let mut first = t.get_shutdown_subscriber();
    let mut second = t.get_shutdown_subscriber();
    let report = t.shutdown();
    assert!(report.subscribers);
    assert!(report.servers.is_empty());
    assert!(told(&mut first));
    assert!(told(&mut second));
    // The sender is gone with the shutdown.
    assert!(!told(&mut first));
}

#[test]
fn a_shutdown_without_listening_subscribers_succeeds() {
    let mut t = TestHelper::default();
    drop(t.get_shutdown_subscriber());
    assert!(t.shutdown().subscribers);
}

#[test]
fn a_shutdown_tells_each_server_once() {
    let mut t = TestHelper::default();
    let first = t.run_server_with_config();
    let mut second = t.run_server(None);
    drop(first.shutdown_rx);
    let report = t.shutdown();
    assert_eq!(report.servers, vec![false, true]);
    assert!(!report.subscribers);
    assert!(told(&mut second.shutdown_rx));
    assert!(!told(&mut second.shutdown_rx));

    let third = t.run_server(None);
    let again = t.shutdown();
    assert_eq!(again.servers, vec![true]);
    drop(third);
    assert!(t.shutdown().servers.is_empty());
}

#[test]
fn nothing_to_shut_down() {
    let report = TestHelper::default().shutdown();
    assert!(report.servers.is_empty());
    assert!(!report.subscribers);
}

#[test]
fn a_subscriber_after_a_shutdown_gets_a_new_channel() {
    let mut t = TestHelper::default();
    let before = t.get_shutdown_subscriber();
    t.shutdown();
    let after = t.get_shutdown_subscriber();
    assert!(!before.same_channel(&after));
    assert!(!after.has_changed().unwrap());
}

#[test]
fn an_admin_server_is_started_if_wanted() {
    let addr = SocketAddr::V4(SocketAddrV4 { ip: Ipv4Addr::new(127, 0, 0, 1), port: 8000 });
    let mut t = TestHelper::default();
    assert_eq!(t.run_server_with_config().admin, None);
    assert_eq!(t.run_server(None).admin, None);
    assert_eq!(t.run_server(Some(None)).admin, Some(None));
    assert_eq!(t.run_server(Some(Some(addr))).admin, Some(Some(addr)));
}

#[test]
fn a_signal_arrives_once() {
    let (tx, mut rx) = Signaller::open();
    assert!(!rx.has_changed().unwrap());
    let mut clone = rx.clone();
    assert!(tx.signal(Some(&rx)));
    assert!(told(&mut rx));
    assert!(!told(&mut rx));
    assert!(told(&mut clone));
    assert!(!told(&mut clone));
}

#[test]
fn a_signal_to_nobody_is_not_received() {
    let (tx, rx) = Signaller::open();
    drop(rx);
    assert!(!tx.signal(None));
}

#[test]
fn subscribers_between_servers_are_told() {
    let mut t = TestHelper::default();
    let mut early = t.get_shutdown_subscriber();
    let mut server = t.run_server(None);
    let mut late = t.get_shutdown_subscriber();
    for receiver in [&early, &late, &server.shutdown_rx] {
        assert!(!receiver.has_changed().unwrap());
    }
    let report = t.shutdown();
    assert!(report.subscribers);
    assert_eq!(report.servers, vec![true]);
    for receiver in [&mut early, &mut late, &mut server.shutdown_rx] {
        assert!(told(receiver));
        assert!(!told(receiver));
    }
}
