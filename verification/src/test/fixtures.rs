//! Endpoints, configurations and packets to test with.

use crate::config::{Config, FilterConfig, FilterConfigView};
use crate::endpoint::{endpoints_view, same_endpoints, Endpoint, EndpointView};
use crate::filters::{
    names_at, Filter, FilterChain, FilterError, FilterRegistry, ReadContext, ReadContextView,
    WriteContext, WriteContextView,
};
use crate::metadata::same_bytes;
use crate::net::{EndpointAddress, EndpointAddressView, Ipv4Addr};
use crate::test::filter::{law_every_run_leaves_a_trace, TestFilter};
use vstd::prelude::*;
use vstd::utf8::encode_utf8;

verus! {

/// The endpoint at `127.0.0.id:8080`, with no metadata.
pub open spec fn dummy_endpoint(id: u8) -> EndpointView {
    EndpointView::at(EndpointAddressView::ipv4(127, 0, 0, id, 8080))
}

/// Creates a dummy endpoint with `id` as a suffix.
pub fn ep(id: u8) -> (endpoint: Endpoint)
    ensures
        endpoint.wf(),
        endpoint@ == dummy_endpoint(id),
{
    Endpoint::new(EndpointAddress::from_ipv4(Ipv4Addr::new(127, 0, 0, id), 8080))
}

/// The default configuration with one endpoint, at port 8080 of the local host
/// and in no locality.
pub fn config_with_dummy_endpoint() -> (config: Config)
    ensures
        config.wf(),
        config.clusters@ == Map::<Option<Seq<char>>, Seq<EndpointView>>::empty().insert(
            None,
            seq![EndpointView::at(EndpointAddressView::ipv4(127, 0, 0, 1, 8080))],
        ),
        config.filters@ == Seq::<FilterConfigView>::empty(),
{
    let mut config = Config::default();
    let endpoint = Endpoint::new(EndpointAddress::from_ipv4(Ipv4Addr::localhost(), 8080));
    let cluster = vec![endpoint];
    assert(endpoints_view(cluster@) =~= seq![endpoint@]);
    config.clusters.insert(None, cluster);
    config
}

/// The names of the registered filters, once the test filters are loaded.
pub open spec fn with_test_filters(names: Set<Seq<char>>) -> Set<Seq<char>> {
    names.insert(TestFilter::NAME@)
}

/// Registers the test filter.
pub fn load_test_filters(registry: &mut FilterRegistry)
    ensures
        final(registry)@ == with_test_filters(old(registry)@),
{
    let factories = vec![TestFilter::factory()];
    assert(names_at(factories@, 0, TestFilter::NAME@));
    registry.register(factories);
}

/// The default configuration with the test filter as the only filter, without
/// a label or a configuration. The filter has to be registered.
pub fn new_test_config(registry: &FilterRegistry) -> (config: Config)
    requires
        registry@.contains(TestFilter::NAME@),
    ensures
        config.wf(),
        config.filters@ == seq![
            FilterConfigView { name: "TestFilter"@, label: None, config: None },
        ],
        config.clusters@ == Map::<Option<Seq<char>>, Seq<EndpointView>>::empty(),
{
    let filters = vec![
        FilterConfig { name: "TestFilter".to_string(), label: None, config: None },
    ];
    let filters = FilterChain::try_from(filters, registry).unwrap();
    let mut config = Config::default();
    config.filters = filters;
    config
}

/// Loading the test filters is enough to make a test configuration.
pub proof fn law_test_filter_is_loaded(names: Set<Seq<char>>)
    ensures
        with_test_filters(names).contains(TestFilter::NAME@),
{
}

/// Loading the test filters twice is loading them once, and forgets no filter.
pub proof fn law_test_filters_load_once(names: Set<Seq<char>>)
    ensures
        with_test_filters(with_test_filters(names)) == with_test_filters(names),
        names.subset_of(with_test_filters(names)),
{
}

/// Dummy endpoints are as different as their ids.
pub proof fn law_dummy_endpoints_differ(a: u8, b: u8)
    ensures
        dummy_endpoint(a) == dummy_endpoint(b) <==> a == b,
{
}

/// What the packet of [`probe_to_read`] stands for: `hello`, from one local port
/// to another.
pub open spec fn read_probe() -> ReadContextView {
    ReadContextView {
        endpoints: seq![EndpointView::at(EndpointAddressView::ipv4(127, 0, 0, 1, 80))],
        source: "127.0.0.1:90"@,
        contents: encode_utf8("hello"@),
        metadata: Map::empty(),
    }
}

/// What the packet of [`probe_to_write`] stands for: `hello`, from one local port
/// to another.
pub open spec fn write_probe() -> WriteContextView {
    WriteContextView {
        source: "127.0.0.1:90"@,
        dest: "127.0.0.1:70"@,
        contents: encode_utf8("hello"@),
        metadata: Map::empty(),
    }
}

/// Whether a read succeeded and left the packet as it was.
pub open spec fn read_changed_nothing(
    before: ReadContextView,
    after: ReadContextView,
    answer: Result<(), FilterError>,
) -> bool {
    answer is Ok && after == before
}

/// Whether a write succeeded and left the packet as it was.
pub open spec fn write_changed_nothing(
    before: WriteContextView,
    after: WriteContextView,
    answer: Result<(), FilterError>,
) -> bool {
    answer is Ok && after == before
}

/// Whether a read succeeded and left the packet as it was.
#[must_use]
pub fn read_left_unchanged(
    before: &ReadContext,
    after: &ReadContext,
    answer: &Result<(), FilterError>,
) -> (unchanged: bool)
    requires
        before.wf(),
        after.wf(),
    ensures
        unchanged == read_changed_nothing(before@, after@, *answer),
{
    answer.is_ok() && same_endpoints(&after.endpoints, &before.endpoints) && after.source
        == before.source && same_bytes(&after.contents, &before.contents) && after.metadata.same(
        &before.metadata,
    )
}

/// Whether a write succeeded and left the packet as it was.
#[must_use]
pub fn write_left_unchanged(
    before: &WriteContext,
    after: &WriteContext,
    answer: &Result<(), FilterError>,
) -> (unchanged: bool)
    requires
        before.wf(),
        after.wf(),
    ensures
        unchanged == write_changed_nothing(before@, after@, *answer),
{
    answer.is_ok() && after.source == before.source && after.dest == before.dest && same_bytes(
        &after.contents,
        &before.contents,
    ) && after.metadata.same(&before.metadata)
}

/// A packet to try the read side of a filter on.
pub fn probe_to_read() -> (ctx: ReadContext)
    ensures
        ctx.wf(),
        ctx@ == read_probe(),
{
    let endpoints = vec![
        Endpoint::new(EndpointAddress::from_ipv4(Ipv4Addr::new(127, 0, 0, 1), 80)),
    ];
    ReadContext::new(endpoints, "127.0.0.1:90".to_string(), "hello".as_bytes_vec())
}

/// A packet to try the write side of a filter on.
pub fn probe_to_write() -> (ctx: WriteContext)
    ensures
        ctx.wf(),
        ctx@ == write_probe(),
{
    WriteContext::new(
        "127.0.0.1:90".to_string(),
        "127.0.0.1:70".to_string(),
        "hello".as_bytes_vec(),
    )
}

/// Whether a filter makes no changes on read, and does not refuse the packet.
#[must_use]
pub fn assert_filter_read_no_change<F: Filter>(filter: &F) -> (unchanged: bool)
    requires
        filter.reads(read_probe()),
    ensures
        exists|after: ReadContextView, answer: Result<(), FilterError>|
            {
                &&& #[trigger] filter.read_makes(read_probe(), after, answer)
                &&& unchanged == read_changed_nothing(read_probe(), after, answer)
            },
{
    let before = probe_to_read();
    let mut context = probe_to_read();
    let answer = filter.read(&mut context);
    read_left_unchanged(&before, &context, &answer)
}

/// Whether a filter makes no changes on write, and does not refuse the packet.
#[must_use]
pub fn assert_write_no_change<F: Filter>(filter: &F) -> (unchanged: bool)
    requires
        filter.writes(write_probe()),
    ensures
        exists|after: WriteContextView, answer: Result<(), FilterError>|
            {
                &&& #[trigger] filter.write_makes(write_probe(), after, answer)
                &&& unchanged == write_changed_nothing(write_probe(), after, answer)
            },
{
    let before = probe_to_write();
    let mut context = probe_to_write();
    let answer = filter.write(&mut context);
    write_left_unchanged(&before, &context, &answer)
}

/// The test filter changes what it reads and writes, so neither check of
/// [`assert_filter_read_no_change`] and [`assert_write_no_change`] can hold of
/// it.
pub proof fn law_test_filter_makes_changes(
    read: ReadContextView,
    write: WriteContextView,
    answer: Result<(), FilterError>,
)
    ensures
        TestFilter.reads(read_probe()) && TestFilter.writes(write_probe()),
        TestFilter.read_makes(read_probe(), read, answer) ==> !read_changed_nothing(
            read_probe(),
            read,
            answer,
        ),
        TestFilter.write_makes(write_probe(), write, answer) ==> !write_changed_nothing(
            write_probe(),
            write,
            answer,
        ),
{
    law_every_run_leaves_a_trace(read_probe(), write_probe());
}

} // verus!
