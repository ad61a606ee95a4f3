//! Laws of the fixtures: the endpoints, configurations and packets that tests use,
//! and what the checks that nothing was changed compare.

use crate::config::{ClusterMap, Config, FilterConfig};
use crate::endpoint::{endpoints_view, Endpoint};
use crate::filters::{
    filter_configs_view, Filter, FilterChain, FilterError, FilterRegistry, ReadContext,
    ReadContextView, WriteContext, WriteContextView,
};
use crate::net::{Host, IpAddr, Ipv4Addr};
use crate::test::filter::TestFilter;
use crate::test::fixtures::{
    assert_filter_read_no_change, assert_write_no_change, config_with_dummy_endpoint, ep,
    law_test_filter_makes_changes, load_test_filters, new_test_config, probe_to_read,
    probe_to_write, read_changed_nothing, read_left_unchanged, read_probe, with_test_filters,
    write_changed_nothing, write_left_unchanged, write_probe,
};
use vstd::prelude::*;
use vstd::utf8::{decode_utf8, encode_utf8_decode_utf8, encode_utf8_valid_utf8, valid_utf8};

verus! {

/// A dummy endpoint is at port 8080 of `127.0.0.id`, and has no metadata.
pub proof fn law_dummy_endpoint_address(id: u8, endpoint: Endpoint)
    requires
        call_ensures(ep, (id,), endpoint),
    ensures
        endpoint.wf(),
        endpoint.address.host == Host::Ip(IpAddr::V4(Ipv4Addr { a: 127, b: 0, c: 0, d: id })),
        endpoint.address.port == 8080,
        forall|key: Seq<char>| !endpoint.metadata@.contains_key(key),
{
}

/// The configuration with a dummy endpoint has that endpoint, and no other, in no
/// locality, nothing in any locality, and no filters.
pub proof fn law_config_has_a_dummy_endpoint(
    config: Config,
    locality: Option<String>,
    cluster: Option<&Vec<Endpoint>>,
    list: &Vec<FilterConfig>,
)
    requires
        call_ensures(config_with_dummy_endpoint, (), config),
        call_ensures(ClusterMap::get, (&config.clusters, &locality), cluster),
        call_ensures(FilterChain::filters, (&config.filters,), list),
    ensures
        config.clusters.wf(),
        list@.len() == 0,
        locality is Some ==> cluster is None,
        locality is None ==> {
            &&& cluster is Some
            &&& cluster->0@.len() == 1
            &&& cluster->0@[0].address.host == Host::Ip(
                IpAddr::V4(Ipv4Addr { a: 127, b: 0, c: 0, d: 1 }),
            )
            &&& cluster->0@[0].address.port == 8080
            &&& forall|key: Seq<char>| !cluster->0@[0].metadata@.contains_key(key)
        },
{
    assert(filter_configs_view(list@).len() == list@.len());
    if locality is None {
        let of_cluster = endpoints_view(cluster->0@);
        assert(of_cluster.len() == cluster->0@.len());
        assert(of_cluster[0] == cluster->0@[0]@);
    }
}

/// Once the test filters are loaded, `TestFilter` is known, and so is what was known
/// before, and nothing else. A test configuration may then be made.
pub proof fn law_test_filters_are_loaded(
    registry: &mut FilterRegistry,
    name: String,
    before: bool,
    after: bool,
)
    requires
        call_ensures(load_test_filters, (registry,), ()),
        call_ensures(FilterRegistry::contains, (&*old(registry), &name), before),
        call_ensures(FilterRegistry::contains, (&*final(registry), &name), after),
    ensures
        after <==> before || name@ == "TestFilter"@,
        call_requires(new_test_config, (&*final(registry),)),
{
}

/// A test configuration may be made wherever `TestFilter` is known.
pub proof fn law_test_config_may_be_made(registry: FilterRegistry, name: String, known: bool)
    requires
        call_ensures(FilterRegistry::contains, (&registry, &name), known),
        name@ == "TestFilter"@,
        known,
    ensures
        call_requires(new_test_config, (&registry,)),
{
}

/// A test configuration lists `TestFilter` once, without a label and without a
/// configuration, and has no endpoints in any locality or in none.
pub proof fn law_test_config_lists_the_test_filter(
    registry: FilterRegistry,
    config: Config,
    locality: Option<String>,
    cluster: Option<&Vec<Endpoint>>,
    list: &Vec<FilterConfig>,
)
    requires
        call_ensures(new_test_config, (&registry,), config),
        call_ensures(ClusterMap::get, (&config.clusters, &locality), cluster),
        call_ensures(FilterChain::filters, (&config.filters,), list),
    ensures
        config.clusters.wf(),
        list@.len() == 1,
        list@[0].name@ == "TestFilter"@,
        list@[0].label is None,
        list@[0].config is None,
        cluster is None,
{
    assert(filter_configs_view(list@).len() == list@.len());
    assert(filter_configs_view(list@)[0] == list@[0]@);
}

/// The names that are known once the test filters are loaded.
pub proof fn law_with_test_filters(names: Set<Seq<char>>, name: Seq<char>)
    ensures
        with_test_filters(names).contains(name) <==> names.contains(name) || name
            == "TestFilter"@,
{
}

/// The packet to try reads on holds `hello`, came from port 90 of the local host,
/// goes to port 80 of it alone, and has no metadata.
pub proof fn law_probe_to_read(ctx: ReadContext)
    requires
        call_ensures(probe_to_read, (), ctx),
    ensures
        ctx.wf(),
        ctx.endpoints@.len() == 1,
        ctx.endpoints@[0].address.host == Host::Ip(
            IpAddr::V4(Ipv4Addr { a: 127, b: 0, c: 0, d: 1 }),
        ),
        ctx.endpoints@[0].address.port == 80,
        forall|key: Seq<char>| !ctx.endpoints@[0].metadata@.contains_key(key),
        ctx.source@ == "127.0.0.1:90"@,
        valid_utf8(ctx.contents@),
        decode_utf8(ctx.contents@) == "hello"@,
        forall|key: Seq<char>| !ctx.metadata@.contains_key(key),
{
    encode_utf8_valid_utf8("hello"@);
    encode_utf8_decode_utf8("hello"@);
    let of_endpoints = endpoints_view(ctx.endpoints@);
    assert(of_endpoints == ctx@.endpoints);
    assert(of_endpoints.len() == ctx.endpoints@.len());
    assert(of_endpoints[0] == ctx.endpoints@[0]@);
}

/// The packet to try writes on holds `hello`, came from port 90 of the local host,
/// goes to port 70 of it, and has no metadata.
pub proof fn law_probe_to_write(ctx: WriteContext)
    requires
        call_ensures(probe_to_write, (), ctx),
    ensures
        ctx.wf(),
        ctx.source@ == "127.0.0.1:90"@,
        ctx.dest@ == "127.0.0.1:70"@,
        valid_utf8(ctx.contents@),
        decode_utf8(ctx.contents@) == "hello"@,
        forall|key: Seq<char>| !ctx.metadata@.contains_key(key),
{
    encode_utf8_valid_utf8("hello"@);
    encode_utf8_decode_utf8("hello"@);
    assert(ctx@.contents == ctx.contents@);
}

/// A read changed nothing if and only if it was not refused, and after it every
/// endpoint, the source, every byte of the contents and the value of every key are
/// as they were.
pub proof fn law_read_changed_nothing(
    before: ReadContextView,
    after: ReadContextView,
    answer: Result<(), FilterError>,
)
    ensures
        read_changed_nothing(before, after, answer) <==> {
            &&& answer is Ok
            &&& after.endpoints.len() == before.endpoints.len()
            &&& forall|i: int|
                0 <= i < before.endpoints.len() ==> (#[trigger] after.endpoints[i]).address
                    == before.endpoints[i].address && after.endpoints[i].metadata
                    == before.endpoints[i].metadata
            &&& after.source == before.source
            &&& after.contents == before.contents
            &&& after.metadata == before.metadata
        },
{
    if after.endpoints.len() == before.endpoints.len() && forall|i: int|
        0 <= i < before.endpoints.len() ==> (#[trigger] after.endpoints[i]).address
            == before.endpoints[i].address && after.endpoints[i].metadata
            == before.endpoints[i].metadata {
        assert forall|i: int| 0 <= i < before.endpoints.len() implies after.endpoints[i]
            == before.endpoints[i] by {
            assert(after.endpoints[i].address == before.endpoints[i].address);
        }
        assert(after.endpoints =~= before.endpoints);
    }
}

/// A write changed nothing if and only if it was not refused, and after it the
/// source, the destination, every byte of the contents and the value of every key
/// are as they were.
pub proof fn law_write_changed_nothing(
    before: WriteContextView,
    after: WriteContextView,
    answer: Result<(), FilterError>,
)
    ensures
        write_changed_nothing(before, after, answer) <==> {
            &&& answer is Ok
            &&& after.source == before.source
            &&& after.dest == before.dest
            &&& after.contents == before.contents
            &&& after.metadata == before.metadata
        },
{
}

/// A read is found to have left a packet unchanged if and only if it was not
/// refused, and each endpoint with its address and its metadata, the source, the
/// contents and the metadata are as they were.
pub proof fn law_read_left_unchanged(
    before: ReadContext,
    after: ReadContext,
    answer: Result<(), FilterError>,
    unchanged: bool,
)
    requires
        before.wf(),
        after.wf(),
        call_ensures(read_left_unchanged, (&before, &after, &answer), unchanged),
    ensures
        call_requires(read_left_unchanged, (&before, &after, &answer)),
        unchanged <==> {
            &&& answer is Ok
            &&& after.endpoints@.len() == before.endpoints@.len()
            &&& forall|i: int|
                0 <= i < before.endpoints@.len() ==> (#[trigger] after.endpoints@[i]).address@
                    == before.endpoints@[i].address@ && after.endpoints@[i].metadata@
                    == before.endpoints@[i].metadata@
            &&& after.source@ == before.source@
            &&& after.contents@ == before.contents@
            &&& after.metadata@ == before.metadata@
        },
{
    law_read_changed_nothing(before@, after@, answer);
    assert(before@.endpoints.len() == before.endpoints@.len());
    assert(after@.endpoints.len() == after.endpoints@.len());
    if unchanged {
        assert forall|i: int| 0 <= i < before.endpoints@.len() implies (#[trigger]
        after.endpoints@[i]).address@ == before.endpoints@[i].address@
            && after.endpoints@[i].metadata@ == before.endpoints@[i].metadata@ by {
            assert(after@.endpoints[i] == before@.endpoints[i]);
        }
    } else if after.endpoints@.len() == before.endpoints@.len() && forall|i: int|
        0 <= i < before.endpoints@.len() ==> (#[trigger] after.endpoints@[i]).address@
            == before.endpoints@[i].address@ && after.endpoints@[i].metadata@
            == before.endpoints@[i].metadata@ {
        assert(after@.endpoints =~= before@.endpoints);
    }
}

/// A write is found to have left a packet unchanged if and only if it was not
/// refused, and the source, the destination, the contents and the metadata are as
/// they were.
pub proof fn law_write_left_unchanged(
    before: WriteContext,
    after: WriteContext,
    answer: Result<(), FilterError>,
    unchanged: bool,
)
    requires
        before.wf(),
        after.wf(),
        call_ensures(write_left_unchanged, (&before, &after, &answer), unchanged),
    ensures
        call_requires(write_left_unchanged, (&before, &after, &answer)),
        unchanged <==> {
            &&& answer is Ok
            &&& after.source@ == before.source@
            &&& after.dest@ == before.dest@
            &&& after.contents@ == before.contents@
            &&& after.metadata@ == before.metadata@
        },
{
    law_write_changed_nothing(before@, after@, answer);
}

/// The check of a filter's read side holds if and only if the filter, run on the
/// packet to try reads on, did not refuse it and left every part of it as it was.
pub proof fn law_read_check<F: Filter>(filter: F, probe: ReadContext, unchanged: bool)
    requires
        call_ensures(probe_to_read, (), probe),
        call_ensures(assert_filter_read_no_change::<F>, (&filter,), unchanged),
    ensures
        filter.reads(probe@) ==> call_requires(assert_filter_read_no_change::<F>, (&filter,)),
        exists|after: ReadContextView, answer: Result<(), FilterError>|
            {
                &&& #[trigger] filter.read_makes(probe@, after, answer)
                &&& unchanged <==> {
                    &&& answer is Ok
                    &&& after.endpoints == probe@.endpoints
                    &&& after.source == probe.source@
                    &&& after.contents == probe.contents@
                    &&& after.metadata == probe.metadata@
                }
            },
{
    let (after, answer) = choose|after: ReadContextView, answer: Result<(), FilterError>|
        {
            &&& #[trigger] filter.read_makes(probe@, after, answer)
            &&& unchanged == read_changed_nothing(probe@, after, answer)
        };
    law_read_changed_nothing(probe@, after, answer);
    assert(filter.read_makes(probe@, after, answer));
}

/// The check of a filter's write side holds if and only if the filter, run on the
/// packet to try writes on, did not refuse it and left every part of it as it was.
pub proof fn law_write_check<F: Filter>(filter: F, probe: WriteContext, unchanged: bool)
    requires
        call_ensures(probe_to_write, (), probe),
        call_ensures(assert_write_no_change::<F>, (&filter,), unchanged),
    ensures
        filter.writes(probe@) ==> call_requires(assert_write_no_change::<F>, (&filter,)),
        exists|after: WriteContextView, answer: Result<(), FilterError>|
            {
                &&& #[trigger] filter.write_makes(probe@, after, answer)
                &&& unchanged <==> {
                    &&& answer is Ok
                    &&& after.source == probe.source@
                    &&& after.dest == probe.dest@
                    &&& after.contents == probe.contents@
                    &&& after.metadata == probe.metadata@
                }
            },
{
    let (after, answer) = choose|after: WriteContextView, answer: Result<(), FilterError>|
        {
            &&& #[trigger] filter.write_makes(probe@, after, answer)
            &&& unchanged == write_changed_nothing(probe@, after, answer)
        };
    law_write_changed_nothing(probe@, after, answer);
    assert(filter.write_makes(probe@, after, answer));
}

/// Both checks may be made of the test filter, and neither holds of it.
pub proof fn law_checks_refuse_the_test_filter(read: bool, write: bool)
    requires
        call_ensures(assert_filter_read_no_change::<TestFilter>, (&TestFilter,), read),
        call_ensures(assert_write_no_change::<TestFilter>, (&TestFilter,), write),
    ensures
        call_requires(assert_filter_read_no_change::<TestFilter>, (&TestFilter,)),
        call_requires(assert_write_no_change::<TestFilter>, (&TestFilter,)),
        !read,
        !write,
{
    let probe = read_probe();
    let (after, answer) = choose|after: ReadContextView, answer: Result<(), FilterError>|
        {
            &&& #[trigger] TestFilter.read_makes(probe, after, answer)
            &&& read == read_changed_nothing(probe, after, answer)
        };
    let w_probe = write_probe();
    let (w_after, w_answer) = choose|after: WriteContextView, answer: Result<(), FilterError>|
        {
            &&& #[trigger] TestFilter.write_makes(w_probe, after, answer)
            &&& write == write_changed_nothing(w_probe, after, answer)
        };
    law_test_filter_makes_changes(after, w_after, answer);
    law_test_filter_makes_changes(after, w_after, w_answer);
}

} // verus!
