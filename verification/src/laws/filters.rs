//! Laws of packets, of the filters that a proxy knows and of its configuration.

use crate::config::{ClusterMap, Config, FilterConfig};
use crate::endpoint::{endpoints_view, Endpoint};
use crate::filters::{
    filter_configs_view, names_at, names_of, CreationError, FilterChain, FilterFactory,
    FilterRegistry, ReadContext, WriteContext,
};
use vstd::prelude::*;

verus! {

/// A packet to be read stands for what its fields hold.
pub proof fn law_read_context_view(ctx: ReadContext)
    ensures
        ctx@.source == ctx.source@,
        ctx@.contents == ctx.contents@,
        ctx@.metadata == ctx.metadata@,
        ctx@.endpoints.len() == ctx.endpoints@.len(),
        forall|i: int|
            0 <= i < ctx.endpoints@.len() ==> (#[trigger] ctx@.endpoints[i]).address
                == ctx.endpoints@[i].address@ && ctx@.endpoints[i].metadata
                == ctx.endpoints@[i].metadata@,
        ctx.wf() <==> ctx.metadata.wf() && forall|i: int|
            0 <= i < ctx.endpoints@.len() ==> (#[trigger] ctx.endpoints@[i]).metadata.wf(),
{
}

/// A packet to be written stands for what its fields hold.
pub proof fn law_write_context_view(ctx: WriteContext)
    ensures
        ctx@.source == ctx.source@,
        ctx@.dest == ctx.dest@,
        ctx@.contents == ctx.contents@,
        ctx@.metadata == ctx.metadata@,
        ctx.wf() <==> ctx.metadata.wf(),
{
}

/// A new packet to be read is made of what it was given, and has no metadata.
pub proof fn law_new_read_context(
    endpoints: Vec<Endpoint>,
    source: String,
    contents: Vec<u8>,
    ctx: ReadContext,
)
    requires
        forall|i: int| 0 <= i < endpoints@.len() ==> (#[trigger] endpoints@[i]).metadata.wf(),
        call_ensures(ReadContext::new, (endpoints, source, contents), ctx),
    ensures
        call_requires(ReadContext::new, (endpoints, source, contents)),
        ctx.wf(),
        ctx.source@ == source@,
        ctx.contents@ == contents@,
        forall|key: Seq<char>| !ctx.metadata@.contains_key(key),
        ctx.endpoints@.len() == endpoints@.len(),
        forall|i: int|
            0 <= i < endpoints@.len() ==> (#[trigger] ctx.endpoints@[i]).address@
                == endpoints@[i].address@ && ctx.endpoints@[i].metadata@
                == endpoints@[i].metadata@,
{
    assert(endpoints_view(ctx.endpoints@) == endpoints_view(endpoints@));
    assert(endpoints_view(ctx.endpoints@).len() == ctx.endpoints@.len());
    assert forall|i: int| 0 <= i < endpoints@.len() implies (#[trigger] ctx.endpoints@[i]).address@
        == endpoints@[i].address@ && ctx.endpoints@[i].metadata@ == endpoints@[i].metadata@ by {
        assert(endpoints_view(ctx.endpoints@)[i] == endpoints_view(endpoints@)[i]);
    }
}

/// A new packet to be written is made of what it was given, and has no metadata.
pub proof fn law_new_write_context(
    source: String,
    dest: String,
    contents: Vec<u8>,
    ctx: WriteContext,
)
    requires
        call_ensures(WriteContext::new, (source, dest, contents), ctx),
    ensures
        ctx.wf(),
        ctx.source@ == source@,
        ctx.dest@ == dest@,
        ctx.contents@ == contents@,
        forall|key: Seq<char>| !ctx.metadata@.contains_key(key),
{
}

/// A new registry knows no name.
pub proof fn law_new_registry_knows_nothing(registry: FilterRegistry, name: String, known: bool)
    requires
        call_ensures(FilterRegistry::new, (), registry),
        call_ensures(FilterRegistry::contains, (&registry, &name), known),
    ensures
        !known,
{
}

/// A registry stands for the names that it knows.
pub proof fn law_registry_view(registry: FilterRegistry, name: String, known: bool)
    requires
        call_ensures(FilterRegistry::contains, (&registry, &name), known),
    ensures
        registry@.contains(name@) <==> known,
{
}

/// After factories are registered, the names that are known are those that were
/// and the factories' own.
pub proof fn law_registered_names_are_known(
    registry: &mut FilterRegistry,
    factories: Vec<FilterFactory>,
    name: String,
    before: bool,
    after: bool,
)
    requires
        call_ensures(FilterRegistry::register, (registry, factories), ()),
        call_ensures(FilterRegistry::contains, (&*old(registry), &name), before),
        call_ensures(FilterRegistry::contains, (&*final(registry), &name), after),
    ensures
        after <==> before || exists|i: int|
            0 <= i < factories@.len() && (#[trigger] factories@[i]).name@ == name@,
{
    if exists|i: int| 0 <= i < factories@.len() && (#[trigger] factories@[i]).name@ == name@ {
        let i = choose|i: int|
            0 <= i < factories@.len() && (#[trigger] factories@[i]).name@ == name@;
        assert(names_at(factories@, i, name@));
    }
    assert(after == (before || names_of(factories@).contains(name@)));
    if after && !before {
        let i = choose|i: int| names_at(factories@, i, name@);
        assert(factories@[i].name@ == name@);
    }
}

/// A filter's configuration stands for what its fields hold.
pub proof fn law_filter_config_view(filter: FilterConfig)
    ensures
        filter@.name == filter.name@,
        match filter.label {
            Some(label) => filter@.label == Some(label@),
            None => filter@.label is None,
        },
        match filter.config {
            Some(config) => filter@.config == Some(config@),
            None => filter@.config is None,
        },
{
}

/// A chain is made if and only if every filter is known, and is then made of all of
/// them, in order. Otherwise the name of one that is not known is given, and all
/// that come before it are known.
pub proof fn law_chain_is_what_was_listed(
    filters: Vec<FilterConfig>,
    registry: FilterRegistry,
    chain: Result<FilterChain, CreationError>,
)
    requires
        call_ensures(FilterChain::try_from, (filters, &registry), chain),
    ensures
        chain is Ok <==> forall|i: int|
            0 <= i < filters@.len() ==> registry@.contains((#[trigger] filters@[i]).name@),
        chain matches Err(CreationError::NotFound(name)) ==> exists|i: int|
            {
                &&& 0 <= i < filters@.len()
                &&& (#[trigger] filters@[i]).name@ == name@
                &&& !registry@.contains(filters@[i].name@)
                &&& forall|j: int|
                    0 <= j < i ==> registry@.contains((#[trigger] filters@[j]).name@)
            },
        chain matches Ok(made) ==> forall|list: &Vec<FilterConfig>| #[trigger]
            call_ensures(FilterChain::filters, (&made,), list) ==> {
                &&& list@.len() == filters@.len()
                &&& forall|i: int|
                    0 <= i < filters@.len() ==> {
                        &&& (#[trigger] list@[i]).name@ == filters@[i].name@
                        &&& match (list@[i].label, filters@[i].label) {
                            (Some(a), Some(b)) => a@ == b@,
                            (None, None) => true,
                            _ => false,
                        }
                        &&& match (list@[i].config, filters@[i].config) {
                            (Some(a), Some(b)) => a@ == b@,
                            (None, None) => true,
                            _ => false,
                        }
                    }
            },
{
    if let Ok(made) = chain {
        assert forall|list: &Vec<FilterConfig>| #[trigger]
            call_ensures(FilterChain::filters, (&made,), list) implies {
            &&& list@.len() == filters@.len()
            &&& forall|i: int|
                0 <= i < filters@.len() ==> {
                    &&& (#[trigger] list@[i]).name@ == filters@[i].name@
                    &&& match (list@[i].label, filters@[i].label) {
                        (Some(a), Some(b)) => a@ == b@,
                        (None, None) => true,
                        _ => false,
                    }
                    &&& match (list@[i].config, filters@[i].config) {
                        (Some(a), Some(b)) => a@ == b@,
                        (None, None) => true,
                        _ => false,
                    }
                }
        } by {
            let of_list = filter_configs_view(list@);
            let of_filters = filter_configs_view(filters@);
            assert(of_list == of_filters);
            assert(of_list.len() == list@.len());
            assert forall|i: int| 0 <= i < filters@.len() implies {
                &&& (#[trigger] list@[i]).name@ == filters@[i].name@
                &&& match (list@[i].label, filters@[i].label) {
                    (Some(a), Some(b)) => a@ == b@,
                    (None, None) => true,
                    _ => false,
                }
                &&& match (list@[i].config, filters@[i].config) {
                    (Some(a), Some(b)) => a@ == b@,
                    (None, None) => true,
                    _ => false,
                }
            } by {
                assert(of_list[i] == of_filters[i]);
                assert(list@[i]@ == filters@[i]@);
            }
        }
    }
}

/// A new chain lists no filters.
pub proof fn law_new_chain_is_empty(chain: FilterChain, list: &Vec<FilterConfig>)
    requires
        call_ensures(FilterChain::new, (), chain),
        call_ensures(FilterChain::filters, (&chain,), list),
    ensures
        list@.len() == 0,
{
    assert(filter_configs_view(list@).len() == list@.len());
}

/// A locality that was given a cluster is found with it, each endpoint in its
/// place. Every other locality is found as before.
pub proof fn law_inserted_cluster_is_found(
    clusters: &mut ClusterMap,
    locality: Option<String>,
    cluster: Vec<Endpoint>,
    wanted: Option<String>,
    before: Option<&Vec<Endpoint>>,
    after: Option<&Vec<Endpoint>>,
)
    requires
        old(clusters).wf(),
        forall|i: int| 0 <= i < cluster@.len() ==> (#[trigger] cluster@[i]).metadata.wf(),
        call_ensures(ClusterMap::insert, (clusters, locality, cluster), ()),
        call_ensures(ClusterMap::get, (&*old(clusters), &wanted), before),
        call_ensures(ClusterMap::get, (&*final(clusters), &wanted), after),
    ensures
        call_requires(ClusterMap::insert, (clusters, locality, cluster)),
        call_requires(ClusterMap::get, (&*final(clusters), &wanted)),
        ({
            let wants_it = match (locality, wanted) {
                (Some(a), Some(b)) => a@ == b@,
                (None, None) => true,
                _ => false,
            };
            let found = if wants_it {
                Some(&cluster)
            } else {
                before
            };
            &&& after is Some <==> found is Some
            &&& after is Some ==> {
                &&& after->0@.len() == found->0@.len()
                &&& forall|i: int|
                    0 <= i < found->0@.len() ==> (#[trigger] after->0@[i]).address@
                        == found->0@[i].address@ && after->0@[i].metadata@
                        == found->0@[i].metadata@
            }
        }),
{
    let wants_it = match (locality, wanted) {
        (Some(a), Some(b)) => a@ == b@,
        (None, None) => true,
        _ => false,
    };
    let found = if wants_it {
        Some(&cluster)
    } else {
        before
    };
    if after is Some {
        let of_after = endpoints_view(after->0@);
        let of_found = endpoints_view(found->0@);
        assert(of_after == of_found);
        assert(of_after.len() == after->0@.len());
        assert(of_found.len() == found->0@.len());
        assert forall|i: int| 0 <= i < found->0@.len() implies (#[trigger] after->0@[i]).address@
            == found->0@[i].address@ && after->0@[i].metadata@ == found->0@[i].metadata@ by {
            assert(of_after[i] == of_found[i]);
        }
    }
}

/// The default configuration has no cluster for any locality, and no filters.
pub proof fn law_default_config_is_empty(
    config: Config,
    locality: Option<String>,
    cluster: Option<&Vec<Endpoint>>,
    list: &Vec<FilterConfig>,
)
    requires
        call_ensures(<Config as Default>::default, (), config),
        call_ensures(ClusterMap::get, (&config.clusters, &locality), cluster),
        call_ensures(FilterChain::filters, (&config.filters,), list),
    ensures
        config.wf(),
        config.clusters.wf(),
        cluster is None,
        list@.len() == 0,
{
    assert(filter_configs_view(list@).len() == list@.len());
}

/// A new map of clusters has none for any locality.
pub proof fn law_new_cluster_map_is_empty(
    clusters: ClusterMap,
    locality: Option<String>,
    cluster: Option<&Vec<Endpoint>>,
)
    requires
        call_ensures(ClusterMap::new, (), clusters),
        call_ensures(ClusterMap::get, (&clusters, &locality), cluster),
    ensures
        call_requires(ClusterMap::get, (&clusters, &locality)),
        cluster is None,
{
}

} // verus!
