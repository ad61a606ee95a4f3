//! The proxy's configuration.

use crate::endpoint::{endpoints_view, endpoints_wf, Endpoint, EndpointView};
use crate::filters::FilterChain;
use crate::table::{Key, Table};
use vstd::prelude::*;

verus! {

/// A filter as a configuration lists it.
#[derive(Debug)]
pub struct FilterConfig {
    /// Which filter.
    pub name: String,
    /// What to call it in reports.
    pub label: Option<String>,
    /// The filter's own configuration, as it was written.
    pub config: Option<String>,
}

/// What a [`FilterConfig`] stands for.
pub struct FilterConfigView {
    pub name: Seq<char>,
    pub label: Option<Seq<char>>,
    pub config: Option<Seq<char>>,
}

impl View for FilterConfig {
    type V = FilterConfigView;

    open spec fn view(&self) -> FilterConfigView {
        FilterConfigView {
            name: self.name@,
            label: self.label.name(),
            config: self.config.name(),
        }
    }
}

/// Endpoints by the locality that they are in, or by none.
#[derive(Debug)]
pub struct ClusterMap {
    table: Table<Option<String>, Vec<Endpoint>>,
}

impl View for ClusterMap {
    type V = Map<Option<Seq<char>>, Seq<EndpointView>>;

    closed spec fn view(&self) -> Map<Option<Seq<char>>, Seq<EndpointView>> {
        self.table@.map_values(|cluster: Vec<Endpoint>| endpoints_view(cluster@))
    }
}

impl ClusterMap {
    /// No locality occurs twice.
    pub closed spec fn wf(&self) -> bool {
        &&& self.table.wf()
        &&& forall|locality: Option<Seq<char>>| #[trigger]
            self.table@.contains_key(locality) ==> endpoints_wf(self.table@[locality]@)
    }

    /// No endpoints.
    pub fn new() -> (clusters: Self)
        ensures
            clusters.wf(),
            clusters@ == Map::<Option<Seq<char>>, Seq<EndpointView>>::empty(),
    {
        ClusterMap { table: Table::new() }
    }

    /// Gives a locality a cluster, in place of the one it had.
    pub fn insert(&mut self, locality: Option<String>, cluster: Vec<Endpoint>)
        requires
            old(self).wf(),
            endpoints_wf(cluster@),
        ensures
            final(self).wf(),
            final(self)@ == old(self)@.insert(locality.name(), endpoints_view(cluster@)),
    {
        self.table.insert(locality, cluster);
    }

    /// The cluster of a locality.
    pub fn get(&self, locality: &Option<String>) -> (cluster: Option<&Vec<Endpoint>>)
        requires
            self.wf(),
        ensures
            cluster is Some <==> self@.contains_key(locality.name()),
            cluster matches Some(c) ==> endpoints_wf(c@) && endpoints_view(c@)
                == self@[locality.name()],
    {
        self.table.get(locality)
    }
}

/// A configuration of the proxy.
#[derive(Debug)]
pub struct Config {
    pub clusters: ClusterMap,
    pub filters: FilterChain,
}

impl Config {
    pub open spec fn wf(&self) -> bool {
        self.clusters.wf()
    }
}

impl Default for Config {
    /// No endpoints and no filters.
    fn default() -> (config: Self)
        ensures
            config.wf(),
            config.clusters@ == Map::<Option<Seq<char>>, Seq<EndpointView>>::empty(),
            config.filters@ == Seq::<FilterConfigView>::empty(),
    {
        Config { clusters: ClusterMap::new(), filters: FilterChain::new() }
    }
}

} // verus!
