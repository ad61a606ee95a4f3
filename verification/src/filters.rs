//! Packet filters: what they are handed and what they may do with it.

use crate::config::{FilterConfig, FilterConfigView};
use crate::endpoint::{endpoints_view, endpoints_wf, Endpoint, EndpointView};
use crate::metadata::{Metadata, ValueView};
use vstd::prelude::*;

verus! {

/// Why a filter refused a packet.
#[derive(Debug)]
pub struct FilterError {
    pub message: String,
}

/// Why a filter could not be made.
#[derive(Debug)]
pub enum CreationError {
    /// No filter of this name is registered.
    NotFound(String),
}

/// A packet on its way from a client to the endpoints.
#[derive(Debug)]
pub struct ReadContext {
    /// Where the packet will be sent.
    pub endpoints: Vec<Endpoint>,
    /// The sender's address, in its text form.
    pub source: String,
    /// The packet's payload.
    pub contents: Vec<u8>,
    /// What filters left for each other.
    pub metadata: Metadata,
}

/// What a [`ReadContext`] stands for.
#[verifier::ext_equal]
pub struct ReadContextView {
    pub endpoints: Seq<EndpointView>,
    pub source: Seq<char>,
    pub contents: Seq<u8>,
    pub metadata: Map<Seq<char>, ValueView>,
}

impl View for ReadContext {
    type V = ReadContextView;

    open spec fn view(&self) -> ReadContextView {
        ReadContextView {
            endpoints: endpoints_view(self.endpoints@),
            source: self.source@,
            contents: self.contents@,
            metadata: self.metadata@,
        }
    }
}

impl ReadContext {
    pub open spec fn wf(&self) -> bool {
        endpoints_wf(self.endpoints@) && self.metadata.wf()
    }

    /// A packet that no filter has seen yet.
    pub fn new(endpoints: Vec<Endpoint>, source: String, contents: Vec<u8>) -> (ctx: Self)
        requires
            endpoints_wf(endpoints@),
        ensures
            ctx.wf(),
            ctx@ == (ReadContextView {
                endpoints: endpoints_view(endpoints@),
                source: source@,
                contents: contents@,
                metadata: Map::empty(),
            }),
    {
        ReadContext { endpoints, source, contents, metadata: Metadata::new() }
    }
}

/// A packet on its way from an endpoint back to a client.
#[derive(Debug)]
pub struct WriteContext {
    /// The endpoint's address, in its text form.
    pub source: String,
    /// The client's address, in its text form.
    pub dest: String,
    /// The packet's payload.
    pub contents: Vec<u8>,
    /// What filters left for each other.
    pub metadata: Metadata,
}

/// What a [`WriteContext`] stands for.
#[verifier::ext_equal]
pub struct WriteContextView {
    pub source: Seq<char>,
    pub dest: Seq<char>,
    pub contents: Seq<u8>,
    pub metadata: Map<Seq<char>, ValueView>,
}

impl View for WriteContext {
    type V = WriteContextView;

    open spec fn view(&self) -> WriteContextView {
        WriteContextView {
            source: self.source@,
            dest: self.dest@,
            contents: self.contents@,
            metadata: self.metadata@,
        }
    }
}

impl WriteContext {
    pub open spec fn wf(&self) -> bool {
        self.metadata.wf()
    }

    /// A packet that no filter has seen yet.
    pub fn new(source: String, dest: String, contents: Vec<u8>) -> (ctx: Self)
        ensures
            ctx.wf(),
            ctx@ == (WriteContextView {
                source: source@,
                dest: dest@,
                contents: contents@,
                metadata: Map::empty(),
            }),
    {
        WriteContext { source, dest, contents, metadata: Metadata::new() }
    }
}

/// A packet filter.
///
/// An implementation says by relations what its two methods may do: which
/// packets they take, and how the packet and the answer follow from it.
pub trait Filter {
    /// The packets that [`Filter::read`] takes.
    spec fn reads(&self, before: ReadContextView) -> bool;

    /// What [`Filter::read`] may make of a packet, and answer.
    spec fn read_makes(
        &self,
        before: ReadContextView,
        after: ReadContextView,
        answer: Result<(), FilterError>,
    ) -> bool;

    /// The packets that [`Filter::write`] takes.
    spec fn writes(&self, before: WriteContextView) -> bool;

    /// What [`Filter::write`] may make of a packet, and answer.
    spec fn write_makes(
        &self,
        before: WriteContextView,
        after: WriteContextView,
        answer: Result<(), FilterError>,
    ) -> bool;

    /// Filters a packet on its way to the endpoints.
    fn read(&self, ctx: &mut ReadContext) -> (answer: Result<(), FilterError>)
        requires
            old(ctx).wf(),
            self.reads(old(ctx)@),
        ensures
            final(ctx).wf(),
            self.read_makes(old(ctx)@, final(ctx)@, answer),
    ;

    /// Filters a packet on its way back to a client.
    fn write(&self, ctx: &mut WriteContext) -> (answer: Result<(), FilterError>)
        requires
            old(ctx).wf(),
            self.writes(old(ctx)@),
        ensures
            final(ctx).wf(),
            self.write_makes(old(ctx)@, final(ctx)@, answer),
    ;
}

/// Makes filters of one kind.
#[derive(Debug)]
pub struct FilterFactory {
    /// The name by which configurations ask for the filter.
    pub name: String,
}

/// The kinds of filter that configurations may name.
#[derive(Debug)]
pub struct FilterRegistry {
    factories: Vec<FilterFactory>,
}

impl View for FilterRegistry {
    type V = Set<Seq<char>>;

    /// The names of the registered kinds.
    closed spec fn view(&self) -> Set<Seq<char>> {
        Set::new(|name: Seq<char>| exists|i: int| names_at(self.factories@, i, name))
    }
}

/// Whether the factory at an index goes by a name.
pub open spec fn names_at(factories: Seq<FilterFactory>, i: int, name: Seq<char>) -> bool {
    0 <= i < factories.len() && factories[i].name@ == name
}

/// The names that factories go by.
pub open spec fn names_of(factories: Seq<FilterFactory>) -> Set<Seq<char>> {
    Set::new(|name: Seq<char>| exists|i: int| names_at(factories, i, name))
}

impl FilterRegistry {
    /// Knows no filter.
    pub fn new() -> (registry: Self)
        ensures
            registry@ == Set::<Seq<char>>::empty(),
    {
        let registry = FilterRegistry { factories: Vec::new() };
        proof {
            assert forall|name: Seq<char>| !registry@.contains(name) by {
                assert forall|i: int| !names_at(registry.factories@, i, name) by {}
            }
        }
        registry
    }

    /// Adds kinds of filter to those that are known.
    pub fn register(&mut self, factories: Vec<FilterFactory>)
        ensures
            forall|name: Seq<char>| #[trigger]
                final(self)@.contains(name) <==> (old(self)@.contains(name) || exists|i: int|
                    names_at(factories@, i, name)),
            final(self)@ == old(self)@.union(names_of(factories@)),
    {
        let ghost known = self.factories@;
        let ghost added = factories@;
        let mut factories = factories;
        self.factories.append(&mut factories);
        proof {
            assert forall|name: Seq<char>| #[trigger]
                self@.contains(name) <==> (old(self)@.contains(name) || exists|i: int|
                    names_at(added, i, name)) by {
                if self@.contains(name) {
                    let i = choose|i: int| names_at(self.factories@, i, name);
                    if i < known.len() {
                        assert(names_at(known, i, name));
                    } else {
                        assert(names_at(added, i - known.len(), name));
                    }
                }
                if old(self)@.contains(name) {
                    let i = choose|i: int| names_at(known, i, name);
                    assert(names_at(self.factories@, i, name));
                }
                if exists|i: int| names_at(added, i, name) {
                    let i = choose|i: int| names_at(added, i, name);
                    assert(names_at(self.factories@, known.len() + i, name));
                }
            }
        }
    }

    /// Whether a filter of this name is known.
    pub fn contains(&self, name: &String) -> (known: bool)
        ensures
            known == self@.contains(name@),
    {
        let mut i: usize = 0;
        while i < self.factories.len()
            invariant
                i <= self.factories@.len(),
                forall|j: int| 0 <= j < i ==> !names_at(self.factories@, j, name@),
            decreases self.factories@.len() - i,
        {
            if self.factories[i].name == *name {
                assert(names_at(self.factories@, i as int, name@));
                return true;
            }
            i = i + 1;
        }
        false
    }
}

/// The filters that every packet passes through, in order.
#[derive(Debug)]
pub struct FilterChain {
    filters: Vec<FilterConfig>,
}

/// What a list of filter configurations stands for.
pub open spec fn filter_configs_view(filters: Seq<FilterConfig>) -> Seq<FilterConfigView> {
    filters.map_values(|filter: FilterConfig| filter@)
}

impl View for FilterChain {
    type V = Seq<FilterConfigView>;

    closed spec fn view(&self) -> Seq<FilterConfigView> {
        filter_configs_view(self.filters@)
    }
}

impl FilterChain {
    /// No filters.
    pub fn new() -> (chain: Self)
        ensures
            chain@ == Seq::<FilterConfigView>::empty(),
    {
        FilterChain { filters: Vec::new() }
    }

    /// The filters, in order.
    pub fn filters(&self) -> (filters: &Vec<FilterConfig>)
        ensures
            filter_configs_view(filters@) == self@,
    {
        &self.filters
    }

    /// The chain of the filters that a configuration lists, if each is known.
    /// Otherwise names the first that is not.
    pub fn try_from(
        filters: Vec<FilterConfig>,
        registry: &FilterRegistry,
    ) -> (chain: Result<Self, CreationError>)
        ensures
            match chain {
                Ok(chain) => {
                    &&& chain@ == filter_configs_view(filters@)
                    &&& forall|i: int|
                        0 <= i < filters@.len() ==> registry@.contains(
                            (#[trigger] filters@[i]).name@,
                        )
                },
                Err(CreationError::NotFound(name)) => exists|i: int|
                    {
                        &&& 0 <= i < filters@.len()
                        &&& name@ == (#[trigger] filters@[i]).name@
                        &&& !registry@.contains(name@)
                        &&& forall|j: int|
                            0 <= j < i ==> registry@.contains((#[trigger] filters@[j]).name@)
                    },
            },
    {
        let mut i: usize = 0;
        while i < filters.len()
            invariant
                i <= filters@.len(),
                forall|j: int|
                    0 <= j < i ==> registry@.contains((#[trigger] filters@[j]).name@),
            decreases filters@.len() - i,
        {
            if !registry.contains(&filters[i].name) {
                return Err(CreationError::NotFound(filters[i].name.clone()));
            }
            i = i + 1;
        }
        Ok(FilterChain { filters })
    }
}

} // verus!
