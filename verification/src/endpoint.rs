//! Endpoints: the upstream hosts that packets go to.

use crate::metadata::{Metadata, ValueView};
use crate::net::{EndpointAddress, EndpointAddressView};
use vstd::prelude::*;

verus! {

/// An upstream host.
#[derive(Debug)]
pub struct Endpoint {
    pub address: EndpointAddress,
    pub metadata: Metadata,
}

/// What an [`Endpoint`] stands for.
pub struct EndpointView {
    pub address: EndpointAddressView,
    pub metadata: Map<Seq<char>, ValueView>,
}

impl View for Endpoint {
    type V = EndpointView;

    open spec fn view(&self) -> EndpointView {
        EndpointView { address: self.address@, metadata: self.metadata@ }
    }
}

impl EndpointView {
    /// The endpoint at an address, with no metadata.
    pub open spec fn at(address: EndpointAddressView) -> Self {
        EndpointView { address, metadata: Map::empty() }
    }
}

impl Endpoint {
    pub open spec fn wf(&self) -> bool {
        self.metadata.wf()
    }

    /// The endpoint at an address, with no metadata.
    pub fn new(address: EndpointAddress) -> (endpoint: Self)
        ensures
            endpoint.wf(),
            endpoint@ == EndpointView::at(address@),
    {
        Endpoint { address, metadata: Metadata::new() }
    }

    /// Whether both have the same address and the same metadata.
    pub fn same(&self, other: &Endpoint) -> (same: bool)
        requires
            self.wf(),
            other.wf(),
        ensures
            same == (self@ == other@),
    {
        self.address.same(&other.address) && self.metadata.same(&other.metadata)
    }
}

/// What a list of endpoints stands for.
pub open spec fn endpoints_view(endpoints: Seq<Endpoint>) -> Seq<EndpointView> {
    endpoints.map_values(|endpoint: Endpoint| endpoint@)
}

pub open spec fn endpoints_wf(endpoints: Seq<Endpoint>) -> bool {
    forall|i: int| 0 <= i < endpoints.len() ==> (#[trigger] endpoints[i]).wf()
}

/// Whether both list the same endpoints in the same order.
pub fn same_endpoints(a: &Vec<Endpoint>, b: &Vec<Endpoint>) -> (same: bool)
    requires
        endpoints_wf(a@),
        endpoints_wf(b@),
    ensures
        same == (endpoints_view(a@) == endpoints_view(b@)),
{
    if a.len() != b.len() {
        return false;
    }
    let mut i: usize = 0;
    while i < a.len()
        invariant
            i <= a.len(),
            a.len() == b.len(),
            endpoints_wf(a@),
            endpoints_wf(b@),
            forall|j: int| 0 <= j < i ==> (#[trigger] a@[j])@ == b@[j]@,
        decreases a.len() - i,
    {
        if !a[i].same(&b[i]) {
            assert(endpoints_view(a@)[i as int] != endpoints_view(b@)[i as int]);
            return false;
        }
        i = i + 1;
    }
    assert(endpoints_view(a@) =~= endpoints_view(b@));
    true
}

} // verus!
