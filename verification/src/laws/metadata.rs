//! Laws of metadata and of endpoints: what was put in is found again, and two are
//! the same only if everything in them is.

use crate::endpoint::{endpoints_view, same_endpoints, Endpoint};
use crate::metadata::{same_bytes, Metadata, Value, ValueView};
use crate::net::EndpointAddress;
use vstd::prelude::*;

verus! {

/// A value stands for what it holds, and for its kind.
pub proof fn law_value_view(value: Value)
    ensures
        match value {
            Value::Bool(b) => value@ == ValueView::Bool(b),
            Value::Number(n) => value@ == ValueView::Number(n),
            Value::String(text) => value@ == ValueView::String(text@),
            Value::Bytes(bytes) => value@ == ValueView::Bytes(bytes@),
        },
{
}

/// Two lists of bytes are the same if and only if they are equally long and each
/// byte of one is the other's at the same place.
pub proof fn law_same_bytes(a: Vec<u8>, b: Vec<u8>, same: bool)
    requires
        call_ensures(same_bytes, (&a, &b), same),
    ensures
        same <==> a@.len() == b@.len() && forall|i: int| 0 <= i < a@.len() ==> a@[i] == b@[i],
{
    if a@.len() == b@.len() && forall|i: int| 0 <= i < a@.len() ==> a@[i] == b@[i] {
        assert(a@ =~= b@);
    }
}

/// Two values are the same if and only if they are of one kind and hold the same.
pub proof fn law_same_values(a: Value, b: Value, same: bool)
    requires
        call_ensures(Value::same, (&a, &b), same),
    ensures
        same <==> match (a, b) {
            (Value::Bool(x), Value::Bool(y)) => x == y,
            (Value::Number(x), Value::Number(y)) => x == y,
            (Value::String(x), Value::String(y)) => x@ == y@,
            (Value::Bytes(x), Value::Bytes(y)) => x@ == y@,
            _ => false,
        },
{
}

/// A string value, and no other, gives its text to change, and becomes what the
/// text was changed to.
pub proof fn law_text_is_changed_in_place(value: &mut Value, text: Option<&mut String>)
    requires
        call_ensures(Value::as_mut_string, (value,), text),
    ensures
        match *old(value) {
            Value::String(before) => {
                &&& text matches Some(t)
                &&& t@ == before@
                &&& *final(value) matches Value::String(after)
                &&& after@ == final(t)@
            },
            _ => text is None && final(value)@ == old(value)@,
        },
{
}

/// New metadata has no value under any key.
pub proof fn law_new_metadata_is_empty(metadata: Metadata, key: String, found: Option<&Value>)
    requires
        call_ensures(Metadata::new, (), metadata),
        call_ensures(Metadata::get, (&metadata, &key), found),
    ensures
        found is None,
        call_requires(Metadata::get, (&metadata, &key)),
{
}

/// Metadata stands for what is found under each key.
pub proof fn law_metadata_view(metadata: Metadata, key: String, found: Option<&Value>)
    requires
        metadata.wf(),
        call_ensures(Metadata::get, (&metadata, &key), found),
    ensures
        call_requires(Metadata::get, (&metadata, &key)),
        metadata@.contains_key(key@) <==> found is Some,
        found is Some ==> metadata@[key@] == found->0@,
{
}

/// A key that was given a value is found with that value. Every other key is found
/// as before.
pub proof fn law_inserted_value_is_found(
    metadata: &mut Metadata,
    key: String,
    value: Value,
    wanted: String,
    before: Option<&Value>,
    after: Option<&Value>,
)
    requires
        old(metadata).wf(),
        call_ensures(Metadata::insert, (metadata, key, value), ()),
        call_ensures(Metadata::get, (&*old(metadata), &wanted), before),
        call_ensures(Metadata::get, (&*final(metadata), &wanted), after),
    ensures
        call_requires(Metadata::insert, (metadata, key, value)),
        call_requires(Metadata::get, (&*final(metadata), &wanted)),
        wanted@ == key@ ==> after is Some && after->0@ == value@,
        wanted@ != key@ ==> (after is Some <==> before is Some),
        wanted@ != key@ && before is Some ==> after->0@ == before->0@,
{
}

/// A value that is changed in place is found as it was changed. Every other key is
/// found as before.
pub proof fn law_changed_value_is_found(
    metadata: &mut Metadata,
    key: String,
    value: Option<&mut Value>,
    wanted: String,
    before: Option<&Value>,
    after: Option<&Value>,
)
    requires
        old(metadata).wf(),
        call_ensures(Metadata::get_mut, (metadata, &key), value),
        call_ensures(Metadata::get, (&*old(metadata), &wanted), before),
        call_ensures(Metadata::get, (&*final(metadata), &wanted), after),
    ensures
        call_requires(Metadata::get_mut, (metadata, &key)),
        call_requires(Metadata::get, (&*final(metadata), &wanted)),
        wanted@ == key@ ==> match value {
            Some(v) => {
                &&& before is Some && before->0@ == v@
                &&& after is Some && after->0@ == final(v)@
            },
            None => before is None && after is None,
        },
        wanted@ != key@ ==> (after is Some <==> before is Some),
        wanted@ != key@ && before is Some ==> after->0@ == before->0@,
{
}

/// Metadata that is the same is found the same under every key.
pub proof fn law_same_metadata(
    a: Metadata,
    b: Metadata,
    same: bool,
    key: String,
    in_a: Option<&Value>,
    in_b: Option<&Value>,
)
    requires
        call_ensures(Metadata::same, (&a, &b), same),
        call_ensures(Metadata::get, (&a, &key), in_a),
        call_ensures(Metadata::get, (&b, &key), in_b),
        same,
    ensures
        in_a is Some <==> in_b is Some,
        in_a is Some ==> in_a->0@ == in_b->0@,
{
}

/// Metadata is the same if and only if it holds the same keys with the same
/// values.
pub proof fn law_same_metadata_view(a: Metadata, b: Metadata, same: bool)
    requires
        a.wf(),
        b.wf(),
        call_ensures(Metadata::same, (&a, &b), same),
    ensures
        call_requires(Metadata::same, (&a, &b)),
        same <==> forall|key: Seq<char>| #[trigger]
            a@.contains_key(key) == b@.contains_key(key) && (a@.contains_key(key) ==> a@[key]
                == b@[key]),
{
    if forall|key: Seq<char>| #[trigger]
        a@.contains_key(key) == b@.contains_key(key) && (a@.contains_key(key) ==> a@[key]
            == b@[key]) {
        assert forall|key: Seq<char>| a@.dom().contains(key) == b@.dom().contains(key) by {
            assert(a@.contains_key(key) == b@.contains_key(key));
        }
        assert forall|key: Seq<char>| a@.dom().contains(key) implies a@[key] == b@[key] by {
            assert(a@.contains_key(key));
        }
        assert(a@ =~= b@);
    }
}

/// An endpoint stands for its address and its metadata.
pub proof fn law_endpoint_view(endpoint: Endpoint)
    ensures
        endpoint@.address == endpoint.address@,
        endpoint@.metadata == endpoint.metadata@,
        endpoint.wf() <==> endpoint.metadata.wf(),
{
}

/// A list of endpoints stands for each of them, in order.
pub proof fn law_endpoints_view(endpoints: Seq<Endpoint>)
    ensures
        endpoints_view(endpoints).len() == endpoints.len(),
        forall|i: int|
            0 <= i < endpoints.len() ==> (#[trigger] endpoints_view(endpoints)[i]).address
                == endpoints[i].address@ && endpoints_view(endpoints)[i].metadata
                == endpoints[i].metadata@,
{
}

/// A new endpoint has the address that it was made with, and no metadata.
pub proof fn law_new_endpoint(
    address: EndpointAddress,
    endpoint: Endpoint,
    key: String,
    found: Option<&Value>,
)
    requires
        call_ensures(Endpoint::new, (address,), endpoint),
        call_ensures(Metadata::get, (&endpoint.metadata, &key), found),
    ensures
        endpoint.address@ == address@,
        endpoint.wf(),
        found is None,
{
}

/// Two endpoints are the same if and only if their addresses are and their
/// metadata is.
pub proof fn law_same_endpoint(
    a: Endpoint,
    b: Endpoint,
    same: bool,
    same_address: bool,
    same_metadata: bool,
)
    requires
        a.wf(),
        b.wf(),
        call_ensures(Endpoint::same, (&a, &b), same),
        call_ensures(EndpointAddress::same, (&a.address, &b.address), same_address),
        call_ensures(Metadata::same, (&a.metadata, &b.metadata), same_metadata),
    ensures
        call_requires(Endpoint::same, (&a, &b)),
        same == (same_address && same_metadata),
{
}

/// Two lists of endpoints are the same if and only if they are equally long and
/// each endpoint of one is the same as the other's at the same place.
pub proof fn law_same_endpoints(a: Vec<Endpoint>, b: Vec<Endpoint>, same: bool)
    requires
        forall|i: int| 0 <= i < a@.len() ==> (#[trigger] a@[i]).metadata.wf(),
        forall|i: int| 0 <= i < b@.len() ==> (#[trigger] b@[i]).metadata.wf(),
        call_ensures(same_endpoints, (&a, &b), same),
    ensures
        call_requires(same_endpoints, (&a, &b)),
        same <==> a@.len() == b@.len() && forall|i: int|
            0 <= i < a@.len() ==> (#[trigger] a@[i]).address@ == b@[i].address@
                && a@[i].metadata@ == b@[i].metadata@,
{
    if same {
        assert forall|i: int| 0 <= i < a@.len() implies (#[trigger] a@[i]).address@
            == b@[i].address@ && a@[i].metadata@ == b@[i].metadata@ by {
            assert(endpoints_view(a@)[i] == endpoints_view(b@)[i]);
        }
    } else if a@.len() == b@.len() && forall|i: int|
        0 <= i < a@.len() ==> (#[trigger] a@[i]).address@ == b@[i].address@ && a@[i].metadata@
            == b@[i].metadata@ {
        assert(endpoints_view(a@) =~= endpoints_view(b@));
    }
}

} // verus!
