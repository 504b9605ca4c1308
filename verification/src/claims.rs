use vstd::prelude::*;

verus! {

/// `indexmap::IndexMap`, the ordered map that holds attestation claims.
#[verifier::external_type_specification]
#[verifier::external_body]
#[verifier::reject_recursive_types(K)]
#[verifier::reject_recursive_types(V)]
#[verifier::reject_recursive_types(S)]
pub struct ExIndexMap<K, V, S>(indexmap::IndexMap<K, V, S>);

/// Claims bound into an attested certificate: names and their byte values, in insertion order.
pub type Claims = indexmap::IndexMap<String, Vec<u8>>;

/// The entries of a claims map, in the map's order, each name and value taken by its view.
pub uninterp spec fn claims_entries(claims: Claims) -> Seq<(Seq<char>, Seq<u8>)>;

/// Calls `indexmap::IndexMap::new`; trusted to give a map without entries, as the
/// crate's documentation of `new` says ("Create a new map").
#[verifier::external_body]
pub(crate) fn empty_claims() -> (c: Claims)
    ensures
        claims_entries(c) == Seq::<(Seq<char>, Seq<u8>)>::empty(),
{
    indexmap::IndexMap::new()
}

} // verus!
