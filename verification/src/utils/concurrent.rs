//! The concurrent map that the tables of the engines are kept in.

use dashmap::DashMap;
use vstd::prelude::*;

verus! {

/// `dashmap::DashMap`, as an opaque type. What a map holds is named where
/// the map is used: `slots_of` for the correlation table of a client,
/// `connections_of` for the connections of a server.
#[verifier::external_type_specification]
#[verifier::external_body]
#[verifier::reject_recursive_types(K)]
#[verifier::reject_recursive_types(V)]
#[verifier::reject_recursive_types(S)]
pub struct ExDashMap<K, V, S>(DashMap<K, V, S>);

} // verus!
