//! Declarations of the outside and std types that flow through the library
//! without being inspected by it.
use vstd::prelude::*;

verus! {

/// `ahash::AHashMap`, the hash map the block-list and the log buffers keep
/// their per-key state in.  Opaque: what a map holds is described by the
/// table-specific names in the modules that use it.
#[verifier::external_type_specification]
#[verifier::external_body]
#[verifier::reject_recursive_types(K)]
#[verifier::reject_recursive_types(V)]
#[verifier::reject_recursive_types(S)]
pub struct ExAHashMap<K, V, S>(ahash::AHashMap<K, V, S>);

/// `ahash::RandomState`, the default hasher of `ahash::AHashMap`.
#[verifier::external_type_specification]
#[verifier::external_body]
pub struct ExAHashRandomState(ahash::RandomState);

/// `std::io::Error`, carried by transport errors.
#[verifier::external_type_specification]
#[verifier::external_body]
pub struct ExIoError(std::io::Error);

} // verus!
