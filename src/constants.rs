use vstd::prelude::*;

verus! {

/// Stored size of an account identity, in bytes.
pub const PUBKEY_SIZE: usize = 32;

/// Stored size of a `u64`, in bytes.
pub const U64_SIZE: usize = 8;

} // verus!
