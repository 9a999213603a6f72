use vstd::prelude::*;

verus! {

/// Minimum remaining lifetime, in ledgers, below which a stored entry is extended.
pub const TTL_THRESHOLD: u32 = 518400;

/// Lifetime, in ledgers, to which a stored entry is extended.
pub const TTL_EXTEND_TO: u32 = 1036800;

/// Maximum length of an invoice description, in bytes.
pub const MAX_DESCRIPTION_LEN: u32 = 256;

/// Maximum length of an invoice metadata URI, in bytes.
pub const MAX_METADATA_URI_LEN: u32 = 256;

/// Largest amount an invoice may ask for, in the token's smallest unit.
pub const MAX_INVOICE_AMOUNT: i128 = 10_000_000_000_000;

} // verus!
