//! Normalization of vendor-specific field names into a canonical
//! schema. The mapping table is empty, so records pass through
//! unchanged; the facade routes every record list through this hook so
//! that canonical mappings have one place to live.

use vstd::prelude::*;
use crate::records::Record;

verus! {

/// Applies the canonical field mapping for a command key to parsed
/// records. With the empty mapping table this is the identity.
pub fn normalize(command_key: &str, records: Vec<Record>) -> (r: Vec<Record>)
    ensures
        r == records,
{
    let _ = command_key;
    records
}

} // verus!
