//! Vertex attribute lookup.
use vstd::prelude::*;

verus! {

/// What a lookup yields, given the location that the driver returned for the
/// name and the driver's error code read right after the query (zero: no
/// error).
///
/// Any pending error, whether the name is unknown or something else went wrong,
/// makes the attribute absent.
pub open spec fn lookup_result(location: i32, error: u32) -> Option<u32> {
    if error != 0 {
        None
    } else {
        Some(location as u32)
    }
}

/// Turns the answers to an attribute-location query into the attribute's slot.
///
/// With no error flagged the location is handed back as an unsigned slot
/// number; a flagged error means the attribute is absent.
pub fn location_from_query(location: i32, error: u32) -> (r: Option<u32>)
    ensures
        r == lookup_result(location, error),
        error != 0 ==> r is None,
        error == 0 && location >= 0 ==> (r matches Some(slot) && slot as int == location as int),
{
    if error != 0 {
        None
    } else {
        Some(location as u32)
    }
}

} // verus!
