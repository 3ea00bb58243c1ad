//! Presentation of a server record's stored state.

use vstd::prelude::*;

verus! {

/// The label reported for a server record's online flag.
pub fn status_label(is_online: bool) -> (r: &'static str)
    ensures
        is_online ==> r@ == "online"@,
        !is_online ==> r@ == "offline"@,
{
    if is_online {
        "online"
    } else {
        "offline"
    }
}

} // verus!
