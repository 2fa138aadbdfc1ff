//! Views of optional values.

use vstd::prelude::*;

verus! {

/// The view of what an option holds, if it holds anything.
pub open spec fn option_view<T: View>(value: Option<T>) -> Option<T::V> {
    match value {
        Some(inner) => Some(inner@),
        None => None,
    }
}

} // verus!
