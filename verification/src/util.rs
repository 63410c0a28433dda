//! Specifications of the standard library functions the library relies on.
use vstd::prelude::*;

use std::sync::Arc;

verus! {

/// `Arc::clone`: a new pointer to the same value; the value is not copied.
#[verifier::external_body]
pub(crate) fn arc_clone<T>(a: &Arc<T>) -> (res: Arc<T>)
    ensures
        res == *a,
{
    a.clone()
}

} // verus!
