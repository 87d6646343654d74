//! Fresh identifiers.

use uuid::Uuid;
use vstd::prelude::*;

verus! {

/// `Uuid::new_v4`, written as text: a fresh random identifier. Nothing is
/// claimed of it.
#[verifier::external_body]
pub(crate) fn fresh_uuid() -> String {
    Uuid::new_v4().to_string()
}

} // verus!
