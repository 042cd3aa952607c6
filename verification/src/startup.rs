//! What the running service shares between its requests.

use vstd::prelude::*;

verus! {

/// The address under which the service is reached from outside, as the
/// confirmation links carry it.
#[derive(Debug, Clone)]
pub struct ApplicationBaseUrl(pub String);

} // verus!
