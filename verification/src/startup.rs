//! Configuration values the request handlers need.

use vstd::prelude::*;

verus! {

/// The public base URL of the running application; confirmation links are
/// built against it.
pub struct ApplicationBaseUrl(pub String);

} // verus!
