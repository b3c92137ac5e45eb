use vstd::prelude::*;

verus! {

/// Container status: the container was published.
pub const CONTAINER_STATUS_PUBLISHED: &'static str = "PUBLISHED";

/// Container status: processing failed; the container will not be published.
pub const CONTAINER_STATUS_ERROR: &'static str = "ERROR";

/// Container status: the container was not published in time and never will be.
pub const CONTAINER_STATUS_EXPIRED: &'static str = "EXPIRED";

} // verus!
