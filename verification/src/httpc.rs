//! The one piece of the HTTP convenience layer that belongs to this crate's
//! surface: the marker for plain value types accepted as a request body.
//!
//! The HTTP layer itself — client configuration, headers, dispatch of GET and
//! POST calls — is glue around an outside HTTP client and lives with the
//! transport code, outside this library.
use vstd::prelude::*;

verus! {

/// Marker for the plain value types a request body may be built from.
pub trait GenHttpClientBody {

}

impl GenHttpClientBody for &'static str {

}

impl GenHttpClientBody for String {

}

impl GenHttpClientBody for Vec<u8> {

}

} // verus!
