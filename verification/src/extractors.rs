//! The JSON request and response wrapper of the HTTP handlers.

use vstd::prelude::*;

verus! {

/// A value carried as the JSON body of a request or a response.
#[derive(Debug, Clone)]
pub struct Json<T>(pub T);

} // verus!
