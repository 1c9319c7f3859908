//! Request extractors: each holds what was read from one part of a request
//! (the path, the query string, a JSON body). Reading them, and answering a
//! request that cannot be read, is the web framework's work.
use vstd::prelude::*;

verus! {

/// Values read from the request path.
#[derive(Debug, PartialEq, Eq)]
pub struct Path<T>(pub T);

/// Values read from the query string.
#[derive(Debug, PartialEq, Eq)]
pub struct Query<T>(pub T);

/// A value read from, or answered as, a JSON body.
#[derive(Debug, PartialEq, Eq)]
pub struct Json<T>(pub T);

} // verus!
