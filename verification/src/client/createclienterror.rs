//! The error of creating a client.
use vstd::prelude::*;

verus! {

/// Creating a client failed.
#[derive(Debug)]
pub struct CreateClientError;

} // verus!
