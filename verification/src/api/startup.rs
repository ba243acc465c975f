//! What the service knows of its own address.

use vstd::prelude::*;

verus! {

/// The address under which the service is reached from outside.
#[derive(Debug)]
pub struct ApplicationBaseUrl(pub String);

/// The port on which the service listens.
#[derive(Debug)]
pub struct ApplicationPort(pub u16);

} // verus!
