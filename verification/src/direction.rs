//! Directions of readiness and registration tokens.

use vstd::prelude::*;

verus! {

/// One of the two directions in which a socket can become ready.
#[derive(Clone, Copy, Debug, PartialEq, Eq, Hash, Structural)]
pub enum Direction {
    Read,
    Write,
}

/// The identifier under which one socket is registered.
///
/// A token is assigned at registration and names the socket's source for as
/// long as the registration lives.
#[derive(Clone, Copy, Debug, PartialEq, Eq, Hash, Structural)]
pub struct Token(pub usize);

} // verus!
