//! What a server can answer to a password.

use vstd::prelude::*;

verus! {

/// The possible results of an authentication.
#[derive(Debug, Clone, Copy, PartialEq, Eq, Structural)]
pub enum AuthResponse {
    /// The server accepted the password.
    AuthenticationSucceeded,
    /// The server rejected the password.
    AuthenticationFailed,
}

} // verus!
