//! The ways in which a connection or the start of the process can fail.

use vstd::prelude::*;

verus! {

/// Why a connection ended. Each is local to its connection: it ends that
/// connection and nothing else, and nothing is tried again.
#[derive(Clone, Copy, Debug, PartialEq, Eq, Structural)]
pub enum ProtocolError {
    /// A read or a write failed, or gave fewer bytes than asked for.
    Io,
    /// The peer's key block is not a public key, or a key cannot be used.
    MalformedKey,
    /// The plaintext does not fit in one block.
    PlaintextTooLarge,
    /// A block could not be decrypted. The cause is not told apart on purpose.
    Decryption,
    /// The peer's confirmation does not start with the expected token.
    TokenMismatch,
}

/// The key pair of the process could not be generated.
#[derive(Clone, Copy, Debug, PartialEq, Eq, Structural)]
pub struct KeyGenerationError {}

} // verus!
