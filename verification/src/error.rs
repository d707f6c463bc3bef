//! The errors of setting up a capture.

use vstd::prelude::*;

verus! {

/// The operating system's I/O error. Nothing of its contents is visible
/// to the proofs; a value is only carried to the caller.
#[verifier::external_type_specification]
#[verifier::external_body]
pub struct ExIoError(std::io::Error);

/// The platform's error number as `nix` reports it. Nothing of its
/// contents is visible to the proofs; a value is only carried to the
/// caller.
#[verifier::external_type_specification]
#[verifier::external_body]
pub struct ExErrno(nix::errno::Errno);

/// Why a capture could not be set up.
///
/// Neither kind is transient: nothing is retried, and the caller has to
/// remedy the cause (grant the privilege, bring the interface up) before
/// trying again.
#[derive(Debug)]
pub enum AirCapError {
    /// The capture resource itself failed at the level of I/O.
    IOError(std::io::Error),
    /// The platform refused to bind the resource: the interface is
    /// missing, the privilege is, or the interface's index was not found.
    NixError(nix::errno::Errno),
}

pub type AirCapResult<T> = Result<T, AirCapError>;

} // verus!
