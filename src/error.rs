use vstd::prelude::*;

verus! {

/// A system error, carried through unchanged.
#[verifier::external_type_specification]
#[verifier::external_body]
pub struct ExIoError(std::io::Error);

/// What can go wrong in the framework.
#[derive(Debug)]
pub enum Error {
    /// The named interface has no address on this system.
    InterfaceNotFound(String),
    /// The interface name is empty or only white space.
    InvalidInterfaceName(String),
    /// A system call failed.
    Io(std::io::Error),
    /// No candidate address could be bound.
    NoAddrAvailable,
    /// A service reported that it cannot go on.
    ServiceFailure(String),
}

} // verus!
