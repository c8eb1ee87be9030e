//! Errors of the devices and of their registration.

use vstd::prelude::*;

verus! {

/// The ways a device operation or a registration can fail.
#[derive(Clone, Copy, Debug, PartialEq, Eq, Structural)]
pub enum Error {
    /// The host refused a registration (name taken, no resources left).
    RegistrationFailure,
    /// A caller-supplied buffer could not be copied to or from.
    IoFault,
}

} // verus!
