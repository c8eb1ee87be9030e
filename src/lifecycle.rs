//! Registration of a device with the host's device layer, from module load
//! to module unload.
//!
//! The host performs each registration request; this module decides, from
//! the current state and the host's reply, what the next state is and what
//! the host is asked to do next. A refusal at any point releases every minor
//! bound so far, so no partial registration outlives a failed load.

use vstd::prelude::*;
use crate::device::{read_spec, write_spec, DeviceKind};
use crate::error::Error;

verus! {

/// The largest number of minors one registration may bind.
pub const MAX_MINORS: usize = 2;

/// The registration record of a loaded module: a device name, the number
/// of minors asked for, the handler type, and how many minors are bound.
pub struct Registration {
    pub name: String,
    pub kind: DeviceKind,
    pub minor_count: usize,
    pub bound: usize,
}

impl Registration {
    pub open spec fn wf(&self) -> bool {
        &&& 1 <= self.minor_count <= MAX_MINORS
        &&& self.bound <= self.minor_count
    }

    pub open spec fn handler_spec(&self, minor: int) -> Option<DeviceKind> {
        if 0 <= minor < self.bound {
            Some(self.kind)
        } else {
            None
        }
    }

    /// The handler that answers on `minor`, if that minor is bound.
    pub fn handler(&self, minor: usize) -> (r: Option<DeviceKind>)
        ensures
            r == self.handler_spec(minor as int),
    {
        if minor < self.bound {
            Some(self.kind)
        } else {
            None
        }
    }

    /// Whether every minor asked for is bound.
    pub fn is_complete(&self) -> (r: bool)
        ensures
            r == (self.bound == self.minor_count),
    {
        self.bound == self.minor_count
    }
}

/// Where a module stands in its lifecycle.
pub enum ModuleState {
    /// Nothing is registered.
    Unregistered,
    /// The record exists and minors are being bound, one request at a time.
    Binding(Registration),
    /// Every minor is bound; the device nodes answer.
    Registered(Registration),
}

/// What the host reports to the lifecycle.
pub enum Event {
    /// The module is loaded and asks for `minors` nodes named `name`.
    Load { name: String, kind: DeviceKind, minors: usize },
    /// The host granted the last request.
    Granted,
    /// The host refused the last request.
    Refused,
    /// The module is unloaded.
    Unload,
}

/// What the host is asked to do next.
#[derive(Clone, Copy, Debug, PartialEq, Eq, Structural)]
pub enum Action {
    /// Bind the handler `kind` to minor number `minor`.
    Bind { minor: usize, kind: DeviceKind },
    /// Loading is done; the module is registered.
    Ready,
    /// Loading failed: release the first `release` minors and fail with `error`.
    Abort { release: usize, error: Error },
    /// Unloading: release the first `release` minors.
    Release { release: usize },
    /// The event does not apply in this state; nothing to do.
    Ignore,
}

impl ModuleState {
    pub open spec fn wf(&self) -> bool {
        match self {
            ModuleState::Unregistered => true,
            ModuleState::Binding(r) => r.wf() && r.bound < r.minor_count,
            ModuleState::Registered(r) => r.wf() && r.bound == r.minor_count,
        }
    }

    /// The state of a module before it is loaded.
    pub fn new() -> (r: ModuleState)
        ensures
            r == ModuleState::Unregistered,
    {
        ModuleState::Unregistered
    }

    /// Whether the module is registered.
    pub fn is_registered(&self) -> (r: bool)
        ensures
            r == (self is Registered),
    {
        match self {
            ModuleState::Registered(_) => true,
            _ => false,
        }
    }

    /// The registration record, once loading has begun.
    pub fn registration(&self) -> (r: Option<&Registration>)
        ensures
            r == match self {
                ModuleState::Unregistered => None,
                ModuleState::Binding(reg) => Some(reg),
                ModuleState::Registered(reg) => Some(reg),
            },
    {
        match self {
            ModuleState::Unregistered => None,
            ModuleState::Binding(reg) => Some(reg),
            ModuleState::Registered(reg) => Some(reg),
        }
    }
}

/// The next state and the next request, from a state and an event.
pub open spec fn step_spec(s: ModuleState, e: Event) -> (ModuleState, Action) {
    match s {
        ModuleState::Unregistered => match e {
            Event::Load { name, kind, minors } => {
                if 1 <= minors <= MAX_MINORS {
                    (
                        ModuleState::Binding(
                            Registration { name, kind, minor_count: minors, bound: 0 },
                        ),
                        Action::Bind { minor: 0, kind },
                    )
                } else {
                    (
                        ModuleState::Unregistered,
                        Action::Abort { release: 0, error: Error::RegistrationFailure },
                    )
                }
            },
            _ => (s, Action::Ignore),
        },
        ModuleState::Binding(r) => match e {
            Event::Granted => {
                let next = Registration {
                    name: r.name,
                    kind: r.kind,
                    minor_count: r.minor_count,
                    bound: (r.bound + 1) as usize,
                };
                if next.bound == next.minor_count {
                    (ModuleState::Registered(next), Action::Ready)
                } else {
                    (ModuleState::Binding(next), Action::Bind { minor: next.bound, kind: r.kind })
                }
            },
            Event::Refused => (
                ModuleState::Unregistered,
                Action::Abort { release: r.bound, error: Error::RegistrationFailure },
            ),
            _ => (s, Action::Ignore),
        },
        ModuleState::Registered(r) => match e {
            Event::Unload => (ModuleState::Unregistered, Action::Release { release: r.bound }),
            _ => (s, Action::Ignore),
        },
    }
}

/// Moves the lifecycle on by one event.
///
/// A load with a minor count from 1 to `MAX_MINORS` creates the record and
/// asks for minor 0; any other count is refused at once. Each grant binds
/// one more minor and asks for the next, until all are bound. A refusal
/// while binding drops the record and releases every minor bound so far.
/// An unload of a registered module releases all its minors.
pub fn step(s: ModuleState, e: Event) -> (r: (ModuleState, Action))
    requires
        s.wf(),
    ensures
        r == step_spec(s, e),
        r.0.wf(),
{
    match s {
        ModuleState::Unregistered => match e {
            Event::Load { name, kind, minors } => {
                if 1 <= minors && minors <= MAX_MINORS {
                    (
                        ModuleState::Binding(
                            Registration { name, kind, minor_count: minors, bound: 0 },
                        ),
                        Action::Bind { minor: 0, kind },
                    )
                } else {
                    (
                        ModuleState::Unregistered,
                        Action::Abort { release: 0, error: Error::RegistrationFailure },
                    )
                }
            },
            _ => (ModuleState::Unregistered, Action::Ignore),
        },
        ModuleState::Binding(r) => match e {
            Event::Granted => {
                let kind = r.kind;
                let next = Registration {
                    name: r.name,
                    kind: r.kind,
                    minor_count: r.minor_count,
                    bound: r.bound + 1,
                };
                if next.bound == next.minor_count {
                    (ModuleState::Registered(next), Action::Ready)
                } else {
                    let minor = next.bound;
                    (ModuleState::Binding(next), Action::Bind { minor, kind })
                }
            },
            Event::Refused => {
                let release = r.bound;
                (
                    ModuleState::Unregistered,
                    Action::Abort { release, error: Error::RegistrationFailure },
                )
            },
            _ => (ModuleState::Binding(r), Action::Ignore),
        },
        ModuleState::Registered(r) => match e {
            Event::Unload => {
                let release = r.bound;
                (ModuleState::Unregistered, Action::Release { release })
            },
            _ => (ModuleState::Registered(r), Action::Ignore),
        },
    }
}

/// Loading a handler on two minors succeeds when the host grants both
/// requests: the handler is bound to minor 0 and then to minor 1, and the
/// two minors then answer every read and write alike.
pub proof fn lemma_two_minors_one_handler(name: String, kind: DeviceKind)
    ensures
        ({
            let (s1, a1) = step_spec(
                ModuleState::Unregistered,
                Event::Load { name, kind, minors: 2 },
            );
            let (s2, a2) = step_spec(s1, Event::Granted);
            let (s3, a3) = step_spec(s2, Event::Granted);
            &&& a1 == Action::Bind { minor: 0, kind }
            &&& a2 == Action::Bind { minor: 1, kind }
            &&& a3 == Action::Ready
            &&& s3 is Registered
            &&& s3.wf()
            &&& s3->Registered_0.name == name
            &&& s3->Registered_0.handler_spec(0) == Some(kind)
            &&& s3->Registered_0.handler_spec(1) == Some(kind)
            &&& s3->Registered_0.handler_spec(2) is None
            &&& forall|offset: int, requested: int|
                read_spec(s3->Registered_0.handler_spec(0)->0, offset, requested)
                    == read_spec(s3->Registered_0.handler_spec(1)->0, offset, requested)
            &&& forall|data: Seq<u8>|
                write_spec(s3->Registered_0.handler_spec(0)->0, data)
                    == write_spec(s3->Registered_0.handler_spec(1)->0, data)
        }),
{
}

/// A refusal while minors are being bound ends the load: nothing stays
/// registered, and exactly the minors bound so far are released.
pub proof fn lemma_refusal_leaves_nothing(s: ModuleState)
    requires
        s.wf(),
        s is Binding,
    ensures
        step_spec(s, Event::Refused) == (
            ModuleState::Unregistered,
            Action::Abort { release: s->Binding_0.bound, error: Error::RegistrationFailure },
        ),
{
}

} // verus!
