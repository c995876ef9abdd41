use vstd::prelude::*;

verus! {

/// The backend's port under the fixed-port policy: an unregistered number,
/// the same on every run.
pub const BACKEND_PORT: u16 = 17293;

/// The lowest port that the dynamic policy accepts. This is only a floor that
/// rejects the ports reserved for well-known services; the range from which
/// operating systems hand out free ports lies well above it, and varies from
/// one system to another.
pub const UNRESERVED_PORT_MIN: u16 = 1024;

/// How the backend's port is chosen.
#[derive(Clone, Copy, PartialEq, Eq, Structural, Debug)]
pub enum PortPolicy {
    /// Always [`BACKEND_PORT`].
    Fixed,
    /// A free port that the operating system offers.
    Dynamic,
}

/// Why no port could be chosen.
#[derive(Clone, Copy, PartialEq, Eq, Structural, Debug)]
pub enum PortError {
    /// The operating system offered no usable free port.
    NoFreePort,
}

pub open spec fn is_unreserved_port(p: u16) -> bool {
    p >= UNRESERVED_PORT_MIN
}

/// The port chosen under `policy`, where `offered` is the free port that the
/// operating system handed out, if it did.
pub open spec fn chosen_port(policy: PortPolicy, offered: Option<u16>) -> Result<u16, PortError> {
    match policy {
        PortPolicy::Fixed => Ok(BACKEND_PORT),
        PortPolicy::Dynamic => match offered {
            Some(p) => if is_unreserved_port(p) {
                Ok(p)
            } else {
                Err(PortError::NoFreePort)
            },
            None => Err(PortError::NoFreePort),
        },
    }
}

/// Chooses the port for the backend. Under the dynamic policy, failing to
/// get one is fatal to startup.
pub fn resolve_port(policy: PortPolicy, offered: Option<u16>) -> (r: Result<u16, PortError>)
    ensures
        r == chosen_port(policy, offered),
{
    match policy {
        PortPolicy::Fixed => Ok(BACKEND_PORT),
        PortPolicy::Dynamic => match offered {
            Some(p) => if p >= UNRESERVED_PORT_MIN {
                Ok(p)
            } else {
                Err(PortError::NoFreePort)
            },
            None => Err(PortError::NoFreePort),
        },
    }
}

/// The fixed policy gives the same port whatever the system offers; the
/// dynamic policy gives the offered port, which is never a reserved one, or
/// fails when there is none.
pub proof fn lemma_port_policies(a: Option<u16>, b: Option<u16>)
    ensures
        chosen_port(PortPolicy::Fixed, a) == chosen_port(PortPolicy::Fixed, b),
        chosen_port(PortPolicy::Fixed, a) == Ok::<u16, PortError>(BACKEND_PORT),
        chosen_port(PortPolicy::Dynamic, a) is Ok ==> a == Some(
            chosen_port(PortPolicy::Dynamic, a)->Ok_0,
        ) && is_unreserved_port(chosen_port(PortPolicy::Dynamic, a)->Ok_0),
        a is None ==> chosen_port(PortPolicy::Dynamic, a) == Err::<u16, PortError>(
            PortError::NoFreePort,
        ),
{
}

/// The port on which the backend listens, as the rest of the application
/// reads it.
pub struct BackendPort {
    port: u16,
}

impl BackendPort {
    pub closed spec fn value(&self) -> u16 {
        self.port
    }

    /// Holds the fixed port until startup chooses one.
    pub fn new() -> (r: BackendPort)
        ensures
            r.value() == BACKEND_PORT,
    {
        BackendPort { port: BACKEND_PORT }
    }

    pub fn get(&self) -> (r: u16)
        ensures
            r == self.value(),
    {
        self.port
    }

    /// Records the port passed to the backend.
    pub fn set(&mut self, port: u16)
        ensures
            final(self).value() == port,
    {
        self.port = port;
    }
}

/// The slot that holds the handle of the running backend, if any.
pub struct SidecarState<H> {
    child: Option<H>,
}

/// The slot after an attempt to store `handle`, and the handle handed back
/// when the slot was taken: a second one is never stored beside the first.
pub open spec fn installed<H>(slot: Option<H>, handle: H) -> (Option<H>, Option<H>) {
    match slot {
        Some(h) => (Some(h), Some(handle)),
        None => (Some(handle), None),
    }
}

impl<H> SidecarState<H> {
    pub closed spec fn slot(&self) -> Option<H> {
        self.child
    }

    /// An empty slot.
    pub fn new() -> (r: SidecarState<H>)
        ensures
            r.slot() is None,
    {
        SidecarState { child: None }
    }

    pub fn is_running(&self) -> (r: bool)
        ensures
            r == self.slot() is Some,
    {
        self.child.is_some()
    }

    /// Stores the handle of a freshly spawned backend. When a handle is
    /// stored already, the slot keeps it and the new one comes back as the
    /// error, for the caller to kill.
    pub fn install(&mut self, handle: H) -> (r: Result<(), H>)
        ensures
            (final(self).slot(), match r {
                Ok(_) => None,
                Err(h) => Some(h),
            }) == installed(old(self).slot(), handle),
    {
        if self.child.is_some() {
            Err(handle)
        } else {
            self.child = Some(handle);
            Ok(())
        }
    }

    /// Hands out the stored handle, for shutdown, and empties the slot.
    pub fn take(&mut self) -> (r: Option<H>)
        ensures
            r == old(self).slot(),
            final(self).slot() is None,
    {
        self.child.take()
    }
}

/// One backend at a time: storing a handle in an empty slot leaves exactly
/// that handle there, storing one in a full slot leaves the slot as it was
/// and hands the new handle back, and shutdown hands out the stored handle
/// once and leaves the slot empty.
pub proof fn lemma_single_handle<H>(slot: Option<H>, handle: H)
    ensures
        slot is None ==> installed(slot, handle) == (Some(handle), None::<H>),
        slot is Some ==> installed(slot, handle) == (slot, Some(handle)),
        installed(slot, handle).0 is Some,
{
}

} // verus!
