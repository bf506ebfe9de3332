//! The service registry: a context object owning the single live service
//! handle.
//!
//! The embedding layer keeps one registry per process behind its lock and
//! talks to the network engine; every engine reply enters here as a plain
//! value, so each operation is verified for every reply the engine could
//! give.

use vstd::prelude::*;

verus! {

/// A live network-service instance, as the registry sees it: the local
/// SOCKS proxy port and the engine's control endpoint (`"host:port"`).
#[derive(Clone, Debug)]
pub struct ServiceHandle {
    pub socks_port: u16,
    pub control_endpoint: String,
}

/// What the engine reported when asked for its bootstrap phase: the terminal
/// phase, some non-terminal phase, or an error.
#[derive(Clone, Copy, Debug, PartialEq, Eq, Structural)]
pub enum PhaseReport {
    Done,
    InProgress,
    Failed,
}

/// The registry's three externally visible states.
#[derive(Clone, Copy, Debug, PartialEq, Eq, Structural)]
pub enum StatusCode {
    Ready,
    Bootstrapping,
    NotReady,
}

impl StatusCode {
    /// The numeric code external callers match on: ready 1, bootstrapping 0,
    /// not ready 2.
    pub fn code(&self) -> (r: u8)
        ensures
            *self == StatusCode::Ready ==> r == 1,
            *self == StatusCode::Bootstrapping ==> r == 0,
            *self == StatusCode::NotReady ==> r == 2,
    {
        match self {
            StatusCode::Ready => 1,
            StatusCode::Bootstrapping => 0,
            StatusCode::NotReady => 2,
        }
    }
}

/// The status a present handle gets for a given engine phase report.
pub open spec fn status_for_phase(phase: PhaseReport) -> StatusCode {
    match phase {
        PhaseReport::Done => StatusCode::Ready,
        PhaseReport::InProgress => StatusCode::Bootstrapping,
        PhaseReport::Failed => StatusCode::NotReady,
    }
}

/// Process-wide service state: whether one-time library setup ran, and the
/// at most one live service handle.
pub struct ServiceRegistry {
    pub initialized: bool,
    pub current_service: Option<ServiceHandle>,
}

/// The registry after one-time setup: the flag is armed, the handle slot is
/// untouched.
pub open spec fn after_initialize(s: ServiceRegistry) -> ServiceRegistry {
    ServiceRegistry { initialized: true, current_service: s.current_service }
}

impl ServiceRegistry {
    /// A fresh registry: setup has not run and no service exists.
    pub fn new() -> (r: ServiceRegistry)
        ensures
            !r.initialized,
            r.current_service is None,
    {
        ServiceRegistry { initialized: false, current_service: None }
    }

    /// One-time library setup.  Idempotent: the first call arms the
    /// initialized flag, every later call returns true without redoing
    /// anything; the flag is never reset.
    pub fn initialize_tor_library(&mut self) -> (r: bool)
        ensures
            r,
            *final(self) == after_initialize(*old(self)),
    {
        if self.initialized {
            return true;
        }
        self.initialized = true;
        true
    }

    /// Installs the handle the engine constructed, replacing any prior one.
    ///
    /// Fails without touching anything if library setup never ran, or if the
    /// engine's construction failed (`constructed` is `None`).  The embedding
    /// asks the engine to construct only after checking `initialized`.
    pub fn init_tor_service(&mut self, constructed: Option<ServiceHandle>) -> (r: bool)
        ensures
            !old(self).initialized ==> !r && *final(self) == *old(self),
            old(self).initialized && constructed is None ==> !r && *final(self) == *old(self),
            old(self).initialized && constructed is Some ==> r && final(self).initialized
                && final(self).current_service == constructed,
    {
        if !self.initialized {
            return false;
        }
        match constructed {
            Some(service) => {
                self.current_service = Some(service);
                true
            },
            None => false,
        }
    }

    /// The registry's status: not ready without a handle, otherwise decided
    /// by the phase the engine reported for the current handle.
    pub fn get_service_status(&self, phase: PhaseReport) -> (r: StatusCode)
        ensures
            self.current_service is None ==> r == StatusCode::NotReady,
            self.current_service is Some ==> r == status_for_phase(phase),
    {
        match &self.current_service {
            Some(_) => match phase {
                PhaseReport::Done => StatusCode::Ready,
                PhaseReport::InProgress => StatusCode::Bootstrapping,
                PhaseReport::Failed => StatusCode::NotReady,
            },
            None => StatusCode::NotReady,
        }
    }

    /// Removes a hidden service from the current handle.
    ///
    /// `address` is the onion address the embedding forwards to the engine;
    /// `engine_ok` is whether that engine call succeeded.  Without a handle
    /// the deletion fails and the engine is never consulted.
    #[allow(unused_variables)]
    pub fn delete_hidden_service(&self, address: String, engine_ok: bool) -> (r: bool)
        ensures
            r == (self.current_service is Some && engine_ok),
    {
        match &self.current_service {
            Some(_) => engine_ok,
            None => false,
        }
    }

    /// Removes and shuts down the current handle; a no-op returning false if
    /// none exists.  `engine_ok` is whether the engine's shutdown call
    /// succeeded.  The initialized flag is deliberately left armed.
    pub fn shutdown_service(&mut self, engine_ok: bool) -> (r: bool)
        ensures
            final(self).initialized == old(self).initialized,
            final(self).current_service is None,
            r == (old(self).current_service is Some && engine_ok),
    {
        match self.current_service.take() {
            Some(_) => engine_ok,
            None => false,
        }
    }
}

/// One-time setup is single-flight: a second setup finds the flag armed and
/// changes nothing, so the setup work happens at most once per registry.
pub proof fn lemma_initialize_idempotent(s: ServiceRegistry)
    ensures
        after_initialize(after_initialize(s)) == after_initialize(s),
        after_initialize(s).initialized,
        after_initialize(s).current_service == s.current_service,
{
}

} // verus!
