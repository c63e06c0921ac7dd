//! The driver facade: initialization once per driver object, the version
//! query and device lookup.
use vstd::prelude::*;

use crate::backend::Backend;
use crate::device::Device;
use crate::state::{state_model_wf, GlobalState, StateModel};
use crate::status::{check, check_spec, Status};

verus! {

/// The driver API version this core reports.
pub const DRIVER_VERSION: i32 = 12040;

/// Writes the driver API version; needs no backend and always succeeds.
pub fn get_version(version: &mut i32) -> (r: Result<(), Status>)
    ensures
        *final(version) == DRIVER_VERSION,
        r is Ok,
{
    *version = DRIVER_VERSION;
    Ok(())
}

/// The memoized construction: nothing yet, or the state built, or the error
/// that ended its construction.
pub type DriverModel = Option<Result<StateModel, Status>>;

/// What a caller of the memoized construction sees.
pub open spec fn outcome(m: DriverModel) -> Result<(), Status> {
    match m {
        Some(Err(e)) => Err(e),
        _ => Ok(()),
    }
}

/// The process-scoped driver: uninitialized, then, once and for good, holding
/// the result of building the global state.
pub struct Driver {
    state: Option<Result<GlobalState, Status>>,
}

impl View for Driver {
    type V = DriverModel;

    closed spec fn view(&self) -> DriverModel {
        match self.state {
            None => None,
            Some(Ok(s)) => Some(Ok(s@)),
            Some(Err(e)) => Some(Err(e)),
        }
    }
}

impl Driver {
    pub open spec fn wf(&self) -> bool {
        self@ matches Some(Ok(m)) ==> state_model_wf(m)
    }

    /// A driver that has not built its state yet.
    pub fn new() -> (r: Driver)
        ensures
            r@ is None,
            r.wf(),
    {
        Driver { state: None }
    }

    /// Whether the state has been built (or has failed to build).
    pub fn is_initialized(&self) -> (r: bool)
        ensures
            r == self@ is Some,
    {
        self.state.is_some()
    }

    /// Drops the memoized state, so that the next initialization builds anew.
    pub fn reset(&mut self)
        ensures
            final(self)@ is None,
            final(self).wf(),
    {
        self.state = None;
    }

    /// Builds the global state on first use and returns the memoized outcome
    /// ever after, without consulting the backend again.
    pub fn ensure_built<B: Backend>(&mut self, backend: &mut B) -> (r: Result<(), Status>)
        requires
            old(self).wf(),
        ensures
            final(self).wf(),
            final(self)@ is Some,
            old(self)@ is Some ==> final(self)@ == old(self)@,
            r == outcome(final(self)@),
    {
        if self.state.is_none() {
            self.state = Some(GlobalState::build(backend));
        }
        match &self.state {
            Some(Err(e)) => Err(*e),
            _ => Ok(()),
        }
    }

    /// Initialization once the runtime has answered with `runtime_code`: a
    /// runtime failure is returned as it is and leaves the driver untouched;
    /// otherwise the state is built if it was not, and its memoized outcome
    /// is returned.
    pub fn init_after_runtime<B: Backend>(&mut self, runtime_code: u32, backend: &mut B) -> (r:
        Result<(), Status>)
        requires
            old(self).wf(),
        ensures
            final(self).wf(),
            check_spec(runtime_code) matches Err(e) ==> r == Err::<(), Status>(e) && final(self)@
                == old(self)@,
            check_spec(runtime_code) is Ok ==> final(self)@ is Some && r == outcome(final(self)@),
            old(self)@ is Some ==> final(self)@ == old(self)@,
    {
        match check(runtime_code) {
            Err(e) => Err(e),
            Ok(()) => self.ensure_built(backend),
        }
    }

    /// Brings the backend runtime up with `flags`, then builds the global
    /// state if it was not built. A state once built, or its failure, is kept
    /// by every later call.
    pub fn init<B: Backend>(&mut self, backend: &mut B, flags: u32) -> (r: Result<(), Status>)
        requires
            old(self).wf(),
        ensures
            final(self).wf(),
            old(self)@ is Some ==> final(self)@ == old(self)@,
            final(self)@ is None ==> r is Err,
            r is Ok ==> final(self)@ matches Some(Ok(_)),
            old(self)@ is None ==> (final(self)@ matches Some(Err(e)) ==> r == Err::<(), Status>(e)),
            old(self)@ matches Some(Err(_)) ==> r is Err,
    {
        let code = backend.initialize_runtime(flags);
        self.init_after_runtime(code, backend)
    }

    /// The device at `ordinal`, building the global state first if needed. A
    /// failed construction answers every ordinal with its error; a built one
    /// answers `InvalidDevice` outside `0..device_count`.
    pub fn device<B: Backend>(&mut self, backend: &mut B, ordinal: i32) -> (r: Result<&Device, Status>)
        requires
            old(self).wf(),
        ensures
            final(self).wf(),
            final(self)@ is Some,
            old(self)@ is Some ==> final(self)@ == old(self)@,
            final(self)@ matches Some(Err(e)) ==> r == Err::<&Device, Status>(e),
            final(self)@ matches Some(Ok(m)) ==> {
                &&& r is Ok <==> 0 <= ordinal < m.devices.len()
                &&& r matches Ok(d) ==> d@ == m.devices[ordinal as int]
                &&& r matches Err(e) ==> e == Status::InvalidDevice
            },
    {
        let _ = self.ensure_built(backend);
        match &self.state {
            Some(Ok(s)) => s.device(ordinal),
            Some(Err(e)) => Err(*e),
            None => Err(Status::Unknown),
        }
    }

    /// The number of devices, once the state has been built.
    pub fn device_count(&self) -> (r: Option<usize>)
        ensures
            self@ matches Some(Ok(m)) ==> r == Some(m.devices.len() as usize),
            !(self@ matches Some(Ok(_))) ==> r is None,
    {
        match &self.state {
            Some(Ok(s)) => Some(s.device_count()),
            _ => None,
        }
    }

    /// The device a backend handle was registered to during construction;
    /// before a successful construction every handle is `InvalidDevice`.
    pub fn lookup_by_handle(&self, handle: u64) -> (r: Result<&Device, Status>)
        requires
            self.wf(),
        ensures
            !(self@ matches Some(Ok(_))) ==> r == Err::<&Device, Status>(Status::InvalidDevice),
            self@ matches Some(Ok(m)) ==> {
                &&& r is Ok <==> m.registry.contains_key(handle)
                &&& r matches Ok(d) ==> d@ == m.devices[m.registry[handle] as int] && d@.identity
                    == handle
                &&& r matches Err(e) ==> e == Status::InvalidDevice
            },
    {
        match &self.state {
            Some(Ok(s)) => s.lookup_by_handle(handle),
            _ => Err(Status::InvalidDevice),
        }
    }
}

} // verus!
