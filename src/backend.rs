//! The capability set a vendor runtime offers the core, and the decisions the
//! two addressing models make on what their runtime reports.
use vstd::prelude::*;

use crate::status::{check, check_spec, Status};

verus! {

/// How a backend addresses its devices.
#[derive(Clone, Copy, Debug, PartialEq, Eq, Structural)]
pub enum BackendKind {
    /// Devices are the integers `0..count`.
    Ordinal,
    /// Devices are opaque handles; the core keeps a reverse lookup for them.
    Handle,
}

/// A vendor runtime behind the core. Every status it reports is a
/// backend-native result code, which the core translates.
pub trait Backend {
    /// The addressing model of this runtime.
    fn kind(&self) -> BackendKind;

    /// Brings the runtime up; `flags` may be ignored where the runtime has no
    /// such notion. Returns a native result code.
    fn initialize_runtime(&mut self, flags: u32) -> u32;

    /// The identities of the devices, in enumeration order, or the error that
    /// stopped the enumeration (see `ordinal_identities` and `first_group`).
    fn enumerate_devices(&mut self) -> Result<Vec<u64>, Status>;

    /// Fills the fixed-size property structure of a device; returns the
    /// native result code and the structure's name bytes.
    fn query_properties(&mut self, identity: u64) -> (u32, Vec<u8>);

    /// Creates and initializes the primary context of a device; returns the
    /// native result code and the context's handle.
    fn make_primary_context(&mut self, identity: u64) -> (u32, u64);
}

/// Ordinal addressing: a successful count query of `count` devices names the
/// devices `0..count` (a negative count names none).
pub fn ordinal_identities(code: u32, count: i32) -> (r: Result<Vec<u64>, Status>)
    ensures
        check_spec(code) matches Err(e) ==> r == Err::<Vec<u64>, Status>(e),
        check_spec(code) is Ok ==> r is Ok,
        r matches Ok(v) ==> v@.len() == (if count < 0 { 0 } else { count as int }) && forall|i: int|
            0 <= i < v@.len() ==> #[trigger] v@[i] == i as u64,
{
    match check(code) {
        Err(e) => Err(e),
        Ok(()) => {
            let mut v: Vec<u64> = Vec::new();
            let mut i: i32 = 0;
            while i < count
                invariant
                    0 <= i,
                    count >= 0 ==> i <= count,
                    count < 0 ==> i == 0,
                    v@.len() == i as int,
                    forall|j: int| 0 <= j < v@.len() ==> #[trigger] v@[j] == j as u64,
                decreases count - i,
            {
                v.push(i as u64);
                i = i + 1;
            }
            Ok(v)
        },
    }
}

/// Handle addressing: the devices are enumerated within the first device group
/// the runtime lists; no group at all means there is no device.
pub fn first_group(code: u32, groups: &[u64]) -> (r: Result<u64, Status>)
    ensures
        check_spec(code) matches Err(e) ==> r == Err::<u64, Status>(e),
        check_spec(code) is Ok && groups@.len() == 0 ==> r == Err::<u64, Status>(Status::NoDevice),
        check_spec(code) is Ok && groups@.len() > 0 ==> r == Ok::<u64, Status>(groups@[0]),
{
    match check(code) {
        Err(e) => Err(e),
        Ok(()) => {
            if groups.len() == 0 {
                Err(Status::NoDevice)
            } else {
                Ok(groups[0])
            }
        },
    }
}

} // verus!
