//! The unified device record.
use vstd::prelude::*;

use crate::name::nul_free;
use crate::status::{check, check_spec, Status};

verus! {

/// What a device record holds, as plain values.
pub struct DeviceModel {
    pub arch_name: Seq<u8>,
    pub identity: u64,
    pub primary_context: u64,
}

/// One device: its vendor-reported architecture name, the backend identity it
/// was enumerated under (an ordinal or an opaque handle), and the handle of
/// the primary context it owns.
pub struct Device {
    arch_name: Vec<u8>,
    identity: u64,
    primary_context: u64,
}

impl View for Device {
    type V = DeviceModel;

    closed spec fn view(&self) -> DeviceModel {
        DeviceModel {
            arch_name: self.arch_name@,
            identity: self.identity,
            primary_context: self.primary_context,
        }
    }
}

/// A complete device: a NUL-free name and a non-null primary context.
pub open spec fn device_model_wf(d: DeviceModel) -> bool {
    nul_free(d.arch_name) && d.primary_context != 0
}

/// The outcome of building a device once its name is known: the context
/// creation's own failure first, then a null context, which is `Unknown`.
pub open spec fn make_device_spec(arch_name: Seq<u8>, identity: u64, ctx_code: u32, ctx: u64) -> Result<DeviceModel, Status> {
    match check_spec(ctx_code) {
        Err(e) => Err(e),
        Ok(_) => if ctx == 0 {
            Err(Status::Unknown)
        } else {
            Ok(DeviceModel { arch_name, identity, primary_context: ctx })
        },
    }
}

impl Device {
    pub open spec fn wf(&self) -> bool {
        device_model_wf(self@)
    }

    /// Assembles a device from its name and the result of creating its
    /// primary context.
    pub fn new(arch_name: Vec<u8>, identity: u64, ctx_code: u32, ctx: u64) -> (r: Result<Device, Status>)
        requires
            nul_free(arch_name@),
        ensures
            r matches Ok(d) ==> d.wf() && make_device_spec(arch_name@, identity, ctx_code, ctx) == Ok::<DeviceModel, Status>(d@),
            r matches Err(e) ==> make_device_spec(arch_name@, identity, ctx_code, ctx) == Err::<DeviceModel, Status>(e),
    {
        match check(ctx_code) {
            Err(e) => Err(e),
            Ok(()) => {
                if ctx == 0 {
                    Err(Status::Unknown)
                } else {
                    Ok(Device { arch_name, identity, primary_context: ctx })
                }
            },
        }
    }

    /// The architecture name, without its terminator.
    pub fn arch_name(&self) -> (r: &Vec<u8>)
        ensures
            r@ == self@.arch_name,
    {
        &self.arch_name
    }

    /// The identity the backend enumerated this device under.
    pub fn identity(&self) -> (r: u64)
        ensures
            r == self@.identity,
    {
        self.identity
    }

    /// The handle of the device's primary context.
    pub fn primary_context(&self) -> (r: u64)
        ensures
            r == self@.primary_context,
    {
        self.primary_context
    }
}

} // verus!
