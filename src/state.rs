//! The device sequence built once from a backend, with the reverse lookup from
//! backend handles to devices.
use vstd::prelude::*;
use vstd::hash_map::HashMapWithView;

use crate::backend::{Backend, BackendKind};
use crate::device::{device_model_wf, make_device_spec, Device, DeviceModel};
use crate::name::{device_name, nul_free};
use crate::status::Status;

verus! {

broadcast use vstd::std_specs::hash::group_hash_axioms;

/// What a global state holds, as plain values.
pub struct StateModel {
    pub kind: BackendKind,
    pub devices: Seq<DeviceModel>,
    pub registry: Map<u64, usize>,
}

/// Every registered handle names the device it is registered to, and every
/// device's identity is registered.
pub open spec fn registry_consistent(devices: Seq<DeviceModel>, registry: Map<u64, usize>) -> bool {
    &&& forall|h: u64| #[trigger] registry.contains_key(h) ==> registry[h] < devices.len()
        && devices[registry[h] as int].identity == h
    &&& forall|i: int| 0 <= i < devices.len() ==> registry.contains_key(#[trigger] devices[i].identity)
}

/// A built state: at least one device, each complete; the registry holds the
/// handles of a handle backend and nothing for an ordinal one.
pub open spec fn state_model_wf(m: StateModel) -> bool {
    &&& m.devices.len() > 0
    &&& forall|i: int| 0 <= i < m.devices.len() ==> device_model_wf(#[trigger] m.devices[i])
    &&& m.kind == BackendKind::Ordinal ==> m.registry == Map::<u64, usize>::empty()
    &&& m.kind == BackendKind::Handle ==> registry_consistent(m.devices, m.registry)
}

/// The ordered, index-stable device sequence of the process, and the reverse
/// lookup from backend handles into it.
pub struct GlobalState {
    kind: BackendKind,
    devices: Vec<Device>,
    registry: HashMapWithView<u64, usize>,
}

impl View for GlobalState {
    type V = StateModel;

    closed spec fn view(&self) -> StateModel {
        StateModel {
            kind: self.kind,
            devices: self.devices@.map_values(|d: Device| d@),
            registry: self.registry@,
        }
    }
}

/// A construction under way, as plain values: the enumerated identities and
/// the devices built for a prefix of them.
pub struct ConstructionModel {
    pub kind: BackendKind,
    pub ids: Seq<u64>,
    pub devices: Seq<DeviceModel>,
    pub registry: Map<u64, usize>,
}

/// Devices are built in enumeration order, each complete and under its own
/// identity; the registry follows the addressing model.
pub open spec fn construction_model_wf(m: ConstructionModel) -> bool {
    &&& 0 < m.ids.len()
    &&& m.devices.len() <= m.ids.len()
    &&& forall|i: int| 0 <= i < m.devices.len() ==> device_model_wf(#[trigger] m.devices[i])
    &&& forall|i: int| 0 <= i < m.devices.len() ==> (#[trigger] m.devices[i]).identity == m.ids[i]
    &&& m.kind == BackendKind::Ordinal ==> m.registry == Map::<u64, usize>::empty()
    &&& m.kind == BackendKind::Handle ==> registry_consistent(m.devices, m.registry)
}

/// The registry after adding the device at position `i` with `identity`.
pub open spec fn registry_after(kind: BackendKind, registry: Map<u64, usize>, identity: u64, i: int) -> Map<u64, usize> {
    if kind == BackendKind::Handle {
        registry.insert(identity, i as usize)
    } else {
        registry
    }
}

/// A global state under construction. It is consumed by every step, so a
/// failed step leaves nothing of what was built.
pub struct Construction {
    kind: BackendKind,
    ids: Vec<u64>,
    devices: Vec<Device>,
    registry: HashMapWithView<u64, usize>,
}

impl View for Construction {
    type V = ConstructionModel;

    closed spec fn view(&self) -> ConstructionModel {
        ConstructionModel {
            kind: self.kind,
            ids: self.ids@,
            devices: self.devices@.map_values(|d: Device| d@),
            registry: self.registry@,
        }
    }
}

impl Construction {
    pub open spec fn wf(&self) -> bool {
        construction_model_wf(self@)
    }

    /// Starts from the backend's enumeration: its error is kept, an empty one
    /// is `NoDevice`, and otherwise no device is built yet.
    pub fn start(kind: BackendKind, enumeration: Result<Vec<u64>, Status>) -> (r: Result<Construction, Status>)
        ensures
            ({
                match enumeration {
                    Err(e) => r matches Err(e2) && e2 == e,
                    Ok(v) => if v@.len() == 0 {
                        r matches Err(e2) && e2 == Status::NoDevice
                    } else {
                        r matches Ok(c) && c.wf() && c@ == (ConstructionModel {
                            kind,
                            ids: v@,
                            devices: Seq::empty(),
                            registry: Map::empty(),
                        })
                    },
                }
            }),
    {
        match enumeration {
            Err(e) => Err(e),
            Ok(ids) => {
                if ids.len() == 0 {
                    Err(Status::NoDevice)
                } else {
                    let c = Construction {
                        kind,
                        ids,
                        devices: Vec::new(),
                        registry: HashMapWithView::new(),
                    };
                    proof {
                        assert(c@.devices =~= Seq::<DeviceModel>::empty());
                    }
                    Ok(c)
                }
            },
        }
    }

    /// How many enumerated devices are still to be built.
    pub fn remaining(&self) -> (r: usize)
        requires
            self.wf(),
        ensures
            r == self@.ids.len() - self@.devices.len(),
    {
        self.ids.len() - self.devices.len()
    }

    /// The identity of the next device to build.
    pub fn next_identity(&self) -> (r: u64)
        requires
            self.wf(),
            self@.devices.len() < self@.ids.len(),
        ensures
            r == self@.ids[self@.devices.len() as int],
    {
        self.ids[self.devices.len()]
    }

    /// Builds the next device from its name and the result of creating its
    /// primary context, and registers it on a handle backend.
    pub fn add_device(self, arch_name: Vec<u8>, ctx_code: u32, ctx: u64) -> (r: Result<Construction, Status>)
        requires
            self.wf(),
            self@.devices.len() < self@.ids.len(),
            nul_free(arch_name@),
        ensures
            ({
                let i = self@.devices.len() as int;
                let id = self@.ids[i];
                match make_device_spec(arch_name@, id, ctx_code, ctx) {
                    Err(e) => r matches Err(e2) && e2 == e,
                    Ok(d) => r matches Ok(c) && c.wf() && c@ == (ConstructionModel {
                        kind: self@.kind,
                        ids: self@.ids,
                        devices: self@.devices.push(d),
                        registry: registry_after(self@.kind, self@.registry, id, i),
                    }),
                }
            }),
    {
        let Construction { kind, ids, mut devices, mut registry } = self;
        let i = devices.len();
        let id = ids[i];
        let dev = match Device::new(arch_name, id, ctx_code, ctx) {
            Ok(d) => d,
            Err(e) => return Err(e),
        };
        let ghost old_devices = devices@;
        let ghost old_registry = registry@;
        let ghost d = dev@;
        devices.push(dev);
        if kind == BackendKind::Handle {
            registry.insert(id, i);
        }
        let c = Construction { kind, ids, devices, registry };
        proof {
            let ms = c.devices@.map_values(|d: Device| d@);
            let old_ms = old_devices.map_values(|d: Device| d@);
            assert(ms =~= old_ms.push(d)) by {
                assert forall|j: int| 0 <= j < i implies ms[j] == old_ms[j] by {
                    assert(c.devices@[j] == old_devices[j]);
                }
            }
            if kind == BackendKind::Handle {
                assert forall|h: u64| #[trigger] c.registry@.contains_key(h) implies c.registry@[h]
                    < ms.len() && ms[c.registry@[h] as int].identity == h by {
                    if h != id {
                        assert(old_registry.contains_key(h));
                    }
                }
                assert forall|j: int| 0 <= j < ms.len() implies c.registry@.contains_key(
                    #[trigger] ms[j].identity,
                ) by {
                    if j < i {
                        assert(old_ms[j] == ms[j]);
                    }
                }
            }
        }
        Ok(c)
    }

    /// The finished global state, once every enumerated device is built.
    pub fn finish(self) -> (r: GlobalState)
        requires
            self.wf(),
            self@.devices.len() == self@.ids.len(),
        ensures
            r.wf(),
            r@ == (StateModel { kind: self@.kind, devices: self@.devices, registry: self@.registry }),
    {
        GlobalState { kind: self.kind, devices: self.devices, registry: self.registry }
    }
}

impl GlobalState {
    pub open spec fn wf(&self) -> bool {
        state_model_wf(self@)
    }

    /// Enumerates the backend's devices and builds each one in order: its
    /// properties, then its primary context, then (on a handle backend) its
    /// registry entry. The first failure ends the construction and nothing
    /// built so far survives; an empty enumeration is `NoDevice`.
    pub fn build<B: Backend>(backend: &mut B) -> (r: Result<GlobalState, Status>)
        ensures
            r matches Ok(s) ==> s.wf(),
    {
        let kind = backend.kind();
        let enumeration = backend.enumerate_devices();
        let mut c = match Construction::start(kind, enumeration) {
            Ok(c) => c,
            Err(e) => return Err(e),
        };
        while c.remaining() > 0
            invariant
                c.wf(),
            decreases c@.ids.len() - c@.devices.len(),
        {
            let id = c.next_identity();
            let (props_code, buf) = backend.query_properties(id);
            let name = match device_name(props_code, buf.as_slice()) {
                Ok(n) => n,
                Err(e) => return Err(e),
            };
            let (ctx_code, ctx) = backend.make_primary_context(id);
            c = match c.add_device(name, ctx_code, ctx) {
                Ok(c) => c,
                Err(e) => return Err(e),
            };
        }
        Ok(c.finish())
    }

    /// The addressing model of the backend this state was built from.
    pub fn kind(&self) -> (r: BackendKind)
        ensures
            r == self@.kind,
    {
        self.kind
    }

    /// The number of devices.
    pub fn device_count(&self) -> (r: usize)
        ensures
            r == self@.devices.len(),
    {
        self.devices.len()
    }

    /// The device at `ordinal`; any ordinal outside `0..device_count` is
    /// `InvalidDevice`.
    pub fn device(&self, ordinal: i32) -> (r: Result<&Device, Status>)
        ensures
            r is Ok <==> 0 <= ordinal < self@.devices.len(),
            r matches Ok(d) ==> d@ == self@.devices[ordinal as int],
            r matches Err(e) ==> e == Status::InvalidDevice,
    {
        if ordinal < 0 || ordinal as usize >= self.devices.len() {
            Err(Status::InvalidDevice)
        } else {
            Ok(&self.devices[ordinal as usize])
        }
    }

    /// The device a backend handle was registered to; an unregistered handle
    /// is `InvalidDevice`.
    pub fn lookup_by_handle(&self, handle: u64) -> (r: Result<&Device, Status>)
        requires
            self.wf(),
        ensures
            r is Ok <==> self@.registry.contains_key(handle),
            r matches Ok(d) ==> d@ == self@.devices[self@.registry[handle] as int] && d@.identity
                == handle,
            r matches Err(e) ==> e == Status::InvalidDevice,
    {
        match self.registry.get(&handle) {
            Some(i) => {
                let i = *i;
                proof {
                    if self.kind == BackendKind::Ordinal {
                        assert(self@.registry == Map::<u64, usize>::empty());
                    }
                }
                Ok(&self.devices[i])
            },
            None => Err(Status::InvalidDevice),
        }
    }
}

} // verus!
