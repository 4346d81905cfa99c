//! The binding table: per-device mappings from event code to callback.
//!
//! A callback here is an opaque token; the scripting host keeps the real
//! callable in its own registry and hands the core only the token. Event
//! codes are keyed through their underlying (type, code) integer pair,
//! packed into one integer, so the hot dispatch path does one hash lookup
//! with no allocation. The table is built during script setup and then
//! captured once into the reactor's dispatch structure.

use vstd::prelude::*;
use std::collections::HashMap;

verus! {

broadcast use vstd::std_specs::hash::group_hash_axioms;

/// An event code: the (type, code) integer pair identifying one class of
/// hardware event. The core treats it as an opaque key and never
/// interprets it semantically.
#[derive(Copy, Clone, Debug, PartialEq, Eq, Hash, Structural)]
pub struct EventKey {
    pub ev_type: u16,
    pub code: u16,
}

impl EventKey {
    /// The (type, code) pair packed into one lookup key.
    pub open spec fn spec_packed(self) -> u32 {
        (self.ev_type as int * 0x10000 + self.code as int) as u32
    }

    /// Pack the (type, code) pair into one integer for the hash lookup.
    pub fn packed(&self) -> (k: u32)
        ensures
            k == self.spec_packed(),
    {
        (self.ev_type as u32) * 0x10000 + (self.code as u32)
    }
}

/// Packing loses nothing: two event codes collide on their packed key
/// only if they are the same code.
pub proof fn lemma_packed_injective(a: EventKey, b: EventKey)
    ensures
        a.spec_packed() == b.spec_packed() <==> a == b,
{
    if a.spec_packed() == b.spec_packed() {
        assert(a.ev_type as int * 0x10000 + a.code as int
            == b.ev_type as int * 0x10000 + b.code as int);
        assert(a.ev_type == b.ev_type && a.code == b.code);
    }
}

/// What a lookup of `event` in a per-device binding map returns.
pub open spec fn spec_lookup(m: Map<u32, u64>, event: EventKey) -> Option<u64> {
    if m.contains_key(event.spec_packed()) {
        Option::Some(m[event.spec_packed()])
    } else {
        Option::None
    }
}

/// One device's bindings: packed event key to callback token, at most one
/// callback per event code.
pub struct DeviceBindings {
    map: HashMap<u32, u64>,
}

impl View for DeviceBindings {
    type V = Map<u32, u64>;

    closed spec fn view(&self) -> Map<u32, u64> {
        self.map@
    }
}

impl DeviceBindings {
    /// A device starts with no bindings.
    pub fn new() -> (b: Self)
        ensures
            b@ == Map::<u32, u64>::empty(),
    {
        DeviceBindings { map: HashMap::new() }
    }

    /// Register `callback` for `event`, overwriting any prior callback
    /// for the same event code: the last registration wins.
    pub fn insert(&mut self, event: EventKey, callback: u64)
        ensures
            final(self)@ == old(self)@.insert(event.spec_packed(), callback),
    {
        self.map.insert(event.packed(), callback);
    }

    /// Whether any callback is registered on this device.
    pub fn has_bindings(&self) -> (r: bool)
        ensures
            r == !self@.is_empty(),
    {
        !self.map.is_empty()
    }

    /// The callback registered for `event`, if any: the hot dispatch-path
    /// lookup.
    pub fn get_in_bindings_map(&self, event: EventKey) -> (r: Option<u64>)
        ensures
            r == spec_lookup(self@, event),
    {
        match self.map.get(&event.packed()) {
            Option::Some(v) => Option::Some(*v),
            Option::None => Option::None,
        }
    }

    /// A copy of this device's bindings, for the reactor's snapshot.
    pub fn duplicate(&self) -> (b: Self)
        ensures
            b@ == self@,
    {
        DeviceBindings { map: self.map.clone() }
    }
}

/// The whole binding table: one per-device map for every discovered
/// device, indexed by the device's position in the registry's ordered
/// device list.
pub struct BindingTable {
    devices: Vec<DeviceBindings>,
}

impl View for BindingTable {
    type V = Seq<Map<u32, u64>>;

    closed spec fn view(&self) -> Seq<Map<u32, u64>> {
        self.devices@.map_values(|d: DeviceBindings| d@)
    }
}

impl BindingTable {
    /// One empty binding map per discovered device.
    pub fn set_up_bindings(n_devices: usize) -> (t: Self)
        ensures
            t@.len() == n_devices,
            forall|i: int| 0 <= i < n_devices ==> t@[i] == Map::<u32, u64>::empty(),
    {
        let mut devices: Vec<DeviceBindings> = Vec::new();
        let mut i: usize = 0;
        while i < n_devices
            invariant
                0 <= i <= n_devices,
                devices@.len() == i,
                forall|j: int| 0 <= j < i ==> devices@[j]@ == Map::<u32, u64>::empty(),
            decreases n_devices - i,
        {
            devices.push(DeviceBindings::new());
            i = i + 1;
        }
        BindingTable { devices }
    }

    pub open spec fn spec_len(self) -> int {
        self@.len() as int
    }

    /// How many devices the table covers.
    pub fn len(&self) -> (n: usize)
        ensures
            n == self@.len(),
    {
        self.devices.len()
    }

    /// Register `callback` on device `dev` for `event`, overwriting any
    /// prior callback for that (device, event-code) pair and marking the
    /// device as bound.
    pub fn set_in_bindings_table(&mut self, dev: usize, event: EventKey, callback: u64)
        requires
            dev < old(self)@.len(),
        ensures
            final(self)@ == old(self)@.update(
                dev as int,
                old(self)@[dev as int].insert(event.spec_packed(), callback),
            ),
    {
        let d = &mut self.devices[dev];
        d.insert(event, callback);
        proof {
            assert(self@ =~= old(self)@.update(
                dev as int,
                old(self)@[dev as int].insert(event.spec_packed(), callback),
            ));
        }
    }

    /// Whether device `dev` has any binding; a device without one is
    /// invisible to the reactor.
    pub fn device_has_bindings(&self, dev: usize) -> (r: bool)
        requires
            dev < self@.len(),
        ensures
            r == !self@[dev as int].is_empty(),
    {
        let d = &self.devices[dev];
        d.has_bindings()
    }

    /// A copy of one device's bindings, for the reactor's snapshot.
    pub fn snapshot_device(&self, dev: usize) -> (b: DeviceBindings)
        requires
            dev < self@.len(),
        ensures
            b@ == self@[dev as int],
    {
        let d = &self.devices[dev];
        d.duplicate()
    }
}

/// Law (binding uniqueness): registering two callbacks for the same
/// (device, event-code) pair, in order, leaves only the second one
/// dispatchable.
pub proof fn lemma_binding_uniqueness(
    t: Seq<Map<u32, u64>>,
    dev: int,
    event: EventKey,
    cb1: u64,
    cb2: u64,
)
    requires
        0 <= dev < t.len(),
    ensures
        ({
            let t1 = t.update(dev, t[dev].insert(event.spec_packed(), cb1));
            let t2 = t1.update(dev, t1[dev].insert(event.spec_packed(), cb2));
            spec_lookup(t2[dev], event) == Option::Some(cb2)
        }),
{
}

} // verus!
