//! The event dispatch reactor's dispatch structure and routing decision.
//!
//! At startup the reactor captures, exactly once, a snapshot of every
//! device that has at least one binding: a dense list of slots, each
//! carrying the device's registry index and a copy of its binding map.
//! The surrounding process registers each slot's raw event source with
//! the OS readiness mechanism keyed by the dense slot index, blocks with
//! a bounded timeout, and for each ready slot reads one event and asks
//! `route` which callback (if any) to invoke. A device with no bindings
//! never appears in a slot, so the readiness mechanism never watches it.

use vstd::prelude::*;
use crate::bindings::{BindingTable, DeviceBindings, EventKey, spec_lookup, lemma_packed_injective};

verus! {

/// A fatal startup error of the reactor.
#[derive(Copy, Clone, Debug, PartialEq, Eq, Structural)]
pub enum ReactorError {
    /// No device produced any binding, so there is nothing to wait on.
    NoBindings,
}

impl ReactorError {
    /// A human-readable description of the error.
    pub fn message(&self) -> (s: String)
        ensures
            s@ == "no bound devices"@,
    {
        String::from_str("no bound devices")
    }
}

/// One bound device in the reactor's readiness set.
pub struct ReactorSlot {
    /// The device's position in the registry's ordered device list.
    pub device_index: usize,
    /// The device's binding snapshot.
    pub bindings: DeviceBindings,
}

impl View for ReactorSlot {
    type V = (int, Map<u32, u64>);

    open spec fn view(&self) -> (int, Map<u32, u64>) {
        (self.device_index as int, self.bindings@)
    }
}

/// A slot agrees with the binding table it was captured from: it names a
/// real device, carries exactly that device's bindings, and the device
/// has at least one.
pub open spec fn slot_ok(s: (int, Map<u32, u64>), t: Seq<Map<u32, u64>>) -> bool {
    &&& 0 <= s.0 < t.len()
    &&& s.1 == t[s.0]
    &&& !t[s.0].is_empty()
}

/// The reactor's dispatch structure is a faithful snapshot of the binding
/// table: every slot is a bound device with its exact bindings, slots
/// appear in registry order without repetition, and every bound device
/// has a slot.
pub open spec fn valid_snapshot(r: Seq<(int, Map<u32, u64>)>, t: Seq<Map<u32, u64>>) -> bool {
    &&& forall|j: int| 0 <= j < r.len() ==> slot_ok(#[trigger] r[j], t)
    &&& forall|j1: int, j2: int|
        #![trigger r[j1], r[j2]]
        0 <= j1 < j2 < r.len() ==> r[j1].0 < r[j2].0
    &&& forall|i: int|
        0 <= i < t.len() && !(#[trigger] t[i]).is_empty()
            ==> exists|j: int| 0 <= j < r.len() && (#[trigger] r[j]).0 == i
}

/// The reactor's dispatch structure: the dense list of bound devices.
pub struct Reactor {
    slots: Vec<ReactorSlot>,
}

impl View for Reactor {
    type V = Seq<(int, Map<u32, u64>)>;

    closed spec fn view(&self) -> Seq<(int, Map<u32, u64>)> {
        self.slots@.map_values(|s: ReactorSlot| s@)
    }
}

impl Reactor {
    /// Capture the binding table into a dispatch structure, consuming the
    /// table. Fails — fatally for the whole run — when no device produced
    /// any binding, and succeeds otherwise.
    pub fn build(table: BindingTable) -> (r: Result<Reactor, ReactorError>)
        ensures
            match r {
                Result::Ok(reactor) => {
                    &&& valid_snapshot(reactor@, table@)
                    &&& reactor@.len() >= 1
                },
                Result::Err(e) => {
                    &&& e == ReactorError::NoBindings
                    &&& forall|i: int| 0 <= i < table@.len() ==> (#[trigger] table@[i]).is_empty()
                },
            },
    {
        let n = table.len();
        let mut slots: Vec<ReactorSlot> = Vec::new();
        let mut i: usize = 0;
        while i < n
            invariant
                0 <= i <= n,
                n == table@.len(),
                forall|j: int| 0 <= j < slots@.len()
                    ==> slot_ok(#[trigger] slots@[j]@, table@) && slots@[j]@.0 < i,
                forall|j1: int, j2: int|
                    #![trigger slots@[j1], slots@[j2]]
                    0 <= j1 < j2 < slots@.len() ==> slots@[j1]@.0 < slots@[j2]@.0,
                forall|k: int|
                    0 <= k < i && !(#[trigger] table@[k]).is_empty()
                        ==> exists|j: int| 0 <= j < slots@.len() && (#[trigger] slots@[j]@).0 == k,
            decreases n - i,
        {
            let ghost before = slots@;
            if table.device_has_bindings(i) {
                let snapshot = table.snapshot_device(i);
                slots.push(ReactorSlot { device_index: i, bindings: snapshot });
                proof {
                    assert(slots@[slots@.len() - 1]@.0 == i as int);
                    assert forall|k: int|
                        0 <= k < i + 1 && !(#[trigger] table@[k]).is_empty()
                            implies exists|j: int|
                                0 <= j < slots@.len() && (#[trigger] slots@[j]@).0 == k by {
                        if k < i {
                            let j0 = choose|j: int|
                                0 <= j < before.len() && (#[trigger] before[j]@).0 == k;
                            assert(slots@[j0]@.0 == k);
                        } else {
                            assert(slots@[slots@.len() - 1]@.0 == k);
                        }
                    }
                }
            }
            i = i + 1;
        }
        if slots.is_empty() {
            Result::Err(ReactorError::NoBindings)
        } else {
            let reactor = Reactor { slots };
            proof {
                assert(forall|j: int| 0 <= j < reactor@.len()
                    ==> #[trigger] reactor@[j] == reactor.slots@[j]@);
                assert forall|i2: int|
                    0 <= i2 < table@.len() && !(#[trigger] table@[i2]).is_empty()
                        implies exists|j: int|
                            0 <= j < reactor@.len() && (#[trigger] reactor@[j]).0 == i2 by {
                    let j0 = choose|j: int|
                        0 <= j < reactor.slots@.len() && (#[trigger] reactor.slots@[j]@).0 == i2;
                    assert(reactor@[j0].0 == i2);
                }
            }
            Result::Ok(reactor)
        }
    }

    /// How many devices the readiness set watches.
    pub fn len(&self) -> (n: usize)
        ensures
            n == self@.len(),
    {
        self.slots.len()
    }

    /// Which device (by registry order) a dense slot watches; the
    /// surrounding process reads events from this device when the
    /// readiness mechanism reports the slot ready.
    pub fn device_of_slot(&self, slot: usize) -> (d: usize)
        requires
            slot < self@.len(),
        ensures
            d as int == self@[slot as int].0,
    {
        let s = &self.slots[slot];
        s.device_index
    }

    /// The routing decision for one incoming event on one ready slot:
    /// the registered callback's token when the event code is bound, and
    /// nothing — the event is silently dropped — when it is not.
    pub fn route(&self, slot: usize, event: EventKey) -> (r: Option<u64>)
        requires
            slot < self@.len(),
        ensures
            r == spec_lookup(self@[slot as int].1, event),
    {
        let s = &self.slots[slot];
        s.bindings.get_in_bindings_map(event)
    }
}

/// Law (dispatch routing): on a device bound only on event code `a`, an
/// incoming event of a different code `b` routes to no callback at all,
/// and an incoming event of code `a` routes to exactly the registered
/// callback.
pub proof fn lemma_dispatch_routing(m: Map<u32, u64>, a: EventKey, b: EventKey, cb: u64)
    requires
        m == Map::<u32, u64>::empty().insert(a.spec_packed(), cb),
        b != a,
    ensures
        spec_lookup(m, a) == Option::Some(cb),
        spec_lookup(m, b) == Option::<u64>::None,
{
    lemma_packed_injective(a, b);
}

/// Law (no-binding exclusion): a device with zero bindings has no slot in
/// any faithful reactor snapshot, so the readiness mechanism never
/// watches it and no event of its can ever be dispatched.
pub proof fn lemma_no_binding_exclusion(
    r: Seq<(int, Map<u32, u64>)>,
    t: Seq<Map<u32, u64>>,
    dev: int,
)
    requires
        valid_snapshot(r, t),
        0 <= dev < t.len(),
        t[dev].is_empty(),
    ensures
        forall|j: int| 0 <= j < r.len() ==> (#[trigger] r[j]).0 != dev,
{
    assert forall|j: int| 0 <= j < r.len() implies (#[trigger] r[j]).0 != dev by {
        assert(slot_ok(r[j], t));
    }
}

} // verus!
