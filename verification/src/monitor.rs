use vstd::prelude::*;

use crate::device::Device;
use crate::device::DeviceView;
use crate::ops::apply_op;
use crate::ops::RegistryOp;

verus! {

/// Timeout of a single reachability probe, in seconds.
pub const PROBE_TIMEOUT_SECS: u64 = 1;

/// Pause between two sweeps of the monitoring loop, in seconds.
pub const SWEEP_INTERVAL_SECS: u64 = 60;

/// The registry: an ordered sequence of devices, insertion order preserved,
/// duplicates permitted. It is the exclusive owner of every device it holds;
/// callers only ever see copies.
pub struct DeviceMonitor {
    devices: Vec<Device>,
}

/// The views of the devices in a sequence, in the same order.
pub open spec fn views_of(s: Seq<Device>) -> Seq<DeviceView> {
    s.map_values(|d: Device| d@)
}

impl View for DeviceMonitor {
    type V = Seq<DeviceView>;

    closed spec fn view(&self) -> Seq<DeviceView> {
        views_of(self.devices@)
    }
}

impl DeviceMonitor {
    /// An empty registry.
    pub fn new() -> (m: DeviceMonitor)
        ensures
            m@ == Seq::<DeviceView>::empty(),
    {
        let m = DeviceMonitor { devices: Vec::new() };
        proof {
            assert(m@ =~= Seq::<DeviceView>::empty());
        }
        m
    }

    /// Appends a device that has not been probed yet. Never fails: there is
    /// no duplicate check and no size limit, and the new entry starts with
    /// `status == false`.
    pub fn add_device(&mut self, name: String, ip: String)
        ensures
            final(self)@ == old(self)@.push(
                (DeviceView { name: name@, ip: ip@, status: false }),
            ),
            final(self)@ == apply_op(old(self)@, (RegistryOp::Add { name: name@, ip: ip@ })),
    {
        let ghost dv = DeviceView { name: name@, ip: ip@, status: false };
        self.devices.push(Device::new(name, ip));
        proof {
            assert(self@ =~= old(self)@.push(dv));
        }
    }

    /// Removes the entry at `index` if it is in range; otherwise the call is
    /// a silent no-op. Out-of-range removal is deliberately not an error.
    /// An in-range removal removes exactly that entry and keeps the relative
    /// order of all others.
    pub fn remove_device(&mut self, index: usize)
        ensures
            index < old(self)@.len() ==> final(self)@ == old(self)@.remove(index as int),
            index >= old(self)@.len() ==> final(self)@ == old(self)@,
            final(self)@ == apply_op(old(self)@, (RegistryOp::Remove { index: index as int })),
    {
        if index < self.devices.len() {
            self.devices.remove(index);
            proof {
                assert(self@ =~= old(self)@.remove(index as int));
            }
        }
    }

    /// A borrowed view of the current ordered sequence of devices. Callers
    /// copy it to obtain a point-in-time snapshot; an empty registry yields
    /// an empty sequence.
    pub fn get_devices(&self) -> (r: &[Device])
        ensures
            views_of(r@) == self@,
    {
        self.devices.as_slice()
    }

    /// The addresses to probe during one sweep: one per device, in the
    /// registry's current order.
    pub fn probe_targets(&self) -> (targets: Vec<String>)
        ensures
            targets@.len() == self@.len(),
            forall|i: int| 0 <= i < self@.len() ==> #[trigger] targets@[i]@ == self@[i].ip,
    {
        let mut targets: Vec<String> = Vec::new();
        let n = self.devices.len();
        let mut i: usize = 0;
        while i < n
            invariant
                n == self.devices@.len(),
                i <= n,
                targets@.len() == i,
                forall|j: int| 0 <= j < i ==> #[trigger] targets@[j]@ == self@[j].ip,
            decreases n - i,
        {
            targets.push(self.devices[i].ip.clone());
            i = i + 1;
        }
        targets
    }

    /// Finishes one sweep: writes the outcome of the `i`-th probe into the
    /// `i`-th device, for every device, keeping every name and address. The
    /// caller must supply exactly one outcome per device.
    #[verifier::loop_isolation(false)]
    pub fn apply_probe_results(&mut self, results: &Vec<bool>)
        requires
            results@.len() == old(self)@.len(),
        ensures
            final(self)@.len() == old(self)@.len(),
            forall|i: int| 0 <= i < old(self)@.len() ==> #[trigger] final(self)@[i] == (DeviceView {
                name: old(self)@[i].name,
                ip: old(self)@[i].ip,
                status: results@[i],
            }),
    {
        let ghost orig = self.devices@;
        let n = self.devices.len();
        let mut i: usize = 0;
        while i < n
            invariant
                n == self.devices@.len(),
                n == orig.len(),
                n == results@.len(),
                i <= n,
                forall|j: int| i <= j < n ==> #[trigger] self.devices@[j] == orig[j],
                forall|j: int| 0 <= j < i ==> #[trigger] self.devices@[j]@ == (DeviceView {
                    name: orig[j]@.name,
                    ip: orig[j]@.ip,
                    status: results@[j],
                }),
            decreases n - i,
        {
            let reachable = results[i];
            self.devices[i].apply_probe(reachable);
            i = i + 1;
        }
        proof {
            assert(forall|j: int| 0 <= j < n ==> #[trigger] self@[j] == self.devices@[j]@);
            assert(forall|j: int| 0 <= j < n ==> #[trigger] old(self)@[j] == orig[j]@);
        }
    }
}

} // verus!
