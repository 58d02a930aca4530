use vstd::prelude::*;

verus! {

/// A named network endpoint together with its last-known reachability.
///
/// `status` is the only field that ever changes after construction; it is
/// updated exclusively by recording the outcome of a reachability probe.
#[derive(Debug, Clone)]
pub struct Device {
    pub name: String,
    pub ip: String,
    pub status: bool,
}

/// The mathematical value of a `Device`: its two text labels and its
/// last-known reachability flag.
pub ghost struct DeviceView {
    pub name: Seq<char>,
    pub ip: Seq<char>,
    pub status: bool,
}

impl View for Device {
    type V = DeviceView;

    open spec fn view(&self) -> DeviceView {
        DeviceView { name: self.name@, ip: self.ip@, status: self.status }
    }
}

impl Device {
    /// A device that has not been probed yet: `status` starts out `false`.
    pub fn new(name: String, ip: String) -> (d: Device)
        ensures
            d@ == (DeviceView { name: name@, ip: ip@, status: false }),
    {
        Device { name, ip, status: false }
    }

    /// Records the outcome of one reachability probe. Every probe failure is
    /// collapsed into `reachable == false`; the labels are kept unchanged.
    pub fn apply_probe(&mut self, reachable: bool)
        ensures
            final(self)@ == (DeviceView {
                name: old(self)@.name,
                ip: old(self)@.ip,
                status: reachable,
            }),
    {
        self.status = reachable;
    }
}

} // verus!
