use vstd::prelude::*;
use crate::console::device::ConsoleDevice;
use crate::dummy::DummyDevice;
use crate::esphome::device::EspHomeDevice;
use crate::telnet::device::TelnetDevice;
use crate::time::TimeDevice;

verus! {

/// A device that a driver has created and that the manager is to register.
#[derive(Debug)]
pub enum NewDevice {
    Console(ConsoleDevice),
    Dummy(DummyDevice),
    Telnet(TelnetDevice),
    Time(TimeDevice),
    EspHome(EspHomeDevice),
}

impl NewDevice {
    /// The name under which the device is registered.
    pub open spec fn device_name(self) -> Seq<char> {
        match self {
            NewDevice::Console(d) => d@,
            NewDevice::Dummy(d) => d@,
            NewDevice::Telnet(d) => d@.0,
            NewDevice::Time(d) => d@,
            NewDevice::EspHome(d) => d@.0,
        }
    }

    /// The name under which the device is registered.
    pub fn name(&self) -> (r: String)
        ensures
            r@ == self.device_name(),
    {
        match self {
            NewDevice::Console(d) => d.name(),
            NewDevice::Dummy(d) => d.name(),
            NewDevice::Telnet(d) => d.name(),
            NewDevice::Time(d) => d.name(),
            NewDevice::EspHome(d) => d.name(),
        }
    }
}

} // verus!
