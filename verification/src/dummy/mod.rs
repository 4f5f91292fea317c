use vstd::prelude::*;
use crate::config::ConfigValue;

verus! {

/// A device that shows every event it receives on the console.
#[derive(Debug)]
pub struct DummyDevice {
    name: String,
}

impl View for DummyDevice {
    type V = Seq<char>;

    /// The device's name.
    closed spec fn view(&self) -> Seq<char> {
        self.name@
    }
}

impl DummyDevice {
    /// A dummy device with an empty name.
    pub fn new() -> (d: Self)
        ensures
            d@ == Seq::<char>::empty(),
    {
        DummyDevice { name: String::new() }
    }

    /// The device's name.
    pub fn name(&self) -> (r: String)
        ensures
            r@ == self@,
    {
        self.name.clone()
    }

    /// Renames the device.
    pub fn set_name(&mut self, name: String)
        ensures
            final(self)@ == name@,
    {
        self.name = name;
    }
}

impl Default for DummyDevice {
    fn default() -> (d: Self)
        ensures
            d@ == Seq::<char>::empty(),
    {
        DummyDevice::new()
    }
}

/// The driver of the dummy device.
#[derive(Debug)]
pub struct DummyDriver {}

impl DummyDriver {
    /// The driver, before it has read a configuration.
    pub fn new() -> Self {
        DummyDriver {}
    }

    /// The one device of this driver, named "dummy_watcher" whatever the
    /// configuration.
    pub fn load(&mut self, _configuration: &ConfigValue) -> (d: DummyDevice)
        ensures
            d@ == "dummy_watcher"@,
    {
        let mut d = DummyDevice::new();
        d.set_name(String::from_str("dummy_watcher"));
        d
    }
}

} // verus!
