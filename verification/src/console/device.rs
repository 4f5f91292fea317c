use vstd::prelude::*;

verus! {

/// A device that shows every event it receives on the console.
#[derive(Debug)]
pub struct ConsoleDevice {
    name: String,
}

impl View for ConsoleDevice {
    type V = Seq<char>;

    /// The device's name.
    closed spec fn view(&self) -> Seq<char> {
        self.name@
    }
}

impl ConsoleDevice {
    /// A console device with an empty name.
    pub fn new() -> (d: Self)
        ensures
            d@ == Seq::<char>::empty(),
    {
        ConsoleDevice { name: String::new() }
    }

    /// The device's name.
    pub fn name(&self) -> (r: String)
        ensures
            r@ == self@,
    {
        self.name.clone()
    }

    /// Renames the device.
    pub fn set_name(&mut self, name: String)
        ensures
            final(self)@ == name@,
    {
        self.name = name;
    }
}

impl Default for ConsoleDevice {
    fn default() -> (d: Self)
        ensures
            d@ == Seq::<char>::empty(),
    {
        ConsoleDevice::new()
    }
}

} // verus!
