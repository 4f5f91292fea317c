use vstd::prelude::*;

verus! {

/// A device reached through the ESPHome native API.
#[derive(Debug)]
pub struct EspHomeDevice {
    name: String,
    host: String,
    password: String,
}

impl View for EspHomeDevice {
    type V = (Seq<char>, Seq<char>, Seq<char>);

    /// The device's name, host address and API password.
    closed spec fn view(&self) -> (Seq<char>, Seq<char>, Seq<char>) {
        (self.name@, self.host@, self.password@)
    }
}

impl EspHomeDevice {
    /// A device named `name` at `host`, authenticated with `password`.
    pub fn new(name: String, host: String, password: String) -> (d: Self)
        ensures
            d@ == (name@, host@, password@),
    {
        EspHomeDevice { name, host, password }
    }

    /// The device's name.
    pub fn name(&self) -> (r: String)
        ensures
            r@ == self@.0,
    {
        self.name.clone()
    }

    /// The device's host address.
    pub fn host(&self) -> (r: String)
        ensures
            r@ == self@.1,
    {
        self.host.clone()
    }

    /// The device's API password; empty when none was configured.
    pub fn password(&self) -> (r: String)
        ensures
            r@ == self@.2,
    {
        self.password.clone()
    }
}

} // verus!
