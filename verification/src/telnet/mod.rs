use vstd::prelude::*;
use crate::config::{ConfigValue, str_or, text_or};

pub mod device;

use device::TelnetDevice;

verus! {

/// The driver of the telnet console device.
#[derive(Debug)]
pub struct TelnetDriver {}

impl TelnetDriver {
    /// The driver, before it has read a configuration.
    pub fn new() -> Self {
        TelnetDriver {}
    }

    /// The telnet device that `configuration` describes: named after its
    /// `name` entry ("console" by default), listening on its `listen_on`
    /// entry ("127.0.0.1:7800" by default).
    pub fn load(&mut self, configuration: &ConfigValue) -> (d: TelnetDevice)
        ensures
            d@ == (
                text_or(*configuration, "name"@, "console"@),
                text_or(*configuration, "listen_on"@, "127.0.0.1:7800"@),
            ),
    {
        let name = str_or(configuration, "name", "console");
        let listen_on = str_or(configuration, "listen_on", "127.0.0.1:7800");
        TelnetDevice::new(name, listen_on)
    }
}

} // verus!
