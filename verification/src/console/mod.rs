use vstd::prelude::*;
use crate::config::{ConfigValue, str_or, text_or};

pub mod device;

use device::ConsoleDevice;

verus! {

/// The driver of the console device.
#[derive(Debug)]
pub struct ConsoleDriver {}

impl ConsoleDriver {
    /// The driver, before it has read a configuration.
    pub fn new() -> Self {
        ConsoleDriver {}
    }

    /// The console device that `configuration` describes: named after its
    /// `name` entry, "console" by default.
    pub fn load(&mut self, configuration: &ConfigValue) -> (d: ConsoleDevice)
        ensures
            d@ == text_or(*configuration, "name"@, "console"@),
    {
        let name = str_or(configuration, "name", "console");
        let mut d = ConsoleDevice::new();
        d.set_name(name);
        d
    }
}

} // verus!
