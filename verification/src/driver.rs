use vstd::prelude::*;
use crate::config::{ConfigValue, text_or};
use crate::console::ConsoleDriver;
use crate::device::NewDevice;
use crate::dummy::DummyDriver;
use crate::esphome::{EspHomeDriver, configured_devices};
use crate::esphome::device::EspHomeDevice;
use crate::result::RHomeError;
use crate::telnet::TelnetDriver;
use crate::text::same_text;
use crate::time::driver::{Driver as TimeDriver, configured_settings};

verus! {

/// A driver that the manager has loaded.
#[derive(Debug)]
pub enum LoadedDriver {
    Time(TimeDriver),
    Dummy(DummyDriver),
    Telnet(TelnetDriver),
    Console(ConsoleDriver),
    EspHome(EspHomeDriver),
}

/// Whether `name` names a driver that the configuration may ask for.
pub open spec fn is_driver_name(name: Seq<char>) -> bool {
    name == "time"@ || name == "dummy"@ || name == "telnet"@
}

/// Whether `d` is the driver that a configuration entry named `name`
/// creates, before it reads its configuration.
pub open spec fn created(name: Seq<char>, d: LoadedDriver) -> bool {
    if name == "time"@ {
        d matches LoadedDriver::Time(t) && t@ == ("%+"@, false, false)
    } else if name == "dummy"@ {
        d is Dummy
    } else if name == "telnet"@ {
        d is Telnet
    } else {
        false
    }
}

/// The message of the error for a driver name that no driver bears.
pub open spec fn unknown_driver_message(name: Seq<char>) -> Seq<char> {
    "unknown driver '"@ + name + "'"@
}

/// Whether loading `configuration` into the driver `before` leaves it as
/// `after` and creates the devices `devices`.
pub open spec fn loads(
    before: LoadedDriver,
    configuration: ConfigValue,
    after: LoadedDriver,
    devices: Seq<NewDevice>,
) -> bool {
    match before {
        LoadedDriver::Time(t) => {
            &&& after matches LoadedDriver::Time(t2) && t2@ == configured_settings(t@, configuration)
            &&& devices.len() == 1
            &&& devices[0] matches NewDevice::Time(c) && c@ == "time"@
        },
        LoadedDriver::Dummy(_) => {
            &&& after is Dummy
            &&& devices.len() == 1
            &&& devices[0] matches NewDevice::Dummy(c) && c@ == "dummy_watcher"@
        },
        LoadedDriver::Telnet(_) => {
            &&& after is Telnet
            &&& devices.len() == 1
            &&& devices[0] matches NewDevice::Telnet(c) && c@ == (
                text_or(configuration, "name"@, "console"@),
                text_or(configuration, "listen_on"@, "127.0.0.1:7800"@),
            )
        },
        LoadedDriver::Console(_) => {
            &&& after is Console
            &&& devices.len() == 1
            &&& devices[0] matches NewDevice::Console(c) && c@ == text_or(
                configuration,
                "name"@,
                "console"@,
            )
        },
        LoadedDriver::EspHome(_) => {
            &&& after is EspHome
            &&& devices.len() == configured_devices(configuration).len()
            &&& forall|i: int|
                0 <= i < devices.len() ==> (#[trigger] devices[i] matches NewDevice::EspHome(e) && e@
                    == configured_devices(configuration)[i])
        },
    }
}

/// Loading a configuration into a telnet driver gives one telnet device,
/// named by the configuration's text `name` entry or "console" when it has
/// none, listening on its text `listen_on` entry or on "127.0.0.1:7800".
pub proof fn law_telnet_devices_follow_the_configuration(
    driver: TelnetDriver,
    configuration: ConfigValue,
    after: LoadedDriver,
    devices: Seq<NewDevice>,
)
    requires
        loads(LoadedDriver::Telnet(driver), configuration, after, devices),
    ensures
        after is Telnet,
        devices.len() == 1,
        devices[0] is Telnet,
        configuration.text_at("name"@) matches Some(n) ==> devices[0].device_name() == n,
        configuration.text_at("name"@) is None ==> devices[0].device_name() == "console"@,
        configuration.text_at("listen_on"@) matches Some(a) ==> devices[0]->Telnet_0@.1 == a,
        configuration.text_at("listen_on"@) is None ==> devices[0]->Telnet_0@.1 == "127.0.0.1:7800"@,
{
}

/// Loading a configuration into a console driver gives one console device,
/// named by the configuration's text `name` entry or "console" when it has
/// none; the dummy driver always gives its "dummy_watcher", and the clock
/// driver its "time" device, whatever the configuration.
pub proof fn law_single_devices_follow_the_configuration(
    before: LoadedDriver,
    configuration: ConfigValue,
    after: LoadedDriver,
    devices: Seq<NewDevice>,
)
    requires
        loads(before, configuration, after, devices),
        !(before is EspHome),
    ensures
        devices.len() == 1,
        before is Console ==> (configuration.text_at("name"@) matches Some(n)
            ==> devices[0].device_name() == n),
        before is Console && configuration.text_at("name"@) is None
            ==> devices[0].device_name() == "console"@,
        before is Dummy ==> devices[0].device_name() == "dummy_watcher"@,
        before is Time ==> devices[0].device_name() == "time"@,
{
}

/// The driver that the configuration entry `name` asks for: the clock,
/// the dummy or the telnet driver; an error for any other name.
pub fn create_driver(name: &str) -> (r: Result<LoadedDriver, RHomeError>)
    ensures
        r is Ok <==> is_driver_name(name@),
        r matches Ok(d) ==> created(name@, d),
        r matches Err(e) ==> e.message() == unknown_driver_message(name@),
{
    if same_text(name, "time") {
        Ok(LoadedDriver::Time(TimeDriver::new()))
    } else if same_text(name, "dummy") {
        Ok(LoadedDriver::Dummy(DummyDriver::new()))
    } else if same_text(name, "telnet") {
        Ok(LoadedDriver::Telnet(TelnetDriver::new()))
    } else {
        let mut message = String::from_str("unknown driver '");
        message.append(name);
        message.append("'");
        Err(RHomeError::new(message))
    }
}

impl LoadedDriver {
    /// Whether a device of this driver that fails to start makes the driver
    /// fail to load: so for every driver but the clock, which does not look
    /// at whether its device started.
    pub fn checks_device_start(&self) -> (r: bool)
        ensures
            r == !(self is Time),
    {
        match self {
            LoadedDriver::Time(_) => false,
            _ => true,
        }
    }

    /// Reads `configuration` and gives the devices that the driver creates.
    pub fn load(&mut self, configuration: &ConfigValue) -> (r: Vec<NewDevice>)
        ensures
            loads(*old(self), *configuration, *final(self), r@),
    {
        let mut r: Vec<NewDevice> = Vec::new();
        match self {
            LoadedDriver::Time(t) => {
                r.push(NewDevice::Time(t.load(configuration)));
            },
            LoadedDriver::Dummy(d) => {
                r.push(NewDevice::Dummy(d.load(configuration)));
            },
            LoadedDriver::Telnet(d) => {
                r.push(NewDevice::Telnet(d.load(configuration)));
            },
            LoadedDriver::Console(d) => {
                r.push(NewDevice::Console(d.load(configuration)));
            },
            LoadedDriver::EspHome(d) => {
                let devices = d.load(configuration);
                let ghost expected = configured_devices(*configuration);
                let n: usize = devices.len();
                assert(forall|k: int| 0 <= k < n ==> #[trigger] devices@[k]@ == devices@.map_values(|e: EspHomeDevice| e@)[k]);
                let mut rest = devices;
                while rest.len() > 0
                    invariant
                        r.len() + rest.len() == n,
                        forall|k: int| 0 <= k < r.len() ==> (#[trigger] r[k] matches NewDevice::EspHome(e) && e@ == expected[k]),
                        forall|k: int| 0 <= k < rest.len() ==> #[trigger] rest[k]@ == expected[k + r.len()],
                        expected.len() == n,
                    decreases rest.len(),
                {
                    let e = rest.remove(0);
                    r.push(NewDevice::EspHome(e));
                }
            },
        }
        r
    }
}

} // verus!
