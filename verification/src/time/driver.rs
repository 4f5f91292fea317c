use vstd::prelude::*;
use crate::config::{ConfigValue, str_or, text_or};
use super::TimeDevice;

verus! {

/// The clock driver and its settings.
#[derive(Debug, Clone)]
pub struct Driver {
    format: String,
    local_time: bool,
    every_second: bool,
}

impl View for Driver {
    type V = (Seq<char>, bool, bool);

    /// The time format, whether local time is used, and whether the clock
    /// ticks every second.
    closed spec fn view(&self) -> (Seq<char>, bool, bool) {
        (self.format@, self.local_time, self.every_second)
    }
}

/// The flag under `key`, or `default` when there is none.
pub open spec fn flag_or(v: ConfigValue, key: Seq<char>, default: bool) -> bool {
    match v.flag_at(key) {
        Some(b) => b,
        None => default,
    }
}

/// The settings after reading `configuration`: each entry that is present
/// replaces the setting, the others stay.
pub open spec fn configured_settings(
    before: (Seq<char>, bool, bool),
    configuration: ConfigValue,
) -> (Seq<char>, bool, bool) {
    (
        text_or(configuration, "format"@, before.0),
        flag_or(configuration, "local_time"@, before.1),
        flag_or(configuration, "every_second"@, before.2),
    )
}

/// Each setting that the configuration gives as a value of the right kind
/// is taken as given, whatever it was before; a setting the configuration
/// does not give keeps its value; and reading the same configuration again
/// changes nothing.
pub proof fn law_settings_follow_the_configuration(
    before: (Seq<char>, bool, bool),
    configuration: ConfigValue,
)
    ensures
        configuration.text_at("format"@) matches Some(f) ==> configured_settings(before, configuration).0 == f,
        configuration.text_at("format"@) is None ==> configured_settings(before, configuration).0 == before.0,
        configuration.flag_at("local_time"@) matches Some(b) ==> configured_settings(before, configuration).1 == b,
        configuration.flag_at("local_time"@) is None ==> configured_settings(before, configuration).1 == before.1,
        configuration.flag_at("every_second"@) matches Some(b) ==> configured_settings(before, configuration).2 == b,
        configuration.flag_at("every_second"@) is None ==> configured_settings(before, configuration).2 == before.2,
        configured_settings(configured_settings(before, configuration), configuration)
            == configured_settings(before, configuration),
{
}

impl Driver {
    /// The driver with its default settings: format "%+", UTC, every minute.
    pub fn new() -> (d: Self)
        ensures
            d@ == ("%+"@, false, false),
    {
        Driver { format: String::from_str("%+"), local_time: false, every_second: false }
    }

    /// The time format.
    pub fn format(&self) -> (r: String)
        ensures
            r@ == self@.0,
    {
        self.format.clone()
    }

    /// Whether local time is used rather than UTC.
    pub fn local_time(&self) -> (r: bool)
        ensures
            r == self@.1,
    {
        self.local_time
    }

    /// Whether the clock ticks every second rather than every minute.
    pub fn every_second(&self) -> (r: bool)
        ensures
            r == self@.2,
    {
        self.every_second
    }

    /// Reads the settings from `configuration` and gives the clock device,
    /// named "time".
    pub fn load(&mut self, configuration: &ConfigValue) -> (d: TimeDevice)
        ensures
            final(self)@ == configured_settings(old(self)@, *configuration),
            d@ == "time"@,
    {
        self.format = str_or(configuration, "format", self.format.as_str());
        self.local_time = match configuration.bool_at("local_time") {
            Some(b) => b,
            None => self.local_time,
        };
        self.every_second = match configuration.bool_at("every_second") {
            Some(b) => b,
            None => self.every_second,
        };
        let mut t = TimeDevice::new();
        t.set_name(String::from_str("time"));
        t
    }
}

} // verus!
