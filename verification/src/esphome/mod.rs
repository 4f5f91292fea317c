use vstd::prelude::*;
use crate::config::{ConfigValue, str_or, text_or};

pub mod device;

use device::EspHomeDevice;

verus! {

/// The name, host and password that one entry of `connections` describes,
/// each empty when absent.
pub open spec fn connection_settings(con: ConfigValue) -> (Seq<char>, Seq<char>, Seq<char>) {
    (text_or(con, "name"@, ""@), text_or(con, "host"@, ""@), text_or(con, "password"@, ""@))
}

/// Whether an entry of `connections` gives both a name and a host.
pub open spec fn connection_usable(con: ConfigValue) -> bool {
    connection_settings(con).0.len() > 0 && connection_settings(con).1.len() > 0
}

/// The devices that a list of connections describes, in order, skipping
/// the entries without a name or a host.
pub open spec fn connection_devices(cons: Seq<ConfigValue>) -> Seq<(Seq<char>, Seq<char>, Seq<char>)>
    decreases cons.len(),
{
    if cons.len() == 0 {
        Seq::empty()
    } else {
        let rest = connection_devices(cons.drop_last());
        if connection_usable(cons.last()) {
            rest.push(connection_settings(cons.last()))
        } else {
            rest
        }
    }
}

/// The devices that a driver configuration describes: those of its
/// `connections` list, none when it has no such list.
pub open spec fn configured_devices(configuration: ConfigValue) -> Seq<(Seq<char>, Seq<char>, Seq<char>)> {
    match configuration.list_at("connections"@) {
        Some(cons) => connection_devices(cons),
        None => Seq::empty(),
    }
}

/// The driver of ESPHome devices.
#[derive(Debug)]
pub struct EspHomeDriver {}

impl EspHomeDriver {
    /// The driver, before it has read a configuration.
    pub fn new() -> Self {
        EspHomeDriver {}
    }

    /// The devices that `configuration` describes, in order.
    pub fn load(&mut self, configuration: &ConfigValue) -> (r: Vec<EspHomeDevice>)
        ensures
            r@.map_values(|d: EspHomeDevice| d@) == configured_devices(*configuration),
    {
        let mut r: Vec<EspHomeDevice> = Vec::new();
        let connections = match configuration.vec_at("connections") {
            Some(c) => c,
            None => {
                assert(r@.map_values(|d: EspHomeDevice| d@) =~= Seq::<(Seq<char>, Seq<char>, Seq<char>)>::empty());
                return r;
            },
        };
        let mut i: usize = 0;
        while i < connections.len()
            invariant
                i <= connections.len(),
                r@.map_values(|d: EspHomeDevice| d@) == connection_devices(connections@.take(i as int)),
            decreases connections.len() - i,
        {
            let con = &connections[i];
            let name = str_or(con, "name", "");
            let host = str_or(con, "host", "");
            let password = str_or(con, "password", "");
            assert(connections@.take(i + 1).drop_last() =~= connections@.take(i as int));
            if !host.as_str().is_empty() && !name.as_str().is_empty() {
                r.push(EspHomeDevice::new(name, host, password));
                assert(r@.map_values(|d: EspHomeDevice| d@) =~= connection_devices(connections@.take(i + 1)));
            }
            i = i + 1;
        }
        assert(connections@.take(connections.len() as int) =~= connections@);
        r
    }
}

} // verus!
