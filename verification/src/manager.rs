use vstd::prelude::*;
use crate::config::{ConfigValue, load_yaml, yaml_documents};
use crate::device::NewDevice;
use crate::driver::{LoadedDriver, create_driver, created, is_driver_name, loads, unknown_driver_message};
use crate::event::{Event, EventTarget};
use crate::result::{RHomeError, RHomeResult};
use crate::registry::Registry;
use crate::text::same_text;

verus! {

/// The name under which the manager publishes its own events.
pub open spec fn manager_name() -> Seq<char> {
    "manager"@
}

/// Whether an event from `source` with target `target` is for the device
/// named `device`.
pub open spec fn delivers(target: EventTarget, source: Seq<char>, device: Seq<char>) -> bool {
    match target {
        EventTarget::Everyone => device != source,
        EventTarget::EveryoneIncludeSender => true,
        EventTarget::SenderOnly => device == source,
        EventTarget::ManagerOnly => false,
    }
}

/// Whether the `i`-th of the registered devices `names` receives an event
/// from `source` with target `target`: the manager's own events reach no one.
pub open spec fn is_recipient(
    names: Seq<Seq<char>>,
    source: Seq<char>,
    target: EventTarget,
    i: int,
) -> bool {
    &&& 0 <= i < names.len()
    &&& source != manager_name()
    &&& delivers(target, source, names[i])
}

/// The hub's registry of devices, which routes events between them.
///
/// `T` is the channel through which a device receives its events.
pub struct ManagerImpl<T> {
    devices: Registry<T>,
    drivers: Registry<LoadedDriver>,
}

impl<T> ManagerImpl<T> {
    /// The names of the registered devices, in the order of registration.
    pub closed spec fn device_names(&self) -> Seq<Seq<char>> {
        self.devices.names()
    }

    /// The channels of the registered devices, in the same order.
    pub closed spec fn device_channels(&self) -> Seq<T> {
        self.devices.values()
    }

    /// The registered devices as a map from name to channel.
    pub closed spec fn registered(&self) -> Map<Seq<char>, T> {
        self.devices.as_map()
    }

    /// The loaded drivers as a map from name to driver.
    pub closed spec fn loaded_drivers(&self) -> Map<Seq<char>, LoadedDriver> {
        self.drivers.as_map()
    }

    /// A manager with no device and no driver.
    pub fn new() -> (m: Self)
        ensures
            m.device_names() == Seq::<Seq<char>>::empty(),
            m.device_channels() == Seq::<T>::empty(),
            m.registered() == Map::<Seq<char>, T>::empty(),
            m.loaded_drivers() == Map::<Seq<char>, LoadedDriver>::empty(),
    {
        ManagerImpl { devices: Registry::new(), drivers: Registry::new() }
    }

    /// Keeps `driver` under `name`, replacing a driver of that name.
    pub fn load_driver(&mut self, name: String, driver: LoadedDriver) -> (r: RHomeResult<()>)
        ensures
            r is Ok,
            final(self).loaded_drivers() == old(self).loaded_drivers().insert(name@, driver),
            final(self).device_names() == old(self).device_names(),
            final(self).device_channels() == old(self).device_channels(),
    {
        self.drivers.insert(name, driver);
        Ok(())
    }

    /// The driver loaded under `name`, if any.
    pub fn driver(&self, name: &str) -> (r: Option<&LoadedDriver>)
        ensures
            match r {
                Some(d) => self.loaded_drivers().contains_key(name@) && *d == self.loaded_drivers()[name@],
                None => !self.loaded_drivers().contains_key(name@),
            },
    {
        self.drivers.get(name)
    }

    /// The number of registered devices.
    pub fn device_count(&self) -> (n: usize)
        ensures
            n == self.device_names().len(),
            self.device_names().len() == self.device_channels().len(),
            self.device_names().no_duplicates(),
    {
        self.devices.len()
    }

    /// The name of the `i`-th registered device.
    pub fn device_name(&self, i: usize) -> (r: &String)
        requires
            i < self.device_names().len(),
        ensures
            r@ == self.device_names()[i as int],
    {
        self.devices.name_at(i)
    }

    /// The channel of the `i`-th registered device.
    pub fn device_channel(&self, i: usize) -> (r: &T)
        requires
            i < self.device_channels().len(),
        ensures
            *r == self.device_channels()[i as int],
    {
        self.devices.value_at(i)
    }

    /// The channel of the device named `name`, if one is registered.
    pub fn channel_of(&self, name: &str) -> (r: Option<&T>)
        ensures
            match r {
                Some(t) => self.registered().contains_key(name@) && *t == self.registered()[name@],
                None => !self.registered().contains_key(name@),
            },
    {
        self.devices.get(name)
    }

    /// Registers the device `name`, reached through `tx`; a device already
    /// registered under that name keeps its place and gets the new channel.
    pub fn add_device(&mut self, name: String, tx: T)
        ensures
            old(self).device_names().contains(name@) ==> {
                &&& final(self).device_names() == old(self).device_names()
                &&& final(self).device_channels().len() == old(self).device_channels().len()
                &&& forall|i: int| 0 <= i < old(self).device_channels().len() ==>
                    #[trigger] final(self).device_channels()[i] == if old(self).device_names()[i] == name@ {
                        tx
                    } else {
                        old(self).device_channels()[i]
                    }
            },
            !old(self).device_names().contains(name@) ==> {
                &&& final(self).device_names() == old(self).device_names().push(name@)
                &&& final(self).device_channels() == old(self).device_channels().push(tx)
            },
            final(self).registered() == old(self).registered().insert(name@, tx),
            final(self).loaded_drivers() == old(self).loaded_drivers(),
    {
        self.devices.insert(name, tx);
    }

    /// Whether `ev` is one of the manager's own events, which it ignores.
    pub fn is_own_event(&self, ev: &Event) -> (r: bool)
        ensures
            r == (ev.source@ == manager_name()),
    {
        same_text(ev.source.as_str(), "manager")
    }

    /// The positions of the devices that receive `ev`, in increasing order:
    /// none for the manager's own events, else those that the target selects.
    pub fn recipients(&self, ev: &Event) -> (r: Vec<usize>)
        ensures
            self.device_names().no_duplicates(),
            forall|k: int| 0 <= k < r.len() ==>
                is_recipient(self.device_names(), ev.source@, ev.target, #[trigger] r[k] as int),
            forall|a: int, b: int| 0 <= a < b < r.len() ==> r[a] < r[b],
            forall|i: int| is_recipient(self.device_names(), ev.source@, ev.target, i) ==>
                exists|k: int| 0 <= k < r.len() && r[k] == i,
    {
        let n: usize = self.devices.len();
        let mut r: Vec<usize> = Vec::new();
        if same_text(ev.source.as_str(), "manager") {
            return r;
        }
        let ghost names = self.device_names();
        let mut i: usize = 0;
        while i < n
            invariant
                names == self.device_names(),
                names.no_duplicates(),
                n == names.len(),
                ev.source@ != manager_name(),
                i <= n,
                forall|k: int| 0 <= k < r.len() ==> #[trigger] r[k] < i,
                forall|k: int| 0 <= k < r.len() ==>
                    is_recipient(names, ev.source@, ev.target, #[trigger] r[k] as int),
                forall|a: int, b: int| 0 <= a < b < r.len() ==> r[a] < r[b],
                forall|j: int| 0 <= j < i && is_recipient(names, ev.source@, ev.target, j) ==>
                    exists|k: int| 0 <= k < r.len() && r[k] == j,
            decreases n - i,
        {
            let same = same_text(self.devices.name_at(i).as_str(), ev.source.as_str());
            let take = match ev.target {
                EventTarget::Everyone => !same,
                EventTarget::EveryoneIncludeSender => true,
                EventTarget::SenderOnly => same,
                EventTarget::ManagerOnly => false,
            };
            if take {
                let ghost prev = r@;
                r.push(i);
                proof {
                    assert forall|j: int| 0 <= j < i + 1 && is_recipient(names, ev.source@, ev.target, j)
                        implies exists|k: int| 0 <= k < r.len() && r[k] == j by {
                        if j == i {
                            assert(r[prev.len() as int] == i);
                        } else {
                            let k: int = choose|k: int| 0 <= k < prev.len() && prev[k] == j;
                            assert(r[k] == j);
                        }
                    }
                }
            }
            i = i + 1;
        }
        r
    }
}

/// A driver of the configuration with its outcome: the loaded driver and
/// the devices it created, or why it could not be created.
#[derive(Debug)]
pub struct DriverPlan {
    pub name: String,
    pub outcome: Result<(LoadedDriver, Vec<NewDevice>), RHomeError>,
}

/// Whether `outcome` is what the configuration entry `name` with settings
/// `configuration` gives: the driver that the name asks for, after reading
/// the settings, with its devices; the unknown-driver error otherwise.
pub open spec fn planned(
    name: Seq<char>,
    configuration: ConfigValue,
    outcome: Result<(LoadedDriver, Vec<NewDevice>), RHomeError>,
) -> bool {
    match outcome {
        Ok((d, devices)) => is_driver_name(name) && exists|d0: LoadedDriver|
            created(name, d0) && loads(d0, configuration, d, devices@),
        Err(e) => !is_driver_name(name) && e.message() == unknown_driver_message(name),
    }
}

/// Creates the driver that `name` asks for and loads `configuration` into it.
pub fn plan_driver(name: &str, configuration: &ConfigValue) -> (r: Result<
    (LoadedDriver, Vec<NewDevice>),
    RHomeError,
>)
    ensures
        planned(name@, *configuration, r),
{
    let mut d = create_driver(name)?;
    let devices = d.load(configuration);
    Ok((d, devices))
}

/// The entries of the `drivers` hash of the first document; none when
/// there is no such hash.
pub open spec fn driver_entries(docs: Seq<ConfigValue>) -> Seq<(ConfigValue, ConfigValue)> {
    match docs[0].lookup("drivers"@) {
        Some(ConfigValue::Hash(h)) => h@,
        _ => Seq::empty(),
    }
}

/// The text of a key.
pub open spec fn key_text(k: ConfigValue) -> Seq<char> {
    match k {
        ConfigValue::String(s) => s@,
        _ => Seq::empty(),
    }
}

/// Whether every key of the entries is text.
pub open spec fn keys_are_text(entries: Seq<(ConfigValue, ConfigValue)>) -> bool {
    forall|i: int| 0 <= i < entries.len() ==> (#[trigger] entries[i]).0 is String
}

/// Whether `plans` holds, in order, the outcome of each driver entry.
pub open spec fn plans_match(entries: Seq<(ConfigValue, ConfigValue)>, plans: Seq<DriverPlan>) -> bool {
    &&& plans.len() == entries.len()
    &&& forall|i: int|
        0 <= i < plans.len() ==> {
            &&& (#[trigger] plans[i]).name@ == key_text(entries[i].0)
            &&& planned(plans[i].name@, entries[i].1, plans[i].outcome)
        }
}

/// The outcome of every driver that the first document configures, in the
/// document's order.
pub fn plan_drivers(docs: &Vec<ConfigValue>) -> (r: Vec<DriverPlan>)
    requires
        docs.len() > 0,
        keys_are_text(driver_entries(docs@)),
    ensures
        plans_match(driver_entries(docs@), r@),
{
    let mut r: Vec<DriverPlan> = Vec::new();
    let entries = match docs[0].get("drivers") {
        Some(v) => match v.as_hash() {
            Some(h) => h,
            None => {
                return r;
            },
        },
        None => {
            return r;
        },
    };
    let ghost expected = driver_entries(docs@);
    assert(entries@ == expected);
    let mut i: usize = 0;
    while i < entries.len()
        invariant
            entries@ == expected,
            keys_are_text(expected),
            i <= entries.len(),
            r.len() == i,
            forall|k: int|
                0 <= k < i ==> {
                    &&& (#[trigger] r[k]).name@ == key_text(expected[k].0)
                    &&& planned(r[k].name@, expected[k].1, r[k].outcome)
                },
        decreases entries.len() - i,
    {
        assert(expected[i as int].0 is String);
        let name = match entries[i].0.as_str() {
            Some(s) => s.clone(),
            None => String::new(),
        };
        let outcome = plan_driver(name.as_str(), &entries[i].1);
        r.push(DriverPlan { name, outcome });
        i = i + 1;
    }
    r
}

/// Whether a configuration text can be loaded without fault: it does not
/// parse (an error to report), or it holds a document whose driver keys
/// are all text.
pub open spec fn loadable_config(text: Seq<char>) -> bool {
    match yaml_documents(text) {
        Ok(docs) => docs.len() > 0 && keys_are_text(driver_entries(docs)),
        Err(_) => true,
    }
}

/// The drivers that a loadable configuration text asks for: the parse
/// error, or the outcome of each driver of the first document, in order.
pub fn plan_drivers_text(text: &str) -> (r: Result<Vec<DriverPlan>, RHomeError>)
    requires
        loadable_config(text@),
    ensures
        match yaml_documents(text@) {
            Err(message) => r matches Err(e) && e.message() == message,
            Ok(docs) => r matches Ok(plans) && plans_match(driver_entries(docs), plans@),
        },
{
    let docs = match load_yaml(text) {
        Ok(docs) => docs,
        Err(message) => {
            return Err(RHomeError::new(message));
        },
    };
    Ok(plan_drivers(&docs))
}

/// The drivers that any configuration text asks for: what
/// `plan_drivers_text` gives, wrapped in `Some`, when the text is loadable;
/// nothing (`Ok(None)`) when it holds no document or a driver key is not
/// text, where the text cannot be loaded.
pub fn plan_config(text: &str) -> (r: Result<Option<Vec<DriverPlan>>, RHomeError>)
    ensures
        match yaml_documents(text@) {
            Err(message) => r matches Err(e) && e.message() == message,
            Ok(docs) => if docs.len() == 0 || !keys_are_text(driver_entries(docs)) {
                r matches Ok(None)
            } else {
                r matches Ok(Some(plans)) && plans_match(driver_entries(docs), plans@)
            },
        },
{
    let docs = match load_yaml(text) {
        Ok(docs) => docs,
        Err(message) => {
            return Err(RHomeError::new(message));
        },
    };
    if docs.len() == 0 {
        return Ok(None);
    }
    if !driver_keys_are_text(&docs[0]) {
        return Ok(None);
    }
    match plan_drivers_text(text) {
        Ok(plans) => Ok(Some(plans)),
        Err(e) => Err(e),
    }
}

/// Whether every key of the `drivers` hash of `doc` is text.
fn driver_keys_are_text(doc: &ConfigValue) -> (b: bool)
    ensures
        b == keys_are_text(driver_entries(seq![*doc])),
{
    let entries = match doc.get("drivers") {
        Some(v) => match v.as_hash() {
            Some(h) => h,
            None => {
                return true;
            },
        },
        None => {
            return true;
        },
    };
    let mut i: usize = 0;
    while i < entries.len()
        invariant
            entries@ == driver_entries(seq![*doc]),
            i <= entries.len(),
            forall|k: int| 0 <= k < i ==> (#[trigger] entries@[k]).0 is String,
        decreases entries.len() - i,
    {
        if entries[i].0.as_str().is_none() {
            return false;
        }
        i = i + 1;
    }
    true
}

/// The manager's own events reach no device, whatever their target.
pub proof fn law_own_events_reach_no_device(names: Seq<Seq<char>>, target: EventTarget, i: int)
    ensures
        !is_recipient(names, manager_name(), target, i),
{
}

/// An event meant for the manager alone reaches no device.
pub proof fn law_manager_only_reaches_no_device(names: Seq<Seq<char>>, source: Seq<char>, i: int)
    ensures
        !is_recipient(names, source, EventTarget::ManagerOnly, i),
{
}

/// An event for everyone, sender included, reaches every registered device
/// unless the manager sent it.
pub proof fn law_broadcast_reaches_every_device(names: Seq<Seq<char>>, source: Seq<char>, i: int)
    requires
        source != manager_name(),
        0 <= i < names.len(),
    ensures
        is_recipient(names, source, EventTarget::EveryoneIncludeSender, i),
{
}

/// An event for everyone reaches exactly the devices that the same event
/// for everyone-including-the-sender reaches, except the sender itself.
pub proof fn law_everyone_skips_the_sender(names: Seq<Seq<char>>, source: Seq<char>, i: int)
    ensures
        is_recipient(names, source, EventTarget::Everyone, i) <==> (is_recipient(
            names,
            source,
            EventTarget::EveryoneIncludeSender,
            i,
        ) && names[i] != source),
{
}

/// With distinct device names, an event for its sender only reaches the one
/// device that bears the sender's name, and no other.
pub proof fn law_sender_only_reaches_the_sender(
    names: Seq<Seq<char>>,
    source: Seq<char>,
    i: int,
    j: int,
)
    requires
        names.no_duplicates(),
    ensures
        is_recipient(names, source, EventTarget::SenderOnly, i) <==> (source != manager_name() && 0
            <= i < names.len() && names[i] == source),
        is_recipient(names, source, EventTarget::SenderOnly, i) && is_recipient(
            names,
            source,
            EventTarget::SenderOnly,
            j,
        ) ==> i == j,
{
}

} // verus!
