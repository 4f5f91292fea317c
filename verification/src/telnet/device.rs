use vstd::prelude::*;
use vstd::utf8::{decode_utf8, valid_utf8};
use crate::event::{Event, EventTarget};
use crate::manager::{is_recipient, manager_name};
use crate::text::{decode_utf8_text, same_text, trim, trimmed};

verus! {

/// A device that takes console commands over telnet connections.
#[derive(Debug)]
pub struct TelnetDevice {
    name: String,
    listen_on: String,
}

impl View for TelnetDevice {
    type V = (Seq<char>, Seq<char>);

    /// The device's name and the address it listens on.
    closed spec fn view(&self) -> (Seq<char>, Seq<char>) {
        (self.name@, self.listen_on@)
    }
}

/// Whether `ev` asks for a console command to be executed.
pub open spec fn carries_command(ev: Event) -> bool {
    ev.name@ == "console_command"@ && ev.data@.contains_key("command"@)
}

/// The event that a telnet session publishes for one line of input read
/// from its client, and whether the session ends after it.
pub open spec fn session_step(source: Seq<char>, ev: Event, stop: bool, input: Seq<u8>) -> bool {
    let command = trimmed(decode_utf8(input));
    &&& ev.name@ == "console_command"@
    &&& ev.source@ == source
    &&& ev.target == EventTarget::SenderOnly
    &&& ev.data@ == Map::<Seq<char>, Seq<char>>::empty().insert("command"@, command)
    &&& stop == (command == "exit"@)
}

impl TelnetDevice {
    /// A telnet device named `name` that listens on `listen_on`.
    pub fn new(name: String, listen_on: String) -> (d: Self)
        ensures
            d@ == (name@, listen_on@),
    {
        TelnetDevice { name, listen_on }
    }

    /// The device's name.
    pub fn name(&self) -> (r: String)
        ensures
            r@ == self@.0,
    {
        self.name.clone()
    }

    /// The address the device listens on.
    pub fn listen_on(&self) -> (r: String)
        ensures
            r@ == self@.1,
    {
        self.listen_on.clone()
    }

    /// The command that the device executes on receiving `ev`: the
    /// `command` entry of a `console_command` event, and nothing otherwise.
    pub fn command_to_execute(&self, ev: &Event) -> (r: Option<String>)
        ensures
            carries_command(*ev) ==> r is Some && r->0@ == ev.data@["command"@],
            !carries_command(*ev) ==> r is None,
    {
        if !same_text(ev.name.as_str(), "console_command") {
            return None;
        }
        match ev.data.get("command") {
            Some(command) => Some(command.clone()),
            None => None,
        }
    }
}

/// The event that a telnet session of device `source` publishes for the
/// bytes `input` read from its client: a `console_command` for the sender
/// alone carrying the trimmed text, and whether that text is "exit", which
/// ends the session.  Nothing when the bytes are not UTF-8.
pub fn console_command_event(source: &str, input: &[u8]) -> (r: Option<(Event, bool)>)
    ensures
        r is Some <==> valid_utf8(input@),
        r matches Some((ev, stop)) ==> session_step(source@, ev, stop, input@),
        r matches Some((ev, stop)) ==> (stop <==> trimmed(decode_utf8(input@)) == "exit"@),
{
    let text = match decode_utf8_text(input) {
        Some(t) => t,
        None => return None,
    };
    let command = trim(text);
    let mut ev = Event::new(String::from_str("console_command"), String::from_str(source));
    let stop = same_text(command.as_str(), "exit");
    ev.data.insert(String::from_str("command"), command);
    ev.target = EventTarget::SenderOnly;
    Some((ev, stop))
}

/// A telnet session ends exactly when the line typed, once trimmed, is
/// "exit": an empty line, or any other command, keeps the session going,
/// and the event carries the trimmed line whatever it is.
pub proof fn law_only_exit_ends_the_session(source: Seq<char>, ev: Event, stop: bool, input: Seq<u8>)
    requires
        session_step(source, ev, stop, input),
    ensures
        ev.data@.contains_key("command"@),
        stop <==> ev.data@["command"@] == "exit"@,
        ev.data@["command"@].len() == 0 ==> !stop,
        ev.data@["command"@] == trimmed(decode_utf8(input)),
{
    reveal_strlit("exit");
}

/// A console command typed into a telnet session of the device `source`
/// comes back to that device alone (when it is registered), and the device
/// executes exactly the trimmed input.
pub proof fn law_console_command_returns_to_its_device(
    names: Seq<Seq<char>>,
    source: Seq<char>,
    ev: Event,
    stop: bool,
    input: Seq<u8>,
    i: int,
)
    requires
        names.no_duplicates(),
        source != manager_name(),
        session_step(source, ev, stop, input),
    ensures
        is_recipient(names, ev.source@, ev.target, i) <==> (0 <= i < names.len() && names[i]
            == source),
        carries_command(ev),
        ev.data@["command"@] == trimmed(decode_utf8(input)),
{
}

} // verus!
