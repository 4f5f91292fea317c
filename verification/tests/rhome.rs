use rhome::config::ConfigValue;
use rhome::console::ConsoleDriver;
use rhome::device::NewDevice;
use rhome::driver::{create_driver, LoadedDriver};
use rhome::dummy::{DummyDevice, DummyDriver};
use rhome::esphome::device::EspHomeDevice;
use rhome::esphome::EspHomeDriver;
use rhome::event::{Event, EventData, EventTarget};
use rhome::manager::{plan_config, plan_driver, plan_drivers_text, ManagerImpl};
use rhome::result::RHomeError;
use rhome::telnet::device::{console_command_event, TelnetDevice};
use rhome::telnet::TelnetDriver;
use rhome::text::trim;
use rhome::time::driver::Driver as TimeDriver;
use rhome::time::{delay_to_next_minute, read_clock, time_event, TimeDevice};
use rhome::console::device::ConsoleDevice;

fn text(s: &str) -> ConfigValue {
    ConfigValue::String(s.to_string())
}

fn hash(pairs: Vec<(&str, ConfigValue)>) -> ConfigValue {
    ConfigValue::Hash(pairs.into_iter().map(|(k, v)| (text(k), v)).collect())
}

fn manager_with(names: &[&str]) -> ManagerImpl<u32> {
    let mut m = ManagerImpl::new();
    for (i, n) in names.iter().enumerate() {
        m.add_device(n.to_string(), i as u32);
    }
    m
}

fn event(source: &str, target: EventTarget) -> Event {
    let mut ev = Event::new("ping".to_string(), source.to_string());
    ev.target = target;
    ev
}

#[test]
fn event_new_is_for_everyone_without_data() {
    let ev = Event::new("state".to_string(), "lamp".to_string());
    assert_eq!(ev.name, "state");
    assert_eq!(ev.source, "lamp");
    assert_eq!(ev.target, EventTarget::Everyone);
    assert_eq!(ev.data.len(), 0);
}

#[test]
fn event_data_reads_back_the_last_write() {
    let mut d = EventData::new();
    d.insert("a".to_string(), "1".to_string());
    d.insert("b".to_string(), "2".to_string());
    d.insert("a".to_string(), "3".to_string());
    assert_eq!(d.len(), 2);
    assert_eq!(d.get("a").map(|s| s.as_str()), Some("3"));
    assert_eq!(d.get("b").map(|s| s.as_str()), Some("2"));
    assert_eq!(d.get("c"), None);
    let pairs = d.to_pairs();
    assert_eq!(pairs, vec![("a".to_string(), "3".to_string()), ("b".to_string(), "2".to_string())]);
    let copy = d.clone();
    assert_eq!(copy.get("a").map(|s| s.as_str()), Some("3"));
}

#[test]
fn target_labels() {
    assert_eq!(EventTarget::Everyone.label(), "Everyone");
    assert_eq!(EventTarget::EveryoneIncludeSender.label(), "EveryoneIncludeSender");
    assert_eq!(EventTarget::SenderOnly.label(), "SenderOnly");
    assert_eq!(EventTarget::ManagerOnly.label(), "ManagerOnly");
}

#[test]
fn routing_everyone_skips_the_sender() {
    let m = manager_with(&["a", "b", "c"]);
    assert_eq!(m.recipients(&event("b", EventTarget::Everyone)), vec![0, 2]);
    assert_eq!(m.recipients(&event("z", EventTarget::Everyone)), vec![0, 1, 2]);
}

#[test]
fn routing_everyone_include_sender_reaches_all() {
    let m = manager_with(&["a", "b", "c"]);
    assert_eq!(m.recipients(&event("b", EventTarget::EveryoneIncludeSender)), vec![0, 1, 2]);
}

#[test]
fn routing_sender_only_reaches_the_sender() {
    let m = manager_with(&["a", "b", "c"]);
    assert_eq!(m.recipients(&event("c", EventTarget::SenderOnly)), vec![2]);
    assert_eq!(m.recipients(&event("x", EventTarget::SenderOnly)), Vec::<usize>::new());
}

#[test]
fn routing_manager_only_reaches_no_device() {
    let m = manager_with(&["a", "b"]);
    assert_eq!(m.recipients(&event("a", EventTarget::ManagerOnly)), Vec::<usize>::new());
}

#[test]
fn routing_ignores_the_managers_own_events() {
    let m = manager_with(&["a", "manager2"]);
    for t in [EventTarget::Everyone, EventTarget::EveryoneIncludeSender, EventTarget::SenderOnly] {
        assert_eq!(m.recipients(&event("manager", t)), Vec::<usize>::new());
    }
}

#[test]
fn registering_a_name_again_replaces_its_channel() {
    let mut m: ManagerImpl<u32> = ManagerImpl::new();
    m.add_device("a".to_string(), 1);
    m.add_device("b".to_string(), 2);
    m.add_device("a".to_string(), 3);
    assert_eq!(m.device_count(), 2);
    assert_eq!(m.device_name(0), "a");
    assert_eq!(*m.device_channel(0), 3);
    assert_eq!(m.channel_of("a"), Some(&3));
    assert_eq!(m.channel_of("b"), Some(&2));
    assert_eq!(m.channel_of("c"), None);
}

#[test]
fn loading_a_driver_keeps_it_by_name() {
    let mut m: ManagerImpl<u32> = ManagerImpl::new();
    assert!(m.load_driver("dummy".to_string(), LoadedDriver::Dummy(DummyDriver::new())).is_ok());
    assert!(matches!(m.driver("dummy"), Some(LoadedDriver::Dummy(_))));
    assert!(m.driver("time").is_none());
    assert_eq!(m.device_count(), 0);
}

#[test]
fn unknown_driver_is_an_error() {
    match create_driver("lights") {
        Err(e) => assert_eq!(e.text(), "unknown driver 'lights'"),
        Ok(_) => panic!("lights is no driver"),
    }
    assert!(matches!(create_driver("time"), Ok(LoadedDriver::Time(_))));
    assert!(matches!(create_driver("dummy"), Ok(LoadedDriver::Dummy(_))));
    assert!(matches!(create_driver("telnet"), Ok(LoadedDriver::Telnet(_))));
    assert!(create_driver("console").is_err());
    assert!(create_driver("Time").is_err());
}

#[test]
fn error_keeps_its_message() {
    let e = RHomeError::new("boom".to_string());
    assert_eq!(e.text(), "boom");
    assert_eq!(e.clone(), e);
}

#[test]
fn config_lookup_takes_the_first_text_key() {
    let v = ConfigValue::Hash(vec![
        (ConfigValue::Integer(1), text("int key")),
        (text("name"), text("first")),
        (text("name"), text("second")),
        (text("flag"), ConfigValue::Boolean(true)),
    ]);
    assert_eq!(v.str_at("name"), Some("first".to_string()));
    assert_eq!(v.bool_at("flag"), Some(true));
    assert_eq!(v.bool_at("name"), None);
    assert_eq!(v.str_at("missing"), None);
    assert_eq!(text("x").str_at("name"), None);
    assert!(v.vec_at("name").is_none());
}

#[test]
fn console_driver_names_its_device() {
    let mut d = ConsoleDriver::new();
    assert_eq!(d.load(&ConfigValue::Null).name(), "console");
    assert_eq!(d.load(&hash(vec![("name", text("tty"))])).name(), "tty");
    assert_eq!(d.load(&hash(vec![("name", ConfigValue::Integer(3))])).name(), "console");
}

#[test]
fn dummy_driver_makes_the_watcher() {
    let mut d = DummyDriver::new();
    assert_eq!(d.load(&hash(vec![("name", text("x"))])).name(), "dummy_watcher");
}

#[test]
fn devices_start_unnamed_and_can_be_renamed() {
    let mut c = ConsoleDevice::new();
    assert_eq!(c.name(), "");
    c.set_name("c".to_string());
    assert_eq!(c.name(), "c");
    let mut d = DummyDevice::default();
    assert_eq!(d.name(), "");
    d.set_name("d".to_string());
    assert_eq!(d.name(), "d");
    let mut t = TimeDevice::new();
    assert_eq!(t.name(), "");
    t.set_name("t".to_string());
    assert_eq!(t.name(), "t");
}

#[test]
fn telnet_driver_defaults() {
    let mut d = TelnetDriver::new();
    let dev = d.load(&ConfigValue::Null);
    assert_eq!(dev.name(), "console");
    assert_eq!(dev.listen_on(), "127.0.0.1:7800");
    let dev = d.load(&hash(vec![("name", text("tel")), ("listen_on", text("0.0.0.0:23"))]));
    assert_eq!(dev.name(), "tel");
    assert_eq!(dev.listen_on(), "0.0.0.0:23");
}

#[test]
fn time_driver_reads_its_settings() {
    let mut d = TimeDriver::new();
    assert_eq!(d.format(), "%+");
    assert!(!d.local_time());
    assert!(!d.every_second());
    let dev = d.load(&hash(vec![("format", text("%H:%M")), ("local_time", ConfigValue::Boolean(true))]));
    assert_eq!(dev.name(), "time");
    assert_eq!(d.format(), "%H:%M");
    assert!(d.local_time());
    assert!(!d.every_second());
    d.load(&hash(vec![("every_second", ConfigValue::Boolean(true)), ("format", ConfigValue::Integer(1))]));
    assert_eq!(d.format(), "%H:%M");
    assert!(d.every_second());
}

#[test]
fn esphome_driver_skips_incomplete_connections() {
    let cons = ConfigValue::Array(vec![
        hash(vec![("name", text("kitchen")), ("host", text("10.0.0.2:6053")), ("password", text("pw"))]),
        hash(vec![("name", text("nohost"))]),
        hash(vec![("host", text("10.0.0.3:6053"))]),
        hash(vec![("name", text("hall")), ("host", text("10.0.0.4:6053"))]),
    ]);
    let mut d = EspHomeDriver::new();
    let devs: Vec<EspHomeDevice> = d.load(&hash(vec![("connections", cons)]));
    assert_eq!(devs.len(), 2);
    assert_eq!((devs[0].name(), devs[0].host(), devs[0].password()),
        ("kitchen".to_string(), "10.0.0.2:6053".to_string(), "pw".to_string()));
    assert_eq!((devs[1].name(), devs[1].host(), devs[1].password()),
        ("hall".to_string(), "10.0.0.4:6053".to_string(), "".to_string()));
    assert!(d.load(&ConfigValue::Null).is_empty());
}

#[test]
fn plan_driver_loads_the_configuration() {
    match plan_driver("telnet", &hash(vec![("name", text("tel"))])) {
        Ok((LoadedDriver::Telnet(_), devs)) => {
            assert_eq!(devs.len(), 1);
            assert_eq!(devs[0].name(), "tel");
            assert!(matches!(&devs[0], NewDevice::Telnet(t) if t.listen_on() == "127.0.0.1:7800"));
        },
        _ => panic!("telnet is a driver"),
    }
    assert!(plan_driver("esphome", &ConfigValue::Null).is_err());
}

#[test]
fn plan_config_follows_the_document() {
    let text = "drivers:\n  time:\n    format: \"%H\"\n    local_time: true\n  dummy:\n  telnet:\n    name: tel\n  bogus:\n";
    let plans = plan_config(text).unwrap().unwrap();
    let names: Vec<&str> = plans.iter().map(|p| p.name.as_str()).collect();
    assert_eq!(names, vec!["time", "dummy", "telnet", "bogus"]);
    match &plans[0].outcome {
        Ok((LoadedDriver::Time(t), devs)) => {
            assert_eq!(t.format(), "%H");
            assert!(t.local_time());
            assert_eq!(devs.len(), 1);
            assert_eq!(devs[0].name(), "time");
        },
        _ => panic!("time is a driver"),
    }
    match &plans[1].outcome {
        Ok((LoadedDriver::Dummy(_), devs)) => assert_eq!(devs[0].name(), "dummy_watcher"),
        _ => panic!("dummy is a driver"),
    }
    match &plans[2].outcome {
        Ok((LoadedDriver::Telnet(_), devs)) => assert_eq!(devs[0].name(), "tel"),
        _ => panic!("telnet is a driver"),
    }
    match &plans[3].outcome {
        Err(e) => assert_eq!(e.text(), "unknown driver 'bogus'"),
        Ok(_) => panic!("bogus is no driver"),
    }
}

#[test]
fn plan_config_without_drivers_plans_nothing() {
    assert_eq!(plan_config("other: 1\n").unwrap().unwrap().len(), 0);
    assert_eq!(plan_config("drivers: 3\n").unwrap().unwrap().len(), 0);
}

#[test]
fn plan_config_reports_scan_errors() {
    assert!(plan_config("drivers: [1, 2\n").is_err());
    assert!(plan_config("a: \"unterminated\n").is_err());
}

#[test]
fn plan_config_refuses_empty_text_and_odd_keys() {
    assert!(plan_config("").unwrap().is_none());
    assert!(plan_config("drivers:\n  1: x\n").unwrap().is_none());
}

#[test]
fn trim_removes_unicode_white_space() {
    assert_eq!(trim("  ls -l \r\n"), "ls -l");
    assert_eq!(trim("\u{3000}x y\u{2003}"), "x y");
    assert_eq!(trim(" \t\n"), "");
    assert_eq!(trim("a"), "a");
}

#[test]
fn telnet_input_becomes_a_command_for_its_sender() {
    let (ev, stop) = console_command_event("tel", b"  ls -l \r\n").unwrap();
    assert_eq!(ev.name, "console_command");
    assert_eq!(ev.source, "tel");
    assert_eq!(ev.target, EventTarget::SenderOnly);
    assert_eq!(ev.data.len(), 1);
    assert_eq!(ev.data.get("command").map(|s| s.as_str()), Some("ls -l"));
    assert!(!stop);
}

#[test]
fn telnet_exit_ends_the_session() {
    let (ev, stop) = console_command_event("tel", b"exit\r\n").unwrap();
    assert_eq!(ev.data.get("command").map(|s| s.as_str()), Some("exit"));
    assert!(stop);
    let (_, stop) = console_command_event("tel", b"exit now").unwrap();
    assert!(!stop);
}

#[test]
fn telnet_input_that_is_not_utf8_gives_nothing() {
    assert!(console_command_event("tel", &[0x66, 0xff, 0x0a]).is_none());
    assert!(console_command_event("tel", "caf\u{e9}".as_bytes()).is_some());
}

#[test]
fn telnet_device_executes_console_commands_only() {
    let dev = TelnetDevice::new("tel".to_string(), "127.0.0.1:7800".to_string());
    let (ev, _) = console_command_event("other", b"status").unwrap();
    assert_eq!(dev.command_to_execute(&ev), Some("status".to_string()));
    let mut plain = Event::new("console_command".to_string(), "x".to_string());
    assert_eq!(dev.command_to_execute(&plain), None);
    plain.data.insert("command".to_string(), "go".to_string());
    assert_eq!(dev.command_to_execute(&plain), Some("go".to_string()));
    let mut other = Event::new("state".to_string(), "x".to_string());
    other.data.insert("command".to_string(), "go".to_string());
    assert_eq!(dev.command_to_execute(&other), None);
}

#[test]
fn console_command_returns_to_its_device_only() {
    let m = manager_with(&["clock", "tel", "lamp"]);
    let (ev, _) = console_command_event("tel", b"help\n").unwrap();
    let to = m.recipients(&ev);
    assert_eq!(to, vec![1]);
    let dev = TelnetDevice::new("tel".to_string(), "127.0.0.1:7800".to_string());
    assert_eq!(dev.command_to_execute(&ev), Some("help".to_string()));
}

#[test]
fn delay_reaches_the_next_minute() {
    assert_eq!(delay_to_next_minute(0, 0), 60_000_000_000);
    assert_eq!(delay_to_next_minute(999_999_999, 59), 1);
    assert_eq!(delay_to_next_minute(500_000_000, 30), 29_500_000_000);
    assert_eq!(delay_to_next_minute(1_000_000_000, 59), 0);
}

#[test]
fn time_events_carry_the_time() {
    let ev = time_event("time".to_string(), "2024-01-01 00:00:00 UTC".to_string());
    assert_eq!(ev.name, "current_time");
    assert_eq!(ev.source, "time");
    assert_eq!(ev.target, EventTarget::Everyone);
    assert_eq!(ev.data.get("time").map(|s| s.as_str()), Some("2024-01-01 00:00:00 UTC"));
}

#[test]
fn clock_device_reads_the_clock() {
    let mut t = TimeDevice::new();
    t.set_name("time".to_string());
    let d = t.next_delay().unwrap();
    assert!(d > 0 && d <= 60_000_000_000);
    let ev = t.tick_event().unwrap();
    assert_eq!(ev.name, "current_time");
    assert_eq!(ev.source, "time");
    let stamp = ev.data.get("time").unwrap();
    assert!(stamp.ends_with(" UTC"));
    assert_eq!(ev.data.len(), 1);
}

#[test]
fn esphome_device_keeps_its_settings() {
    let d = EspHomeDevice::new("n".to_string(), "h".to_string(), "p".to_string());
    assert_eq!(d.name(), "n");
    assert_eq!(d.host(), "h");
    assert_eq!(d.password(), "p");
    let nd = NewDevice::EspHome(d);
    assert_eq!(nd.name(), "n");
}

#[test]
fn plan_drivers_text_plans_a_loadable_configuration() {
    let plans = plan_drivers_text("drivers:\n  dummy:\n  radio:\n").unwrap();
    assert_eq!(plans.len(), 2);
    assert_eq!(plans[0].name, "dummy");
    assert!(matches!(&plans[0].outcome, Ok((LoadedDriver::Dummy(_), devs)) if devs.len() == 1));
    assert!(matches!(&plans[1].outcome, Err(e) if e.text() == "unknown driver 'radio'"));
    assert!(plan_drivers_text("drivers: {a: [1\n").is_err());
}

#[test]
fn trim_keeps_characters_without_white_space() {
    assert_eq!(trim("\u{85}\u{a0}\u{1680}ok\u{200a}\u{2028}\u{2029}\u{202f}\u{205f}\u{b}\u{c}"), "ok");
    assert_eq!(trim("\u{200b}x\u{200b}"), "\u{200b}x\u{200b}");
}

#[test]
fn clock_reading_is_in_range() {
    let c = read_clock().unwrap();
    assert!(c.second < 60);
    assert!(c.nanosecond < 1_000_000_000);
    assert!(c.text.ends_with(" UTC"));
}

#[test]
fn event_description_shows_source_name_target_and_data() {
    let ev = Event::new("state".to_string(), "lamp".to_string());
    assert_eq!(ev.describe(), "src=lamp, event=state, trg=Everyone, data={}");
    let (ev, _) = console_command_event("tel", b"say \"hi\"\n").unwrap();
    assert_eq!(ev.describe(), "src=tel, event=console_command, trg=SenderOnly, data={\"command\": \"say \\\"hi\\\"\"}");
    let mut ev = Event::new("x".to_string(), "s".to_string());
    ev.data.insert("b".to_string(), "1".to_string());
    ev.data.insert("a".to_string(), "2".to_string());
    ev.data.insert("b".to_string(), "3".to_string());
    assert_eq!(ev.describe(), "src=s, event=x, trg=Everyone, data={\"b\": \"3\", \"a\": \"2\"}");
}

#[test]
fn only_the_clock_driver_ignores_failed_starts() {
    assert!(!create_driver("time").unwrap().checks_device_start());
    assert!(create_driver("dummy").unwrap().checks_device_start());
    assert!(create_driver("telnet").unwrap().checks_device_start());
}

#[test]
fn reading_at_gives_the_instant_read() {
    let c = rhome::time::reading_at(1_700_000_030, 250).unwrap();
    assert_eq!(c.second, 50);
    assert_eq!(c.nanosecond, 250);
    assert_eq!(c.text, "2023-11-14 22:13:50.000000250 UTC");
    assert!(rhome::time::reading_at(u64::MAX, 0).is_none());
    assert!(rhome::time::reading_at(i64::MAX as u64, 0).is_none());
}

#[test]
fn cloned_data_keeps_its_order() {
    let mut d = EventData::new();
    d.insert("z".to_string(), "1".to_string());
    d.insert("a".to_string(), "2".to_string());
    let c = d.clone();
    assert_eq!(c.to_pairs(), d.to_pairs());
}
