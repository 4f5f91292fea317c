//! A small home-automation hub: drivers read their configuration, create
//! devices, and a manager routes the events that devices publish.

pub mod config;
pub mod console;
pub mod device;
pub mod driver;
pub mod dummy;
pub mod esphome;
pub mod event;
pub mod manager;
pub mod registry;
pub mod result;
pub mod telnet;
pub mod text;
pub mod time;
pub mod types;
