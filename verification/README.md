# rhome

A small home-automation hub. Drivers read their part of a YAML
configuration and create devices; the manager keeps a registry of devices
and routes the events they publish.

- `src/` is the verified library: configuration values and lookups
  (`config`), drivers and the devices they create (`driver`, `device`,
  `console`, `dummy`, `telnet`, `esphome`, `time`), events and their data
  (`event`), the name-keyed registry (`registry`) and the manager's routing
  and configuration planning (`manager`).
- `app/` is the program around it: it reads `config.yaml`, starts the
  devices (network sessions, clock threads) and runs the asynchronous event
  loops.
