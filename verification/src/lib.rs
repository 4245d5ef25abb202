//! Timer metrics of systemd units, read over D-Bus.

pub mod config;
pub mod dbus_props;
pub mod dbus_props_cache;
pub mod names;
pub mod timer;
pub mod units;
