//! The screens of the wizard, each driven once per tick.

pub mod bridge_connect;
