//! Session and discovery core of a LAN game launcher: the usage registry, the
//! process monitor, the discovery announcer and listener, and the decisions of
//! the host and join flows, each stated as a contract over plain values.

pub mod assets;
pub mod discovery;
pub mod hosts;
pub mod install;
pub mod json;
pub mod monitor;
pub mod registry;
pub mod session;
pub mod size;
pub mod startup;
pub mod text;
pub mod web;
