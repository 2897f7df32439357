//! A drone of a simulated packet-switched mesh, as a verified state machine.
//!
//! A drone owns a routing position in source-routed paths: it checks each
//! packet it receives, advances the hop cursor, and decides where the packet
//! goes next, answering with a negative acknowledgement when it cannot go on.
//! It also takes part in flood-based topology discovery.
//!
//! The library decides; it never touches a channel. Every decision comes back
//! as a list of [`drone::Action`]s for the caller to carry out, and the caller
//! reports how a delivery went through [`drone::SkyLinkDrone::after_send`].

pub mod check_packet;
pub mod controller;
pub mod drone;
pub mod error;
pub mod flood;
pub mod lifecycle;
pub mod links;
pub mod packet;
pub mod relay;
