//! Shared types and the routing, state-synchronization and command-dispatch
//! logic of a distributed vehicle-control stack: a mapping table from device
//! names to board channels, a store of every device's last-known state, a
//! dispatcher that turns device actions into store reads or board commands,
//! the capability handles bound for operator scripts, and the binary codec of
//! the messages exchanged with the boards.

pub mod model;
pub mod text;
pub mod mapping;
pub mod store;
pub mod messages;
pub mod dispatch;
pub mod sequence;
pub mod wait;
pub mod codec;
pub mod telemetry;
