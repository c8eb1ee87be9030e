//! Two minimal character devices, a read-only "hello" device and a
//! `/dev/null`-style sink, together with the lifecycle that registers them.
//!
//! The file operations are pure functions of their arguments: the hello
//! device serves slices of a fixed message, the null device serves nothing
//! and swallows everything. The registration lifecycle is a state machine
//! driven by the replies of the host's device layer.

pub mod hello;
pub mod null;
pub mod device;
pub mod error;
pub mod lifecycle;
