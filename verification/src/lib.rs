//! The verified core of an NTP toolbox: the wire format and the replies of a
//! small NTP server, the state machines that drive its threads, and the
//! decisions behind a window that checks NTP servers.
//!
//! Sockets, clocks, threads and widgets live outside. They hand plain values
//! in and carry out the actions that come back.

pub mod address;
pub mod bytes;
pub mod checker;
pub mod civil;
pub mod millis;
pub mod packet;
pub mod probe;
pub mod server;
pub mod text;
pub mod timestamp;
pub mod view;
pub mod worker;
