//! A small convenience layer over UDP datagram sockets.
//!
//! The library is split from the I/O it drives: `UdpHandler` holds the
//! handler state (socket lifecycle, send throttling, destination and the
//! last sender seen) and decides, for every operation, which network action
//! the surrounding program must perform and which log lines it must print.
//! `Logger` formats the leveled log lines. The caller performs the actual
//! socket calls and printing and reports their outcomes back.

pub mod digits;
pub mod log;
pub mod throttle;
pub mod handler;

pub use handler::UdpHandler;
pub use log::Logger;
