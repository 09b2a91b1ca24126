//! Small application-layer protocol servers (echo, discard, daytime, ...)
//! sharing one transport layer: a dual-stack TCP acceptor, a UDP session
//! demultiplexer and a dispatch framework that maps each service to its port.

pub mod fs;
pub mod services;
pub mod tcp;
pub mod udp;
pub mod utils;
