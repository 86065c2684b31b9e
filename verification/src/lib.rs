//! Reaching an ESP32 target through a debug bridge on the network in place of
//! a local serial port.
//!
//! The bridge relays bytes between a TCP socket and the target's UART, and
//! takes reset and bootloader requests over HTTP. This crate holds what is
//! decided on the way: which port names select a bridge, which network ports
//! and URLs are used, in which order the steps of a connection are taken, and
//! how a socket stands in for a serial port. It performs no I/O itself. An
//! operation that needs I/O hands out its next step, the caller performs that
//! step and hands the outcome back.
pub mod address;
pub mod clear;
pub mod connect;
pub mod course;
pub mod http;
pub mod outside;
pub mod port;
pub mod ports;
pub mod timeout;
