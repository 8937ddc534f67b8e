//! Early bring-up layer of a bare-metal kernel: a polling PL011 UART
//! protocol and a bounded, allocation-free registry of self-test outcomes.

pub mod ktest;
pub mod serial;
