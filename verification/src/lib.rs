//! Verified core of a driver for the WCH CH9120 UART-to-Ethernet bridge.
//!
//! The CH9120 is configured over its serial port: while its CFG pin is held
//! low it accepts command frames `0x57 0xAB <command> <payload>` and answers
//! each with an acknowledgement byte. This crate holds the configuration
//! model, the byte-exact encoding of every command, the ordered procedure
//! that writes a configuration to the chip, and the bookkeeping of the
//! timed UART reader. The caller performs the actual pin, timer and UART work.

pub mod config;
pub mod protocol;
pub mod session;
pub mod transport;

pub use config::{Baudrate, Ch9120Config, ConfigStoreError, Mode};
