//! On-device client logic for a network-controlled I/O peripheral: register
//! protocols for its analog input, analog output, button and indicator light,
//! and the session rules that tie them to a remote controller.

pub mod command;
pub mod conf;
pub mod endpoint;
pub mod hardware;
pub mod protocol;
pub mod session;

pub use command::LEDCommand;
