//! Host-side driver for rf95modem LoRa radios speaking a line-oriented
//! AT-command protocol over a serial transport.
//!
//! The crate verifies the protocol core: framing of outgoing command lines,
//! parsing of the textual responses into typed results, and the hex codec
//! used for binary payloads. The serial transport itself is abstracted by
//! the [`transport::Transport`] trait; a scripted in-memory implementation
//! lives in this crate, and a real serial-port implementation can be
//! supplied by an application.

pub mod driver;
pub mod error;
pub mod hex;
pub mod loradev;
pub mod num;
pub mod protocol;
pub mod text;
pub mod transport;

pub use driver::RF95modem;
pub use error::Error;
