//! A verified core for a Barrier/Synergy-style KVM client: packet framing and
//! codec for the length-prefixed big-endian wire protocol, a memory-bounded
//! clipboard reassembly state machine, the connection/session state machine,
//! and the bounded mailbox that decouples the network loop from actuation.
//!
//! Transport, hardware drivers and threads live outside this crate; they talk
//! to the core through the `PacketReader` / `PacketWriter` / `Actuator`
//! capability traits and plain values.

pub mod actuator;
pub mod button;
pub mod client;
pub mod clipboard;
pub mod clipboard_stash;
pub mod error;
pub mod packet;
pub mod packet_io;
pub mod packet_stream;
pub mod paste_button;
pub mod reports;
pub mod settings;
pub mod status;
pub mod take;
pub mod thread_act;
pub mod wire;
