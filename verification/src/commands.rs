//! Parsers and argument builders for the Windows tools the collectors run,
//! and the Linux `/proc/net/tcp` reader.

pub mod sc;
pub mod reg;
pub mod powershell;
pub mod tcp_listener;
pub mod filesystem;
pub mod executor;
