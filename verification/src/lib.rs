//! A Wake-on-LAN machine server library.
//!
//! The library keeps an in-memory roster of registered machines, builds the
//! standard Wake-on-LAN magic packet for a registered machine's hardware
//! address, and decides, for each protocol request, what response a server
//! must give and which packet (if any) must be broadcast.  All network I/O
//! (the TCP listener, the UDP broadcast, the wire encoding) is left to the
//! surrounding application; everything here is plain, verified computation.

pub mod ids;
pub mod mac;
pub mod machine;
pub mod registry;
pub mod server;
mod sys;
pub mod wake_on_lan;
