//! A registered machine: its identifier, label, hardware address, optional
//! informational IP address, and registration time.

use vstd::prelude::*;
use crate::mac::MacAddr;
use crate::sys;

verus! {

/// The mathematical value of a [`Machine`]: every field as a plain value.
pub ghost struct MachineView {
    pub id: u128,
    pub name: Seq<char>,
    pub mac_address: Seq<u8>,
    pub ip_address: Option<Seq<char>>,
    pub registered_at: u64,
}

/// The view of an optional string.
pub open spec fn opt_str_view(o: Option<String>) -> Option<Seq<char>> {
    match o {
        Some(s) => Some(s@),
        None => None,
    }
}

/// A registered wakeable host.
pub struct Machine {
    /// Process-unique identifier, fixed at registration.
    pub id: u128,
    /// Operator-supplied label; not required to be unique.
    pub name: String,
    /// The six-byte hardware address, the wake target.
    pub mac_address: MacAddr,
    /// Optional informational address; not used for waking.
    pub ip_address: Option<String>,
    /// Whole seconds since the Unix epoch at creation, immutable thereafter.
    pub registered_at: u64,
}

impl View for Machine {
    type V = MachineView;

    open spec fn view(&self) -> MachineView {
        MachineView {
            id: self.id,
            name: self.name@,
            mac_address: self.mac_address@,
            ip_address: opt_str_view(self.ip_address),
            registered_at: self.registered_at,
        }
    }
}

impl Machine {
    /// A new record for the given label and addresses, under a freshly drawn
    /// random identifier, stamped with the current time.  The identifier is
    /// random: only the registry's own freshness check makes it unique.
    pub fn new(name: String, mac_address: MacAddr, ip_address: Option<String>) -> (m: Machine)
        ensures
            m@.name == name@,
            m@.mac_address == mac_address@,
            m@.ip_address == opt_str_view(ip_address),
    {
        Machine {
            id: sys::random_u128(),
            name,
            mac_address,
            ip_address,
            registered_at: sys::unix_time_secs(),
        }
    }

    /// An exact copy of this record.
    pub fn duplicate(&self) -> (m: Machine)
        ensures
            m@ == self@,
    {
        let ip_address: Option<String> = match &self.ip_address {
            Some(s) => Some(s.clone()),
            None => None,
        };
        Machine {
            id: self.id,
            name: self.name.clone(),
            mac_address: self.mac_address,
            ip_address,
            registered_at: self.registered_at,
        }
    }
}

} // verus!
