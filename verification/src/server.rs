//! The command protocol: request variants, the response shape, and the
//! dispatch of one decoded request against the registry and the magic-packet
//! builder.
//!
//! The surrounding application owns the sockets: it reads and decodes one
//! request per connection, calls [`MachineServer::handle_request`], performs
//! the UDP broadcast when a wake packet comes back, and writes the encoded
//! response.  Everything decided here — validation, registry effects, packet
//! bytes, response text — is stated in the contracts.

use vstd::prelude::*;
use crate::ids::{id_chars, id_string};
use crate::mac::{mac_bytes_of, mac_well_formed, parse_mac};
use crate::machine::MachineView;
use crate::registry::MachineRegistry;
use crate::wake_on_lan::{magic_packet_bytes, WakeOnLan};

verus! {

/// One decoded client request.
pub enum Request {
    /// Register a machine under a label and a textual hardware address; the
    /// wire protocol carries no IP address.
    RegisterMachine { name: String, mac_address: String },
    /// Wake the machine registered under an identifier.
    WakeMachine { machine_id: u128 },
    /// List all registered machines.
    ListMachines,
}

/// The one response shape: success flag, human-readable message, and an
/// optional data string (the new identifier on registration, the joined
/// listing on list).
pub struct Response {
    pub success: bool,
    pub message: String,
    pub data: Option<String>,
}

/// What the server must do next for a handled request: answer at once, or
/// broadcast a wake packet and then answer for the outcome of the send.
pub enum ServerAction {
    /// Write this response and close.
    Respond(Response),
    /// Broadcast this magic packet, then respond for the send's outcome.
    SendWake { packet: Vec<u8> },
}

/// One listing line, `<identifier>: <name>`.
pub open spec fn listing_entry(p: (u128, Seq<char>)) -> Seq<char> {
    id_chars(p.0) + seq![':', ' '] + p.1
}

/// The listing lines joined with `", "`.
pub open spec fn listing_of(ps: Seq<(u128, Seq<char>)>) -> Seq<char>
    decreases ps.len(),
{
    if ps.len() == 0 {
        Seq::empty()
    } else if ps.len() == 1 {
        listing_entry(ps[0])
    } else {
        listing_of(ps.drop_last()) + seq![',', ' '] + listing_entry(ps.last())
    }
}

/// The pairs enumerate the registry: one pair per entry, each identifier
/// registered and carrying its machine's name.
pub open spec fn listing_matches(m: Map<u128, MachineView>, ps: Seq<(u128, Seq<char>)>) -> bool {
    &&& ps.len() == m.len()
    &&& forall|i: int, j: int| 0 <= i < j < ps.len() ==> ps[i].0 != ps[j].0
    &&& forall|i: int|
        0 <= i < ps.len() ==> m.contains_key(#[trigger] ps[i].0) && m[ps[i].0].name == ps[i].1
}

/// What a successful registration leaves behind: a record under the fresh
/// identifier `id`, every other entry untouched, and the identifier's
/// textual form as the response data.
pub open spec fn registered_outcome(
    pre: Map<u128, MachineView>,
    post: Map<u128, MachineView>,
    name: Seq<char>,
    mac: Seq<u8>,
    id: u128,
    data: Seq<char>,
) -> bool {
    &&& !pre.contains_key(id)
    &&& post.contains_key(id)
    &&& post == pre.insert(id, post[id])
    &&& post[id].id == id
    &&& post[id].name == name
    &&& post[id].mac_address == mac
    &&& post[id].ip_address is None
    &&& data == id_chars(id)
}

/// The views of a snapshot of `(identifier, name)` pairs.
pub open spec fn pairs_view(v: Seq<(u128, String)>) -> Seq<(u128, Seq<char>)> {
    Seq::new(v.len(), |i: int| (v[i].0, v[i].1@))
}

/// The response for a decode failure; the registry is never consulted.
pub fn response_invalid_format() -> (r: Response)
    ensures
        !r.success,
        r.message@ == "invalid message format"@,
        r.data is None,
{
    Response { success: false, message: "invalid message format".to_owned(), data: None }
}

/// The response for the outcome of a wake-packet broadcast: success exactly
/// when the datagram left the local interface (which is all Wake-on-LAN can
/// promise — there is no acknowledgment of an actual wake).
pub fn wake_result_response(sent: bool) -> (r: Response)
    ensures
        r.success == sent,
        sent ==> r.message@ == "wake packet sent"@,
        !sent ==> r.message@ == "failed to send wake packet"@,
        r.data is None,
{
    if sent {
        Response { success: true, message: "wake packet sent".to_owned(), data: None }
    } else {
        Response { success: false, message: "failed to send wake packet".to_owned(), data: None }
    }
}

/// Joins a listing snapshot into one string, `", "` between lines.
fn format_listing(pairs: &Vec<(u128, String)>) -> (r: String)
    ensures
        r@ == listing_of(pairs_view(pairs@)),
{
    let mut out = String::new();
    let n = pairs.len();
    proof {
        assert(pairs_view(pairs@).take(0) =~= Seq::<(u128, Seq<char>)>::empty());
    }
    for i in 0..n
        invariant
            n == pairs.len(),
            out@ == listing_of(pairs_view(pairs@).take(i as int)),
    {
        proof {
            reveal_strlit(", ");
            reveal_strlit(": ");
        }
        if i > 0 {
            out.append(", ");
        }
        let ids = id_string(pairs[i].0);
        out.append(ids.as_str());
        out.append(": ");
        out.append(pairs[i].1.as_str());
        proof {
            let pv = pairs_view(pairs@);
            assert(pv.take(i + 1).drop_last() =~= pv.take(i as int));
            assert(pv.take(i + 1).last() == pv[i as int]);
            assert(": "@ =~= seq![':', ' ']);
            assert(", "@ =~= seq![',', ' ']);
            assert(out@ =~= listing_of(pv.take(i + 1)));
        }
    }
    proof {
        assert(pairs_view(pairs@).take(n as int) =~= pairs_view(pairs@));
    }
    out
}

/// The protocol server's state: the shared machine registry.  The listener
/// socket and the per-connection tasks live in the surrounding application;
/// it holds this state behind a lock and dispatches one request at a time.
pub struct MachineServer {
    machines: MachineRegistry,
}

impl View for MachineServer {
    type V = Map<u128, MachineView>;

    closed spec fn view(&self) -> Map<u128, MachineView> {
        self.machines@
    }
}

impl MachineServer {
    /// The registry behind the server is well-formed.
    pub closed spec fn wf(&self) -> bool {
        self.machines.wf()
    }

    /// A server over an empty registry.
    pub fn new() -> (s: MachineServer)
        ensures
            s.wf(),
            s@ == Map::<u128, MachineView>::empty(),
    {
        MachineServer { machines: MachineRegistry::new() }
    }

    /// Registers a machine: a fresh identifier, a record inserted under it,
    /// the identifier returned.  Always succeeds.
    pub fn register_machine(
        &mut self,
        name: String,
        mac_address: crate::mac::MacAddr,
        ip_address: Option<String>,
    ) -> (id: u128)
        requires
            old(self).wf(),
        ensures
            final(self).wf(),
            !old(self)@.contains_key(id),
            final(self)@.contains_key(id),
            final(self)@ == old(self)@.insert(id, final(self)@[id]),
            final(self)@[id].id == id,
            final(self)@[id].name == name@,
            final(self)@[id].mac_address == mac_address@,
            final(self)@[id].ip_address == crate::machine::opt_str_view(ip_address),
            final(self)@.dom().finite(),
    {
        self.machines.register(name, mac_address, ip_address)
    }

    /// The magic packet for the machine registered under `machine_id`, or
    /// `None` exactly when no machine is.  Broadcasting it is the caller's
    /// work; the registry is only read.
    pub fn wake_machine(&self, machine_id: u128) -> (r: Option<Vec<u8>>)
        requires
            self.wf(),
        ensures
            r is Some <==> self@.contains_key(machine_id),
            r is Some ==> r->0@ == magic_packet_bytes(self@[machine_id].mac_address),
    {
        match self.machines.lookup(machine_id) {
            Some(m) => Some(WakeOnLan::build_magic_packet(&m.mac_address)),
            None => None,
        }
    }

    /// Handles one registration request: validates the textual hardware
    /// address, and on success registers under a fresh identifier whose
    /// textual form is returned as the response data.
    fn do_register(&mut self, name: String, mac_address: String) -> (action: ServerAction)
        requires
            old(self).wf(),
        ensures
            final(self).wf(),
            mac_well_formed(mac_address@) ==> ({
                &&& action is Respond
                &&& action->Respond_0.success
                &&& action->Respond_0.message@ == "Machine registered successfully"@
                &&& action->Respond_0.data is Some
                &&& exists|id: u128|
                    registered_outcome(
                        old(self)@,
                        final(self)@,
                        name@,
                        mac_bytes_of(mac_address@),
                        id,
                        action->Respond_0.data->0@,
                    )
            }),
            !mac_well_formed(mac_address@) ==> ({
                &&& final(self)@ == old(self)@
                &&& action is Respond
                &&& !action->Respond_0.success
                &&& action->Respond_0.message@ == "invalid MAC address"@
                &&& action->Respond_0.data is None
            }),
    {
        let ghost name_v = name@;
        let ghost mac_v = mac_address@;
        match parse_mac(mac_address.as_str()) {
            Some(mac) => {
                let id = self.machines.register(name, mac, None);
                let data = id_string(id);
                let ghost data_v = data@;
                let action = ServerAction::Respond(
                    Response {
                        success: true,
                        message: "Machine registered successfully".to_owned(),
                        data: Some(data),
                    },
                );
                proof {
                    assert(registered_outcome(
                        old(self)@,
                        self@,
                        name_v,
                        mac_bytes_of(mac_v),
                        id,
                        data_v,
                    ));
                    assert(action->Respond_0.data->0@ == data_v);
                    assert(exists|fresh: u128|
                        registered_outcome(
                            old(self)@,
                            self@,
                            name_v,
                            mac_bytes_of(mac_v),
                            fresh,
                            data_v,
                        ));
                }
                action
            },
            None => ServerAction::Respond(
                Response {
                    success: false,
                    message: "invalid MAC address".to_owned(),
                    data: None,
                },
            ),
        }
    }

    /// Dispatches one decoded request:
    /// - a registration with a malformed hardware address is refused and the
    ///   registry left untouched; a well-formed one is registered under a
    ///   fresh identifier, returned as data;
    /// - a wake of an unknown identifier is refused with no packet; a known
    ///   one yields the stored address's magic packet to broadcast;
    /// - a list yields every entry as `<identifier>: <name>`, joined with
    ///   `", "`, in no promised order.
    pub fn handle_request(&mut self, req: Request) -> (action: ServerAction)
        requires
            old(self).wf(),
        ensures
            final(self).wf(),
            match req {
                Request::RegisterMachine { name, mac_address } => {
                    if mac_well_formed(mac_address@) {
                        &&& action is Respond
                        &&& action->Respond_0.success
                        &&& action->Respond_0.message@ == "Machine registered successfully"@
                        &&& action->Respond_0.data is Some
                        &&& exists|id: u128|
                            registered_outcome(
                                old(self)@,
                                final(self)@,
                                name@,
                                mac_bytes_of(mac_address@),
                                id,
                                action->Respond_0.data->0@,
                            )
                    } else {
                        &&& final(self)@ == old(self)@
                        &&& action matches ServerAction::Respond(r) && !r.success && r.message@
                            == "invalid MAC address"@ && r.data is None
                    }
                },
                Request::WakeMachine { machine_id } => {
                    &&& final(self)@ == old(self)@
                    &&& if old(self)@.contains_key(machine_id) {
                        action matches ServerAction::SendWake { packet } && packet@
                            == magic_packet_bytes(old(self)@[machine_id].mac_address)
                    } else {
                        action matches ServerAction::Respond(r) && !r.success && r.message@
                            == "machine not found"@ && r.data is None
                    }
                },
                Request::ListMachines => {
                    &&& final(self)@ == old(self)@
                    &&& action matches ServerAction::Respond(r) && ({
                        &&& r.success
                        &&& r.message@ == "Machines listed"@
                        &&& r.data is Some
                        &&& exists|ps: Seq<(u128, Seq<char>)>|
                            listing_matches(old(self)@, ps) && r.data->0@ == listing_of(ps)
                    })
                },
            },
    {
        match req {
            Request::RegisterMachine { name, mac_address } => self.do_register(
                name,
                mac_address,
            ),
            Request::WakeMachine { machine_id } => {
                match self.machines.lookup(machine_id) {
                    Some(m) => ServerAction::SendWake {
                        packet: WakeOnLan::build_magic_packet(&m.mac_address),
                    },
                    None => ServerAction::Respond(
                        Response {
                            success: false,
                            message: "machine not found".to_owned(),
                            data: None,
                        },
                    ),
                }
            },
            Request::ListMachines => {
                let pairs = self.machines.list();
                let data = format_listing(&pairs);
                proof {
                    let ps = pairs_view(pairs@);
                    assert(listing_matches(self@, ps));
                    assert(data@ == listing_of(ps));
                }
                ServerAction::Respond(
                    Response {
                        success: true,
                        message: "Machines listed".to_owned(),
                        data: Some(data),
                    },
                )
            },
        }
    }
}

} // verus!
