use wol_server::ids::id_string;
use wol_server::mac::MacAddr;
use wol_server::server::{
    response_invalid_format, wake_result_response, MachineServer, Request, ServerAction,
};
use wol_server::wake_on_lan::WakeOnLan;

#[test]
fn register_then_wake_scenario() {
    let mut server = MachineServer::new();
    let action = server.handle_request(Request::RegisterMachine {
        name: String::from("desktop"),
        mac_address: String::from("00:11:22:33:44:55"),
    });
    let data = match action {
        ServerAction::Respond(r) => {
            assert!(r.success);
            assert_eq!(r.message, "Machine registered successfully");
            r.data.unwrap()
        }
        ServerAction::SendWake { .. } => panic!("registration must not wake"),
    };
    assert_eq!(data.len(), 36);

    // The identifier on the wire is the textual form; a client echoes it back.
    let machine_id = uuid::Uuid::parse_str(&data).unwrap().as_u128();
    assert_eq!(id_string(machine_id), data);

    let action = server.handle_request(Request::WakeMachine { machine_id });
    match action {
        ServerAction::SendWake { packet } => {
            let mac = MacAddr::new([0x00, 0x11, 0x22, 0x33, 0x44, 0x55]);
            assert_eq!(packet, WakeOnLan::build_magic_packet(&mac));
        }
        ServerAction::Respond(r) => panic!("wake of a known machine failed: {}", r.message),
    }

    let r = wake_result_response(true);
    assert!(r.success);
    assert_eq!(r.message, "wake packet sent");
    assert!(r.data.is_none());
}

#[test]
fn wake_unknown_id_is_refused_without_packet() {
    let mut server = MachineServer::new();
    let machine_id = uuid::Uuid::new_v4().as_u128();
    let action = server.handle_request(Request::WakeMachine { machine_id });
    match action {
        ServerAction::Respond(r) => {
            assert!(!r.success);
            assert_eq!(r.message, "machine not found");
            assert!(r.data.is_none());
        }
        ServerAction::SendWake { .. } => panic!("no packet may be sent for an unknown id"),
    }
}

#[test]
fn register_invalid_mac_is_refused() {
    let mut server = MachineServer::new();
    let action = server.handle_request(Request::RegisterMachine {
        name: String::from("broken"),
        mac_address: String::from("00-11-22-33-44-55"),
    });
    match action {
        ServerAction::Respond(r) => {
            assert!(!r.success);
            assert_eq!(r.message, "invalid MAC address");
            assert!(r.data.is_none());
        }
        ServerAction::SendWake { .. } => panic!("refused registration must not wake"),
    }
    // The registry was not touched: the listing is empty.
    let action = server.handle_request(Request::ListMachines);
    match action {
        ServerAction::Respond(r) => {
            assert!(r.success);
            assert_eq!(r.data.as_deref(), Some(""));
        }
        ServerAction::SendWake { .. } => panic!("list must not wake"),
    }
}

#[test]
fn list_one_machine_line_format() {
    let mut server = MachineServer::new();
    let id = server.register_machine(
        String::from("alpha"),
        MacAddr::new([0xDE, 0xAD, 0xBE, 0xEF, 0x00, 0x01]),
        None,
    );
    let action = server.handle_request(Request::ListMachines);
    match action {
        ServerAction::Respond(r) => {
            assert!(r.success);
            assert_eq!(r.message, "Machines listed");
            assert_eq!(r.data.unwrap(), format!("{}: {}", id_string(id), "alpha"));
        }
        ServerAction::SendWake { .. } => panic!("list must not wake"),
    }
}

#[test]
fn list_two_machines_joined() {
    let mut server = MachineServer::new();
    let a = server.register_machine(
        String::from("one"),
        MacAddr::new([0, 0, 0, 0, 0, 1]),
        None,
    );
    let b = server.register_machine(
        String::from("two"),
        MacAddr::new([0, 0, 0, 0, 0, 2]),
        None,
    );
    let action = server.handle_request(Request::ListMachines);
    let data = match action {
        ServerAction::Respond(r) => r.data.unwrap(),
        ServerAction::SendWake { .. } => panic!("list must not wake"),
    };
    let line_a = format!("{}: one", id_string(a));
    let line_b = format!("{}: two", id_string(b));
    // The order of the snapshot is not promised.
    let joined_ab = format!("{}, {}", line_a, line_b);
    let joined_ba = format!("{}, {}", line_b, line_a);
    assert!(data == joined_ab || data == joined_ba);
}

#[test]
fn wake_machine_returns_packet_only_when_known() {
    let mut server = MachineServer::new();
    assert!(server.wake_machine(12345).is_none());
    let id = server.register_machine(
        String::from("box"),
        MacAddr::new([1, 2, 3, 4, 5, 6]),
        None,
    );
    let packet = server.wake_machine(id).unwrap();
    assert_eq!(packet.len(), 102);
    assert_eq!(&packet[..6], &[0xFF; 6]);
    assert_eq!(&packet[6..12], &[1, 2, 3, 4, 5, 6]);
}

#[test]
fn invalid_format_response_shape() {
    let r = response_invalid_format();
    assert!(!r.success);
    assert_eq!(r.message, "invalid message format");
    assert!(r.data.is_none());
}

#[test]
fn wake_result_response_failure_shape() {
    let r = wake_result_response(false);
    assert!(!r.success);
    assert_eq!(r.message, "failed to send wake packet");
    assert!(r.data.is_none());
}

#[test]
fn id_string_matches_uuid_text_form() {
    assert_eq!(id_string(0), "00000000-0000-0000-0000-000000000000");
    let x: u128 = 0x00112233445566778899AABBCCDDEEFF;
    assert_eq!(id_string(x), "00112233-4455-6677-8899-aabbccddeeff");
    for _ in 0..16 {
        let u = uuid::Uuid::new_v4();
        assert_eq!(id_string(u.as_u128()), u.to_string());
    }
}
