use wol_server::mac::MacAddr;
use wol_server::machine::Machine;
use wol_server::registry::MachineRegistry;

fn mac(last: u8) -> MacAddr {
    MacAddr::new([0x00, 0x11, 0x22, 0x33, 0x44, last])
}

#[test]
fn register_then_lookup_returns_same_record() {
    let mut reg = MachineRegistry::new();
    let id = reg.register(String::from("desktop"), mac(0x55), None);
    let m = reg.lookup(id).unwrap();
    assert_eq!(m.id, id);
    assert_eq!(m.name, "desktop");
    assert_eq!(m.mac_address.bytes, [0x00, 0x11, 0x22, 0x33, 0x44, 0x55]);
    assert!(m.ip_address.is_none());
}

#[test]
fn register_keeps_ip_address() {
    let mut reg = MachineRegistry::new();
    let id = reg.register(
        String::from("nas"),
        mac(0x01),
        Some(String::from("192.168.1.9")),
    );
    let m = reg.lookup(id).unwrap();
    assert_eq!(m.ip_address.as_deref(), Some("192.168.1.9"));
}

#[test]
fn lookup_unknown_id_is_none() {
    let reg = MachineRegistry::new();
    assert!(reg.lookup(0).is_none());
    assert!(reg.lookup(u128::MAX).is_none());
    let random = uuid::Uuid::new_v4().as_u128();
    assert!(reg.lookup(random).is_none());
}

#[test]
fn list_after_three_registrations() {
    let mut reg = MachineRegistry::new();
    let a = reg.register(String::from("a"), mac(1), None);
    let b = reg.register(String::from("b"), mac(2), None);
    let c = reg.register(String::from("c"), mac(3), None);
    let entries = reg.list();
    assert_eq!(entries.len(), 3);
    assert_ne!(a, b);
    assert_ne!(a, c);
    assert_ne!(b, c);
    for (id, name) in &entries {
        let m = reg.lookup(*id).unwrap();
        assert_eq!(&m.name, name);
    }
    let mut ids: Vec<u128> = entries.iter().map(|e| e.0).collect();
    ids.sort();
    let mut expected = vec![a, b, c];
    expected.sort();
    assert_eq!(ids, expected);
}

#[test]
fn hundred_registrations_all_distinct() {
    let mut reg = MachineRegistry::new();
    let mut ids: Vec<u128> = Vec::new();
    for i in 0..100u8 {
        let id = reg.register(format!("machine-{}", i), mac(i), None);
        assert!(!ids.contains(&id));
        ids.push(id);
    }
    assert_eq!(reg.list().len(), 100);
}

#[test]
fn duplicate_registration_makes_two_records() {
    let mut reg = MachineRegistry::new();
    let a = reg.register(String::from("same"), mac(9), None);
    let b = reg.register(String::from("same"), mac(9), None);
    assert_ne!(a, b);
    assert_eq!(reg.list().len(), 2);
}

#[test]
fn contains_id_tracks_registration() {
    let mut reg = MachineRegistry::new();
    assert!(!reg.contains_id(7));
    let id = reg.register(String::from("x"), mac(7), None);
    assert!(reg.contains_id(id));
}

#[test]
fn machine_new_and_duplicate() {
    let m = Machine::new(String::from("lab"), mac(0x42), None);
    assert_eq!(m.name, "lab");
    assert_eq!(m.mac_address.bytes[5], 0x42);
    assert!(m.ip_address.is_none());
    let d = m.duplicate();
    assert_eq!(d.id, m.id);
    assert_eq!(d.name, m.name);
    assert_eq!(d.mac_address.bytes, m.mac_address.bytes);
    assert_eq!(d.registered_at, m.registered_at);
}
