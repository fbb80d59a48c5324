use std::sync::Arc;

use tokio::sync::Mutex;

use wol_server::mac::MacAddr;
use wol_server::server::{MachineServer, Request, ServerAction};

#[test]
fn concurrent_registrations_are_not_lost() {
    let rt = tokio::runtime::Runtime::new().unwrap();
    rt.block_on(async {
        let server = Arc::new(Mutex::new(MachineServer::new()));
        let mut handles = Vec::new();
        for i in 0..100u32 {
            let server = Arc::clone(&server);
            handles.push(tokio::spawn(async move {
                let mut s = server.lock().await;
                s.register_machine(
                    format!("machine-{}", i),
                    MacAddr::new([0, 0, 0, 0, (i / 256) as u8, (i % 256) as u8]),
                    None,
                )
            }));
        }
        let mut ids: Vec<u128> = Vec::new();
        for h in handles {
            ids.push(h.await.unwrap());
        }
        assert_eq!(ids.len(), 100);
        ids.sort();
        ids.dedup();
        assert_eq!(ids.len(), 100, "all returned ids are distinct");

        let mut s = server.lock().await;
        for id in &ids {
            assert!(s.wake_machine(*id).is_some(), "every registration is kept");
        }
        let action = s.handle_request(Request::ListMachines);
        let data = match action {
            ServerAction::Respond(r) => r.data.unwrap(),
            ServerAction::SendWake { .. } => panic!("list must not wake"),
        };
        assert_eq!(data.split(", ").count(), 100, "the registry holds 100 entries");
    });
}
