use rustvncserver_android::clients::{
    destination_port, find_client, plan_disconnect, remote_host, repeater_id, ClientInfo,
    ClientSlot, DisconnectPlan,
};

fn client(id: u64, host: &str, port: i32, repeater: Option<&str>) -> ClientSlot {
    ClientSlot::Ready(ClientInfo {
        id,
        remote_host: host.to_string(),
        destination_port: port,
        repeater_id: repeater.map(|s| s.to_string()),
    })
}

fn sample() -> Vec<ClientSlot> {
    vec![
        client(1, "10.0.0.1", 5500, None),
        ClientSlot::Busy,
        client(2, "repeater.example", 5901, Some("1234")),
        client(2, "second.example", 5902, Some("5678")),
        client(u64::MAX, "wrap.example", -1, None),
    ]
}

#[test]
fn lookup_finds_first_matching_slot() {
    let slots = sample();
    assert_eq!(find_client(&slots, 1), Some(0));
    assert_eq!(find_client(&slots, 2), Some(2));
    assert_eq!(find_client(&slots, 3), None);
    assert_eq!(find_client(&slots, -1), Some(4));
    assert_eq!(find_client(&Vec::new(), 1), None);
}

#[test]
fn remote_host_of_client() {
    let slots = sample();
    assert_eq!(remote_host(&slots, 2), Some("repeater.example".to_string()));
    assert_eq!(remote_host(&slots, 1), Some("10.0.0.1".to_string()));
    assert_eq!(remote_host(&slots, 99), None);
}

#[test]
fn destination_port_of_client() {
    let slots = sample();
    assert_eq!(destination_port(&slots, 1), 5500);
    assert_eq!(destination_port(&slots, 2), 5901);
    assert_eq!(destination_port(&slots, 99), -1);
}

#[test]
fn repeater_id_skips_clients_without_one() {
    let slots = vec![
        client(2, "a", 1, None),
        ClientSlot::Busy,
        client(2, "b", 2, Some("77")),
    ];
    assert_eq!(repeater_id(&slots, 2), Some("77".to_string()));
    assert_eq!(repeater_id(&sample(), 1), None);
    assert_eq!(repeater_id(&sample(), 2), Some("1234".to_string()));
}

#[test]
fn busy_slots_never_match() {
    let slots = vec![ClientSlot::Busy, ClientSlot::Busy];
    assert_eq!(find_client(&slots, 0), None);
    assert_eq!(
        plan_disconnect(&slots, 0),
        DisconnectPlan { keep: vec![true, true], removed: false }
    );
}

#[test]
fn disconnect_removes_every_matching_slot() {
    let plan = plan_disconnect(&sample(), 2);
    assert_eq!(plan.keep, vec![true, true, false, false, true]);
    assert!(plan.removed);
}

#[test]
fn disconnect_of_unknown_client_removes_nothing() {
    let plan = plan_disconnect(&sample(), 3);
    assert_eq!(plan.keep, vec![true; 5]);
    assert!(!plan.removed);
}

#[test]
fn disconnect_agrees_with_lookup_on_samples() {
    for id in [-1i64, 0, 1, 2, 3] {
        let slots = sample();
        assert_eq!(plan_disconnect(&slots, id).removed, find_client(&slots, id).is_some());
    }
}
