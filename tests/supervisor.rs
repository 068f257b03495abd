use tagoio_mqtt_relay::downlink::{handle_publish, publish_reply};
use tagoio_mqtt_relay::schema::PublishRequest;
use tagoio_mqtt_relay::supervisor::SessionTable;

fn request(relay_id: Option<&str>) -> PublishRequest {
    PublishRequest {
        topic: "x".to_string(),
        message: "m".to_string(),
        relay_id: relay_id.map(|r| r.to_string()),
        qos: 0,
        retain: false,
    }
}

#[test]
fn reconcile_spawns_missing_once() {
    let mut table: SessionTable<u32> = SessionTable::new();
    let relays = vec!["a".to_string(), "b".to_string(), "a".to_string()];
    assert_eq!(table.missing(&relays), vec!["a".to_string(), "b".to_string()]);
    table.insert("a".to_string(), 1);
    assert!(table.contains_key(&"a".to_string()));
    assert!(!table.contains_key(&"b".to_string()));
    assert_eq!(table.missing(&relays), vec!["b".to_string()]);
    table.insert("b".to_string(), 2);
    assert!(table.missing(&relays).is_empty());
}

#[test]
fn sweep_removes_finished_sessions() {
    let mut table: SessionTable<u32> = SessionTable::new();
    table.insert("a".to_string(), 1);
    table.insert("b".to_string(), 2);
    table.insert("c".to_string(), 3);
    table.sweep(&vec![false, true, false]);
    assert_eq!(table.len(), 2);
    assert_eq!(*table.handle(0), 1);
    assert_eq!(*table.handle(1), 3);
    assert!(!table.contains_key(&"b".to_string()));
    // The next sweep respawns what was removed.
    assert_eq!(table.missing(&vec!["a".to_string(), "b".to_string(), "c".to_string()]), vec!["b".to_string()]);
    table.sweep(&vec![true, true]);
    assert_eq!(table.len(), 0);
}

#[test]
fn publish_without_relay_and_no_session_is_not_found() {
    let table: SessionTable<u32> = SessionTable::new();
    let reply = handle_publish(&table, request(None)).unwrap_err();
    assert_eq!(reply.status, 404);
    assert_eq!(reply.body, "{\"error\":\"Not Found\"}");
}

#[test]
fn publish_routes_to_default_relay() {
    let mut table: SessionTable<u32> = SessionTable::new();
    table.insert("self-hosted".to_string(), 7);
    let (i, msg) = handle_publish(&table, request(None)).unwrap();
    assert_eq!(i, 0);
    assert_eq!(*table.handle(i), 7);
    assert_eq!(msg.topic, "x");
    assert_eq!(msg.message, "m");
    assert_eq!(msg.qos, 0);
    assert!(!msg.retain);
    let reply = publish_reply(true);
    assert_eq!(reply.status, 200);
    assert_eq!(reply.body, "{\"status\":\"Message published\"}");
}

#[test]
fn publish_to_unknown_relay_is_not_found() {
    let mut table: SessionTable<u32> = SessionTable::new();
    table.insert("a".to_string(), 1);
    let reply = handle_publish(&table, request(Some("b"))).unwrap_err();
    assert_eq!(reply.status, 404);
}

#[test]
fn publish_to_named_relay() {
    let mut table: SessionTable<u32> = SessionTable::new();
    table.insert("a".to_string(), 1);
    table.insert("b".to_string(), 2);
    let (i, _) = handle_publish(&table, request(Some("b"))).unwrap();
    assert_eq!(*table.handle(i), 2);
}

#[test]
fn failed_enqueue_is_server_error() {
    let reply = publish_reply(false);
    assert_eq!(reply.status, 500);
    assert_eq!(reply.body, "{\"error\":\"Internal Server Error\"}");
}
