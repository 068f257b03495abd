use tagoio_mqtt_relay::broker::{broker_options, select_tls, BrokerTls, PemFiles};
use tagoio_mqtt_relay::downlink::{
    client_cert_policy, handle_acl, handle_auth, handle_superuser, rejection_reply, status_error, status_reply,
    AclRequest, AuthReply, AuthRequest, ClientCertPolicy, Rejection,
};
use tagoio_mqtt_relay::platform::CustomError;
use tagoio_mqtt_relay::schema::Mqtt;

fn pem(ca: &str, cert: &str, key: &str) -> PemFiles {
    PemFiles { ca: ca.to_string(), cert: cert.to_string(), key: key.to_string() }
}

fn mqtt(address: &str, tls: bool) -> Mqtt {
    Mqtt {
        client_id: None,
        tls_enabled: tls,
        address: address.to_string(),
        port: 8883,
        subscribe: vec![],
        username: Some("u".to_string()),
        password: Some("p".to_string()),
        broker_tls_ca: None,
        broker_tls_cert: None,
        broker_tls_key: None,
    }
}

#[test]
fn rejected_publish_bodies() {
    let r = rejection_reply(Rejection::Syntax, "");
    assert_eq!((r.status, r.body.as_str()), (400, "{\"error\":\"Syntax error in JSON\"}"));
    let r = rejection_reply(Rejection::Data, "missing field `topic`");
    assert_eq!(r.status, 422);
    assert_eq!(r.body, "{\"error\":\"Invalid JSON data: missing field `topic`\"}");
    let r = rejection_reply(Rejection::MissingContentType, "");
    assert_eq!(r.status, 400);
    assert_eq!(r.body, "{\"error\":\"Missing `Content-Type: application/json` header\"}");
    assert_eq!(rejection_reply(Rejection::Other, "").status, 500);
    assert_eq!(status_error(404).body, "{\"error\":\"Not Found\"}");
}

#[test]
fn health_and_hooks() {
    let r = status_reply();
    assert_eq!((r.status, r.body.as_str()), (200, "{\"status\":\"ok\"}"));
    let auth = AuthRequest { username: "d".to_string(), password: "tok".to_string() };
    assert_eq!(handle_superuser(&auth), AuthReply { status: 401, ok: false });
    assert_eq!(handle_superuser(&auth).body(), "{\"ok\":false}");
    let acl = AclRequest { username: "d".to_string(), topic: "t".to_string(), clientid: "c".to_string(), acc: 2 };
    assert_eq!(handle_acl(&acl), AuthReply { status: 200, ok: true });
    assert_eq!(handle_acl(&acl).body(), "{\"ok\":true}");
}

#[test]
fn auth_accepts_when_any_relay_accepts() {
    let refused = || Err(CustomError { status: 401, body: String::new(), message: "Invalid Device Token".to_string() });
    assert_eq!(handle_auth(&vec![]), AuthReply { status: 401, ok: false });
    assert_eq!(handle_auth(&vec![refused()]), AuthReply { status: 401, ok: false });
    assert_eq!(handle_auth(&vec![refused(), Ok(())]), AuthReply { status: 200, ok: true });
}

#[test]
fn unsafe_mode_disables_client_certificates() {
    assert_eq!(client_cert_policy(false), ClientCertPolicy::RequireSigned);
    assert_eq!(client_cert_policy(true), ClientCertPolicy::Unverified);
}

#[test]
fn tls_selection_from_pem_material() {
    assert!(matches!(select_tls(&pem("CA", "CERT", "KEY")), BrokerTls::CaWithClientAuth { .. }));
    assert!(matches!(select_tls(&pem("CA", "CERT", "")), BrokerTls::CaOnly { .. }));
    assert!(matches!(select_tls(&pem("CA", "", "")), BrokerTls::CaOnly { .. }));
    assert!(matches!(select_tls(&pem("", "CERT", "KEY")), BrokerTls::NativeRoots));
    assert!(matches!(select_tls(&pem("", "", "")), BrokerTls::NativeRoots));
}

#[test]
fn broker_connection_settings() {
    let o = broker_options(&mqtt("broker.local", false), &pem("", "", ""));
    assert_eq!(o.client_id, "tagoio-relay");
    assert_eq!((o.host.as_str(), o.port), ("broker.local", 8883));
    assert_eq!(o.keep_alive_secs, 30);
    assert_eq!((o.max_incoming_packet, o.max_outgoing_packet), (1048576, 1048576));
    assert!(o.tls.is_none());
    assert_eq!(o.credentials, Some(("u".to_string(), "p".to_string())));

    let o = broker_options(&mqtt("ssl://broker.local", false), &pem("CA", "", ""));
    assert!(matches!(o.tls, Some(BrokerTls::CaOnly { ref ca }) if ca == "CA"));
    let o = broker_options(&mqtt("broker.local", true), &pem("", "", ""));
    assert!(matches!(o.tls, Some(BrokerTls::NativeRoots)));

    let mut m = mqtt("b", false);
    m.username = None;
    m.client_id = Some("me".to_string());
    let o = broker_options(&m, &pem("", "", ""));
    assert!(o.credentials.is_none());
    assert_eq!(o.client_id, "me");
}
