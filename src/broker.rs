use vstd::prelude::*;
use crate::schema::{opt_view, Mqtt, DEFAULT_CLIENT_ID};

verus! {

/// Keep-alive interval of broker connections, in seconds.
pub const KEEP_ALIVE_SECS: u64 = 30;

/// Largest MQTT packet accepted or sent, in bytes.
pub const MAX_PACKET_SIZE: usize = 1048576;

/// PEM material of the broker TLS settings, as read from the configured
/// files; a file that is not configured or cannot be read gives "".
#[derive(Clone, Debug)]
pub struct PemFiles {
    pub ca: String,
    pub cert: String,
    pub key: String,
}

/// How a session secures its broker connection.
#[derive(Clone, Debug)]
pub enum BrokerTls {
    /// TLS checking the broker against the given authority, authenticating
    /// with the given client certificate and key.
    CaWithClientAuth { ca: String, cert: String, key: String },
    /// TLS checking the broker against the given authority.
    CaOnly { ca: String },
    /// TLS checking the broker against the system's root certificates.
    NativeRoots,
}

/// Everything a session needs to open its broker connection.
#[derive(Clone, Debug)]
pub struct BrokerOptions {
    pub client_id: String,
    pub host: String,
    pub port: u16,
    pub keep_alive_secs: u64,
    pub max_incoming_packet: usize,
    pub max_outgoing_packet: usize,
    /// `None` for a plain connection.
    pub tls: Option<BrokerTls>,
    /// Username and password.
    pub credentials: Option<(String, String)>,
}

/// The broker address asks for TLS by its scheme.
pub open spec fn ssl_address(address: Seq<char>) -> bool {
    address.len() >= 3 && address[0] == 's' && address[1] == 's' && address[2] == 'l'
}

/// The TLS choice for the given PEM material: client authentication when
/// the authority, certificate and key are all there; the authority alone
/// when it is there; else the system's roots.
pub open spec fn tls_choice_ok(pem: PemFiles, tls: BrokerTls) -> bool {
    if pem.ca@.len() > 0 && pem.cert@.len() > 0 && pem.key@.len() > 0 {
        tls matches BrokerTls::CaWithClientAuth { ca, cert, key } && ca@ == pem.ca@ && cert@ == pem.cert@
            && key@ == pem.key@
    } else if pem.ca@.len() > 0 {
        tls matches BrokerTls::CaOnly { ca } && ca@ == pem.ca@
    } else {
        tls matches BrokerTls::NativeRoots
    }
}

fn is_ssl_address(address: &str) -> (r: bool)
    ensures
        r == ssl_address(address@),
{
    if address.unicode_len() < 3 {
        false
    } else {
        address.get_char(0) == 's' && address.get_char(1) == 's' && address.get_char(2) == 'l'
    }
}

/// Picks the TLS setup from the PEM material.
pub fn select_tls(pem: &PemFiles) -> (tls: BrokerTls)
    ensures
        tls_choice_ok(*pem, tls),
{
    let has_ca = pem.ca.as_str().unicode_len() > 0;
    let has_cert = pem.cert.as_str().unicode_len() > 0;
    let has_key = pem.key.as_str().unicode_len() > 0;
    if has_ca && has_cert && has_key {
        BrokerTls::CaWithClientAuth { ca: pem.ca.clone(), cert: pem.cert.clone(), key: pem.key.clone() }
    } else if has_ca {
        BrokerTls::CaOnly { ca: pem.ca.clone() }
    } else {
        BrokerTls::NativeRoots
    }
}

/// The connection settings of a session: the configured client identifier
/// (or `tagoio-relay`), address and port, a 30 s keep-alive, 1 MiB packets
/// both ways, TLS when it is enabled or the address starts with `ssl`, and
/// the credentials when a username is set.
pub fn broker_options(mqtt: &Mqtt, pem: &PemFiles) -> (o: BrokerOptions)
    requires
        mqtt.username is Some ==> mqtt.password is Some,
    ensures
        mqtt.client_id matches Some(c) ==> o.client_id@ == c@,
        mqtt.client_id is None ==> o.client_id@ == DEFAULT_CLIENT_ID@,
        o.host@ == mqtt.address@,
        o.port == mqtt.port,
        o.keep_alive_secs == KEEP_ALIVE_SECS,
        o.max_incoming_packet == MAX_PACKET_SIZE,
        o.max_outgoing_packet == MAX_PACKET_SIZE,
        (mqtt.tls_enabled || ssl_address(mqtt.address@)) <==> o.tls is Some,
        o.tls matches Some(t) ==> tls_choice_ok(*pem, t),
        mqtt.username is None <==> o.credentials is None,
        o.credentials matches Some((u, p)) ==> opt_view(mqtt.username) == Some(u@) && opt_view(
            mqtt.password,
        ) == Some(p@),
{
    let client_id = match &mqtt.client_id {
        Some(c) => c.clone(),
        None => String::from_str(DEFAULT_CLIENT_ID),
    };
    let tls = if mqtt.tls_enabled || is_ssl_address(mqtt.address.as_str()) {
        Some(select_tls(pem))
    } else {
        None
    };
    let credentials = match (&mqtt.username, &mqtt.password) {
        (Some(u), Some(p)) => Some((u.clone(), p.clone())),
        _ => None,
    };
    BrokerOptions {
        client_id,
        host: mqtt.address.clone(),
        port: mqtt.port,
        keep_alive_secs: KEEP_ALIVE_SECS,
        max_incoming_packet: MAX_PACKET_SIZE,
        max_outgoing_packet: MAX_PACKET_SIZE,
        tls,
        credentials,
    }
}

} // verus!
