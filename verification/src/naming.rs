//! Identifiers and URLs derived from a server's address.
use vstd::prelude::*;
use vstd::string::*;
use crate::text::{decimal, push_decimal};

verus! {

/// `ip:port`, the identifier of a server.
pub open spec fn spec_server_id(ip: Seq<char>, port: u16) -> Seq<char> {
    ip + seq![':'] + decimal(port as nat)
}

/// Builds the identifier `ip:port` of a server.
pub fn server_id(ip: &str, port: u16) -> (id: String)
    ensures
        id@ == spec_server_id(ip@, port),
{
    let mut id = String::from_str(ip);
    id.push(':');
    push_decimal(&mut id, port as u64);
    proof {
        assert(id@ =~= spec_server_id(ip@, port));
    }
    id
}

/// The name a server is shown under: its display name, or `ip:port` without one.
pub open spec fn spec_server_display(display: Option<String>, ip: Seq<char>, port: u16) -> Seq<char> {
    match display {
        Some(d) => d@,
        None => spec_server_id(ip, port),
    }
}

/// The name a server is shown under: its display name, or `ip:port` without one.
pub fn server_display(display: &Option<String>, ip: &str, port: u16) -> (name: String)
    ensures
        name@ == spec_server_display(*display, ip@, port),
{
    match display {
        Some(d) => d.clone(),
        None => server_id(ip, port),
    }
}

/// `http://ip:port` followed by the endpoint path.
pub open spec fn spec_monitoring_url(ip: Seq<char>, port: u16, endpoint: Seq<char>) -> Seq<char> {
    "http://"@ + spec_server_id(ip, port) + endpoint
}

/// Builds the URL of an endpoint of a monitoring agent: `http://{ip}:{port}{endpoint}`.
pub fn build_monitoring_url(ip: &str, port: u16, endpoint: &str) -> (url: String)
    ensures
        url@ == spec_monitoring_url(ip@, port, endpoint@),
{
    let mut url = String::from_str("http://");
    let id = server_id(ip, port);
    url.append(id.as_str());
    url.append(endpoint);
    proof {
        assert(url@ =~= spec_monitoring_url(ip@, port, endpoint@));
    }
    url
}

} // verus!
