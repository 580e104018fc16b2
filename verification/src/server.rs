//! The address at which the embedded web server is reached.
use vstd::prelude::*;
use crate::text::{join_text, decimal, decimal_text};

verus! {

/// The address that phones use to reach the server.
pub open spec fn server_url_spec(host: Seq<char>, port: u16) -> Seq<char> {
    "http://"@ + host + ":"@ + decimal(port as nat)
}

/// Builds the server address from the host's address text and the port.
pub fn server_url(host: &str, port: u16) -> (r: String)
    ensures
        r@ == server_url_spec(host@, port),
{
    let a = join_text("http://", host);
    let b = join_text(a.as_str(), ":");
    let p = decimal_text(port as u64);
    join_text(b.as_str(), p.as_str())
}

} // verus!
