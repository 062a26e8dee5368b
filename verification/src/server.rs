//! Fixed service configuration: the address the server binds and the
//! database it opens anew on every request.

use vstd::prelude::*;
use vstd::string::*;
use crate::text::{i32_to_decimal, signed_decimal};

verus! {

/// The address text the server binds: the loopback host, a colon, the port.
pub open spec fn bind_address_text(port: int) -> Seq<char> {
    "127.0.0.1:"@ + signed_decimal(port)
}

/// The bind address for a port.
pub fn bind_address(port: i32) -> (r: String)
    ensures
        r@ == bind_address_text(port as int),
{
    let mut s = String::from_str("127.0.0.1:");
    let digits = i32_to_decimal(port);
    s.append(digits.as_str());
    s
}

/// The connection string of the database server.
pub fn database_url() -> (r: &'static str)
    ensures
        r@ == "mongodb://localhost:27017"@,
{
    "mongodb://localhost:27017"
}

/// The name of the database that holds the three collections.
pub fn database_name() -> (r: &'static str)
    ensures
        r@ == "test"@,
{
    "test"
}

} // verus!
