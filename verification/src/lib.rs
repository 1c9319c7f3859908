//! A small web service: a health check, an endpoint that answers a random
//! number from an outside service multiplied by 100, and an endpoint that
//! shows how request errors are answered.
use vstd::prelude::*;
use crate::text::{all_digits, decimal, decimal_has_no_leading_zero, decimal_is_digits, digits_value};

pub mod clients;
pub mod handlers;
pub mod models;
pub mod prelude;
pub mod text;
pub mod utils;

verus! {

/// The application could not bind its address, or stopped serving.
#[derive(Debug, Clone, Copy, PartialEq, Eq)]
pub struct InitializeAppError;

impl InitializeAppError {
    /// The text this error displays as.
    pub fn to_string(&self) -> (s: String)
        ensures
            s@ == "InitializeAppError"@,
    {
        String::from_str("InitializeAppError")
    }
}

/// The address the application listens on: `host:port`.
pub open spec fn spec_listen_address(host: Seq<char>, port: u16) -> Seq<char> {
    host + ":"@ + decimal(port as nat)
}

/// The listen address starts with the whole host, unchanged, then a colon,
/// then the port in base ten (digits only, no leading zero, of value `port`),
/// and nothing else.
pub proof fn listen_address_is_host_colon_port(host: Seq<char>, port: u16)
    ensures
        ({
            let a = spec_listen_address(host, port);
            let digits = a.subrange(host.len() + 1 as int, a.len() as int);
            &&& a.len() > host.len() + 1
            &&& a.subrange(0, host.len() as int) == host
            &&& a[host.len() as int] == ':'
            &&& all_digits(digits)
            &&& digits_value(digits) == port
            &&& (digits[0] == '0' ==> digits.len() == 1)
        }),
{
    reveal_strlit(":");
    let a = spec_listen_address(host, port);
    decimal_is_digits(port as nat);
    decimal_has_no_leading_zero(port as nat);
    assert(a.subrange(0, host.len() as int) =~= host);
    assert(a.subrange(host.len() + 1 as int, a.len() as int) =~= decimal(port as nat));
}

/// The address to bind for the configured host and port, `host:port`.
pub fn listen_address(host: &str, port: u16) -> (a: String)
    ensures
        a@ == spec_listen_address(host@, port),
{
    let mut a = host.to_owned();
    a.append(":");
    crate::text::push_decimal(&mut a, port as u32);
    a
}

} // verus!
