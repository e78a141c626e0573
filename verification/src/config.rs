//! Connection configuration: the plain values a CLI or configuration layer
//! hands to the core, the broker URL they resolve to, and the errors a
//! connection or resubscription surfaces.

use vstd::prelude::*;
use crate::text::{append_str_chars, append_u16_dec, chars_string, spec_dec_of};

verus! {

/// The connection parameters supplied externally.
#[derive(Debug)]
pub struct Args {
    pub host: String,
    pub port: u16,
    pub user: Option<String>,
    pub pass: Option<String>,
    pub prefix: String,
}

/// The user-facing failures of connecting and of replacing the
/// subscription set.
#[derive(Debug)]
pub enum CLIError {
    CannotConnectToBroker { url: String },
    SubscriptionCouldNotBeUpdated,
}

/// A username/password pair used once at connect time.
#[derive(Debug)]
pub struct Credentials {
    pub username: String,
    pub password: String,
}

/// Pairs a username and a password into credentials; either alone is not
/// enough, and no credentials at all is a valid way to connect.
pub fn credentials_from(user: Option<String>, pass: Option<String>) -> (r: Option<Credentials>)
    ensures
        match r {
            Option::Some(c) => user == Option::Some(c.username) && pass == Option::Some(
                c.password,
            ),
            Option::None => user is None || pass is None,
        },
{
    match (user, pass) {
        (Some(username), Some(password)) => Some(Credentials { username, password }),
        _ => None,
    }
}

/// The TCP URL of the broker at a host and port.
pub fn broker_url(host: &str, port: u16) -> (r: String)
    ensures
        r@ == "tcp://"@ + host@ + ":"@ + spec_dec_of(port as int),
{
    let mut out: Vec<char> = Vec::new();
    append_str_chars(&mut out, "tcp://");
    append_str_chars(&mut out, host);
    append_str_chars(&mut out, ":");
    append_u16_dec(&mut out, port);
    proof {
        assert(out@ =~= "tcp://"@ + host@ + ":"@ + spec_dec_of(port as int));
    }
    chars_string(&out)
}

} // verus!
