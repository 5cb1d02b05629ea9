//! What the command line settles before the listeners start.

use vstd::prelude::*;
use vstd::string::*;

verus! {

/// The port of the POP3 listener where none is given.
pub const DEFAULT_POP3_PORT: u16 = 110;

/// The port of the SMTP listener where none is given.
pub const DEFAULT_SMTP_PORT: u16 = 25;

/// Which listeners run.
#[derive(Clone, Copy, Debug, PartialEq, Eq, Structural)]
pub enum Listeners {
    Pop3Only,
    Pop3AndSmtp,
}

/// Why the gateway cannot start.
#[derive(Clone, Copy, Debug, PartialEq, Eq, Structural)]
pub enum ConfigError {
    /// SMTP takes no credential from its clients, so it needs a token.
    TokenRequired,
}

/// SMTP runs unless it is switched off, and then a token must be given.
pub open spec fn listeners_spec(nosmtp: bool, has_token: bool) -> Result<Listeners, ConfigError> {
    if nosmtp {
        Ok(Listeners::Pop3Only)
    } else if has_token {
        Ok(Listeners::Pop3AndSmtp)
    } else {
        Err(ConfigError::TokenRequired)
    }
}

/// Which listeners run for the given switches.
pub fn listeners(nosmtp: bool, token: Option<&str>) -> (r: Result<Listeners, ConfigError>)
    ensures
        r == listeners_spec(nosmtp, token is Some),
{
    if nosmtp {
        Ok(Listeners::Pop3Only)
    } else {
        match token {
            Some(_) => Ok(Listeners::Pop3AndSmtp),
            None => Err(ConfigError::TokenRequired),
        }
    }
}

/// The address to listen on: the given one, else the local host.
pub fn bind_address(address: Option<&str>) -> (r: String)
    ensures
        r@ == match address {
            Some(a) => a@,
            None => "127.0.0.1"@,
        },
{
    match address {
        Some(a) => a.to_owned(),
        None => "127.0.0.1".to_owned(),
    }
}

/// The port of the POP3 listener.
pub fn pop3_port(port: Option<u16>) -> (r: u16)
    ensures
        r == match port {
            Some(p) => p,
            None => DEFAULT_POP3_PORT,
        },
{
    match port {
        Some(p) => p,
        None => DEFAULT_POP3_PORT,
    }
}

/// The port of the SMTP listener.
pub fn smtp_port(port: Option<u16>) -> (r: u16)
    ensures
        r == match port {
            Some(p) => p,
            None => DEFAULT_SMTP_PORT,
        },
{
    match port {
        Some(p) => p,
        None => DEFAULT_SMTP_PORT,
    }
}

} // verus!
