//! The HTTP clients of the application.

use std::time::Duration;
use vstd::prelude::*;

verus! {

/// `reqwest::Client`, carried through as it is.
#[verifier::external_type_specification]
#[verifier::external_body]
pub struct ExClient(reqwest::Client);

/// `reqwest::Error`, carried through as it is.
#[verifier::external_type_specification]
#[verifier::external_body]
pub struct ExClientError(reqwest::Error);

/// The timeouts of a client, in seconds, and whether it verifies
/// certificates.
#[derive(Clone, Copy, Debug, PartialEq, Eq, Structural)]
pub struct ClientProfile {
    /// Longest wait for a connection.
    pub connect_timeout_secs: u64,
    /// Longest wait for each read.
    pub read_timeout_secs: u64,
    /// Longest time for a whole request.
    pub timeout_secs: u64,
    /// Whether certificates that are not valid are accepted.
    pub accept_invalid_certs: bool,
}

impl ClientProfile {
    /// Ten seconds to connect, forty for each read, sixty in all, and
    /// certificates are verified.
    pub fn standard() -> (p: ClientProfile)
        ensures
            p == (ClientProfile {
                connect_timeout_secs: 10,
                read_timeout_secs: 40,
                timeout_secs: 60,
                accept_invalid_certs: false,
            }),
    {
        ClientProfile {
            connect_timeout_secs: 10,
            read_timeout_secs: 40,
            timeout_secs: 60,
            accept_invalid_certs: false,
        }
    }

    /// The same timeouts, with every certificate accepted.
    pub fn insecure() -> (p: ClientProfile)
        ensures
            p == (ClientProfile {
                connect_timeout_secs: 10,
                read_timeout_secs: 40,
                timeout_secs: 60,
                accept_invalid_certs: true,
            }),
    {
        ClientProfile {
            connect_timeout_secs: 10,
            read_timeout_secs: 40,
            timeout_secs: 60,
            accept_invalid_certs: true,
        }
    }
}

/// The two clients of the application: one that verifies certificates and
/// one that does not.
pub struct HttpClients {
    pub default: reqwest::Client,
    pub insecure: reqwest::Client,
}

/// Which of the two clients could not be built, and why.
pub enum HttpClientError {
    /// The client that verifies certificates.
    Default(reqwest::Error),
    /// The client that does not.
    Insecure(reqwest::Error),
}

/// Whether a byte may stand in the value of a header: anything but the
/// control bytes below the space and the delete byte; of the control bytes
/// the tab alone is let in.
pub open spec fn header_byte(byte: u8) -> bool {
    (byte >= 32 && byte != 127) || byte == 9
}

/// Whether a text may be the value of a header: every byte of its UTF-8
/// encoding may stand in one.
pub open spec fn header_text(text: Seq<char>) -> bool {
    let bytes = vstd::utf8::encode_utf8(text);
    forall|i: int| 0 <= i < bytes.len() ==> header_byte(#[trigger] bytes[i])
}

/// Puts the two clients together. The first that failed to build is the
/// one that is reported.
pub fn pair_clients(
    default: Result<reqwest::Client, reqwest::Error>,
    insecure: Result<reqwest::Client, reqwest::Error>,
) -> (r: Result<HttpClients, HttpClientError>)
    ensures
        match (default, insecure) {
            (Ok(d), Ok(i)) => r matches Ok(clients) && clients.default == d && clients.insecure
                == i,
            (Err(e), _) => r matches Err(HttpClientError::Default(reason)) && reason == e,
            (Ok(_), Err(e)) => r matches Err(HttpClientError::Insecure(reason)) && reason == e,
        },
{
    match default {
        Err(e) => Err(HttpClientError::Default(e)),
        Ok(d) => match insecure {
            Err(e) => Err(HttpClientError::Insecure(e)),
            Ok(i) => Ok(HttpClients { default: d, insecure: i }),
        },
    }
}

/// Builds the two clients of the application, which introduce themselves
/// as `user_agent`: one with the standard profile and one with the insecure
/// profile.
///
/// A user agent that cannot be the value of a header builds no client, and
/// it is the first client that is reported. Whether the clients are built
/// otherwise depends on the machine.
pub fn http_clients(user_agent: &str) -> (r: Result<HttpClients, HttpClientError>)
    ensures
        !header_text(user_agent@) ==> (r matches Err(HttpClientError::Default(_))),
{
    let default = build_client(user_agent, &ClientProfile::standard());
    let insecure = build_client(user_agent, &ClientProfile::insecure());
    pair_clients(default, insecure)
}

/// `reqwest::Client::builder()`, then `user_agent`, `connect_timeout`,
/// `read_timeout`, `timeout` and `danger_accept_invalid_certs` with the
/// values of the profile, then `build`. What is claimed and not proved: a
/// user agent that cannot be the value of a header is kept as an error by
/// `user_agent`, and `build` hands that error back. Whether a client comes
/// out otherwise depends on the machine, and nothing is claimed of it.
#[verifier::external_body]
fn build_client(user_agent: &str, profile: &ClientProfile) -> (r: Result<
    reqwest::Client,
    reqwest::Error,
>)
    ensures
        !header_text(user_agent@) ==> r is Err,
{
    reqwest::Client::builder()
        .user_agent(user_agent)
        .connect_timeout(Duration::from_secs(profile.connect_timeout_secs))
        .read_timeout(Duration::from_secs(profile.read_timeout_secs))
        .timeout(Duration::from_secs(profile.timeout_secs))
        .danger_accept_invalid_certs(profile.accept_invalid_certs)
        .build()
}

} // verus!
