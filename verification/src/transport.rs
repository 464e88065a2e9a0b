//! The HTTP client that carries a Redfish client's requests, with the
//! settings it was built with.
use vstd::prelude::*;

verus! {

#[verifier::external_type_specification]
#[verifier::external_body]
pub struct ExHttpClient(reqwest::Client);

/// The settings an HTTP client is built with.
#[derive(Debug, Clone, Copy, PartialEq, Eq)]
pub struct TransportSettings {
    /// Server certificates are accepted even when they are self-signed or invalid.
    pub accepts_invalid_certs: bool,
    /// A request that has not completed after this many seconds fails.
    pub timeout_secs: u64,
}

/// An HTTP client together with the settings it was built with. Only
/// `HttpTransport::new` makes one, so the recorded settings are the ones the
/// client was built with.
pub struct HttpTransport {
    client: reqwest::Client,
    settings: TransportSettings,
}

impl View for HttpTransport {
    type V = TransportSettings;

    closed spec fn view(&self) -> TransportSettings {
        self.settings
    }
}

/// Calls `reqwest::Client::builder()`, then
/// `danger_accept_invalid_certs(accepts_invalid_certs)`,
/// `timeout(Duration::from_secs(timeout_secs))` and `build()`. Trusted: a
/// client that was built carries the two settings that were applied to it.
/// Whether building succeeds depends on the machine's TLS setup: nothing is
/// stated of that.
#[verifier::external_body]
fn build_transport(accepts_invalid_certs: bool, timeout_secs: u64) -> (r: std::result::Result<HttpTransport, reqwest::Error>)
    ensures
        r matches Ok(t) ==> t@ == (TransportSettings { accepts_invalid_certs, timeout_secs }),
{
    let built = reqwest::Client::builder()
        .danger_accept_invalid_certs(accepts_invalid_certs)
        .timeout(std::time::Duration::from_secs(timeout_secs))
        .build();
    match built {
        Ok(client) => Ok(HttpTransport { client, settings: TransportSettings { accepts_invalid_certs, timeout_secs } }),
        Err(e) => Err(e),
    }
}

impl HttpTransport {
    /// The HTTP client itself.
    pub closed spec fn http(&self) -> reqwest::Client {
        self.client
    }

    /// Builds an HTTP client with the given settings; building fails where
    /// the machine's TLS setup does not allow it.
    pub fn new(accepts_invalid_certs: bool, timeout_secs: u64) -> (r: std::result::Result<HttpTransport, reqwest::Error>)
        ensures
            r matches Ok(t) ==> t@ == (TransportSettings { accepts_invalid_certs, timeout_secs }),
    {
        build_transport(accepts_invalid_certs, timeout_secs)
    }

    /// The HTTP client that sends the requests.
    pub fn client(&self) -> (r: &reqwest::Client)
        ensures
            *r == self.http(),
    {
        &self.client
    }
}

} // verus!
