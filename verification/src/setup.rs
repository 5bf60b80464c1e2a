use vstd::prelude::*;
use vstd::string::StringExecFns;

verus! {

/// The presence-client identifier used when the configuration supplies none.
pub const DEFAULT_DISCORD_CLIENT_ID: u64 = 1338422523838206014;

/// The query path of the active-sessions endpoint.
pub open spec fn sessions_path_spec() -> Seq<char> {
    "Sessions?activeWithinSeconds=1"@
}

/// The values the configuration collaborator supplies, already read from disk;
/// the core validates them, the loader does not.
pub struct Credentials {
    pub endpoint: String,
    pub api_key: String,
    pub username: String,
    pub client_id: Option<u64>,
}

/// A fatal condition found while connecting: missing required configuration,
/// or a failed connectivity probe. Unlike fetch errors, these end the run.
#[derive(Clone, Copy, Debug, PartialEq, Eq, Structural)]
pub enum SetupError {
    EmptyEndpoint,
    EmptyUsername,
    Unauthorized,
    ProbeFailed { status: u16 },
}

/// What `validate_credentials` returns: the endpoint is checked first, then
/// the username; both must be non-empty.
pub open spec fn validate_spec(endpoint: Seq<char>, username: Seq<char>) -> Result<
    (),
    SetupError,
> {
    if endpoint.len() == 0 {
        Err(SetupError::EmptyEndpoint)
    } else if username.len() == 0 {
        Err(SetupError::EmptyUsername)
    } else {
        Ok(())
    }
}

/// Check that the required configuration values are present: a non-empty
/// endpoint URL and a non-empty target username. An empty field is fatal.
pub fn validate_credentials(creds: &Credentials) -> (r: Result<(), SetupError>)
    ensures
        r == validate_spec(creds.endpoint@, creds.username@),
{
    if creds.endpoint.as_str().is_empty() {
        Err(SetupError::EmptyEndpoint)
    } else if creds.username.as_str().is_empty() {
        Err(SetupError::EmptyUsername)
    } else {
        Ok(())
    }
}

/// What `classify_probe` returns for each HTTP status of the connectivity
/// probe.
pub open spec fn probe_spec(status: u16) -> Result<(), SetupError> {
    if status == 200 {
        Ok(())
    } else if status == 401 {
        Err(SetupError::Unauthorized)
    } else {
        Err(SetupError::ProbeFailed { status })
    }
}

/// Judge the initial connectivity probe of the sessions endpoint: only a
/// `200 OK` may proceed; an authentication rejection or any other status is
/// fatal.
pub fn classify_probe(status: u16) -> (r: Result<(), SetupError>)
    ensures
        r == probe_spec(status),
{
    if status == 200 {
        Ok(())
    } else if status == 401 {
        Err(SetupError::Unauthorized)
    } else {
        Err(SetupError::ProbeFailed { status })
    }
}

/// The presence-client identifier to use: the configured one, or the fixed
/// default when the configuration gave none.
pub fn effective_client_id(client_id: &Option<u64>) -> (id: u64)
    ensures
        id == (match *client_id {
            Some(c) => c,
            None => DEFAULT_DISCORD_CLIENT_ID,
        }),
{
    match client_id {
        Some(c) => *c,
        None => DEFAULT_DISCORD_CLIENT_ID,
    }
}

/// The URL of the active-sessions request:
/// `{endpoint}/Sessions?activeWithinSeconds=1`.
pub open spec fn sessions_request_url_spec(endpoint: Seq<char>) -> Seq<char> {
    endpoint + "/"@ + sessions_path_spec()
}

/// Build the active-sessions request URL.
pub fn sessions_request_url(endpoint: &str) -> (u: String)
    ensures
        u@ == sessions_request_url_spec(endpoint@),
{
    endpoint.to_owned().concat("/").concat("Sessions?activeWithinSeconds=1")
}

/// The value of the `Authorization` header: `MediaBrowser Token={api_key}`.
pub open spec fn auth_header_value_spec(api_key: Seq<char>) -> Seq<char> {
    "MediaBrowser Token="@ + api_key
}

/// Build the `Authorization` header value for the media source.
pub fn auth_header_value(api_key: &str) -> (v: String)
    ensures
        v@ == auth_header_value_spec(api_key@),
{
    "MediaBrowser Token=".to_owned().concat(api_key)
}

} // verus!
