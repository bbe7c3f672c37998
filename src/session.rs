use vstd::prelude::*;
use vstd::string::*;
use crate::error::Error;

verus! {

/// The version written into a session record made from scratch.
pub const CONFIG_VERSION: &'static str = "0.1.0";

/// The error code with which the bridge says that its link button was not pressed.
pub const LINK_BUTTON_NOT_PRESSED: u64 = 101;

/// What the controller stores between invocations.
#[derive(Clone, Debug, PartialEq, Eq)]
pub struct SessionRecord {
    pub version: String,
    pub bridge_url: Option<String>,
    /// The credential that the bridge issued.
    pub username: Option<String>,
}

/// A bridge address together with a credential for it.
#[derive(Clone, Debug, PartialEq, Eq)]
pub struct Session {
    pub bridge_url: String,
    pub username: String,
}

/// How the pairing request was answered by the bridge.
#[derive(Clone, Debug, PartialEq, Eq)]
pub enum PairingResponse {
    /// A credential was issued.
    Success { username: String },
    /// The bridge answered with an error code.
    ApiError { code: u64, description: String },
    /// The request did not get an answer from the bridge.
    Failure { message: String },
}

/// Where the bridge to pair with is taken from.
#[derive(Debug, PartialEq, Eq)]
pub enum BridgeLocation {
    /// The address that was given on the command line.
    Given(String),
    /// The address is to be found by discovery.
    Discover,
}

/// The session that a record holds, if it holds both the address and the credential.
pub open spec fn session_of(record: SessionRecord) -> Option<(Seq<char>, Seq<char>)> {
    match (record.bridge_url, record.username) {
        (Some(u), Some(n)) => Some((u@, n@)),
        _ => None,
    }
}

/// The view of a session: its address and its credential.
pub open spec fn session_view(s: Session) -> (Seq<char>, Seq<char>) {
    (s.bridge_url@, s.username@)
}

impl SessionRecord {
    /// A record with no address and no credential.
    pub fn new() -> (r: SessionRecord)
        ensures
            r.version@ == CONFIG_VERSION@,
            r.bridge_url is None,
            r.username is None,
    {
        SessionRecord { version: String::from_str(CONFIG_VERSION), bridge_url: None, username: None }
    }
}

impl Default for SessionRecord {
    fn default() -> (r: SessionRecord)
        ensures
            r.version@ == CONFIG_VERSION@,
            r.bridge_url is None,
            r.username is None,
    {
        SessionRecord::new()
    }
}

/// The session that `record` holds, or `NotAuthorized` where the address or the
/// credential is missing. Nothing is sent anywhere.
pub fn ensure_authorized(record: &SessionRecord) -> (r: Result<Session, Error>)
    ensures
        session_of(*record) is None ==> r matches Err(Error::NotAuthorized),
        session_of(*record) matches Some(s) ==> (r matches Ok(ses) && session_view(ses) == s),
{
    match (&record.bridge_url, &record.username) {
        (Some(u), Some(n)) => Ok(Session { bridge_url: u.clone(), username: n.clone() }),
        _ => Err(Error::NotAuthorized),
    }
}

/// The first step of pairing: use the given address, or discover one.
pub fn bridge_location(bridge_url: Option<String>) -> (r: BridgeLocation)
    ensures
        bridge_url matches Some(u) ==> (r matches BridgeLocation::Given(g) && g@ == u@),
        bridge_url is None ==> r is Discover,
{
    match bridge_url {
        Some(u) => BridgeLocation::Given(u),
        None => BridgeLocation::Discover,
    }
}

/// The device-type label sent with a pairing request: the given one, or
/// `cli#` followed by the host name.
pub fn device_type_label(device_type: Option<String>, hostname: &str) -> (r: String)
    ensures
        device_type matches Some(d) ==> r@ == d@,
        device_type is None ==> r@ == "cli#"@ + hostname@,
{
    match device_type {
        Some(d) => d,
        None => String::from_str("cli#").concat(hostname),
    }
}

/// The outcome of pairing with the bridge at `bridge_url`.
///
/// On success the record carries the address and the new credential, and is the
/// one record to persist; on any failure nothing is to be written.
pub fn login_outcome(record: SessionRecord, bridge_url: String, response: PairingResponse) -> (r:
    Result<SessionRecord, Error>)
    ensures
        response matches PairingResponse::Success { username } ==> (r matches Ok(nr) && nr.version
            == record.version && session_of(nr) == Some((bridge_url@, username@))),
        response matches PairingResponse::ApiError { code, .. } ==> (code
            == LINK_BUTTON_NOT_PRESSED <==> r matches Err(Error::LinkButtonNotPressed)),
        response matches PairingResponse::ApiError { code, description } ==> (code
            != LINK_BUTTON_NOT_PRESSED ==> (r matches Err(Error::PairingFailed { code: c, description: d })
            && c == code && d@ == description@)),
        response matches PairingResponse::Failure { message } ==> (r matches Err(Error::PhilipsHue(m))
            && m@ == message@),
{
    match response {
        PairingResponse::Success { username } => Ok(
            SessionRecord { version: record.version, bridge_url: Some(bridge_url), username: Some(username) },
        ),
        PairingResponse::ApiError { code, description } => {
            if code == LINK_BUTTON_NOT_PRESSED {
                Err(Error::LinkButtonNotPressed)
            } else {
                Err(Error::PairingFailed { code, description })
            }
        },
        PairingResponse::Failure { message } => Err(Error::PhilipsHue(message)),
    }
}

} // verus!
