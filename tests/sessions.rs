use philipshue_cli::config::{get_config_path, ConfigPath};
use philipshue_cli::environment::Environment;
use philipshue_cli::error::Error;
use philipshue_cli::session::{
    bridge_location, device_type_label, ensure_authorized, login_outcome, BridgeLocation,
    PairingResponse, Session, SessionRecord,
};

fn record(url: Option<&str>, user: Option<&str>) -> SessionRecord {
    SessionRecord {
        version: "0.1.0".to_string(),
        bridge_url: url.map(|u| u.to_string()),
        username: user.map(|u| u.to_string()),
    }
}

#[test]
fn a_new_record_is_empty() {
    let r = SessionRecord::new();
    assert_eq!(r.version, "0.1.0");
    assert_eq!(r.bridge_url, None);
    assert_eq!(r.username, None);
    assert_eq!(SessionRecord::default(), r);
}

#[test]
fn authorization_needs_both_fields() {
    assert_eq!(ensure_authorized(&record(None, None)), Err(Error::NotAuthorized));
    assert_eq!(ensure_authorized(&record(Some("10.0.0.2"), None)), Err(Error::NotAuthorized));
    assert_eq!(ensure_authorized(&record(None, Some("abc"))), Err(Error::NotAuthorized));
    assert_eq!(
        ensure_authorized(&record(Some("10.0.0.2"), Some("abc"))),
        Ok(Session { bridge_url: "10.0.0.2".to_string(), username: "abc".to_string() })
    );
}

#[test]
fn link_button_not_pressed_writes_nothing() {
    let r = login_outcome(
        record(None, None),
        "10.0.0.2".to_string(),
        PairingResponse::ApiError { code: 101, description: "link button not pressed".to_string() },
    );
    assert_eq!(r, Err(Error::LinkButtonNotPressed));
}

#[test]
fn other_bridge_errors_fail_pairing() {
    let r = login_outcome(
        record(None, None),
        "10.0.0.2".to_string(),
        PairingResponse::ApiError { code: 7, description: "invalid value".to_string() },
    );
    assert_eq!(r, Err(Error::PairingFailed { code: 7, description: "invalid value".to_string() }));
    let r = login_outcome(
        record(None, None),
        "10.0.0.2".to_string(),
        PairingResponse::Failure { message: "timed out".to_string() },
    );
    assert_eq!(r, Err(Error::PhilipsHue("timed out".to_string())));
}

#[test]
fn successful_pairing_fills_the_record() {
    let r = login_outcome(
        record(Some("10.0.0.1"), Some("old")),
        "10.0.0.2".to_string(),
        PairingResponse::Success { username: "new-token".to_string() },
    );
    assert_eq!(r, Ok(record(Some("10.0.0.2"), Some("new-token"))));
}

#[test]
fn device_type_defaults_to_the_host_name() {
    assert_eq!(device_type_label(None, "desk"), "cli#desk");
    assert_eq!(device_type_label(Some("mine".to_string()), "desk"), "mine");
}

#[test]
fn bridge_is_given_or_discovered() {
    assert_eq!(bridge_location(Some("10.0.0.9".to_string())), BridgeLocation::Given("10.0.0.9".to_string()));
    assert_eq!(bridge_location(None), BridgeLocation::Discover);
}

#[test]
fn environment_without_credentials_is_not_authorized() {
    let env = Environment::new(record(Some("10.0.0.2"), None));
    assert_eq!(env.get_hue().err(), Some(Error::NotAuthorized));
}

#[test]
fn environment_with_credentials_has_a_session() {
    let env = Environment::new(record(Some("10.0.0.2"), Some("abc")));
    let s = env.get_hue().unwrap();
    assert_eq!(s.bridge_url, "10.0.0.2");
    assert_eq!(s.username, "abc");
}

#[test]
fn setting_the_session_updates_the_record() {
    let mut env = Environment::new(record(None, None));
    env.set_hue(Session { bridge_url: "10.0.0.3".to_string(), username: "tok".to_string() });
    assert_eq!(env.config(), &record(Some("10.0.0.3"), Some("tok")));
    assert_eq!(env.get_hue().unwrap().username, "tok");
}

#[test]
fn config_path_prefers_the_override() {
    assert_eq!(
        get_config_path(Some("/tmp/hue.toml".to_string()), Some("/home/u/.config".to_string())),
        Ok(ConfigPath::Explicit("/tmp/hue.toml".to_string()))
    );
    assert_eq!(
        get_config_path(None, Some("/home/u/.config".to_string())),
        Ok(ConfigPath::InConfigDir("/home/u/.config".to_string()))
    );
    assert_eq!(get_config_path(None, None), Err(Error::ConfigDirCouldntBeFound));
}
