use philipshue_cli::error::Error;
use philipshue_cli::session::SessionRecord;

fn record(url: Option<&str>, user: Option<&str>) -> SessionRecord {
    SessionRecord {
        version: "0.1.0".to_string(),
        bridge_url: url.map(|u| u.to_string()),
        username: user.map(|u| u.to_string()),
    }
}

#[test]
fn saving_then_loading_gives_the_same_record() {
    for r in [
        record(None, None),
        record(Some("192.168.1.20"), None),
        record(None, Some("tok\"en")),
        record(Some("192.168.1.20"), Some("abcdef")),
    ] {
        let text = r.to_toml().unwrap();
        assert_eq!(SessionRecord::from_toml(&text), Ok(r.clone()));
        assert_eq!(SessionRecord::load(Some(text)), Ok(r));
    }
}

#[test]
fn the_document_holds_the_set_fields_only() {
    let text = record(Some("10.0.0.2"), None).to_toml().unwrap();
    assert!(text.contains("version = \"0.1.0\""));
    assert!(text.contains("bridge_url = \"10.0.0.2\""));
    assert!(!text.contains("username"));
}

#[test]
fn reading_a_written_document() {
    let text = "version = \"0.2.0\"\nbridge_url = \"http://10.0.0.7\"\nusername = \"u\"\n";
    assert_eq!(
        SessionRecord::from_toml(text),
        Ok(SessionRecord {
            version: "0.2.0".to_string(),
            bridge_url: Some("http://10.0.0.7".to_string()),
            username: Some("u".to_string()),
        })
    );
}

#[test]
fn no_file_gives_a_new_record() {
    assert_eq!(SessionRecord::load(None), Ok(SessionRecord::new()));
}

#[test]
fn missing_version_is_a_parse_error() {
    assert!(matches!(SessionRecord::from_toml("username = \"u\"\n"), Err(Error::TomlParsing(_))));
}

#[test]
fn wrong_kinds_are_parse_errors() {
    assert!(matches!(
        SessionRecord::from_toml("version = \"1\"\nbridge_url = 5\n"),
        Err(Error::TomlParsing(_))
    ));
    assert!(matches!(SessionRecord::from_toml("version = 1\n"), Err(Error::TomlParsing(_))));
}

#[test]
fn malformed_text_is_a_parse_error() {
    assert!(matches!(SessionRecord::from_toml("version = "), Err(Error::TomlParsing(_))));
}

#[test]
fn writing_a_record_twice_gives_the_same_text() {
    let r = record(Some("10.0.0.2"), Some("a\\b\nc = d"));
    assert_eq!(r.to_toml(), r.clone().to_toml());
    assert!(r.to_toml().is_ok());
}

#[test]
fn no_file_gives_the_current_version() {
    assert_eq!(SessionRecord::load(None).unwrap().version, "0.1.0");
}

#[test]
fn odd_strings_survive_a_round_trip() {
    let r = record(Some(""), Some("quote \" back\\slash\nnew line = ü"));
    let text = r.to_toml().unwrap();
    assert_eq!(SessionRecord::from_toml(&text), Ok(r));
}
