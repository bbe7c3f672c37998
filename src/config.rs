use vstd::prelude::*;
use vstd::string::*;
use crate::error::Error;
use crate::session::{CONFIG_VERSION, SessionRecord};

verus! {

/// The environment variable that names the configuration file explicitly.
pub const CONFIG_ENV_VAR: &'static str = "PHILIPSHUE_CONFIG";

/// The directory made for the configuration inside the per-user configuration
/// directory.
pub const CONFIG_DIR_NAME: &'static str = "philipshue";

/// The name of the configuration file inside that directory.
pub const CONFIG_FILE_NAME: &'static str = "config.toml";

/// Where the configuration file is.
#[derive(Debug, PartialEq, Eq)]
pub enum ConfigPath {
    /// The file that the override names.
    Explicit(String),
    /// The fixed file name inside the directory `CONFIG_DIR_NAME` under the
    /// per-user configuration directory given here; that directory is made
    /// where it is missing.
    InConfigDir(String),
}

/// Resolves the configuration file: the override first, else the per-user
/// configuration directory, else `ConfigDirCouldntBeFound`.
pub fn get_config_path(override_path: Option<String>, config_dir: Option<String>) -> (r: Result<
    ConfigPath,
    Error,
>)
    ensures
        override_path matches Some(p) ==> (r matches Ok(ConfigPath::Explicit(q)) && q@ == p@),
        override_path is None ==> (config_dir matches Some(d) ==> (r matches Ok(
            ConfigPath::InConfigDir(e),
        ) && e@ == d@)),
        override_path is None && config_dir is None ==> r matches Err(
            Error::ConfigDirCouldntBeFound,
        ),
{
    match override_path {
        Some(p) => Ok(ConfigPath::Explicit(p)),
        None => match config_dir {
            Some(d) => Ok(ConfigPath::InConfigDir(d)),
            None => Err(Error::ConfigDirCouldntBeFound),
        },
    }
}

#[verifier::external_type_specification]
#[verifier::external_body]
#[verifier::reject_recursive_types(K)]
#[verifier::reject_recursive_types(V)]
pub struct ExTomlMap<K, V>(toml::map::Map<K, V>);

#[verifier::external_type_specification]
#[verifier::external_body]
pub struct ExTomlValue(toml::Value);

/// The top-level entries of a TOML table: each key maps to its text where the
/// value is a string, and to `None` where it is a value of another kind.
pub uninterp spec fn table_fields(t: toml::map::Map<String, toml::Value>) -> Map<
    Seq<char>,
    Option<Seq<char>>,
>;

/// One top-level entry of a TOML table, as the record reads it.
#[derive(Debug)]
pub enum TomlField {
    Missing,
    Text(String),
    OtherKind,
}

/// Relies on `toml::map::Map::new`: the new table has no entry.
#[verifier::external_body]
fn new_table() -> (r: toml::map::Map<String, toml::Value>)
    ensures
        table_fields(r) == empty_fields(),
{
    toml::map::Map::new()
}

/// Relies on `toml::map::Map::insert`: the key then holds the string, and the
/// other entries stay.
#[verifier::external_body]
fn insert_text(t: &mut toml::map::Map<String, toml::Value>, key: &str, value: &String)
    ensures
        table_fields(*final(t)) == table_fields(*old(t)).insert(key@, Some(value@)),
{
    t.insert(key.to_string(), toml::Value::String(value.clone()));
}

/// Relies on `toml::map::Map::get`: the entry under the key, told apart by kind.
#[verifier::external_body]
fn get_field(t: &toml::map::Map<String, toml::Value>, key: &str) -> (r: TomlField)
    ensures
        r is Missing <==> !table_fields(*t).contains_key(key@),
        r is OtherKind <==> (table_fields(*t).contains_key(key@) && table_fields(*t)[key@] is None),
        r matches TomlField::Text(s) ==> table_fields(*t).contains_key(key@) && table_fields(
            *t,
        )[key@] == Some(s@),
{
    match t.get(key) {
        None => TomlField::Missing,
        Some(toml::Value::String(s)) => TomlField::Text(s.clone()),
        Some(_) => TomlField::OtherKind,
    }
}

/// Every entry is a string.
pub open spec fn all_text(m: Map<Seq<char>, Option<Seq<char>>>) -> bool {
    forall|k: Seq<char>| #[trigger] m.contains_key(k) ==> m[k] is Some
}

/// What `toml::to_string` writes for a table whose entries are all strings.
pub uninterp spec fn toml_text_of(m: Map<Seq<char>, Option<Seq<char>>>) -> Seq<char>;

/// The entries of the table that `toml::from_str` reads from a text, or `None`
/// where the text is not a TOML document.
pub uninterp spec fn parsed_toml(s: Seq<char>) -> Option<Map<Seq<char>, Option<Seq<char>>>>;

/// Relies on `toml::to_string`: writes the table as a TOML document; a table
/// of strings is always written, and its text depends on its entries alone.
#[verifier::external_body]
fn table_to_text(t: &toml::map::Map<String, toml::Value>) -> (r: Result<String, String>)
    ensures
        all_text(table_fields(*t)) ==> r is Ok,
        r matches Ok(x) ==> (all_text(table_fields(*t)) ==> x@ == toml_text_of(table_fields(*t))),
{
    match toml::to_string(t) {
        Ok(s) => Ok(s),
        Err(e) => Err(e.to_string()),
    }
}

/// Relies on `toml::from_str`: reads a TOML document as a table; the outcome
/// depends on the text alone.
#[verifier::external_body]
fn parse_table(s: &str) -> (r: Result<toml::map::Map<String, toml::Value>, String>)
    ensures
        r is Ok <==> parsed_toml(s@) is Some,
        r matches Ok(t) ==> parsed_toml(s@) == Some(table_fields(t)),
{
    match toml::from_str::<toml::map::Map<String, toml::Value>>(s) {
        Ok(t) => Ok(t),
        Err(e) => Err(e.to_string()),
    }
}

/// The entries of a table that has none.
pub open spec fn empty_fields() -> Map<Seq<char>, Option<Seq<char>>> {
    Map::empty()
}

/// A session record as plain values: version, bridge address, credential.
pub open spec fn record_view(r: SessionRecord) -> (Seq<char>, Option<Seq<char>>, Option<Seq<char>>) {
    (r.version@, opt_view(r.bridge_url), opt_view(r.username))
}

pub open spec fn opt_view(o: Option<String>) -> Option<Seq<char>> {
    match o {
        Some(s) => Some(s@),
        None => None,
    }
}

/// `m` with `key` holding `value` where a value is given.
pub open spec fn with_optional(m: Map<Seq<char>, Option<Seq<char>>>, key: Seq<char>, value: Option<
    Seq<char>,
>) -> Map<Seq<char>, Option<Seq<char>>> {
    match value {
        Some(v) => m.insert(key, Some(v)),
        None => m,
    }
}

/// The entries that a record is written as: the version always, and the bridge
/// address and the credential where they are set.
pub open spec fn record_fields(r: (Seq<char>, Option<Seq<char>>, Option<Seq<char>>)) -> Map<
    Seq<char>,
    Option<Seq<char>>,
> {
    with_optional(
        with_optional(map![ "version"@ => Some(r.0) ], "bridge_url"@, r.1),
        "username"@,
        r.2,
    )
}

/// An optional entry as the record reads it: absent is unset, a string is
/// set, anything else makes the document invalid.
pub open spec fn optional_entry(m: Map<Seq<char>, Option<Seq<char>>>, key: Seq<char>) -> Option<
    Option<Seq<char>>,
> {
    if !m.contains_key(key) {
        Some(None)
    } else {
        match m[key] {
            Some(v) => Some(Some(v)),
            None => None,
        }
    }
}

/// The record that the entries `m` describe, or `None` where the version is
/// missing or an entry of the record is not a string.
pub open spec fn record_of_fields(m: Map<Seq<char>, Option<Seq<char>>>) -> Option<
    (Seq<char>, Option<Seq<char>>, Option<Seq<char>>),
> {
    if m.contains_key("version"@) && m["version"@] is Some && optional_entry(m, "bridge_url"@) is Some
        && optional_entry(m, "username"@) is Some {
        Some((m["version"@]->Some_0, optional_entry(m, "bridge_url"@)->Some_0, optional_entry(m, "username"@)->Some_0))
    } else {
        None
    }
}

impl SessionRecord {
    /// The record as a TOML table with exactly the entries `record_fields`.
    pub fn to_table(&self) -> (t: toml::map::Map<String, toml::Value>)
        ensures
            table_fields(t) == record_fields(record_view(*self)),
    {
        let mut t = new_table();
        insert_text(&mut t, "version", &self.version);
        proof {
            reveal_strlit("version");
        }
        if let Some(u) = &self.bridge_url {
            insert_text(&mut t, "bridge_url", u);
        }
        if let Some(n) = &self.username {
            insert_text(&mut t, "username", n);
        }
        t
    }

    /// The record that the table describes, or `TomlParsing` where it is
    /// not one.
    pub fn from_table(t: &toml::map::Map<String, toml::Value>) -> (r: Result<SessionRecord, Error>)
        ensures
            record_of_fields(table_fields(*t)) matches Some(v) ==> (r matches Ok(rec) && record_view(
                rec,
            ) == v),
            record_of_fields(table_fields(*t)) is None ==> r matches Err(Error::TomlParsing(_)),
    {
        let version = match get_field(t, "version") {
            TomlField::Text(s) => s,
            TomlField::Missing => {
                return Err(Error::TomlParsing(String::from_str("missing field `version`")));
            },
            TomlField::OtherKind => {
                return Err(Error::TomlParsing(String::from_str("invalid type for `version`")));
            },
        };
        let bridge_url = match get_field(t, "bridge_url") {
            TomlField::Text(s) => Some(s),
            TomlField::Missing => None,
            TomlField::OtherKind => {
                return Err(Error::TomlParsing(String::from_str("invalid type for `bridge_url`")));
            },
        };
        let username = match get_field(t, "username") {
            TomlField::Text(s) => Some(s),
            TomlField::Missing => None,
            TomlField::OtherKind => {
                return Err(Error::TomlParsing(String::from_str("invalid type for `username`")));
            },
        };
        Ok(SessionRecord { version, bridge_url, username })
    }

    /// The record written as a TOML document: always written, and as the
    /// text of its entries `record_fields`.
    pub fn to_toml(&self) -> (r: Result<String, Error>)
        ensures
            r matches Ok(s) && s@ == toml_text_of(record_fields(record_view(*self))),
    {
        let t = self.to_table();
        proof {
            lemma_record_fields_all_text(record_view(*self));
        }
        match table_to_text(&t) {
            Ok(s) => Ok(s),
            Err(m) => Err(Error::TomlSerializing(m)),
        }
    }

    /// The record that a TOML document describes, or `TomlParsing` where the
    /// text is not such a document.
    pub fn from_toml(text: &str) -> (r: Result<SessionRecord, Error>)
        ensures
            r matches Ok(rec) ==> (parsed_toml(text@) is Some && record_of_fields(
                parsed_toml(text@)->Some_0,
            ) == Some(record_view(rec))),
            r is Err ==> (parsed_toml(text@) is None || record_of_fields(parsed_toml(text@)->Some_0)
                is None),
            r matches Err(e) ==> e is TomlParsing,
    {
        match parse_table(text) {
            Ok(t) => SessionRecord::from_table(&t),
            Err(m) => Err(Error::TomlParsing(m)),
        }
    }

    /// The record at start-up: the one that the file holds, where there is a
    /// file, else a record made from scratch.
    pub fn load(content: Option<String>) -> (r: Result<SessionRecord, Error>)
        ensures
            content is None ==> (r matches Ok(rec) && rec.version@ == CONFIG_VERSION@
                && rec.bridge_url is None && rec.username is None),
            content matches Some(text) ==> (r matches Ok(rec) ==> (parsed_toml(text@) is Some
                && record_of_fields(parsed_toml(text@)->Some_0) == Some(record_view(rec)))),
            content matches Some(text) ==> (r is Err ==> (parsed_toml(text@) is None
                || record_of_fields(parsed_toml(text@)->Some_0) is None)),
            r matches Err(e) ==> e is TomlParsing,
    {
        match content {
            Some(text) => SessionRecord::from_toml(text.as_str()),
            None => Ok(SessionRecord::new()),
        }
    }
}

/// The entries that a record is written as are all strings.
pub proof fn lemma_record_fields_all_text(r: (Seq<char>, Option<Seq<char>>, Option<Seq<char>>))
    ensures
        all_text(record_fields(r)),
{
}

/// Two writes of one record give the same text, and reading that text gives
/// the record back wherever the TOML reader returns the entries that were
/// written.
pub proof fn lemma_saved_text_round_trip(a: SessionRecord, b: SessionRecord)
    requires
        record_view(a) == record_view(b),
    ensures
        toml_text_of(record_fields(record_view(a))) == toml_text_of(record_fields(record_view(b))),
        parsed_toml(toml_text_of(record_fields(record_view(a)))) == Some(
            record_fields(record_view(a)),
        ) ==> record_of_fields(parsed_toml(toml_text_of(record_fields(record_view(a))))->Some_0)
            == Some(record_view(a)),
{
    lemma_record_round_trip(record_view(a));
}

/// Reading back the entries that a record is written as gives the same record,
/// whichever of its optional fields are set.
pub proof fn lemma_record_round_trip(r: (Seq<char>, Option<Seq<char>>, Option<Seq<char>>))
    ensures
        record_of_fields(record_fields(r)) == Some(r),
{
    reveal_strlit("version");
    reveal_strlit("bridge_url");
    reveal_strlit("username");
    assert("version"@.len() == 7 && "bridge_url"@.len() == 10 && "username"@.len() == 8);
    assert("version"@ != "bridge_url"@ && "version"@ != "username"@ && "bridge_url"@
        != "username"@);
    let m = record_fields(r);
    assert(m.contains_key("version"@));
    assert(m["version"@] == Some(r.0));
}

} // verus!
