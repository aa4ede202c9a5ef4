use serde::de::Error as DeError;
use serde::ser::SerializeStruct;
use std::cell::Cell;
use std::collections::BTreeMap;
use std::path::PathBuf;
use zconf::{ConfigError, ConfigManager, FileRead, Json, Toml, WriteRequest};

#[derive(Debug, Default, PartialEq)]
struct Config {
    active: bool,
    name: String,
}

impl serde::Serialize for Config {
    fn serialize<Sr: serde::Serializer>(&self, serializer: Sr) -> Result<Sr::Ok, Sr::Error> {
        let mut fields = serializer.serialize_struct("Config", 2)?;
        fields.serialize_field("active", &self.active)?;
        fields.serialize_field("name", &self.name)?;
        fields.end()
    }
}

impl<'de> serde::Deserialize<'de> for Config {
    fn deserialize<D: serde::Deserializer<'de>>(deserializer: D) -> Result<Self, D::Error> {
        let fields = BTreeMap::<String, serde_json::Value>::deserialize(deserializer)?;
        let active = match fields.get("active").and_then(|v| v.as_bool()) {
            Some(active) => active,
            None => return Err(D::Error::custom("active: expected a boolean")),
        };
        let name = match fields.get("name").and_then(|v| v.as_str()) {
            Some(name) => name.to_string(),
            None => return Err(D::Error::custom("name: expected a string")),
        };
        Ok(Config { active, name })
    }
}

#[derive(Debug, Default, PartialEq)]
struct Flag {
    active: bool,
}

impl serde::Serialize for Flag {
    fn serialize<Sr: serde::Serializer>(&self, serializer: Sr) -> Result<Sr::Ok, Sr::Error> {
        let mut fields = serializer.serialize_struct("Flag", 1)?;
        fields.serialize_field("active", &self.active)?;
        fields.end()
    }
}

impl<'de> serde::Deserialize<'de> for Flag {
    fn deserialize<D: serde::Deserializer<'de>>(deserializer: D) -> Result<Self, D::Error> {
        let fields = BTreeMap::<String, bool>::deserialize(deserializer)?;
        match fields.get("active") {
            Some(active) => Ok(Flag { active: *active }),
            None => Err(D::Error::custom("active: missing")),
        }
    }
}

/// A value that no strategy can encode.
#[derive(Debug, Default, PartialEq)]
struct Sealed {
    level: u8,
}

impl serde::Serialize for Sealed {
    fn serialize<Sr: serde::Serializer>(&self, _serializer: Sr) -> Result<Sr::Ok, Sr::Error> {
        Err(serde::ser::Error::custom("sealed"))
    }
}

impl<'de> serde::Deserialize<'de> for Sealed {
    fn deserialize<D: serde::Deserializer<'de>>(deserializer: D) -> Result<Self, D::Error> {
        let fields = BTreeMap::<String, u8>::deserialize(deserializer)?;
        Ok(Sealed { level: fields.get("level").copied().unwrap_or(0) })
    }
}

fn planned(outcome: Result<Option<WriteRequest>, ConfigError>) -> WriteRequest {
    match outcome {
        Ok(Some(request)) => request,
        other => panic!("no write was planned: {:?}", other),
    }
}

#[test]
fn write() {
    let mut config: ConfigManager<Config, Toml> =
        ConfigManager::new(PathBuf::from("test/test1.toml"), FileRead::Missing);

    let outcome = config.update(|c| {
        c.active = true;
    });

    let request = planned(outcome);
    assert_eq!(request.path, PathBuf::from("test/test1.toml"));
    assert_eq!(request.dir, PathBuf::from("test"));
    assert_eq!(request.bytes, b"active = true\nname = \"\"\n".to_vec());
    assert!(config.data().active);
    assert!(config.reports().is_empty());
}

#[test]
fn read() {
    let config: ConfigManager<Config, Toml> = ConfigManager::new(
        PathBuf::from("test_static/test1.toml"),
        FileRead::Content(b"active = true\nname = \"test_read\"\n".to_vec()),
    );

    assert!(config.data().active);
    assert_eq!(config.data().name, "test_read");
}

#[test]
fn absent_file_then_update_then_second_store() {
    let path = PathBuf::from("settings/flag.toml");
    let mut first: ConfigManager<Flag, Toml> = ConfigManager::new(path.clone(), FileRead::Missing);
    assert_eq!(first.data(), &Flag { active: false });

    let request = planned(first.update(|flag| flag.active = true));
    assert_eq!(request.bytes, b"active = true\n".to_vec());
    let decoded: Flag = match <Toml as zconf::SerdeAdapter<Flag>>::deserialize(&request.bytes) {
        Ok(flag) => flag,
        Err(_) => panic!("the written bytes do not decode"),
    };
    assert_eq!(decoded, Flag { active: true });

    let second: ConfigManager<Flag, Toml> = ConfigManager::new(path, FileRead::Content(request.bytes));
    assert_eq!(second.data(), &Flag { active: true });
    assert!(second.reports().is_empty());
}

#[test]
fn missing_file_gives_default_and_reports_nothing() {
    let config: ConfigManager<Config, Json> = ConfigManager::new(PathBuf::from("a/b.json"), FileRead::Missing);
    assert_eq!(config.data(), &Config::default());
    assert!(config.reports().is_empty());
    assert_eq!(config.path(), &PathBuf::from("a/b.json"));
    assert!(!config.is_watching());
}

#[test]
fn missing_file_gives_fallback_value() {
    let config: ConfigManager<Config, Json> =
        ConfigManager::with_fallback(PathBuf::from("a/b.json"), FileRead::Missing, || Config {
            active: true,
            name: "fallback".to_string(),
        });
    assert_eq!(config.data(), &Config { active: true, name: "fallback".to_string() });
    assert!(config.reports().is_empty());
}

#[test]
fn unreadable_file_gives_default_and_reports_read() {
    let config: ConfigManager<Config, Toml> = ConfigManager::new(PathBuf::from("a/b.toml"), FileRead::Unreadable);
    assert_eq!(config.data(), &Config::default());
    assert_eq!(config.reports(), &vec![ConfigError::Read]);
}

#[test]
fn malformed_toml_gives_default_and_reports_decode() {
    let config: ConfigManager<Config, Toml> = ConfigManager::new(
        PathBuf::from("a/b.toml"),
        FileRead::Content(b"active = = true".to_vec()),
    );
    assert_eq!(config.data(), &Config::default());
    assert_eq!(config.reports(), &vec![ConfigError::Decode]);
}

#[test]
fn malformed_json_gives_fallback_and_reports_decode() {
    let config: ConfigManager<Config, Json> = ConfigManager::with_fallback(
        PathBuf::from("a/b.json"),
        FileRead::Content(b"{\"active\": tru".to_vec()),
        || Config { active: false, name: "spare".to_string() },
    );
    assert_eq!(config.data().name, "spare");
    assert_eq!(config.reports(), &vec![ConfigError::Decode]);
}

#[test]
fn schema_mismatch_reports_decode() {
    let config: ConfigManager<Config, Json> = ConfigManager::new(
        PathBuf::from("a/b.json"),
        FileRead::Content(b"{\"active\": 3, \"name\": \"x\"}".to_vec()),
    );
    assert_eq!(config.data(), &Config::default());
    assert_eq!(config.reports(), &vec![ConfigError::Decode]);
}

#[test]
fn bytes_that_are_not_text_report_decode() {
    let config: ConfigManager<Config, Toml> =
        ConfigManager::new(PathBuf::from("a/b.toml"), FileRead::Content(vec![0xff, 0xfe, 0x00]));
    assert_eq!(config.data(), &Config::default());
    assert_eq!(config.reports(), &vec![ConfigError::Decode]);
}

#[test]
fn fallback_is_not_called_when_the_file_decodes() {
    let calls = Cell::new(0u32);
    let config: ConfigManager<Flag, Json> = ConfigManager::with_fallback(
        PathBuf::from("a/flag.json"),
        FileRead::Content(b"{\"active\": true}".to_vec()),
        || {
            calls.set(calls.get() + 1);
            Flag { active: false }
        },
    );
    assert_eq!(config.data(), &Flag { active: true });
    assert_eq!(calls.get(), 0);
}

#[test]
fn fallback_is_called_once_when_needed() {
    let calls = Cell::new(0u32);
    let config: ConfigManager<Flag, Json> =
        ConfigManager::with_fallback(PathBuf::from("a/flag.json"), FileRead::Content(b"[]".to_vec()), || {
            calls.set(calls.get() + 1);
            Flag { active: true }
        });
    assert_eq!(config.data(), &Flag { active: true });
    assert_eq!(calls.get(), 1);
}

#[test]
fn update_with_err_plans_pretty_json() {
    let mut config: ConfigManager<Config, Json> =
        ConfigManager::new(PathBuf::from("conf/app.json"), FileRead::Missing);
    let request = match config.update_with_err(|c| {
        c.active = true;
        c.name = "x".to_string();
    }) {
        Ok(request) => request,
        Err(error) => panic!("{:?}", error),
    };
    assert_eq!(request.bytes, b"{\n  \"active\": true,\n  \"name\": \"x\"\n}".to_vec());
    assert_eq!(request.path, PathBuf::from("conf/app.json"));
    assert_eq!(request.dir, PathBuf::from("conf"));
    assert_eq!(config.data(), &Config { active: true, name: "x".to_string() });
}

#[test]
fn update_then_fresh_store_holds_the_updated_value() {
    let mut config: ConfigManager<Config, Json> = ConfigManager::new(
        PathBuf::from("conf/app.json"),
        FileRead::Content(b"{\"active\": false, \"name\": \"before\"}".to_vec()),
    );
    let request = planned(config.update(|c| c.name.push_str("-after")));
    let fresh: ConfigManager<Config, Json> = ConfigManager::new(request.path, FileRead::Content(request.bytes));
    assert_eq!(fresh.data(), &Config { active: false, name: "before-after".to_string() });
    assert_eq!(fresh.data(), config.data());
}

#[test]
fn bare_file_name_has_the_empty_parent() {
    let mut config: ConfigManager<Flag, Toml> =
        ConfigManager::new(PathBuf::from("settings.toml"), FileRead::Missing);
    let request = planned(config.update(|flag| flag.active = true));
    assert_eq!(request.dir, PathBuf::from(""));
    assert_eq!(request.path, PathBuf::from("settings.toml"));
}

#[test]
fn path_without_parent_is_a_path_error_in_both_shapes() {
    let mut config: ConfigManager<Flag, Toml> = ConfigManager::new(PathBuf::from("/"), FileRead::Missing);
    match config.update_with_err(|flag| flag.active = true) {
        Err(ConfigError::Path) => {}
        other => panic!("{:?}", other),
    }
    assert!(config.data().active);
    match config.update(|flag| flag.active = false) {
        Err(ConfigError::Path) => {}
        other => panic!("{:?}", other),
    }
    assert!(!config.data().active);
    assert!(config.reports().is_empty());

    let mut empty: ConfigManager<Flag, Toml> = ConfigManager::new(PathBuf::from(""), FileRead::Missing);
    match empty.update_with_err(|flag| flag.active = true) {
        Err(ConfigError::Path) => {}
        other => panic!("{:?}", other),
    }
}

#[test]
fn encode_failure_is_returned_and_the_value_still_changes() {
    let mut config: ConfigManager<Sealed, Json> = ConfigManager::new(PathBuf::from("a/s.json"), FileRead::Missing);
    match config.update_with_err(|s| s.level = 7) {
        Err(ConfigError::Encode) => {}
        other => panic!("{:?}", other),
    }
    assert_eq!(config.data(), &Sealed { level: 7 });
    assert!(config.reports().is_empty());
}

#[test]
fn encode_failure_is_swallowed_and_reported_by_update() {
    let mut config: ConfigManager<Sealed, Toml> = ConfigManager::new(PathBuf::from("a/s.toml"), FileRead::Missing);
    match config.update(|s| s.level = 7) {
        Ok(None) => {}
        other => panic!("{:?}", other),
    }
    assert_eq!(config.data(), &Sealed { level: 7 });
    assert_eq!(config.reports(), &vec![ConfigError::Encode]);
}

#[test]
fn encode_failure_comes_before_the_path_error() {
    let mut config: ConfigManager<Sealed, Json> = ConfigManager::new(PathBuf::from("/"), FileRead::Missing);
    match config.update_with_err(|s| s.level = 1) {
        Err(ConfigError::Encode) => {}
        other => panic!("{:?}", other),
    }
}

#[test]
fn toml_cannot_encode_a_bare_number() {
    let mut config: ConfigManager<u32, Toml> = ConfigManager::new(PathBuf::from("a/n.toml"), FileRead::Missing);
    assert_eq!(*config.data(), 0);
    match config.update_with_err(|n| *n = 5) {
        Err(ConfigError::Encode) => {}
        other => panic!("{:?}", other),
    }
    assert_eq!(*config.data(), 5);
}

#[test]
fn update_without_write_changes_only_the_value() {
    let mut config: ConfigManager<Config, Toml> = ConfigManager::new(PathBuf::from("a/b.toml"), FileRead::Missing);
    config.update_without_write(|c| c.name = "one".to_string());
    config.update_without_write(|c| c.active = true);
    assert_eq!(config.data(), &Config { active: true, name: "one".to_string() });
    assert!(config.reports().is_empty());
    assert_eq!(config.path(), &PathBuf::from("a/b.toml"));
    let request = planned(config.update(|_| {}));
    assert_eq!(request.bytes, b"active = true\nname = \"one\"\n".to_vec());
}

#[test]
fn reload_takes_the_rewritten_content() {
    let mut config: ConfigManager<Config, Toml> = ConfigManager::new(PathBuf::from("a/b.toml"), FileRead::Missing);
    config.reload(FileRead::Content(b"name = \"edited\"\nactive = true\n".to_vec()));
    assert_eq!(config.data(), &Config { active: true, name: "edited".to_string() });
    assert!(config.reports().is_empty());
}

#[test]
fn reload_after_delete_reports_read_and_keeps_the_value() {
    let mut config: ConfigManager<Config, Toml> = ConfigManager::new(
        PathBuf::from("a/b.toml"),
        FileRead::Content(b"active = true\nname = \"kept\"\n".to_vec()),
    );
    config.reload(FileRead::Missing);
    assert_eq!(config.data(), &Config { active: true, name: "kept".to_string() });
    assert_eq!(config.reports(), &vec![ConfigError::Read]);
    assert_eq!(config.reload_with_err(FileRead::Missing), Err(ConfigError::Read));
    assert_eq!(config.reload_with_err(FileRead::Unreadable), Err(ConfigError::Read));
    assert_eq!(config.data().name, "kept");
    assert_eq!(config.reports(), &vec![ConfigError::Read]);
}

#[test]
fn reload_of_malformed_content_keeps_the_value() {
    let mut config: ConfigManager<Config, Json> = ConfigManager::new(
        PathBuf::from("a/b.json"),
        FileRead::Content(b"{\"active\": true, \"name\": \"kept\"}".to_vec()),
    );
    assert_eq!(config.reload_with_err(FileRead::Content(b"not json".to_vec())), Err(ConfigError::Decode));
    assert_eq!(config.data().name, "kept");
    assert!(config.reports().is_empty());
    config.reload(FileRead::Content(b"not json".to_vec()));
    assert_eq!(config.data().name, "kept");
    assert_eq!(config.reports(), &vec![ConfigError::Decode]);
}

#[test]
fn reload_with_err_takes_valid_content() {
    let mut config: ConfigManager<Flag, Json> = ConfigManager::new(PathBuf::from("a/f.json"), FileRead::Missing);
    assert_eq!(config.reload_with_err(FileRead::Content(b"{\"active\":true}".to_vec())), Ok(()));
    assert!(config.data().active);
}

#[test]
fn reports_are_kept_in_order_and_taken_once() {
    let mut config: ConfigManager<Config, Toml> = ConfigManager::new(PathBuf::from("a/b.toml"), FileRead::Unreadable);
    config.reload(FileRead::Content(b"= broken".to_vec()));
    config.report(ConfigError::Write);
    assert_eq!(config.reports(), &vec![ConfigError::Read, ConfigError::Decode, ConfigError::Write]);
    assert_eq!(config.take_reports(), vec![ConfigError::Read, ConfigError::Decode, ConfigError::Write]);
    assert!(config.reports().is_empty());
    assert!(config.take_reports().is_empty());
}

#[test]
fn change_path_rebinds_and_plans_a_write_there() {
    let mut config: ConfigManager<Flag, Toml> = ConfigManager::new(
        PathBuf::from("old/flag.toml"),
        FileRead::Content(b"active = true\n".to_vec()),
    );
    let request = match config.change_path(PathBuf::from("new/place/flag.toml")) {
        Ok(request) => request,
        Err(error) => panic!("{:?}", error),
    };
    assert_eq!(config.path(), &PathBuf::from("new/place/flag.toml"));
    assert_eq!(request.path, PathBuf::from("new/place/flag.toml"));
    assert_eq!(request.dir, PathBuf::from("new/place"));
    assert_eq!(request.bytes, b"active = true\n".to_vec());
    assert!(config.data().active);
}

#[test]
fn change_path_to_a_root_rebinds_and_fails() {
    let mut config: ConfigManager<Flag, Toml> = ConfigManager::new(PathBuf::from("old/flag.toml"), FileRead::Missing);
    match config.change_path(PathBuf::from("/")) {
        Err(ConfigError::Path) => {}
        other => panic!("{:?}", other),
    }
    assert_eq!(config.path(), &PathBuf::from("/"));
}

#[test]
fn a_value_that_json_does_not_round_trip_is_not_read_back() {
    let mut config: ConfigManager<f64, Json> = ConfigManager::new(PathBuf::from("a/x.json"), FileRead::Missing);
    let request = planned(config.update(|x| *x = f64::NAN));
    assert_eq!(request.bytes, b"null".to_vec());
    let fresh: ConfigManager<f64, Json> = ConfigManager::new(request.path, FileRead::Content(request.bytes));
    assert_eq!(*fresh.data(), 0.0);
    assert_eq!(fresh.reports(), &vec![ConfigError::Decode]);
}
