use config_file::{
    after_access, after_decode, plan_load, reject, ConfigFileError, DecodeError, FormatTag, LoadPlan,
};
use serde::de::{Deserialize, Deserializer, Error, IgnoredAny, MapAccess, Visitor};

#[derive(Debug, PartialEq)]
struct TestConfig {
    host: String,
    port: u64,
    tags: Vec<String>,
    inner: TestConfigInner,
}

#[derive(Debug, PartialEq)]
struct TestConfigInner {
    answer: u8,
}

impl TestConfig {
    fn example() -> Self {
        Self {
            host: "example.com".to_string(),
            port: 443,
            tags: vec!["example".to_string(), "test".to_string()],
            inner: TestConfigInner { answer: 42 },
        }
    }
}

struct ConfigVisitor;

impl<'de> Visitor<'de> for ConfigVisitor {
    type Value = TestConfig;

    fn expecting(&self, f: &mut std::fmt::Formatter<'_>) -> std::fmt::Result {
        f.write_str("a configuration table")
    }

    fn visit_map<A: MapAccess<'de>>(self, mut map: A) -> Result<TestConfig, A::Error> {
        let mut host: Option<String> = None;
        let mut port: Option<u64> = None;
        let mut tags: Option<Vec<String>> = None;
        let mut inner: Option<TestConfigInner> = None;
        while let Some(key) = map.next_key::<String>()? {
            match key.as_str() {
                "host" => host = Some(map.next_value()?),
                "port" => port = Some(map.next_value()?),
                "tags" => tags = Some(map.next_value()?),
                "inner" => inner = Some(map.next_value()?),
                _ => {
                    map.next_value::<IgnoredAny>()?;
                }
            }
        }
        Ok(TestConfig {
            host: host.ok_or_else(|| A::Error::missing_field("host"))?,
            port: port.ok_or_else(|| A::Error::missing_field("port"))?,
            tags: tags.ok_or_else(|| A::Error::missing_field("tags"))?,
            inner: inner.ok_or_else(|| A::Error::missing_field("inner"))?,
        })
    }
}

impl<'de> Deserialize<'de> for TestConfig {
    fn deserialize<D: Deserializer<'de>>(d: D) -> Result<Self, D::Error> {
        d.deserialize_struct("TestConfig", &["host", "port", "tags", "inner"], ConfigVisitor)
    }
}

struct InnerVisitor;

impl<'de> Visitor<'de> for InnerVisitor {
    type Value = TestConfigInner;

    fn expecting(&self, f: &mut std::fmt::Formatter<'_>) -> std::fmt::Result {
        f.write_str("an inner table")
    }

    fn visit_map<A: MapAccess<'de>>(self, mut map: A) -> Result<TestConfigInner, A::Error> {
        let mut answer: Option<u8> = None;
        while let Some(key) = map.next_key::<String>()? {
            if key == "answer" {
                answer = Some(map.next_value()?);
            } else {
                map.next_value::<IgnoredAny>()?;
            }
        }
        Ok(TestConfigInner { answer: answer.ok_or_else(|| A::Error::missing_field("answer"))? })
    }
}

impl<'de> Deserialize<'de> for TestConfigInner {
    fn deserialize<D: Deserializer<'de>>(d: D) -> Result<Self, D::Error> {
        d.deserialize_struct("TestConfigInner", &["answer"], InnerVisitor)
    }
}

const JSON: &str =
    r#"{"host": "example.com", "port": 443, "tags": ["example", "test"], "inner": {"answer": 42}}"#;
const TOML: &str = "host = \"example.com\"\nport = 443\ntags = [\"example\", \"test\"]\n\n[inner]\nanswer = 42\n";
const YAML: &str = "host: example.com\nport: 443\ntags:\n  - example\n  - test\ninner:\n  answer: 42\n";
const XML: &str = "<config><host>example.com</host><port>443</port><tags>example</tags><tags>test</tags><inner><answer>42</answer></inner></config>";

/// Loads a file whose content is `content`, the way the loader does once
/// the file has been read in full.
fn load_content(path: &str, content: &str) -> Result<TestConfig, ConfigFileError> {
    match plan_load(path) {
        LoadPlan::Reject => reject(),
        LoadPlan::Decode(tag) => {
            let read: Result<String, std::io::Error> = Ok(content.to_string());
            after_access(read).and_then(|text| {
                let decoded = match tag {
                    FormatTag::Toml => toml::from_str(&text).map_err(DecodeError::Toml),
                    FormatTag::Json => serde_json::from_str(&text).map_err(DecodeError::Json),
                    FormatTag::Yaml => serde_yaml::from_str(&text).map_err(DecodeError::Yaml),
                    FormatTag::Xml => serde_xml_rs::from_str(&text).map_err(DecodeError::Xml),
                    FormatTag::Unknown => panic!("a decode of an unknown format was planned"),
                };
                after_decode(decoded)
            })
        }
    }
}

fn not_found() -> std::io::Error {
    std::io::Error::from(std::io::ErrorKind::NotFound)
}

#[test]
fn test_unknown() {
    let config = load_content("/tmp/foobar", JSON);
    assert!(matches!(config, Err(ConfigFileError::UnsupportedFormat)));
}

#[test]
fn test_file_not_found() {
    assert_eq!(plan_load("/tmp/foobar.toml"), LoadPlan::Decode(FormatTag::Toml));
    let config: Result<String, ConfigFileError> = after_access(Err(not_found()));
    assert!(matches!(config, Err(ConfigFileError::FileAccess(_))));
}

#[test]
fn test_json() {
    let config = load_content("testdata/config.json", JSON);
    assert_eq!(config.unwrap(), TestConfig::example());
}

#[test]
fn test_toml() {
    let config = load_content("testdata/config.toml", TOML);
    assert_eq!(config.unwrap(), TestConfig::example());
}

#[test]
fn test_xml() {
    let config = load_content("testdata/config.xml", XML);
    assert_eq!(config.unwrap(), TestConfig::example());
}

#[test]
fn test_yaml() {
    let config = load_content("testdata/config.yml", YAML);
    assert_eq!(config.unwrap(), TestConfig::example());
}
