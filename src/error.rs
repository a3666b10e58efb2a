use crate::format::FormatTag;
use vstd::prelude::*;

verus! {

/// The error of a failed file open or read.
#[verifier::external_type_specification]
#[verifier::external_body]
pub struct ExIoError(std::io::Error);

/// The error of the JSON decoder.
#[verifier::external_type_specification]
#[verifier::external_body]
pub struct ExJsonError(serde_json::Error);

/// The error of the TOML decoder.
#[verifier::external_type_specification]
#[verifier::external_body]
pub struct ExTomlError(toml::de::Error);

/// The error of the XML decoder.
#[verifier::external_type_specification]
#[verifier::external_body]
pub struct ExXmlError(serde_xml_rs::Error);

/// The error of the YAML decoder.
#[verifier::external_type_specification]
#[verifier::external_body]
pub struct ExYamlError(serde_yaml::Error);

/// A decoder's report that a file's content does not follow its grammar or
/// does not fit the target type.
#[derive(Debug)]
pub enum DecodeError {
    Json(serde_json::Error),
    Toml(toml::de::Error),
    Xml(serde_xml_rs::Error),
    Yaml(serde_yaml::Error),
}

impl DecodeError {
    /// The format whose decoder failed.
    pub open spec fn format(&self) -> FormatTag {
        match self {
            DecodeError::Json(_) => FormatTag::Json,
            DecodeError::Toml(_) => FormatTag::Toml,
            DecodeError::Xml(_) => FormatTag::Xml,
            DecodeError::Yaml(_) => FormatTag::Yaml,
        }
    }
}

/// Every way in which loading a configuration file can fail.
#[derive(Debug)]
pub enum ConfigFileError {
    /// The file could not be opened or read.
    FileAccess(std::io::Error),
    /// The content is not JSON, or does not fit the target type.
    Json(serde_json::Error),
    /// The content is not TOML, or does not fit the target type.
    Toml(toml::de::Error),
    /// The content is not XML, or does not fit the target type.
    Xml(serde_xml_rs::Error),
    /// The content is not YAML, or does not fit the target type.
    Yaml(serde_yaml::Error),
    /// The extension names no supported format.
    UnsupportedFormat,
}

impl ConfigFileError {
    /// The format whose decoder failed, or `Unknown` for an error that no
    /// decoder raised.
    pub open spec fn parse_format(&self) -> FormatTag {
        match self {
            ConfigFileError::Json(_) => FormatTag::Json,
            ConfigFileError::Toml(_) => FormatTag::Toml,
            ConfigFileError::Xml(_) => FormatTag::Xml,
            ConfigFileError::Yaml(_) => FormatTag::Yaml,
            _ => FormatTag::Unknown,
        }
    }

    /// The error that a decoder's failure becomes.
    pub open spec fn spec_from_decode(e: DecodeError) -> ConfigFileError {
        match e {
            DecodeError::Json(x) => ConfigFileError::Json(x),
            DecodeError::Toml(x) => ConfigFileError::Toml(x),
            DecodeError::Xml(x) => ConfigFileError::Xml(x),
            DecodeError::Yaml(x) => ConfigFileError::Yaml(x),
        }
    }

    /// Wraps a decoder's failure in the error kind of its format.
    pub fn from_decode(e: DecodeError) -> (r: ConfigFileError)
        ensures
            r == Self::spec_from_decode(e),
            r.parse_format() == e.format(),
    {
        match e {
            DecodeError::Json(x) => ConfigFileError::Json(x),
            DecodeError::Toml(x) => ConfigFileError::Toml(x),
            DecodeError::Xml(x) => ConfigFileError::Xml(x),
            DecodeError::Yaml(x) => ConfigFileError::Yaml(x),
        }
    }

    /// Whether this is a failure to open or read the file.
    pub fn is_file_access(&self) -> (r: bool)
        ensures
            r == (self is FileAccess),
    {
        match self {
            ConfigFileError::FileAccess(_) => true,
            _ => false,
        }
    }

    /// Whether this is the refusal of an unsupported extension.
    pub fn is_unsupported_format(&self) -> (r: bool)
        ensures
            r == (self is UnsupportedFormat),
    {
        match self {
            ConfigFileError::UnsupportedFormat => true,
            _ => false,
        }
    }

    /// The format whose decoder failed, or `Unknown` for an error that no
    /// decoder raised.
    pub fn failed_format(&self) -> (r: FormatTag)
        ensures
            r == self.parse_format(),
    {
        match self {
            ConfigFileError::Json(_) => FormatTag::Json,
            ConfigFileError::Toml(_) => FormatTag::Toml,
            ConfigFileError::Xml(_) => FormatTag::Xml,
            ConfigFileError::Yaml(_) => FormatTag::Yaml,
            _ => FormatTag::Unknown,
        }
    }
}

} // verus!
