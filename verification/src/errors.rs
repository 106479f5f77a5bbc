use vstd::prelude::*;
use vstd::string::StringExecFns;

verus! {

/// std's I/O error type, carried opaquely as the underlying cause of a
/// failed read, write, or directory creation.
#[verifier::external_type_specification]
#[verifier::external_body]
pub struct ExIoError(std::io::Error);

/// toml's deserialization error type, carried opaquely as the underlying
/// cause of a failed TOML parse.
#[verifier::external_type_specification]
#[verifier::external_body]
pub struct ExTomlDeError(toml::de::Error);

/// serde_yaml's error type, carried opaquely as the underlying cause of a
/// failed YAML parse.
#[verifier::external_type_specification]
#[verifier::external_body]
pub struct ExYamlError(serde_yaml::Error);

/// All errors the binding runtime can return. Each variant carries the
/// underlying cause and the path it reports on.
#[derive(Debug)]
pub enum ConfigError {
    /// The configuration file could not be opened or read; this includes the
    /// file being absent, the sole recoverable case.
    IoRead(std::io::Error, String),
    /// The parent directory for a default configuration could not be created.
    MakeDir(std::io::Error, String),
    /// The default payload could not be written.
    IoWrite(std::io::Error, String),
    /// The file was read but is not deserializable as TOML.
    Toml(toml::de::Error, String),
    /// The file was read but is not deserializable as YAML.
    Yaml(serde_yaml::Error, String),
}

/// A fatal misconfiguration of the embedding program, raised during
/// descriptor resolution, before any binding is usable. Distinct from
/// [`ConfigError`], the runtime taxonomy.
#[derive(Clone, Copy, PartialEq, Eq, Structural, Debug)]
pub enum ResolveError {
    /// The resolved organization is empty: no override supplies one and the
    /// program's authors yield none, or the supplied override is itself
    /// empty.
    EmptyOrganization,
    /// The chosen format is not compiled in, or none is compiled in and no
    /// override picks one.
    NoFormat,
    /// A supplied qualifier override is empty.
    EmptyQualifier,
    /// The resolved application identifier is empty: the override, or
    /// failing that the program's own declared name, is an empty string.
    EmptyApplication,
    /// A supplied file name override is empty.
    EmptyFilename,
}

impl ConfigError {
    /// The path this error reports on.
    pub open spec fn spec_path(self) -> Seq<char> {
        match self {
            ConfigError::IoRead(_, p) => p@,
            ConfigError::MakeDir(_, p) => p@,
            ConfigError::IoWrite(_, p) => p@,
            ConfigError::Toml(_, p) => p@,
            ConfigError::Yaml(_, p) => p@,
        }
    }

    /// The path this error reports on.
    pub fn path(&self) -> (r: &String)
        ensures
            r@ == self.spec_path(),
    {
        match self {
            ConfigError::IoRead(_, p) => p,
            ConfigError::MakeDir(_, p) => p,
            ConfigError::IoWrite(_, p) => p,
            ConfigError::Toml(_, p) => p,
            ConfigError::Yaml(_, p) => p,
        }
    }

    /// The diagnostic message for this error, given a rendering of the
    /// underlying cause it carries.
    pub open spec fn spec_message(self, cause: Seq<char>) -> Seq<char> {
        match self {
            ConfigError::MakeDir(_, p) => "Can't create directory "@ + p@ + ": "@ + cause,
            ConfigError::IoWrite(_, p) => "Can't write config to "@ + p@ + ": "@ + cause,
            ConfigError::IoRead(_, p) => "Can't read config from "@ + p@ + ": "@ + cause,
            ConfigError::Toml(_, p) => "Can't read config from "@ + p@ + ": "@ + cause,
            ConfigError::Yaml(_, p) => "Can't read config from "@ + p@ + ": "@ + cause,
        }
    }

    /// Builds the diagnostic message for this error; `cause` is the
    /// rendering of the underlying error value carried in the variant.
    pub fn message(&self, cause: &str) -> (r: String)
        ensures
            r@ == self.spec_message(cause@),
    {
        let prefix: &str = match self {
            ConfigError::MakeDir(_, _) => "Can't create directory ",
            ConfigError::IoWrite(_, _) => "Can't write config to ",
            ConfigError::IoRead(_, _) => "Can't read config from ",
            ConfigError::Toml(_, _) => "Can't read config from ",
            ConfigError::Yaml(_, _) => "Can't read config from ",
        };
        let mut out = prefix.to_owned();
        out.append(self.path().as_str());
        out.append(": ");
        out.append(cause);
        out
    }
}

} // verus!
