use vstd::prelude::*;

verus! {

/// A text serialization scheme for configuration files. The set of formats is
/// closed and known at build time; which ones the embedding environment has
/// compiled support for is an input to descriptor resolution.
#[derive(Clone, Copy, PartialEq, Eq, Structural, Debug)]
pub enum Format {
    Yaml,
    Toml,
}

impl Format {
    /// The canonical file name used when no explicit file name is supplied.
    pub open spec fn spec_default_filename(self) -> Seq<char> {
        match self {
            Format::Yaml => "config.yml"@,
            Format::Toml => "config.toml"@,
        }
    }

    /// The canonical file name used when no explicit file name is supplied.
    pub fn default_filename(&self) -> (r: &'static str)
        ensures
            r@ == self.spec_default_filename(),
    {
        match self {
            Format::Yaml => "config.yml",
            Format::Toml => "config.toml",
        }
    }

    /// Which format a textual tag denotes, if any.
    pub open spec fn spec_from_string(value: Seq<char>) -> Option<Format> {
        if value == "yaml"@ {
            Some(Format::Yaml)
        } else if value == "toml"@ {
            Some(Format::Toml)
        } else {
            None
        }
    }

    /// Parses a textual format tag; every tag other than the two known ones
    /// is rejected.
    pub fn from_string(value: &str) -> (r: Option<Format>)
        ensures
            r == Self::spec_from_string(value@),
    {
        if value.to_owned() == "yaml".to_owned() {
            Some(Format::Yaml)
        } else if value.to_owned() == "toml".to_owned() {
            Some(Format::Toml)
        } else {
            None
        }
    }

    /// Whether the embedding environment has compiled support for this format.
    pub open spec fn spec_supported(self, toml_supported: bool, yaml_supported: bool) -> bool {
        match self {
            Format::Toml => toml_supported,
            Format::Yaml => yaml_supported,
        }
    }

    /// Whether the embedding environment has compiled support for this format.
    pub fn supported(&self, toml_supported: bool, yaml_supported: bool) -> (r: bool)
        ensures
            r == self.spec_supported(toml_supported, yaml_supported),
    {
        match self {
            Format::Toml => toml_supported,
            Format::Yaml => yaml_supported,
        }
    }

    /// The baseline format: the single compiled-in format, with the more
    /// structured one winning as tie-break when both are available, and none
    /// when none is compiled in.
    pub open spec fn spec_pick_default(toml_supported: bool, yaml_supported: bool) -> Option<
        Format,
    > {
        if toml_supported {
            Some(Format::Toml)
        } else if yaml_supported {
            Some(Format::Yaml)
        } else {
            None
        }
    }

    /// The baseline format: the single compiled-in format, with the more
    /// structured one winning as tie-break when both are available.
    pub fn pick_default(toml_supported: bool, yaml_supported: bool) -> (r: Option<Format>)
        ensures
            r == Self::spec_pick_default(toml_supported, yaml_supported),
    {
        if toml_supported {
            Some(Format::Toml)
        } else if yaml_supported {
            Some(Format::Yaml)
        } else {
            None
        }
    }
}

} // verus!
