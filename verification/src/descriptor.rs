use vstd::prelude::*;
use crate::author::{organization_of, spec_organization_of};
use crate::errors::ResolveError;
use crate::format::Format;

verus! {

/// The explicit per-type overrides handed to descriptor resolution. Unset
/// fields fall back to baselines derived from the embedding program's build
/// metadata; set fields replace the baseline wholesale.
pub struct Overrides {
    /// Replaces the organization derived from the program's authors.
    pub organization: Option<String>,
    /// Replaces the `"org"` baseline qualifier.
    pub qualifier: Option<String>,
    /// Replaces the program's own name as the application identifier.
    pub application: Option<String>,
    /// Replaces the baseline format's canonical configuration file name.
    pub filename: Option<String>,
    /// Replaces the single compiled-in baseline format.
    pub format: Option<Format>,
    /// Literal default file contents; when present, the binding runtime
    /// offers the bootstrap operations.
    pub default_payload: Option<String>,
    /// Replaces the on-by-default self-check of the default payload.
    pub generate_check: Option<bool>,
}

/// The mathematical value of [`Overrides`]: each textual field as a
/// character sequence.
pub struct OverridesView {
    pub organization: Option<Seq<char>>,
    pub qualifier: Option<Seq<char>>,
    pub application: Option<Seq<char>>,
    pub filename: Option<Seq<char>>,
    pub format: Option<Format>,
    pub default_payload: Option<Seq<char>>,
    pub generate_check: Option<bool>,
}

impl View for Overrides {
    type V = OverridesView;

    open spec fn view(&self) -> OverridesView {
        OverridesView {
            organization: match self.organization {
                Some(s) => Some(s@),
                None => None,
            },
            qualifier: match self.qualifier {
                Some(s) => Some(s@),
                None => None,
            },
            application: match self.application {
                Some(s) => Some(s@),
                None => None,
            },
            filename: match self.filename {
                Some(s) => Some(s@),
                None => None,
            },
            format: self.format,
            default_payload: match self.default_payload {
                Some(s) => Some(s@),
                None => None,
            },
            generate_check: self.generate_check,
        }
    }
}

impl Overrides {
    /// No overrides at all: every field falls back to its baseline.
    pub fn none() -> (r: Overrides)
        ensures
            r@ == (OverridesView {
                organization: None,
                qualifier: None,
                application: None,
                filename: None,
                format: None,
                default_payload: None,
                generate_check: None,
            }),
    {
        Overrides {
            organization: None,
            qualifier: None,
            application: None,
            filename: None,
            format: None,
            default_payload: None,
            generate_check: None,
        }
    }
}

/// The environment-derived inputs to resolution, read once from the
/// embedding program's build metadata: its declared name, its declared
/// authors, and which serialization formats it has compiled support for.
pub struct BuildEnv {
    /// The embedding program's own declared name.
    pub application: String,
    /// The embedding program's declared authors, separated by `':'`.
    pub authors: String,
    /// Whether TOML support is compiled in.
    pub toml_supported: bool,
    /// Whether YAML support is compiled in.
    pub yaml_supported: bool,
}

/// The mathematical value of [`BuildEnv`].
pub struct BuildEnvView {
    pub application: Seq<char>,
    pub authors: Seq<char>,
    pub toml_supported: bool,
    pub yaml_supported: bool,
}

impl View for BuildEnv {
    type V = BuildEnvView;

    open spec fn view(&self) -> BuildEnvView {
        BuildEnvView {
            application: self.application@,
            authors: self.authors@,
            toml_supported: self.toml_supported,
            yaml_supported: self.yaml_supported,
        }
    }
}

/// A fully-resolved configuration descriptor: one immutable instance per
/// bound type, produced by [`resolve`].
pub struct Descriptor {
    /// Vendor or maintainer identifier.
    pub organization: String,
    /// Reverse-domain-style namespace qualifier, `"org"` by default.
    pub qualifier: String,
    /// Program identifier.
    pub application: String,
    /// The configuration file's base name, extension included.
    pub filename: String,
    /// The serialization format of the file.
    pub format: Format,
    /// Literal default file contents, when bootstrap is offered.
    pub default_payload: Option<String>,
    /// Whether the self-check of the default payload is generated.
    pub generate_check: bool,
}

/// The mathematical value of [`Descriptor`].
pub struct DescriptorView {
    pub organization: Seq<char>,
    pub qualifier: Seq<char>,
    pub application: Seq<char>,
    pub filename: Seq<char>,
    pub format: Format,
    pub default_payload: Option<Seq<char>>,
    pub generate_check: bool,
}

impl View for Descriptor {
    type V = DescriptorView;

    open spec fn view(&self) -> DescriptorView {
        DescriptorView {
            organization: self.organization@,
            qualifier: self.qualifier@,
            application: self.application@,
            filename: self.filename@,
            format: self.format,
            default_payload: match self.default_payload {
                Some(s) => Some(s@),
                None => None,
            },
            generate_check: self.generate_check,
        }
    }
}

/// What resolution returns: every override, where present, replaces the
/// corresponding baseline verbatim, and the baselines are computed once,
/// independent of the overrides — in particular the baseline file name is
/// the canonical name of the compiled-in baseline format, even when an
/// override picks another format. Resolution fails exactly when the chosen
/// format is not compiled in (none compiled in and no override picking one
/// included), or when the organization, the qualifier, the application
/// identifier, or the file name comes out empty — after resolution every
/// string field is non-empty.
pub open spec fn spec_resolve(o: OverridesView, e: BuildEnvView) -> Result<
    DescriptorView,
    ResolveError,
> {
    let organization = match o.organization {
        Some(s) => s,
        None => spec_organization_of(e.authors),
    };
    if organization.len() == 0 {
        Err(ResolveError::EmptyOrganization)
    } else {
        let chosen = match o.format {
            Some(f) => Some(f),
            None => Format::spec_pick_default(e.toml_supported, e.yaml_supported),
        };
        match chosen {
            None => Err(ResolveError::NoFormat),
            Some(format) => if !format.spec_supported(e.toml_supported, e.yaml_supported) {
                Err(ResolveError::NoFormat)
            } else {
                let qualifier = match o.qualifier {
                    Some(q) => q,
                    None => "org"@,
                };
                let application = match o.application {
                    Some(a) => a,
                    None => e.application,
                };
                let filename = match o.filename {
                    Some(n) => n,
                    None => Format::spec_pick_default(
                        e.toml_supported,
                        e.yaml_supported,
                    ).unwrap().spec_default_filename(),
                };
                if qualifier.len() == 0 {
                    Err(ResolveError::EmptyQualifier)
                } else if application.len() == 0 {
                    Err(ResolveError::EmptyApplication)
                } else if filename.len() == 0 {
                    Err(ResolveError::EmptyFilename)
                } else {
                    Ok(
                        DescriptorView {
                            organization,
                            qualifier,
                            application,
                            filename,
                            format,
                            default_payload: o.default_payload,
                            generate_check: match o.generate_check {
                                Some(b) => b,
                                None => true,
                            },
                        },
                    )
                }
            },
        }
    }
}

/// Merges the overrides with the environment-derived baselines into one
/// fully-resolved descriptor, on which every string field is non-empty. No
/// I/O and no side effects: the result is a function of the two arguments
/// alone.
pub fn resolve(overrides: Overrides, env: &BuildEnv) -> (r: Result<Descriptor, ResolveError>)
    ensures
        match r {
            Ok(d) => spec_resolve(overrides@, env@) == Ok::<DescriptorView, ResolveError>(d@),
            Err(e) => spec_resolve(overrides@, env@) == Err::<DescriptorView, ResolveError>(e),
        },
{
    let organization: String = match overrides.organization {
        Some(s) => s,
        None => organization_of(env.authors.as_str()),
    };
    if organization.as_str().is_empty() {
        return Err(ResolveError::EmptyOrganization);
    }
    let format: Format = match overrides.format {
        Some(f) => f,
        None => match Format::pick_default(env.toml_supported, env.yaml_supported) {
            Some(f) => f,
            None => {
                return Err(ResolveError::NoFormat);
            },
        },
    };
    if !format.supported(env.toml_supported, env.yaml_supported) {
        return Err(ResolveError::NoFormat);
    }
    let qualifier: String = match overrides.qualifier {
        Some(q) => q,
        None => "org".to_owned(),
    };
    let application: String = match overrides.application {
        Some(a) => a,
        None => env.application.clone(),
    };
    let filename: String = match overrides.filename {
        Some(n) => n,
        None => match Format::pick_default(env.toml_supported, env.yaml_supported) {
            Some(baseline) => baseline.default_filename().to_owned(),
            None => {
                proof {
                    assert(false);
                }
                String::new()
            },
        },
    };
    if qualifier.as_str().is_empty() {
        return Err(ResolveError::EmptyQualifier);
    }
    if application.as_str().is_empty() {
        return Err(ResolveError::EmptyApplication);
    }
    if filename.as_str().is_empty() {
        return Err(ResolveError::EmptyFilename);
    }
    let generate_check: bool = match overrides.generate_check {
        Some(b) => b,
        None => true,
    };
    Ok(
        Descriptor {
            organization,
            qualifier,
            application,
            filename,
            format,
            default_payload: overrides.default_payload,
            generate_check,
        },
    )
}

/// Resolution is deterministic and idempotent: resolving the same overrides
/// against the same baseline a second time yields a field-for-field
/// identical result.
pub proof fn lemma_resolution_deterministic(
    o1: OverridesView,
    e1: BuildEnvView,
    o2: OverridesView,
    e2: BuildEnvView,
)
    requires
        o1 == o2,
        e1 == e2,
    ensures
        spec_resolve(o1, e1) == spec_resolve(o2, e2),
{
}

/// Override precedence: whenever resolution succeeds, every field for which
/// an explicit override was supplied holds exactly that override, whatever
/// the other overrides are, and every unset field holds its baseline,
/// computed independently of the overrides — in particular the baseline
/// file name follows the compiled-in baseline format, not an overridden
/// one. The default payload is always exactly the supplied one.
pub proof fn lemma_override_precedence(o: OverridesView, e: BuildEnvView, d: DescriptorView)
    requires
        spec_resolve(o, e) == Ok::<DescriptorView, ResolveError>(d),
    ensures
        o.organization matches Some(s) ==> d.organization == s,
        o.qualifier matches Some(q) ==> d.qualifier == q,
        o.application matches Some(a) ==> d.application == a,
        o.filename matches Some(n) ==> d.filename == n,
        o.format matches Some(f) ==> d.format == f,
        d.default_payload == o.default_payload,
        o.generate_check matches Some(b) ==> d.generate_check == b,
        o.organization is None ==> d.organization == spec_organization_of(e.authors),
        o.qualifier is None ==> d.qualifier == "org"@,
        o.application is None ==> d.application == e.application,
        o.filename is None ==> d.filename == Format::spec_pick_default(
            e.toml_supported,
            e.yaml_supported,
        ).unwrap().spec_default_filename(),
        o.format is None ==> Some(d.format) == Format::spec_pick_default(
            e.toml_supported,
            e.yaml_supported,
        ),
        o.generate_check is None ==> d.generate_check,
{
}

/// All string fields are non-empty after resolution: whenever resolution
/// succeeds, the organization, the qualifier, the application identifier,
/// and the file name of the descriptor are all non-empty, whether each came
/// from an override or from its baseline.
pub proof fn lemma_resolved_fields_non_empty(o: OverridesView, e: BuildEnvView, d: DescriptorView)
    requires
        spec_resolve(o, e) == Ok::<DescriptorView, ResolveError>(d),
    ensures
        d.organization.len() > 0,
        d.qualifier.len() > 0,
        d.application.len() > 0,
        d.filename.len() > 0,
{
}

} // verus!
