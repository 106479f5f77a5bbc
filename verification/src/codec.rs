use vstd::prelude::*;
use crate::descriptor::{Descriptor, DescriptorView};
use crate::format::Format;

verus! {

/// Whether toml accepts `text` as a well-formed TOML document. What the
/// parser accepts depends on the text alone; its exact extent is toml's.
pub uninterp spec fn toml_accepts(text: Seq<char>) -> bool;

/// Whether serde_yaml accepts `text` as a well-formed YAML document. What
/// the parser accepts depends on the text alone; its exact extent is
/// serde_yaml's.
pub uninterp spec fn yaml_accepts(text: Seq<char>) -> bool;

/// Whether the given format's codec accepts the text.
pub open spec fn spec_format_accepts(format: Format, text: Seq<char>) -> bool {
    match format {
        Format::Toml => toml_accepts(text),
        Format::Yaml => yaml_accepts(text),
    }
}

/// Relies on toml::from_str::<toml::Table>: `None` exactly when the text is
/// a well-formed TOML document, and the parse error otherwise.
#[verifier::external_body]
fn toml_syntax_error(text: &str) -> (r: Option<toml::de::Error>)
    ensures
        r is None <==> toml_accepts(text@),
{
    toml::from_str::<toml::Table>(text).err()
}

/// Relies on serde_yaml::from_str::<serde_yaml::Value>: `None` exactly when
/// the text is a well-formed YAML document, and the parse error otherwise.
#[verifier::external_body]
fn yaml_syntax_error(text: &str) -> (r: Option<serde_yaml::Error>)
    ensures
        r is None <==> yaml_accepts(text@),
{
    serde_yaml::from_str::<serde_yaml::Value>(text).err()
}

/// What the self-check reports: a descriptor without a default payload
/// passes; one with a payload passes exactly when the payload is
/// syntactically valid under the descriptor's format.
pub open spec fn spec_payload_ok(d: DescriptorView) -> bool {
    match d.default_payload {
        None => true,
        Some(p) => spec_format_accepts(d.format, p),
    }
}

/// The optional, separately-triggered self-check of a resolved descriptor:
/// its default payload, when present, must be syntactically valid under the
/// chosen format.
pub fn default_payload_is_valid(d: &Descriptor) -> (r: bool)
    ensures
        r == spec_payload_ok(d@),
{
    match &d.default_payload {
        None => true,
        Some(p) => match d.format {
            Format::Toml => toml_syntax_error(p.as_str()).is_none(),
            Format::Yaml => yaml_syntax_error(p.as_str()).is_none(),
        },
    }
}

} // verus!
