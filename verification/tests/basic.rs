use cfgen::descriptor::{resolve, BuildEnv, Overrides};
use cfgen::format::Format;
use cfgen::paths::ResolvedPath;
use cfgen::runtime::{Binding, Machine};

const TOML_DEFAULT: &str = "\n_b = \"test\"\n";

#[test]
fn cfgen_implemented() {
    let overrides = Overrides {
        organization: None,
        qualifier: None,
        application: Some("test".to_owned()),
        filename: None,
        format: Some(Format::Toml),
        default_payload: Some(TOML_DEFAULT.to_owned()),
        generate_check: None,
    };
    let env = BuildEnv {
        application: "cfgen".to_owned(),
        authors: "author <a@example.com>".to_owned(),
        toml_supported: true,
        yaml_supported: false,
    };
    let descriptor = match resolve(overrides, &env) {
        Ok(d) => d,
        Err(e) => panic!("resolution failed: {:?}", e),
    };
    let mut binding = Binding::new(descriptor);
    let _ = || {
        let path = ResolvedPath {
            directory: "/tmp/cfgen".to_owned(),
            filename: "config.toml".to_owned(),
            full: "/tmp/cfgen/config.toml".to_owned(),
        };
        Machine::<toml::Table>::start_load(Format::Toml, path)
    };
    let _ = || binding.start_load_or_write_default::<toml::Table>();
}
