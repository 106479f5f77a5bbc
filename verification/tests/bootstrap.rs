use std::collections::HashMap;
use std::io::{Error as IoError, ErrorKind};

use cfgen::errors::ConfigError;
use cfgen::format::Format;
use cfgen::paths::ResolvedPath;
use cfgen::runtime::{
    Action, ConfigLoad, Event, Machine, ParseOutcome, Phase, ReadFailure, ReadOutcome,
    StepOutcome,
};

struct FakeFs {
    files: HashMap<String, String>,
    dirs_ok: bool,
    write_ok: bool,
    read_error_kind: Option<ErrorKind>,
    writes: usize,
    dir_creates: usize,
}

impl FakeFs {
    fn new() -> FakeFs {
        FakeFs {
            files: HashMap::new(),
            dirs_ok: true,
            write_ok: true,
            read_error_kind: None,
            writes: 0,
            dir_creates: 0,
        }
    }
}

fn drive<T>(
    start: (Machine<T>, Action),
    fs: &mut FakeFs,
    parse: &dyn Fn(Format, &str) -> ParseOutcome<T>,
) -> Result<(ConfigLoad, T), ConfigError> {
    let (mut m, mut a) = start;
    loop {
        let ev: Event<T> = match a {
            Action::ReadFile(path) => {
                if let Some(kind) = fs.read_error_kind {
                    Event::ReadDone(ReadOutcome::Failed(ReadFailure {
                        not_found: kind == ErrorKind::NotFound,
                        cause: IoError::new(kind, "read refused"),
                    }))
                } else {
                    match fs.files.get(&path) {
                        Some(content) => Event::ReadDone(ReadOutcome::Content(content.clone())),
                        None => Event::ReadDone(ReadOutcome::Failed(ReadFailure {
                            not_found: true,
                            cause: IoError::new(ErrorKind::NotFound, "no such file"),
                        })),
                    }
                }
            }
            Action::ParseText(format, text) => Event::ParseDone(parse(format, &text)),
            Action::CreateDir(_dir) => {
                fs.dir_creates += 1;
                if fs.dirs_ok {
                    Event::StepDone(StepOutcome::Done)
                } else {
                    Event::StepDone(StepOutcome::Failed(IoError::new(
                        ErrorKind::PermissionDenied,
                        "directory refused",
                    )))
                }
            }
            Action::WriteFile(path, content) => {
                fs.writes += 1;
                if fs.write_ok {
                    fs.files.insert(path, content);
                    Event::StepDone(StepOutcome::Done)
                } else {
                    Event::StepDone(StepOutcome::Failed(IoError::new(
                        ErrorKind::PermissionDenied,
                        "write refused",
                    )))
                }
            }
            Action::Stop => match m.phase {
                Phase::Finished(r) => return r,
                _ => panic!("machine stopped before finishing"),
            },
        };
        let (m2, a2) = m.step(ev);
        m = m2;
        a = a2;
    }
}

fn toml_parse(format: Format, text: &str) -> ParseOutcome<toml::Table> {
    assert_eq!(format, Format::Toml);
    match toml::from_str::<toml::Table>(text) {
        Ok(v) => ParseOutcome::Value(v),
        Err(e) => ParseOutcome::TomlRejected(e),
    }
}

fn yaml_parse(format: Format, text: &str) -> ParseOutcome<serde_yaml::Value> {
    assert_eq!(format, Format::Yaml);
    match serde_yaml::from_str::<serde_yaml::Value>(text) {
        Ok(v) => ParseOutcome::Value(v),
        Err(e) => ParseOutcome::YamlRejected(e),
    }
}

fn toml_path() -> ResolvedPath {
    ResolvedPath {
        directory: "/cfg/org/Acme/app".to_owned(),
        filename: "config.toml".to_owned(),
        full: "/cfg/org/Acme/app/config.toml".to_owned(),
    }
}

const PAYLOAD: &str = "answer = 42\nname = \"x\"\n";

#[test]
fn not_found_bootstrap_writes_default() {
    let mut fs = FakeFs::new();
    let r = drive(
        Machine::start_load_or_write_default(Format::Toml, toml_path(), PAYLOAD.to_owned()),
        &mut fs,
        &toml_parse,
    );
    let (outcome, value) = r.unwrap();
    assert_eq!(outcome, ConfigLoad::DefaultWritten);
    let direct: toml::Table = toml::from_str(PAYLOAD).unwrap();
    assert_eq!(value, direct);
    let on_disk = fs.files.get(&toml_path().full).unwrap();
    assert_eq!(on_disk, PAYLOAD);
    let read_back: toml::Table = toml::from_str(on_disk).unwrap();
    assert_eq!(read_back, direct);
    assert_eq!(fs.dir_creates, 1);
    assert_eq!(fs.writes, 1);
}

#[test]
fn bootstrap_is_idempotent() {
    let mut fs = FakeFs::new();
    let first = drive(
        Machine::start_load_or_write_default(Format::Toml, toml_path(), PAYLOAD.to_owned()),
        &mut fs,
        &toml_parse,
    )
    .unwrap();
    assert_eq!(first.0, ConfigLoad::DefaultWritten);
    let second = drive(
        Machine::start_load_or_write_default(Format::Toml, toml_path(), PAYLOAD.to_owned()),
        &mut fs,
        &toml_parse,
    )
    .unwrap();
    assert_eq!(second.0, ConfigLoad::Loaded);
    assert_eq!(second.1, first.1);
    assert_eq!(fs.writes, 1);
    assert_eq!(fs.files.get(&toml_path().full).unwrap(), PAYLOAD);
}

#[test]
fn malformed_file_fails_load_without_write() {
    let mut fs = FakeFs::new();
    fs.files.insert(toml_path().full, "= not toml =".to_owned());
    let r = drive(
        Machine::<toml::Table>::start_load(Format::Toml, toml_path()),
        &mut fs,
        &toml_parse,
    );
    match r {
        Err(ConfigError::Toml(_, p)) => assert_eq!(p, toml_path().full),
        other => panic!("expected a TOML parse error, got {:?}", other.map(|v| v.0)),
    }
    assert_eq!(fs.dir_creates, 0);
    assert_eq!(fs.writes, 0);
}

#[test]
fn malformed_file_fails_bootstrap_without_write() {
    let mut fs = FakeFs::new();
    fs.files.insert(toml_path().full, "= not toml =".to_owned());
    let r = drive(
        Machine::<toml::Table>::start_load_or_write_default(
            Format::Toml,
            toml_path(),
            PAYLOAD.to_owned(),
        ),
        &mut fs,
        &toml_parse,
    );
    match r {
        Err(ConfigError::Toml(_, p)) => assert_eq!(p, toml_path().full),
        other => panic!("expected a TOML parse error, got {:?}", other.map(|v| v.0)),
    }
    assert_eq!(fs.dir_creates, 0);
    assert_eq!(fs.writes, 0);
}

#[test]
fn unwritable_directory_fails_write_default() {
    let mut fs = FakeFs::new();
    fs.dirs_ok = false;
    let r = drive(
        Machine::<toml::Table>::start_write_default(
            Format::Toml,
            toml_path(),
            PAYLOAD.to_owned(),
        ),
        &mut fs,
        &toml_parse,
    );
    match r {
        Err(ConfigError::MakeDir(_, p)) => assert_eq!(p, toml_path().directory),
        other => panic!("expected MakeDir, got {:?}", other.map(|v| v.0)),
    }
    assert_eq!(fs.writes, 0);
}

#[test]
fn unwritable_directory_propagates_through_bootstrap() {
    let mut fs = FakeFs::new();
    fs.dirs_ok = false;
    let r = drive(
        Machine::<toml::Table>::start_load_or_write_default(
            Format::Toml,
            toml_path(),
            PAYLOAD.to_owned(),
        ),
        &mut fs,
        &toml_parse,
    );
    match r {
        Err(ConfigError::MakeDir(_, p)) => assert_eq!(p, toml_path().directory),
        other => panic!("expected MakeDir, got {:?}", other.map(|v| v.0)),
    }
    assert_eq!(fs.dir_creates, 1);
    assert_eq!(fs.writes, 0);
}

#[test]
fn failed_write_reports_io_write() {
    let mut fs = FakeFs::new();
    fs.write_ok = false;
    let r = drive(
        Machine::<toml::Table>::start_load_or_write_default(
            Format::Toml,
            toml_path(),
            PAYLOAD.to_owned(),
        ),
        &mut fs,
        &toml_parse,
    );
    match r {
        Err(ConfigError::IoWrite(_, p)) => assert_eq!(p, toml_path().full),
        other => panic!("expected IoWrite, got {:?}", other.map(|v| v.0)),
    }
}

#[test]
fn unreadable_file_is_not_bootstrapped() {
    let mut fs = FakeFs::new();
    fs.read_error_kind = Some(ErrorKind::PermissionDenied);
    let r = drive(
        Machine::<toml::Table>::start_load_or_write_default(
            Format::Toml,
            toml_path(),
            PAYLOAD.to_owned(),
        ),
        &mut fs,
        &toml_parse,
    );
    match r {
        Err(ConfigError::IoRead(e, p)) => {
            assert_eq!(e.kind(), ErrorKind::PermissionDenied);
            assert_eq!(p, toml_path().full);
        }
        other => panic!("expected IoRead, got {:?}", other.map(|v| v.0)),
    }
    assert_eq!(fs.dir_creates, 0);
    assert_eq!(fs.writes, 0);
}

#[test]
fn missing_file_fails_plain_load() {
    let mut fs = FakeFs::new();
    let r = drive(
        Machine::<toml::Table>::start_load(Format::Toml, toml_path()),
        &mut fs,
        &toml_parse,
    );
    match r {
        Err(ConfigError::IoRead(e, p)) => {
            assert_eq!(e.kind(), ErrorKind::NotFound);
            assert_eq!(p, toml_path().full);
        }
        other => panic!("expected IoRead, got {:?}", other.map(|v| v.0)),
    }
    assert_eq!(fs.writes, 0);
}

#[test]
fn existing_file_loads() {
    let mut fs = FakeFs::new();
    fs.files.insert(toml_path().full, PAYLOAD.to_owned());
    let (outcome, value) = drive(
        Machine::<toml::Table>::start_load(Format::Toml, toml_path()),
        &mut fs,
        &toml_parse,
    )
    .unwrap();
    assert_eq!(outcome, ConfigLoad::Loaded);
    let direct: toml::Table = toml::from_str(PAYLOAD).unwrap();
    assert_eq!(value, direct);
}

#[test]
fn write_default_loads_back() {
    let mut fs = FakeFs::new();
    let (outcome, value) = drive(
        Machine::<toml::Table>::start_write_default(
            Format::Toml,
            toml_path(),
            PAYLOAD.to_owned(),
        ),
        &mut fs,
        &toml_parse,
    )
    .unwrap();
    assert_eq!(outcome, ConfigLoad::DefaultWritten);
    let direct: toml::Table = toml::from_str(PAYLOAD).unwrap();
    assert_eq!(value, direct);
    assert_eq!(fs.files.get(&toml_path().full).unwrap(), PAYLOAD);
}

fn yaml_path() -> ResolvedPath {
    ResolvedPath {
        directory: "/cfg/org/Acme/app".to_owned(),
        filename: "config.yml".to_owned(),
        full: "/cfg/org/Acme/app/config.yml".to_owned(),
    }
}

#[test]
fn yaml_bootstrap_and_parse_error() {
    let mut fs = FakeFs::new();
    let payload = "answer: 42\n";
    let (outcome, value) = drive(
        Machine::<serde_yaml::Value>::start_load_or_write_default(
            Format::Yaml,
            yaml_path(),
            payload.to_owned(),
        ),
        &mut fs,
        &yaml_parse,
    )
    .unwrap();
    assert_eq!(outcome, ConfigLoad::DefaultWritten);
    let direct: serde_yaml::Value = serde_yaml::from_str(payload).unwrap();
    assert_eq!(value, direct);

    fs.files.insert(yaml_path().full, "answer: [unclosed".to_owned());
    let r = drive(
        Machine::<serde_yaml::Value>::start_load(Format::Yaml, yaml_path()),
        &mut fs,
        &yaml_parse,
    );
    match r {
        Err(ConfigError::Yaml(_, p)) => assert_eq!(p, yaml_path().full),
        other => panic!("expected a YAML parse error, got {:?}", other.map(|v| v.0)),
    }
}
