use vstd::prelude::*;
use crate::descriptor::Descriptor;
use crate::errors::ConfigError;
use crate::format::Format;
use crate::paths::ResolvedPath;

verus! {

/// How a bootstrap-capable load came to its value.
#[derive(Clone, Copy, PartialEq, Eq, Structural, Debug)]
pub enum ConfigLoad {
    /// The default payload was first written to the configuration path.
    DefaultWritten,
    /// The configuration was loaded without writing a default.
    Loaded,
}

/// A failed read, as the runtime reads it: whether the cause was the file
/// being absent — the sole recoverable case — and the underlying error.
pub struct ReadFailure {
    /// Whether the underlying cause is that the file does not exist.
    pub not_found: bool,
    /// The underlying I/O error.
    pub cause: std::io::Error,
}

/// What one attempt to read the configuration file yielded.
pub enum ReadOutcome {
    /// The file's full contents.
    Content(String),
    /// The file could not be read.
    Failed(ReadFailure),
}

/// What a directory creation or a file write yielded.
pub enum StepOutcome {
    /// The operation succeeded.
    Done,
    /// The operation failed with the carried I/O error.
    Failed(std::io::Error),
}

/// What deserializing text into the bound type yielded.
pub enum ParseOutcome<T> {
    /// The deserialized value.
    Value(T),
    /// The TOML codec rejected the text with the carried error.
    TomlRejected(toml::de::Error),
    /// The YAML codec rejected the text with the carried error.
    YamlRejected(serde_yaml::Error),
}

/// An event handed to the machine: the outcome of the action it last asked
/// for.
pub enum Event<T> {
    /// The outcome of [`Action::ReadFile`].
    ReadDone(ReadOutcome),
    /// The outcome of [`Action::ParseText`].
    ParseDone(ParseOutcome<T>),
    /// The outcome of [`Action::CreateDir`] or [`Action::WriteFile`].
    StepDone(StepOutcome),
}

/// The next piece of outside work the machine asks its driver to perform.
pub enum Action {
    /// Read the file at the carried path as text.
    ReadFile(String),
    /// Deserialize the carried text under the carried format.
    ParseText(Format, String),
    /// Create the carried directory and every missing parent of it.
    CreateDir(String),
    /// Write the second carried string verbatim to the file at the first.
    WriteFile(String, String),
    /// Nothing: the machine is finished.
    Stop,
}

/// Where the machine stands.
pub enum Phase<T> {
    /// Awaiting the initial read of the configuration file; `bootstrap`
    /// says whether a missing file is recovered by writing the default.
    LoadRead { bootstrap: bool },
    /// Awaiting the parse of the text the initial read yielded.
    LoadParse { bootstrap: bool },
    /// Awaiting the creation of the configuration directory.
    DirCreate,
    /// Awaiting the write of the default payload.
    PayloadWrite,
    /// Awaiting the read-back of the freshly written file.
    RereadRead,
    /// Awaiting the parse of the read-back text.
    RereadParse,
    /// The operation is complete with the carried result.
    Finished(Result<(ConfigLoad, T), ConfigError>),
}

/// The load/bootstrap protocol for one bound type, as a state machine. The
/// machine owns every decision — which file to read, when a missing file is
/// recovered by writing the default payload, and which error ends the
/// operation — while its driver performs the filesystem work it asks for
/// and hands back the outcomes as events.
pub struct Machine<T> {
    /// The serialization format of the configuration file.
    pub format: Format,
    /// The location of the configuration file.
    pub path: ResolvedPath,
    /// The literal default contents, when bootstrap is offered.
    pub default_payload: Option<String>,
    /// Where the machine stands.
    pub phase: Phase<T>,
}

impl<T> Machine<T> {
    /// Well-formedness: whenever the machine can still come to write the
    /// default payload, it holds one.
    pub open spec fn wf(self) -> bool {
        match self.phase {
            Phase::LoadRead { bootstrap } => bootstrap ==> self.default_payload is Some,
            Phase::LoadParse { .. } => true,
            Phase::DirCreate => self.default_payload is Some,
            Phase::PayloadWrite => self.default_payload is Some,
            Phase::RereadRead => true,
            Phase::RereadParse => true,
            Phase::Finished(_) => true,
        }
    }

    /// Whether a parse outcome can come from this machine's own format: a
    /// rejection is always the resolved codec's, so the error variant a
    /// finished machine carries matches the format.
    pub open spec fn parse_event_matches(self, p: ParseOutcome<T>) -> bool {
        match p {
            ParseOutcome::Value(_) => true,
            ParseOutcome::TomlRejected(_) => self.format == Format::Toml,
            ParseOutcome::YamlRejected(_) => self.format == Format::Yaml,
        }
    }

    /// Whether the machine, standing where it is, awaits this event.
    pub open spec fn expects(self, ev: Event<T>) -> bool {
        match (self.phase, ev) {
            (Phase::LoadRead { .. }, Event::ReadDone(_)) => true,
            (Phase::LoadParse { .. }, Event::ParseDone(p)) => self.parse_event_matches(p),
            (Phase::DirCreate, Event::StepDone(_)) => true,
            (Phase::PayloadWrite, Event::StepDone(_)) => true,
            (Phase::RereadRead, Event::ReadDone(_)) => true,
            (Phase::RereadParse, Event::ParseDone(p)) => self.parse_event_matches(p),
            _ => false,
        }
    }

    /// The transition relation of the protocol: from a machine and the event
    /// it awaited, the machine after the step and the next action.
    ///
    /// An initial read yielding content goes on to a parse; a parsed value
    /// finishes as `Loaded`; a missing file is recovered — only in bootstrap
    /// mode — by creating the directory, writing the default payload
    /// verbatim, and reading the fresh file back, finishing as
    /// `DefaultWritten`; every other failure finishes with the matching
    /// error, wrapping the underlying cause and the offending path.
    pub open spec fn spec_step(self, ev: Event<T>) -> (Machine<T>, Action) {
        match (self.phase, ev) {
            (Phase::LoadRead { bootstrap }, Event::ReadDone(o)) => match o {
                ReadOutcome::Content(text) => (
                    Machine { phase: Phase::LoadParse { bootstrap }, ..self },
                    Action::ParseText(self.format, text),
                ),
                ReadOutcome::Failed(f) => if bootstrap && f.not_found {
                    (
                        Machine { phase: Phase::DirCreate, ..self },
                        Action::CreateDir(self.path.directory),
                    )
                } else {
                    (
                        Machine {
                            phase: Phase::Finished(
                                Err(ConfigError::IoRead(f.cause, self.path.full)),
                            ),
                            ..self
                        },
                        Action::Stop,
                    )
                },
            },
            (Phase::LoadParse { bootstrap }, Event::ParseDone(p)) => match p {
                ParseOutcome::Value(v) => (
                    Machine { phase: Phase::Finished(Ok((ConfigLoad::Loaded, v))), ..self },
                    Action::Stop,
                ),
                ParseOutcome::TomlRejected(e) => (
                    Machine {
                        phase: Phase::Finished(Err(ConfigError::Toml(e, self.path.full))),
                        ..self
                    },
                    Action::Stop,
                ),
                ParseOutcome::YamlRejected(e) => (
                    Machine {
                        phase: Phase::Finished(Err(ConfigError::Yaml(e, self.path.full))),
                        ..self
                    },
                    Action::Stop,
                ),
            },
            (Phase::DirCreate, Event::StepDone(o)) => match o {
                StepOutcome::Done => (
                    Machine { phase: Phase::PayloadWrite, ..self },
                    Action::WriteFile(self.path.full, self.default_payload.unwrap()),
                ),
                StepOutcome::Failed(e) => (
                    Machine {
                        phase: Phase::Finished(
                            Err(ConfigError::MakeDir(e, self.path.directory)),
                        ),
                        ..self
                    },
                    Action::Stop,
                ),
            },
            (Phase::PayloadWrite, Event::StepDone(o)) => match o {
                StepOutcome::Done => (
                    Machine { phase: Phase::RereadRead, ..self },
                    Action::ReadFile(self.path.full),
                ),
                StepOutcome::Failed(e) => (
                    Machine {
                        phase: Phase::Finished(Err(ConfigError::IoWrite(e, self.path.full))),
                        ..self
                    },
                    Action::Stop,
                ),
            },
            (Phase::RereadRead, Event::ReadDone(o)) => match o {
                ReadOutcome::Content(text) => (
                    Machine { phase: Phase::RereadParse, ..self },
                    Action::ParseText(self.format, text),
                ),
                ReadOutcome::Failed(f) => (
                    Machine {
                        phase: Phase::Finished(Err(ConfigError::IoRead(f.cause, self.path.full))),
                        ..self
                    },
                    Action::Stop,
                ),
            },
            (Phase::RereadParse, Event::ParseDone(p)) => match p {
                ParseOutcome::Value(v) => (
                    Machine {
                        phase: Phase::Finished(Ok((ConfigLoad::DefaultWritten, v))),
                        ..self
                    },
                    Action::Stop,
                ),
                ParseOutcome::TomlRejected(e) => (
                    Machine {
                        phase: Phase::Finished(Err(ConfigError::Toml(e, self.path.full))),
                        ..self
                    },
                    Action::Stop,
                ),
                ParseOutcome::YamlRejected(e) => (
                    Machine {
                        phase: Phase::Finished(Err(ConfigError::Yaml(e, self.path.full))),
                        ..self
                    },
                    Action::Stop,
                ),
            },
            _ => (self, Action::Stop),
        }
    }

    /// Performs one transition of the protocol: hands the machine the
    /// outcome of the action it awaited, and returns the stepped machine
    /// and the next action to perform.
    pub fn step(self, ev: Event<T>) -> (r: (Machine<T>, Action))
        requires
            self.wf(),
            self.expects(ev),
        ensures
            r == self.spec_step(ev),
            r.0.wf(),
    {
        let Machine { format, path, default_payload, phase } = self;
        match (phase, ev) {
            (Phase::LoadRead { bootstrap }, Event::ReadDone(ReadOutcome::Content(text))) => {
                let a = Action::ParseText(format, text);
                (Machine { format, path, default_payload, phase: Phase::LoadParse { bootstrap } }, a)
            },
            (Phase::LoadRead { bootstrap }, Event::ReadDone(ReadOutcome::Failed(f))) => {
                if bootstrap && f.not_found {
                    let a = Action::CreateDir(path.directory.clone());
                    (Machine { format, path, default_payload, phase: Phase::DirCreate }, a)
                } else {
                    let full = path.full.clone();
                    (
                        Machine {
                            format,
                            path,
                            default_payload,
                            phase: Phase::Finished(Err(ConfigError::IoRead(f.cause, full))),
                        },
                        Action::Stop,
                    )
                }
            },
            (Phase::LoadParse { bootstrap: _ }, Event::ParseDone(ParseOutcome::Value(v))) => (
                Machine {
                    format,
                    path,
                    default_payload,
                    phase: Phase::Finished(Ok((ConfigLoad::Loaded, v))),
                },
                Action::Stop,
            ),
            (Phase::LoadParse { bootstrap: _ }, Event::ParseDone(ParseOutcome::TomlRejected(e))) => {
                let full = path.full.clone();
                (
                    Machine {
                        format,
                        path,
                        default_payload,
                        phase: Phase::Finished(Err(ConfigError::Toml(e, full))),
                    },
                    Action::Stop,
                )
            },
            (Phase::LoadParse { bootstrap: _ }, Event::ParseDone(ParseOutcome::YamlRejected(e))) => {
                let full = path.full.clone();
                (
                    Machine {
                        format,
                        path,
                        default_payload,
                        phase: Phase::Finished(Err(ConfigError::Yaml(e, full))),
                    },
                    Action::Stop,
                )
            },
            (Phase::DirCreate, Event::StepDone(StepOutcome::Done)) => {
                let payload: String = match &default_payload {
                    Some(p) => p.clone(),
                    None => {
                        proof {
                            assert(false);
                        }
                        String::new()
                    },
                };
                let a = Action::WriteFile(path.full.clone(), payload);
                (Machine { format, path, default_payload, phase: Phase::PayloadWrite }, a)
            },
            (Phase::DirCreate, Event::StepDone(StepOutcome::Failed(e))) => {
                let directory = path.directory.clone();
                (
                    Machine {
                        format,
                        path,
                        default_payload,
                        phase: Phase::Finished(Err(ConfigError::MakeDir(e, directory))),
                    },
                    Action::Stop,
                )
            },
            (Phase::PayloadWrite, Event::StepDone(StepOutcome::Done)) => {
                let a = Action::ReadFile(path.full.clone());
                (Machine { format, path, default_payload, phase: Phase::RereadRead }, a)
            },
            (Phase::PayloadWrite, Event::StepDone(StepOutcome::Failed(e))) => {
                let full = path.full.clone();
                (
                    Machine {
                        format,
                        path,
                        default_payload,
                        phase: Phase::Finished(Err(ConfigError::IoWrite(e, full))),
                    },
                    Action::Stop,
                )
            },
            (Phase::RereadRead, Event::ReadDone(ReadOutcome::Content(text))) => {
                let a = Action::ParseText(format, text);
                (Machine { format, path, default_payload, phase: Phase::RereadParse }, a)
            },
            (Phase::RereadRead, Event::ReadDone(ReadOutcome::Failed(f))) => {
                let full = path.full.clone();
                (
                    Machine {
                        format,
                        path,
                        default_payload,
                        phase: Phase::Finished(Err(ConfigError::IoRead(f.cause, full))),
                    },
                    Action::Stop,
                )
            },
            (Phase::RereadParse, Event::ParseDone(ParseOutcome::Value(v))) => (
                Machine {
                    format,
                    path,
                    default_payload,
                    phase: Phase::Finished(Ok((ConfigLoad::DefaultWritten, v))),
                },
                Action::Stop,
            ),
            (Phase::RereadParse, Event::ParseDone(ParseOutcome::TomlRejected(e))) => {
                let full = path.full.clone();
                (
                    Machine {
                        format,
                        path,
                        default_payload,
                        phase: Phase::Finished(Err(ConfigError::Toml(e, full))),
                    },
                    Action::Stop,
                )
            },
            (Phase::RereadParse, Event::ParseDone(ParseOutcome::YamlRejected(e))) => {
                let full = path.full.clone();
                (
                    Machine {
                        format,
                        path,
                        default_payload,
                        phase: Phase::Finished(Err(ConfigError::Yaml(e, full))),
                    },
                    Action::Stop,
                )
            },
            (phase, _) => (Machine { format, path, default_payload, phase }, Action::Stop),
        }
    }

    /// Begins a plain load: read the file and parse it; a missing file is
    /// an error like any other.
    pub fn start_load(format: Format, path: ResolvedPath) -> (r: (Machine<T>, Action))
        ensures
            r.0 == (Machine::<T> {
                format,
                path,
                default_payload: None,
                phase: Phase::LoadRead { bootstrap: false },
            }),
            r.1 == Action::ReadFile(path.full),
            r.0.wf(),
    {
        let a = Action::ReadFile(path.full.clone());
        (
            Machine {
                format,
                path,
                default_payload: None,
                phase: Phase::LoadRead { bootstrap: false },
            },
            a,
        )
    }

    /// Begins a write-default: ensure the directory exists, write the
    /// default payload verbatim, then load the freshly written file.
    pub fn start_write_default(format: Format, path: ResolvedPath, payload: String) -> (r: (
        Machine<T>,
        Action,
    ))
        ensures
            r.0 == (Machine::<T> {
                format,
                path,
                default_payload: Some(payload),
                phase: Phase::DirCreate,
            }),
            r.1 == Action::CreateDir(path.directory),
            r.0.wf(),
    {
        let a = Action::CreateDir(path.directory.clone());
        (
            Machine { format, path, default_payload: Some(payload), phase: Phase::DirCreate },
            a,
        )
    }

    /// Begins a load-or-write-default: load, recovering a missing file — and
    /// only a missing file — by bootstrapping from the default payload.
    pub fn start_load_or_write_default(format: Format, path: ResolvedPath, payload: String) -> (r: (
        Machine<T>,
        Action,
    ))
        ensures
            r.0 == (Machine::<T> {
                format,
                path,
                default_payload: Some(payload),
                phase: Phase::LoadRead { bootstrap: true },
            }),
            r.1 == Action::ReadFile(path.full),
            r.0.wf(),
    {
        let a = Action::ReadFile(path.full.clone());
        (
            Machine {
                format,
                path,
                default_payload: Some(payload),
                phase: Phase::LoadRead { bootstrap: true },
            },
            a,
        )
    }
}

/// One bound configuration: a resolved descriptor, and the location of its
/// file, computed at most once and cached for the lifetime of the binding.
pub struct Binding {
    /// The resolved descriptor this binding serves.
    pub descriptor: Descriptor,
    /// The cached location: `None` until the first successful [`Binding::path`]
    /// call, then set once and never changed again.
    pub cached_path: Option<ResolvedPath>,
}

impl Binding {
    /// Well-formedness: whatever location is cached was computed from the
    /// descriptor, so it is well-formed and carries the descriptor's file
    /// name.
    pub open spec fn wf(self) -> bool {
        self.cached_path matches Some(p) ==> p@.wf() && p@.filename == self.descriptor@.filename
    }

    /// A fresh binding for a resolved descriptor; no location is computed
    /// yet.
    pub fn new(descriptor: Descriptor) -> (b: Binding)
        ensures
            b.descriptor == descriptor,
            b.cached_path is None,
            b.wf(),
    {
        Binding { descriptor, cached_path: None }
    }

    /// The location of the configuration file: computed from the descriptor
    /// on the first call, cached and returned unchanged by every later one.
    /// `None` exactly when no location is cached and the platform yields no
    /// per-user configuration directory.
    pub fn path(&mut self) -> (r: Option<ResolvedPath>)
        requires
            old(self).wf(),
        ensures
            final(self).wf(),
            final(self).descriptor == old(self).descriptor,
            old(self).cached_path is Some ==> *final(self) == *old(self) && r == old(
                self,
            ).cached_path,
            r matches Some(p) ==> p@.wf() && p@.filename == old(self).descriptor@.filename
                && final(self).cached_path == Some(p),
            r is None ==> *final(self) == *old(self) && old(self).cached_path is None,
    {
        match &self.cached_path {
            Some(p) => Some(p.clone()),
            None => match ResolvedPath::of_descriptor(&self.descriptor) {
                Some(p) => {
                    self.cached_path = Some(p.clone());
                    Some(p)
                },
                None => None,
            },
        }
    }

    /// Begins a plain load for the bound type. `None` exactly when no
    /// location is cached yet and the platform yields no per-user
    /// configuration directory.
    pub fn start_load<T>(&mut self) -> (r: Option<(Machine<T>, Action)>)
        requires
            old(self).wf(),
        ensures
            final(self).wf(),
            final(self).descriptor == old(self).descriptor,
            old(self).cached_path matches Some(p) ==> (r matches Some((m, a)) && m.path == p),
            r matches Some((m, a)) ==> {
                &&& final(self).cached_path == Some(m.path)
                &&& m.path@.wf()
                &&& m.path@.filename == old(self).descriptor@.filename
                &&& m.format == old(self).descriptor.format
                &&& m.default_payload is None
                &&& m.phase == (Phase::<T>::LoadRead { bootstrap: false })
                &&& a == Action::ReadFile(m.path.full)
                &&& m.wf()
            },
            r is None ==> old(self).cached_path is None && final(self).cached_path is None,
    {
        match self.path() {
            Some(p) => Some(Machine::start_load(self.descriptor.format, p)),
            None => None,
        }
    }

    /// Begins a write-default for the bound type; the descriptor must carry
    /// a default payload. `None` exactly when no location is cached yet and
    /// the platform yields no per-user configuration directory.
    pub fn start_write_default<T>(&mut self) -> (r: Option<(Machine<T>, Action)>)
        requires
            old(self).wf(),
            old(self).descriptor.default_payload is Some,
        ensures
            final(self).wf(),
            final(self).descriptor == old(self).descriptor,
            old(self).cached_path matches Some(p) ==> (r matches Some((m, a)) && m.path == p),
            r matches Some((m, a)) ==> {
                &&& final(self).cached_path == Some(m.path)
                &&& m.path@.wf()
                &&& m.path@.filename == old(self).descriptor@.filename
                &&& m.format == old(self).descriptor.format
                &&& m.default_payload == old(self).descriptor.default_payload
                &&& m.phase == Phase::<T>::DirCreate
                &&& a == Action::CreateDir(m.path.directory)
                &&& m.wf()
            },
            r is None ==> old(self).cached_path is None && final(self).cached_path is None,
    {
        match self.path() {
            Some(p) => {
                let payload: String = match &self.descriptor.default_payload {
                    Some(q) => q.clone(),
                    None => {
                        proof {
                            assert(false);
                        }
                        String::new()
                    },
                };
                Some(Machine::start_write_default(self.descriptor.format, p, payload))
            },
            None => None,
        }
    }

    /// Begins a load-or-write-default for the bound type; the descriptor
    /// must carry a default payload. `None` exactly when no location is
    /// cached yet and the platform yields no per-user configuration
    /// directory.
    pub fn start_load_or_write_default<T>(&mut self) -> (r: Option<(Machine<T>, Action)>)
        requires
            old(self).wf(),
            old(self).descriptor.default_payload is Some,
        ensures
            final(self).wf(),
            final(self).descriptor == old(self).descriptor,
            old(self).cached_path matches Some(p) ==> (r matches Some((m, a)) && m.path == p),
            r matches Some((m, a)) ==> {
                &&& final(self).cached_path == Some(m.path)
                &&& m.path@.wf()
                &&& m.path@.filename == old(self).descriptor@.filename
                &&& m.format == old(self).descriptor.format
                &&& m.default_payload == old(self).descriptor.default_payload
                &&& m.phase == (Phase::<T>::LoadRead { bootstrap: true })
                &&& a == Action::ReadFile(m.path.full)
                &&& m.wf()
            },
            r is None ==> old(self).cached_path is None && final(self).cached_path is None,
    {
        match self.path() {
            Some(p) => {
                let payload: String = match &self.descriptor.default_payload {
                    Some(q) => q.clone(),
                    None => {
                        proof {
                            assert(false);
                        }
                        String::new()
                    },
                };
                Some(Machine::start_load_or_write_default(self.descriptor.format, p, payload))
            },
            None => None,
        }
    }
}

/// Basic operations to locate and read the configuration of one bound
/// type. Implementations drive a [`Machine`] against the real filesystem.
pub trait Cfgen where Self: Sized {
    /// The location of this type's configuration file.
    fn path() -> ResolvedPath;

    /// Loads the configuration from its path: an `IoRead` error when the
    /// file cannot be read, the format's parse error when it cannot be
    /// deserialized.
    fn load() -> Result<Self, ConfigError>;
}

/// The bootstrap operations of a bound type whose descriptor carries a
/// default payload.
pub trait CfgenDefault: Cfgen {
    /// Writes the default payload to the configuration path — creating
    /// missing directories — then loads the freshly written file.
    fn write_default() -> Result<Self, ConfigError>;

    /// Loads the configuration; when and only when the file is absent,
    /// writes the default payload first.
    fn load_or_write_default() -> Result<(ConfigLoad, Self), ConfigError>;
}

/// Not-found bootstrap: when the initial read of a load-or-write-default
/// fails because the file is absent, the machine creates the configuration
/// directory, writes exactly the default payload to the configuration path,
/// and reads the file back; the filesystem handing back exactly what was
/// written and the parse yielding `v`, it finishes as `DefaultWritten`
/// paired with `v` — the value that parsing the default payload directly
/// yields.
pub proof fn lemma_not_found_bootstrap<T>(m0: Machine<T>, f: ReadFailure, v: T)
    requires
        m0.wf(),
        m0.phase == (Phase::<T>::LoadRead { bootstrap: true }),
        f.not_found,
    ensures
        ({
            let payload = m0.default_payload.unwrap();
            let s1 = m0.spec_step(Event::ReadDone(ReadOutcome::Failed(f)));
            let s2 = s1.0.spec_step(Event::StepDone(StepOutcome::Done));
            let s3 = s2.0.spec_step(Event::StepDone(StepOutcome::Done));
            let s4 = s3.0.spec_step(Event::ReadDone(ReadOutcome::Content(payload)));
            let s5 = s4.0.spec_step(Event::ParseDone(ParseOutcome::Value(v)));
            &&& s1.1 == Action::CreateDir(m0.path.directory)
            &&& s2.1 == Action::WriteFile(m0.path.full, payload)
            &&& s3.1 == Action::ReadFile(m0.path.full)
            &&& s4.1 == Action::ParseText(m0.format, payload)
            &&& s5.0.phase == Phase::<T>::Finished(Ok((ConfigLoad::DefaultWritten, v)))
            &&& s5.1 == Action::Stop
        }),
{
}

/// Bootstrap idempotence, and plain successful loads: a load whose read
/// yields content parses that content and, the parse yielding `v`, finishes
/// as `Loaded` paired with `v`, never asking for a directory creation or a
/// write — in particular, a second load-or-write-default over the file a
/// bootstrap left finishes as `Loaded` with the same value and does not
/// rewrite the file.
pub proof fn lemma_existing_file_loads<T>(m0: Machine<T>, content: String, v: T, bootstrap: bool)
    requires
        m0.wf(),
        m0.phase == (Phase::<T>::LoadRead { bootstrap }),
    ensures
        ({
            let s1 = m0.spec_step(Event::ReadDone(ReadOutcome::Content(content)));
            let s2 = s1.0.spec_step(Event::ParseDone(ParseOutcome::Value(v)));
            &&& s1.1 == Action::ParseText(m0.format, content)
            &&& s2.0.phase == Phase::<T>::Finished(Ok((ConfigLoad::Loaded, v)))
            &&& s2.1 == Action::Stop
        }),
{
}

/// A malformed existing file: when the read succeeds but the codec rejects
/// the content, load and load-or-write-default alike finish with the
/// format's parse error carrying the configuration path, and the machine
/// never asks for a directory creation or a write.
pub proof fn lemma_malformed_file_fails<T>(
    m0: Machine<T>,
    content: String,
    p: ParseOutcome<T>,
    bootstrap: bool,
)
    requires
        m0.wf(),
        m0.phase == (Phase::<T>::LoadRead { bootstrap }),
        !(p matches ParseOutcome::Value(_)),
        m0.parse_event_matches(p),
    ensures
        ({
            let s1 = m0.spec_step(Event::ReadDone(ReadOutcome::Content(content)));
            let s2 = s1.0.spec_step(Event::ParseDone(p));
            &&& s1.1 == Action::ParseText(m0.format, content)
            &&& s2.1 == Action::Stop
            &&& (p matches ParseOutcome::TomlRejected(e) ==> s2.0.phase == Phase::<T>::Finished(
                Err(ConfigError::Toml(e, m0.path.full)),
            ))
            &&& (p matches ParseOutcome::YamlRejected(e) ==> s2.0.phase == Phase::<T>::Finished(
                Err(ConfigError::Yaml(e, m0.path.full)),
            ))
        }),
{
}

/// The machine a sequence of events leaves behind: each event stepped in
/// order, starting from `m`.
pub open spec fn spec_run<T>(m: Machine<T>, evs: Seq<Event<T>>) -> Machine<T>
    decreases evs.len(),
{
    if evs.len() == 0 {
        m
    } else {
        spec_run(m.spec_step(evs[0]).0, evs.drop_first())
    }
}

/// The actions a sequence of events draws out of the machine, in order.
pub open spec fn spec_run_actions<T>(m: Machine<T>, evs: Seq<Event<T>>) -> Seq<Action>
    decreases evs.len(),
{
    if evs.len() == 0 {
        Seq::empty()
    } else {
        seq![m.spec_step(evs[0]).1] + spec_run_actions(m.spec_step(evs[0]).0, evs.drop_first())
    }
}

/// The phases a load without bootstrap moves through.
pub open spec fn plain_phase<T>(m: Machine<T>) -> bool {
    ||| m.phase == (Phase::<T>::LoadRead { bootstrap: false })
    ||| m.phase == (Phase::<T>::LoadParse { bootstrap: false })
    ||| m.phase matches Phase::Finished(_)
}

/// Bootstrap is the single recoverable failure path: a load begun without
/// bootstrap never asks for a directory creation or a file write, whatever
/// sequence of events its driver hands it.
pub proof fn lemma_plain_load_never_writes<T>(m: Machine<T>, evs: Seq<Event<T>>)
    requires
        plain_phase(m),
    ensures
        plain_phase(spec_run(m, evs)),
        forall|i: int|
            0 <= i < spec_run_actions(m, evs).len() ==> !(#[trigger] spec_run_actions(m, evs)[i]
                matches Action::CreateDir(_)) && !(spec_run_actions(m, evs)[i]
                matches Action::WriteFile(_, _)),
    decreases evs.len(),
{
    if evs.len() > 0 {
        let first = m.spec_step(evs[0]);
        assert(plain_phase(first.0));
        lemma_plain_load_never_writes(first.0, evs.drop_first());
        let acts = spec_run_actions(m, evs);
        let rest = spec_run_actions(first.0, evs.drop_first());
        assert(acts == seq![first.1] + rest);
        assert forall|i: int| 0 <= i < acts.len() implies !(#[trigger] acts[i]
            matches Action::CreateDir(_)) && !(acts[i] matches Action::WriteFile(_, _)) by {
            if i == 0 {
                assert(acts[0] == first.1);
            } else {
                assert(acts[i] == rest[i - 1]);
            }
        }
    }
}

/// An unwritable parent directory: when directory creation fails, a
/// write-default finishes with `MakeDir` carrying that cause and the
/// directory, and a load-or-write-default that recovered a missing file
/// finishes with exactly the same failure, unchanged.
pub proof fn lemma_makedir_failure_propagates<T>(
    m0: Machine<T>,
    w0: Machine<T>,
    f: ReadFailure,
    e: std::io::Error,
)
    requires
        m0.wf(),
        m0.phase == (Phase::<T>::LoadRead { bootstrap: true }),
        f.not_found,
        w0.wf(),
        w0.phase == Phase::<T>::DirCreate,
        w0.path == m0.path,
    ensures
        ({
            let s1 = m0.spec_step(Event::ReadDone(ReadOutcome::Failed(f)));
            let s2 = s1.0.spec_step(Event::StepDone(StepOutcome::Failed(e)));
            let t1 = w0.spec_step(Event::StepDone(StepOutcome::Failed(e)));
            &&& s2.0.phase == Phase::<T>::Finished(
                Err(ConfigError::MakeDir(e, m0.path.directory)),
            )
            &&& s2.1 == Action::Stop
            &&& t1.0.phase == s2.0.phase
            &&& t1.1 == Action::Stop
        }),
{
}

} // verus!
