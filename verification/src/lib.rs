//! Locate, load, and bootstrap a per-user configuration file.
//!
//! The crate has two halves. The *descriptor resolver* ([`descriptor`])
//! merges explicit per-type overrides with baseline values derived from the
//! embedding program's build metadata into one fully-resolved
//! [`descriptor::Descriptor`]; it performs no I/O. The *binding runtime*
//! ([`runtime`]) is a state machine that, for one resolved descriptor,
//! decides how to load the configuration file, and when a default payload is
//! present, how to bootstrap a missing file from it. The machine emits the
//! filesystem actions to perform and consumes their outcomes as events, so
//! the decision logic is verified here while the reads and writes themselves
//! are carried out by the embedding program.

pub mod author;
pub mod codec;
pub mod descriptor;
pub mod errors;
pub mod format;
pub mod paths;
pub mod runtime;

pub use descriptor::{resolve, BuildEnv, Descriptor, Overrides};
pub use errors::{ConfigError, ResolveError};
pub use format::Format;
pub use paths::ResolvedPath;
pub use runtime::{Binding, Cfgen, CfgenDefault, ConfigLoad, Machine};
