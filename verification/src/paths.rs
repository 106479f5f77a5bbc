use vstd::prelude::*;
use vstd::string::StringExecFns;
use crate::descriptor::Descriptor;

verus! {

/// The absolute location of one configuration file: the per-user
/// configuration directory for the bound type, the file's base name, and
/// the two joined into the full path.
pub struct ResolvedPath {
    /// The per-user configuration directory (the parent of `full`).
    pub directory: String,
    /// The configuration file's base name.
    pub filename: String,
    /// The full path: `directory` and `filename` joined by `'/'`.
    pub full: String,
}

/// The mathematical value of [`ResolvedPath`].
pub struct ResolvedPathView {
    pub directory: Seq<char>,
    pub filename: Seq<char>,
    pub full: Seq<char>,
}

impl View for ResolvedPath {
    type V = ResolvedPathView;

    open spec fn view(&self) -> ResolvedPathView {
        ResolvedPathView {
            directory: self.directory@,
            filename: self.filename@,
            full: self.full@,
        }
    }
}

impl ResolvedPathView {
    /// Well-formedness: the full path is the directory and the file name
    /// joined by a `'/'` separator.
    pub open spec fn wf(self) -> bool {
        self.full == self.directory + "/"@ + self.filename
    }
}

impl Clone for ResolvedPath {
    fn clone(&self) -> (r: Self)
        ensures
            r == *self,
    {
        ResolvedPath {
            directory: self.directory.clone(),
            filename: self.filename.clone(),
            full: self.full.clone(),
        }
    }
}

/// Relies on directories::ProjectDirs::from and ProjectDirs::config_dir: the
/// platform's per-user configuration directory for the given qualifier,
/// organization and application. The result depends on the machine and on
/// the user's environment, so nothing is stated of it; `None` is the
/// platform yielding no home directory for the current user.
#[verifier::external_body]
fn project_config_dir(qualifier: &str, organization: &str, application: &str) -> (r: Option<
    String,
>) {
    match directories::ProjectDirs::from(qualifier, organization, application) {
        Some(dirs) => Some(dirs.config_dir().to_string_lossy().into_owned()),
        None => None,
    }
}

impl ResolvedPath {
    /// Computes the resolved path for a descriptor: the platform's per-user
    /// configuration directory for the descriptor's identifiers, joined with
    /// the descriptor's file name. `None` when the platform yields no such
    /// directory.
    pub fn of_descriptor(d: &Descriptor) -> (r: Option<ResolvedPath>)
        ensures
            r matches Some(p) ==> p@.wf() && p@.filename == d@.filename,
    {
        match project_config_dir(
            d.qualifier.as_str(),
            d.organization.as_str(),
            d.application.as_str(),
        ) {
            Some(directory) => {
                let mut full = directory.clone();
                full.append("/");
                full.append(d.filename.as_str());
                let filename = d.filename.clone();
                Some(ResolvedPath { directory, filename, full })
            },
            None => None,
        }
    }
}

} // verus!
