//! Niksi: turns a declarative course-container configuration into a
//! reproducible container image plus an IDE-integration manifest, by driving
//! an external package builder and an external image-registry tool.
//!
//! This crate holds the verified core: the configuration model, the build
//! context assembler, the derived-input generator, the build orchestration
//! state machine, the registry argument construction, and the manifest
//! generator. The surrounding binary performs the actual file and process
//! I/O, handing plain values in and out.

pub mod devcontainer;
pub mod docker;
pub mod load;
pub mod orchestrator;
pub mod text;

use vstd::prelude::*;
use vstd::string::StringExecFns;

use crate::text::join_with;

verus! {

/// The schema of the niksi.json configuration file used for configuring a
/// Dev Container.
#[derive(Debug, Clone)]
pub struct NiksiConfig {
    /// The name of the produced docker image; always non-empty.
    pub name: String,
    /// Optional course code.
    pub course_code: Option<String>,
    /// The version of the course Dev Container.
    pub version: String,
    /// The maintainer(s) of the course Dev Container.
    pub maintainers: Vec<String>,
    /// Additional packages added to the Dev Container.
    pub packages: Vec<String>,
    /// Extensions installed to the VSCode running in the Dev Container.
    pub vscode_extensions: Vec<String>,
    /// The Niksi template used.
    pub template: Option<String>,
    /// The Docker registry used for the container image.
    pub registry: Option<String>,
}

impl NiksiConfig {
    /// Well-formedness: the name is present and non-empty. The version is
    /// also always present but free-form; every other field defaults to
    /// empty or absent.
    pub open spec fn wf(&self) -> bool {
        self.name@.len() > 0
    }
}

/// A typed failure of the build pipeline. Every component reports its
/// failure as one of these; none aborts the process.
#[derive(Debug, Clone, PartialEq, Eq)]
pub enum BuilderError {
    /// The configuration file could not be read; carries the path.
    NoSuchFile(String),
    /// The configuration file does not parse or does not match the schema;
    /// carries the parser's or the schema check's message.
    ParseError(String),
    /// The build context misses a required input; names the missing field.
    Incomplete(String),
    /// The external builder's template-initialization step failed.
    TemplateInitFailed,
    /// Writing the derived build inputs into the workspace failed.
    WriteFailed,
    /// The external builder's build step failed or printed no usable
    /// artifact path.
    BuildFailed,
    /// The freshly resolved lock file could not be persisted to the output
    /// directory: the build is not reproducible, so it counts as failed.
    LockPersistFailed,
    /// The external registry tool failed to push the image.
    PushError,
}

/// The user-facing description of `e`, character for character.
pub open spec fn message_spec(e: BuilderError) -> Seq<char> {
    match e {
        BuilderError::NoSuchFile(p) => "Failed to read configuration file "@ + p@,
        BuilderError::ParseError(m) => "Malformed configuration file: "@ + m@,
        BuilderError::Incomplete(f) => "Incomplete build, missing required field "@ + f@,
        BuilderError::TemplateInitFailed => "Failed to initialize the build template"@,
        BuilderError::WriteFailed => "Failed to write the derived build inputs"@,
        BuilderError::BuildFailed => "The external builder failed to produce an artifact"@,
        BuilderError::LockPersistFailed => "Failed to persist the lock file to the output directory"@,
        BuilderError::PushError => "Failed to push the image to the registry"@,
    }
}

impl BuilderError {
    /// The user-facing description of this error.
    pub fn message(&self) -> (r: String)
        ensures
            r@ == message_spec(*self),
    {
        match self {
            BuilderError::NoSuchFile(p) => {
                let mut s = "Failed to read configuration file ".to_owned();
                s.append(p.as_str());
                s
            },
            BuilderError::ParseError(m) => {
                let mut s = "Malformed configuration file: ".to_owned();
                s.append(m.as_str());
                s
            },
            BuilderError::Incomplete(f) => {
                let mut s = "Incomplete build, missing required field ".to_owned();
                s.append(f.as_str());
                s
            },
            BuilderError::TemplateInitFailed => "Failed to initialize the build template".to_owned(),
            BuilderError::WriteFailed => "Failed to write the derived build inputs".to_owned(),
            BuilderError::BuildFailed => "The external builder failed to produce an artifact".to_owned(),
            BuilderError::LockPersistFailed => "Failed to persist the lock file to the output directory".to_owned(),
            BuilderError::PushError => "Failed to push the image to the registry".to_owned(),
        }
    }
}

/// A validated, immutable build context: the loaded configuration, the
/// output directory, and the lock-file path (which may point to a file that
/// does not exist yet).
#[derive(Debug, Clone)]
pub struct Niksi {
    /// The configuration loaded from the configuration file.
    pub config: NiksiConfig,
    /// Path of the lock file whose content, if the file exists, seeds the
    /// next build.
    pub lock_file: String,
    /// Directory that receives the refreshed lock file of a successful
    /// build.
    pub output_directory: String,
}

/// The builder helper for the [`Niksi`] struct: accumulates optional inputs
/// and produces a validated context (or a typed failure) when finished.
#[derive(Debug, Clone)]
pub struct NiksiBuilder {
    /// Where the configuration file is to be read from; required.
    pub config_file: Option<String>,
    /// Where build outputs (lock file, manifest) go; defaults to the
    /// current directory.
    pub output_directory: Option<String>,
    /// Where a prior lock file may be found; defaults to a conventional
    /// name in the current directory.
    pub lock_file: Option<String>,
}

impl Default for NiksiBuilder {
    /// An empty accumulator: nothing set yet.
    fn default() -> (r: NiksiBuilder)
        ensures
            r.config_file is None,
            r.output_directory is None,
            r.lock_file is None,
    {
        NiksiBuilder { config_file: None, output_directory: None, lock_file: None }
    }
}

/// A context whose inputs passed validation but whose configuration file is
/// not read yet. The caller reads the file at [`Self::config_file`] and
/// hands the text (or its absence) to [`Self::finish`].
#[derive(Debug, Clone)]
pub struct PendingNiksi {
    /// The path the configuration must be loaded from.
    pub config_file: String,
    /// The output directory override, if one was set.
    pub output_directory: Option<String>,
    /// The lock-file override, if one was set.
    pub lock_file: Option<String>,
}

/// The default output directory: the current directory.
pub open spec fn default_output_directory() -> Seq<char> {
    "."@
}

/// The default lock-file path.
pub open spec fn default_lock_file() -> Seq<char> {
    "niksi.lock"@
}

impl NiksiBuilder {
    /// Constructs a new, empty accumulator.
    pub fn new() -> (r: Self)
        ensures
            r.config_file is None,
            r.output_directory is None,
            r.lock_file is None,
    {
        NiksiBuilder { config_file: None, output_directory: None, lock_file: None }
    }

    /// Specify the niksi json config file. For the schema of the config
    /// file see [`NiksiConfig`].
    ///
    /// The config file is *required*: [`NiksiBuilder::build`] fails if no
    /// config file has been specified.
    pub fn config_file(self, file: String) -> (r: Self)
        ensures
            r.config_file matches Some(f) && f@ == file@,
            r.output_directory == self.output_directory,
            r.lock_file == self.lock_file,
    {
        NiksiBuilder { config_file: Some(file), ..self }
    }

    /// Specify the output directory. If no directory is specified, the
    /// current directory is used.
    pub fn output_directory(self, dir: String) -> (r: Self)
        ensures
            r.output_directory matches Some(d) && d@ == dir@,
            r.config_file == self.config_file,
            r.lock_file == self.lock_file,
    {
        NiksiBuilder { output_directory: Some(dir), ..self }
    }

    /// Specify the lock file. If no file is specified, the conventional
    /// default path is used, and a fresh lock file is resolved when no file
    /// exists there.
    pub fn lock_file(self, file: String) -> (r: Self)
        ensures
            r.lock_file matches Some(f) && f@ == file@,
            r.config_file == self.config_file,
            r.output_directory == self.output_directory,
    {
        NiksiBuilder { lock_file: Some(file), ..self }
    }

    /// Validates the accumulated inputs. A config path must have been set:
    /// absence yields `Incomplete("config_file")`, and nothing else ever
    /// fails here. This step performs no I/O; reading and parsing the
    /// configuration happen in [`PendingNiksi::finish`].
    pub fn build(self) -> (r: Result<PendingNiksi, BuilderError>)
        ensures
            self.config_file is None <==> (r matches Err(BuilderError::Incomplete(f)) && f@
                == "config_file"@),
            self.config_file matches Some(p) ==> (r matches Ok(pending) && pending.config_file
                == p && pending.output_directory == self.output_directory && pending.lock_file
                == self.lock_file),
    {
        match self.config_file {
            Some(p) => Ok(
                PendingNiksi {
                    config_file: p,
                    output_directory: self.output_directory,
                    lock_file: self.lock_file,
                },
            ),
            None => Err(BuilderError::Incomplete("config_file".to_owned())),
        }
    }
}

impl PendingNiksi {
    /// Materializes the build context from the outcome of reading the
    /// configuration file at [`Self::config_file`]: `None` when the file
    /// could not be read, `Some` with the file's text otherwise.
    ///
    /// An unreadable file yields `NoSuchFile`; text that does not parse or
    /// does not match the schema yields `ParseError`, if and only if; on
    /// success the context carries, field for field, the configuration the
    /// text's document gives, and defaulting of the unset output directory
    /// and lock file happens only after the configuration loaded.
    pub fn finish(self, read: Option<&str>) -> (r: Result<Niksi, BuilderError>)
        ensures
            read is None <==> (r matches Err(BuilderError::NoSuchFile(p)) && p@
                == self.config_file@),
            read matches Some(text) && !crate::load::json_parses(text@) ==> r matches Err(
                BuilderError::ParseError(m),
            ),
            read matches Some(text) ==> {
                &&& crate::load::json_parses(text@) ==> ((r is Ok) <==> crate::load::schema_ok(
                    crate::load::json_doc(text@)->Some_0,
                ))
                &&& (r matches Ok(n) ==> crate::load::config_matches(
                    n.config,
                    crate::load::json_doc(text@)->Some_0,
                ))
            },
            r matches Ok(n) ==> {
                &&& n.config.wf()
                &&& n.output_directory@ == match self.output_directory {
                    Some(d) => d@,
                    None => default_output_directory(),
                }
                &&& n.lock_file@ == match self.lock_file {
                    Some(f) => f@,
                    None => default_lock_file(),
                }
            },
            r matches Err(e) ==> (e matches BuilderError::NoSuchFile(_) || e
                matches BuilderError::ParseError(_)),
    {
        let text = match read {
            Some(t) => t,
            None => {
                return Err(BuilderError::NoSuchFile(self.config_file));
            },
        };
        let config = match crate::load::load_config(text) {
            Ok(c) => c,
            Err(e) => {
                return Err(e);
            },
        };
        Ok(
            Niksi {
                config,
                lock_file: match self.lock_file {
                    Some(f) => f,
                    None => "niksi.lock".to_owned(),
                },
                output_directory: match self.output_directory {
                    Some(d) => d,
                    None => ".".to_owned(),
                },
            },
        )
    }
}

/// The derived-input fragment for `c`, character for character: the
/// build-description text that binds the package list, the image name and
/// the version for the external builder's override mechanism.
pub open spec fn overrides_nix_spec(c: NiksiConfig) -> Seq<char> {
    "{pkgs, ...}: {\n  paths = with pkgs; ["@ + join_with(c.packages.deep_view(), " "@)
        + "];\n  name = \""@ + c.name@ + "\";\n  tag = \""@ + c.version@ + "\";\n}\n"@
}

/// The template reference handed to the external builder: the configured
/// template's entry in the template collection, or the conventional default
/// when none is configured.
pub open spec fn template_reference_spec(c: NiksiConfig) -> Seq<char> {
    match c.template {
        Some(t) => "github:niksi-aalto/templates#"@ + t@,
        None => "github:niksi-aalto/templates#plain"@,
    }
}

impl Niksi {
    /// Constructs a new [`NiksiBuilder`]. See the builder's documentation
    /// for more information.
    pub fn builder() -> (r: NiksiBuilder)
        ensures
            r.config_file is None,
            r.output_directory is None,
            r.lock_file is None,
    {
        NiksiBuilder::new()
    }

    /// Outputs the overrides.nix build-description fragment with packages,
    /// name and version set according to the configuration. Pure: no I/O,
    /// no failure mode; package identifiers pass through verbatim.
    pub fn overrides_nix(&self) -> (r: String)
        ensures
            r@ == overrides_nix_spec(self.config),
    {
        let mut out = String::new();
        out.append("{pkgs, ...}: {\n  paths = with pkgs; [");
        crate::text::append_joined(&mut out, &self.config.packages, " ");
        out.append("];\n  name = \"");
        out.append(self.config.name.as_str());
        out.append("\";\n  tag = \"");
        out.append(self.config.version.as_str());
        out.append("\";\n}\n");
        proof {
            assert(out@ =~= overrides_nix_spec(self.config));
        }
        out
    }

    /// The template reference for the external builder's initialization
    /// step.
    pub fn template_reference(&self) -> (r: String)
        ensures
            r@ == template_reference_spec(self.config),
    {
        let mut out = "github:niksi-aalto/templates#".to_owned();
        match &self.config.template {
            Some(t) => {
                out.append(t.as_str());
                out
            },
            None => {
                out.append("plain");
                proof {
                    reveal_strlit("github:niksi-aalto/templates#");
                    reveal_strlit("github:niksi-aalto/templates#plain");
                    reveal_strlit("plain");
                    assert(out@ =~= "github:niksi-aalto/templates#plain"@);
                }
                out
            },
        }
    }
}

} // verus!
