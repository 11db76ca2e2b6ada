//! The configuration of a project, and how it is loaded and saved.
use crate::path::{join, join_path};
use crate::text::{clone_strings, joined, string_views};
use vstd::prelude::*;

verus! {

/// The typesetting engine of a project and the extra arguments handed to it.
#[derive(Debug, Clone)]
pub struct EngineConfig {
    /// "tectonic" or "latexmk".
    pub engine_type: String,
    pub args: Vec<String>,
}

/// How a project is compiled.
#[derive(Debug, Clone)]
pub struct CompileConfig {
    pub synctex: bool,
    pub shell_escape: bool,
    pub outdir: String,
    pub min_interval_ms: u64,
}

/// The configuration of one project.
#[derive(Debug, Clone)]
pub struct ProjectConfig {
    pub version: u32,
    pub name: String,
    pub main: String,
    pub engine: EngineConfig,
    pub compile: CompileConfig,
}

/// What an [`EngineConfig`] holds.
pub struct EngineConfigView {
    pub engine_type: Seq<char>,
    pub args: Seq<Seq<char>>,
}

/// What a [`CompileConfig`] holds.
pub struct CompileConfigView {
    pub synctex: bool,
    pub shell_escape: bool,
    pub outdir: Seq<char>,
    pub min_interval_ms: u64,
}

/// What a [`ProjectConfig`] holds.
pub struct ProjectConfigView {
    pub version: u32,
    pub name: Seq<char>,
    pub main: Seq<char>,
    pub engine: EngineConfigView,
    pub compile: CompileConfigView,
}

impl View for EngineConfig {
    type V = EngineConfigView;

    open spec fn view(&self) -> EngineConfigView {
        EngineConfigView { engine_type: self.engine_type@, args: string_views(self.args@) }
    }
}

impl View for CompileConfig {
    type V = CompileConfigView;

    open spec fn view(&self) -> CompileConfigView {
        CompileConfigView {
            synctex: self.synctex,
            shell_escape: self.shell_escape,
            outdir: self.outdir@,
            min_interval_ms: self.min_interval_ms,
        }
    }
}

impl View for ProjectConfig {
    type V = ProjectConfigView;

    open spec fn view(&self) -> ProjectConfigView {
        ProjectConfigView {
            version: self.version,
            name: self.name@,
            main: self.main@,
            engine: self.engine@,
            compile: self.compile@,
        }
    }
}

/// The setting of `synctex` where none is given.
pub fn default_true() -> (r: bool)
    ensures
        r,
{
    true
}

/// The output directory where none is given.
pub fn default_outdir() -> (r: String)
    ensures
        r@ == "out"@,
{
    String::from_str("out")
}

/// The least interval between two builds, in milliseconds, where none is given.
pub fn default_min_interval() -> (r: u64)
    ensures
        r == 600,
{
    600
}

/// The configuration of a project that has none stored.
pub open spec fn default_config() -> ProjectConfigView {
    ProjectConfigView {
        version: 1,
        name: "My Paper"@,
        main: "main.tex"@,
        engine: EngineConfigView { engine_type: "tectonic"@, args: Seq::empty() },
        compile: CompileConfigView {
            synctex: true,
            shell_escape: false,
            outdir: "out"@,
            min_interval_ms: 600,
        },
    }
}

impl Default for ProjectConfig {
    fn default() -> (r: ProjectConfig)
        ensures
            r@ == default_config(),
    {
        let r = ProjectConfig {
            version: 1,
            name: String::from_str("My Paper"),
            main: String::from_str("main.tex"),
            engine: EngineConfig { engine_type: String::from_str("tectonic"), args: Vec::new() },
            compile: CompileConfig {
                synctex: default_true(),
                shell_escape: false,
                outdir: default_outdir(),
                min_interval_ms: default_min_interval(),
            },
        };
        assert(r@.engine.args =~= Seq::<Seq<char>>::empty());
        r
    }
}

/// What was found where a project keeps its configuration.
#[derive(Debug, Clone)]
pub enum StoredConfig {
    /// There is no configuration file.
    Missing,
    /// The file is there and could not be read, for the cause given.
    Unreadable(String),
    /// The file was read and does not hold a configuration, for the cause given.
    Malformed(String),
    /// The configuration that the file holds.
    Parsed(ProjectConfig),
}

/// The directory below `project_dir` that holds the configuration.
pub open spec fn config_dir(project_dir: Seq<char>) -> Seq<char> {
    join(project_dir, ".easypaper"@)
}

/// The file below `project_dir` that holds the configuration.
pub open spec fn config_path(project_dir: Seq<char>) -> Seq<char> {
    join(config_dir(project_dir), "project.yml"@)
}

/// The path of the file below `project_dir` that holds the configuration.
pub fn config_file(project_dir: &str) -> (r: String)
    ensures
        r@ == config_path(project_dir@),
{
    let dir = join_path(project_dir, ".easypaper");
    join_path(dir.as_str(), "project.yml")
}

/// One thing to do to the file system, and the text that begins the report of
/// its failure.
#[derive(Debug, Clone)]
pub enum Step {
    /// Create the directory `path` and its missing parents.
    CreateDir { path: String, failure: String },
    /// Write `content` to the file `path`.
    WriteFile { path: String, content: String, failure: String },
    /// Serialise `config` and write it to the file `path`.
    WriteConfig {
        path: String,
        config: ProjectConfig,
        serialize_failure: String,
        write_failure: String,
    },
}

/// What a [`Step`] holds.
pub enum StepView {
    CreateDir { path: Seq<char>, failure: Seq<char> },
    WriteFile { path: Seq<char>, content: Seq<char>, failure: Seq<char> },
    WriteConfig {
        path: Seq<char>,
        config: ProjectConfigView,
        serialize_failure: Seq<char>,
        write_failure: Seq<char>,
    },
}

impl View for Step {
    type V = StepView;

    open spec fn view(&self) -> StepView {
        match *self {
            Step::CreateDir { path, failure } => StepView::CreateDir {
                path: path@,
                failure: failure@,
            },
            Step::WriteFile { path, content, failure } => StepView::WriteFile {
                path: path@,
                content: content@,
                failure: failure@,
            },
            Step::WriteConfig {
                path,
                config,
                serialize_failure,
                write_failure,
            } => StepView::WriteConfig {
                path: path@,
                config: config@,
                serialize_failure: serialize_failure@,
                write_failure: write_failure@,
            },
        }
    }
}

/// The views of the steps held in `v`.
pub open spec fn step_views(v: Seq<Step>) -> Seq<StepView> {
    v.map_values(|s: Step| s@)
}

impl StepView {
    /// The text that begins the report of this step's failure on the file
    /// system.
    pub open spec fn failure(self) -> Seq<char> {
        match self {
            StepView::CreateDir { failure, .. } => failure,
            StepView::WriteFile { failure, .. } => failure,
            StepView::WriteConfig { write_failure, .. } => write_failure,
        }
    }

    /// This step, with `context` before the reports of its failures.
    pub open spec fn within(self, context: Seq<char>) -> StepView {
        match self {
            StepView::CreateDir { path, failure } => StepView::CreateDir {
                path,
                failure: context + failure,
            },
            StepView::WriteFile { path, content, failure } => StepView::WriteFile {
                path,
                content,
                failure: context + failure,
            },
            StepView::WriteConfig {
                path,
                config,
                serialize_failure,
                write_failure,
            } => StepView::WriteConfig {
                path,
                config,
                serialize_failure: context + serialize_failure,
                write_failure: context + write_failure,
            },
        }
    }
}

impl Step {
    /// The report of this step's failure on the file system, for the cause
    /// given.
    pub fn failed(&self, cause: &str) -> (r: String)
        ensures
            r@ == self@.failure() + cause@,
    {
        match self {
            Step::CreateDir { failure, .. } => joined(failure.as_str(), cause),
            Step::WriteFile { failure, .. } => joined(failure.as_str(), cause),
            Step::WriteConfig { write_failure, .. } => joined(write_failure.as_str(), cause),
        }
    }

    /// The report that the configuration of this step could not be
    /// serialised, for the cause given; `None` for a step that serialises
    /// nothing.
    pub fn serialize_failed(&self, cause: &str) -> (r: Option<String>)
        ensures
            match self@ {
                StepView::WriteConfig { serialize_failure, .. } => r matches Some(m) && m@
                    == serialize_failure + cause@,
                _ => r is None,
            },
    {
        match self {
            Step::WriteConfig { serialize_failure, .. } => Some(
                joined(serialize_failure.as_str(), cause),
            ),
            _ => None,
        }
    }

    /// This step, with `context` before the reports of its failures.
    pub fn within(&self, context: &str) -> (r: Step)
        ensures
            r@ == self@.within(context@),
    {
        match self {
            Step::CreateDir { path, failure } => Step::CreateDir {
                path: path.clone(),
                failure: joined(context, failure.as_str()),
            },
            Step::WriteFile { path, content, failure } => Step::WriteFile {
                path: path.clone(),
                content: content.clone(),
                failure: joined(context, failure.as_str()),
            },
            Step::WriteConfig { path, config, serialize_failure, write_failure } => {
                Step::WriteConfig {
                    path: path.clone(),
                    config: config.duplicate(),
                    serialize_failure: joined(context, serialize_failure.as_str()),
                    write_failure: joined(context, write_failure.as_str()),
                }
            },
        }
    }
}

/// The steps that save `config` below `project_dir`: make sure that the
/// configuration directory exists, then write the configuration file.
pub open spec fn save_steps(config: ProjectConfigView, project_dir: Seq<char>) -> Seq<StepView> {
    seq![
        StepView::CreateDir {
            path: config_dir(project_dir),
            failure: "Failed to create .easypaper directory: "@,
        },
        StepView::WriteConfig {
            path: config_path(project_dir),
            config,
            serialize_failure: "Failed to serialize project config: "@,
            write_failure: "Failed to write project config: "@,
        },
    ]
}

/// What loading gives for what was found where a project keeps its
/// configuration: the default where nothing is stored, the stored
/// configuration where it could be read, and otherwise the report of why it
/// could not.
pub open spec fn load_outcome(stored: StoredConfig) -> Result<ProjectConfigView, Seq<char>> {
    match stored {
        StoredConfig::Missing => Ok(default_config()),
        StoredConfig::Unreadable(cause) => Err("Failed to read project config: "@ + cause@),
        StoredConfig::Malformed(cause) => Err("Failed to parse project config: "@ + cause@),
        StoredConfig::Parsed(config) => Ok(config@),
    }
}

impl ProjectConfig {
    /// A copy of this configuration.
    pub fn duplicate(&self) -> (r: ProjectConfig)
        ensures
            r@ == self@,
    {
        ProjectConfig {
            version: self.version,
            name: self.name.clone(),
            main: self.main.clone(),
            engine: EngineConfig {
                engine_type: self.engine.engine_type.clone(),
                args: clone_strings(&self.engine.args),
            },
            compile: CompileConfig {
                synctex: self.compile.synctex,
                shell_escape: self.compile.shell_escape,
                outdir: self.compile.outdir.clone(),
                min_interval_ms: self.compile.min_interval_ms,
            },
        }
    }

    /// The configuration of a project, for what was found where it is stored.
    pub fn load(stored: StoredConfig) -> (r: Result<ProjectConfig, String>)
        ensures
            match load_outcome(stored) {
                Ok(config) => r matches Ok(c) && c@ == config,
                Err(report) => r matches Err(m) && m@ == report,
            },
            stored matches StoredConfig::Parsed(config) ==> r == Ok::<ProjectConfig, String>(
                config,
            ),
    {
        match stored {
            StoredConfig::Missing => Ok(ProjectConfig::default()),
            StoredConfig::Unreadable(cause) => Err(
                joined("Failed to read project config: ", cause.as_str()),
            ),
            StoredConfig::Malformed(cause) => Err(
                joined("Failed to parse project config: ", cause.as_str()),
            ),
            StoredConfig::Parsed(config) => Ok(config),
        }
    }

    /// The steps that save this configuration below `project_dir`.
    pub fn save(&self, project_dir: &str) -> (r: Vec<Step>)
        ensures
            step_views(r@) == save_steps(self@, project_dir@),
    {
        let dir = join_path(project_dir, ".easypaper");
        let file = join_path(dir.as_str(), "project.yml");
        let mut r: Vec<Step> = Vec::new();
        r.push(
            Step::CreateDir {
                path: dir,
                failure: String::from_str("Failed to create .easypaper directory: "),
            },
        );
        r.push(
            Step::WriteConfig {
                path: file,
                config: self.duplicate(),
                serialize_failure: String::from_str("Failed to serialize project config: "),
                write_failure: String::from_str("Failed to write project config: "),
            },
        );
        assert(step_views(r@) =~= save_steps(self@, project_dir@));
        r
    }
}

/// The last step of saving a configuration writes that configuration to the
/// file that loading reads, and loading a configuration that was parsed gives
/// that configuration.
pub proof fn lemma_save_writes_what_load_gives(config: ProjectConfig, project_dir: Seq<char>)
    ensures
        save_steps(config@, project_dir).last() == (StepView::WriteConfig {
            path: config_path(project_dir),
            config: config@,
            serialize_failure: "Failed to serialize project config: "@,
            write_failure: "Failed to write project config: "@,
        }),
        load_outcome(StoredConfig::Parsed(config)) == Ok::<ProjectConfigView, Seq<char>>(config@),
{
}

/// A project without a stored configuration has the default one: version 1,
/// the engine "tectonic" without extra arguments, SyncTeX on, shell escape
/// off, the output directory "out" and 600 ms between builds.
pub proof fn lemma_missing_config_is_default()
    ensures
        load_outcome(StoredConfig::Missing) == Ok::<ProjectConfigView, Seq<char>>(
            default_config(),
        ),
        default_config().version == 1,
        default_config().engine.engine_type == "tectonic"@,
        default_config().engine.args.len() == 0,
        default_config().compile.synctex,
        !default_config().compile.shell_escape,
        default_config().compile.outdir == "out"@,
        default_config().compile.min_interval_ms == 600,
{
}

} // verus!
