//! The preparation of a task: which connection string to use, where to
//! write, and what to ask the data source, step by step. The caller does
//! the outside work that each step names and reports how it went.

use vstd::prelude::*;
use vstd::string::StringExecFns;
use crate::error::CtGenError;
use crate::error::CtGenErrorView;
use crate::paths::dir_spec;
use crate::paths::is_here;
use crate::paths::resolve_dir;
use crate::paths::separator;
use crate::profile::CtGenProfile;
use crate::profile::CtGenProfileConfigOverrides;
use crate::profile::CtGenProfileConfigOverridesView;
use crate::profile::CtGenProfileView;
use crate::profile::undeclared_prompt;
use crate::task::context::CtGenSchema;
use crate::task::context::table_not_found;
use crate::task::CtGenTask;
use crate::task::CtGenTaskView;
use crate::task::opt_overrides;
use crate::task::starts_with_context;
use crate::text::as_opt_str;
use crate::text::contains_text;
use crate::text::opt_str;
use crate::text::opt_text;
use crate::text::texts;

verus! {

/// The directive that is in force: the override where there is one that
/// is not empty, else that of the profile.
pub open spec fn effective(given: Option<Seq<char>>, declared: Seq<char>) -> Seq<char> {
    match given {
        Some(value) => if value.len() > 0 {
            value
        } else {
            declared
        },
        None => declared,
    }
}

/// The directive that is in force: the override where there is one that
/// is not empty, else that of the profile.
pub fn resolve_directive(given: Option<&str>, declared: &str) -> (r: String)
    ensures
        r@ == effective(opt_str(given), declared@),
{
    match given {
        Some(value) => if value.is_empty() {
            declared.to_owned()
        } else {
            value.to_owned()
        },
        None => declared.to_owned(),
    }
}

/// How far the preparation has come: what it waits for.
#[derive(Clone, Copy, Debug, PartialEq, Eq, Structural)]
pub enum CtGenSetupStage {
    /// For the environment file to be loaded.
    EnvFile,
    /// For the environment variable to be read.
    EnvVar,
    /// For the target directory to be created.
    CreateDir,
    /// For the target directory to be probed.
    ProbeDir,
    /// For the connection to the data source.
    Connect,
    /// For the tables of the bound database.
    ListTables,
    /// For the reflected schema.
    Reflect,
    /// For the template engine.
    Renderer,
    /// For nothing: the preparation failed.
    Failed,
}

/// What the caller reports.
#[derive(Debug)]
pub enum CtGenSetupEvent {
    /// The environment file was loaded into the environment.
    EnvFileLoaded,
    /// The environment variable holds this value.
    EnvVarRead(String),
    /// The target directory exists now.
    DirCreated,
    /// Whether the target directory exists, and whether it can be written to.
    DirProbed { exists: bool, writable: bool },
    /// The connection stands, bound to this database (empty: to none).
    Connected(String),
    /// The bound database holds these tables.
    TablesListed(Vec<String>),
    /// The schema was reflected.
    SchemaReflected(CtGenSchema),
    /// The outside work failed, with this message.
    Failed(String),
}

/// The model of a [`CtGenSetupEvent`] in contracts.
pub enum CtGenSetupEventView {
    EnvFileLoaded,
    EnvVarRead(Seq<char>),
    DirCreated,
    DirProbed { exists: bool, writable: bool },
    Connected(Seq<char>),
    TablesListed(Seq<Seq<char>>),
    SchemaReflected(CtGenSchema),
    Failed(Seq<char>),
}

impl View for CtGenSetupEvent {
    type V = CtGenSetupEventView;

    open spec fn view(&self) -> CtGenSetupEventView {
        match self {
            CtGenSetupEvent::EnvFileLoaded => CtGenSetupEventView::EnvFileLoaded,
            CtGenSetupEvent::EnvVarRead(v) => CtGenSetupEventView::EnvVarRead(v@),
            CtGenSetupEvent::DirCreated => CtGenSetupEventView::DirCreated,
            CtGenSetupEvent::DirProbed { exists, writable } => CtGenSetupEventView::DirProbed {
                exists: *exists,
                writable: *writable,
            },
            CtGenSetupEvent::Connected(d) => CtGenSetupEventView::Connected(d@),
            CtGenSetupEvent::TablesListed(t) => CtGenSetupEventView::TablesListed(texts(t@)),
            CtGenSetupEvent::SchemaReflected(s) => CtGenSetupEventView::SchemaReflected(*s),
            CtGenSetupEvent::Failed(m) => CtGenSetupEventView::Failed(m@),
        }
    }
}

/// What the caller is to do next.
#[derive(Debug)]
pub enum CtGenSetupAction {
    /// Load this environment file into the environment.
    LoadEnvFile(String),
    /// Read this environment variable.
    ReadEnvVar(String),
    /// Create this directory and those above it, unless they exist.
    CreateDir(String),
    /// Find out whether this directory exists and whether it can be written to.
    ProbeDir(String),
    /// Connect to the data source with this connection string.
    Connect(String),
    /// List the tables of the bound database.
    ListTables,
    /// Reflect the schema for this subject table.
    Reflect(String),
    /// Build the template engine from these directories, and finish.
    BuildRenderer { templates_dir: String, scripts_dir: String },
    /// Give up with this error.
    Fail(CtGenError),
}

/// The model of a [`CtGenSetupAction`] in contracts.
pub enum CtGenSetupActionView {
    LoadEnvFile(Seq<char>),
    ReadEnvVar(Seq<char>),
    CreateDir(Seq<char>),
    ProbeDir(Seq<char>),
    Connect(Seq<char>),
    ListTables,
    Reflect(Seq<char>),
    BuildRenderer { templates_dir: Seq<char>, scripts_dir: Seq<char> },
    Fail(CtGenErrorView),
}

impl View for CtGenSetupAction {
    type V = CtGenSetupActionView;

    open spec fn view(&self) -> CtGenSetupActionView {
        match self {
            CtGenSetupAction::LoadEnvFile(f) => CtGenSetupActionView::LoadEnvFile(f@),
            CtGenSetupAction::ReadEnvVar(v) => CtGenSetupActionView::ReadEnvVar(v@),
            CtGenSetupAction::CreateDir(d) => CtGenSetupActionView::CreateDir(d@),
            CtGenSetupAction::ProbeDir(d) => CtGenSetupActionView::ProbeDir(d@),
            CtGenSetupAction::Connect(c) => CtGenSetupActionView::Connect(c@),
            CtGenSetupAction::ListTables => CtGenSetupActionView::ListTables,
            CtGenSetupAction::Reflect(t) => CtGenSetupActionView::Reflect(t@),
            CtGenSetupAction::BuildRenderer { templates_dir, scripts_dir } => {
                CtGenSetupActionView::BuildRenderer {
                    templates_dir: templates_dir@,
                    scripts_dir: scripts_dir@,
                }
            },
            CtGenSetupAction::Fail(e) => CtGenSetupActionView::Fail(e@),
        }
    }
}

/// The preparation of one task.
#[derive(Debug)]
pub struct CtGenTaskSetup {
    profile: CtGenProfile,
    overrides: Option<CtGenProfileConfigOverrides>,
    context_dir: String,
    table: Option<String>,
    env_var: String,
    dsn: String,
    target_dir: String,
    database: String,
    schema: Option<CtGenSchema>,
    separator: String,
    stage: CtGenSetupStage,
}

/// The model of a [`CtGenTaskSetup`] in contracts.
pub struct CtGenTaskSetupView {
    pub profile: CtGenProfileView,
    pub overrides: Option<CtGenProfileConfigOverridesView>,
    pub context_dir: Seq<char>,
    /// The subject table that the task was asked for.
    pub table: Option<Seq<char>>,
    /// The environment variable that is in force.
    pub env_var: Seq<char>,
    /// The connection string, once it is known; empty before.
    pub dsn: Seq<char>,
    /// The directory to write below.
    pub target_dir: Seq<char>,
    /// The database that the connection is bound to, once it stands.
    pub database: Seq<char>,
    /// The reflected schema, once it was taken.
    pub schema: Option<CtGenSchema>,
    /// The platform's path separator.
    pub separator: Seq<char>,
    pub stage: CtGenSetupStage,
}

impl View for CtGenTaskSetup {
    type V = CtGenTaskSetupView;

    closed spec fn view(&self) -> CtGenTaskSetupView {
        CtGenTaskSetupView {
            profile: self.profile@,
            overrides: opt_overrides(self.overrides),
            context_dir: self.context_dir@,
            table: opt_text(self.table),
            env_var: self.env_var@,
            dsn: self.dsn@,
            target_dir: self.target_dir@,
            database: self.database@,
            schema: self.schema,
            separator: self.separator@,
            stage: self.stage,
        }
    }
}

/// The override of the environment file, if there is one.
pub open spec fn given_env_file(o: Option<CtGenProfileConfigOverridesView>) -> Option<Seq<char>> {
    match o {
        Some(v) => v.env_file,
        None => None,
    }
}

/// The override of the environment variable, if there is one.
pub open spec fn given_env_var(o: Option<CtGenProfileConfigOverridesView>) -> Option<Seq<char>> {
    match o {
        Some(v) => v.env_var,
        None => None,
    }
}

/// The override of the connection string, if there is one.
pub open spec fn given_dsn(o: Option<CtGenProfileConfigOverridesView>) -> Option<Seq<char>> {
    match o {
        Some(v) => v.dsn,
        None => None,
    }
}

/// The override of the output directory, if there is one.
pub open spec fn given_target_dir(o: Option<CtGenProfileConfigOverridesView>) -> Option<Seq<char>> {
    match o {
        Some(v) => v.target_dir,
        None => None,
    }
}

impl CtGenTaskSetupView {
    /// This preparation, failed with `error`.
    pub open spec fn fail(self, error: CtGenErrorView) -> (CtGenTaskSetupView, CtGenSetupActionView) {
        (
            CtGenTaskSetupView { stage: CtGenSetupStage::Failed, ..self },
            CtGenSetupActionView::Fail(error),
        )
    }

    /// The step after the connection string `dsn` is known: to create the
    /// target directory, or, where the output directory directive is empty
    /// or a dot, to probe the context directory, which then is the target
    /// directory.
    pub open spec fn locate(self, dsn: Seq<char>) -> (CtGenTaskSetupView, CtGenSetupActionView) {
        if is_here(self.target_dir) {
            (
                CtGenTaskSetupView {
                    dsn,
                    target_dir: self.context_dir,
                    stage: CtGenSetupStage::ProbeDir,
                    ..self
                },
                CtGenSetupActionView::ProbeDir(self.context_dir),
            )
        } else {
            let full = dir_spec(self.context_dir, self.separator, self.target_dir);
            (
                CtGenTaskSetupView {
                    dsn,
                    target_dir: full,
                    stage: CtGenSetupStage::CreateDir,
                    ..self
                },
                CtGenSetupActionView::CreateDir(full),
            )
        }
    }

    /// The step to the template engine.
    pub open spec fn build(self) -> (CtGenTaskSetupView, CtGenSetupActionView) {
        (
            CtGenTaskSetupView { stage: CtGenSetupStage::Renderer, ..self },
            CtGenSetupActionView::BuildRenderer {
                templates_dir: self.profile.templates_dir(self.separator),
                scripts_dir: self.profile.scripts_dir(self.separator),
            },
        )
    }

    /// The step after the subject table is known to exist, or to be open:
    /// to fail where the profile lists a prompt that it does not define;
    /// to reflect the schema where a database is bound and a subject table
    /// is given; else to build the template engine.
    pub open spec fn survey(self) -> (CtGenTaskSetupView, CtGenSetupActionView) {
        let missing = self.profile.first_undeclared_prompt();
        if missing < self.profile.profile.prompts.len() {
            self.fail(
                CtGenErrorView::validation(undeclared_prompt(self.profile.profile.prompts[missing])),
            )
        } else if self.database.len() > 0 && self.table is Some {
            (
                CtGenTaskSetupView { stage: CtGenSetupStage::Reflect, ..self },
                CtGenSetupActionView::Reflect(self.table->0),
            )
        } else {
            self.build()
        }
    }

    /// The preparation as it begins, and its first step. A connection
    /// string that is set is used as it is, and neither the environment
    /// file nor the environment variable is looked at. Without one, the
    /// environment file has to be set, and is loaded first.
    pub open spec fn begin(
        profile: CtGenProfileView,
        context_dir: Seq<char>,
        table: Option<Seq<char>>,
        overrides: Option<CtGenProfileConfigOverridesView>,
        separator: Seq<char>,
    ) -> (CtGenTaskSetupView, CtGenSetupActionView) {
        let env_file = effective(given_env_file(overrides), profile.profile.env_file);
        let dsn = effective(given_dsn(overrides), profile.profile.dsn);
        let start = CtGenTaskSetupView {
            profile,
            overrides,
            context_dir,
            table,
            env_var: effective(given_env_var(overrides), profile.profile.env_var),
            dsn: Seq::empty(),
            target_dir: effective(given_target_dir(overrides), profile.profile.target_dir),
            database: Seq::empty(),
            schema: None,
            separator,
            stage: CtGenSetupStage::EnvFile,
        };
        if dsn.len() > 0 {
            start.locate(dsn)
        } else if env_file.len() == 0 {
            start.fail(
                CtGenErrorView::validation(
                    "Invalid env-file specified. Either valid DSN or valid env-file is required."@,
                ),
            )
        } else {
            (start, CtGenSetupActionView::LoadEnvFile(env_file))
        }
    }

    /// What a failure of the outside work is reported as, by the stage at
    /// which it came.
    pub open spec fn failure(self, message: Seq<char>) -> CtGenErrorView {
        match self.stage {
            CtGenSetupStage::EnvFile => CtGenErrorView::validation(
                "Invalid env file specified: "@ + message,
            ),
            CtGenSetupStage::EnvVar => CtGenErrorView::validation(
                "Invalid env var specified: "@ + message,
            ),
            CtGenSetupStage::CreateDir => CtGenErrorView::init(
                "Cannot create config directory: "@ + message,
            ),
            CtGenSetupStage::ProbeDir => CtGenErrorView::validation(
                "Invalid target-dir specified."@,
            ),
            CtGenSetupStage::Connect => CtGenErrorView::database(message),
            CtGenSetupStage::ListTables => CtGenErrorView::database(message),
            CtGenSetupStage::Reflect => CtGenErrorView::database(message),
            CtGenSetupStage::Renderer => CtGenErrorView::runtime(message),
            CtGenSetupStage::Failed => CtGenErrorView::runtime(message),
        }
    }

    /// The preparation after `event`, and the next step.
    pub open spec fn step(self, event: CtGenSetupEventView) -> (
        CtGenTaskSetupView,
        CtGenSetupActionView,
    ) {
        match (self.stage, event) {
            (_, CtGenSetupEventView::Failed(message)) => self.fail(self.failure(message)),
            (CtGenSetupStage::EnvFile, CtGenSetupEventView::EnvFileLoaded) => {
                if self.env_var.len() == 0 {
                    self.fail(
                        CtGenErrorView::validation(
                            "Invalid env-var specified. Either valid DSN or valid env-file and env-var is required."@,
                        ),
                    )
                } else {
                    (
                        CtGenTaskSetupView { stage: CtGenSetupStage::EnvVar, ..self },
                        CtGenSetupActionView::ReadEnvVar(self.env_var),
                    )
                }
            },
            (CtGenSetupStage::EnvVar, CtGenSetupEventView::EnvVarRead(value)) => self.locate(
                value,
            ),
            (CtGenSetupStage::CreateDir, CtGenSetupEventView::DirCreated) => (
                CtGenTaskSetupView { stage: CtGenSetupStage::ProbeDir, ..self },
                CtGenSetupActionView::ProbeDir(self.target_dir),
            ),
            (CtGenSetupStage::ProbeDir, CtGenSetupEventView::DirProbed { exists, writable }) => {
                if exists && writable {
                    (
                        CtGenTaskSetupView { stage: CtGenSetupStage::Connect, ..self },
                        CtGenSetupActionView::Connect(self.dsn),
                    )
                } else {
                    self.fail(CtGenErrorView::validation("Invalid target-dir specified."@))
                }
            },
            (CtGenSetupStage::Connect, CtGenSetupEventView::Connected(database)) => {
                let bound = CtGenTaskSetupView { database, ..self };
                if self.table is Some {
                    (
                        CtGenTaskSetupView { stage: CtGenSetupStage::ListTables, ..bound },
                        CtGenSetupActionView::ListTables,
                    )
                } else {
                    bound.survey()
                }
            },
            (CtGenSetupStage::ListTables, CtGenSetupEventView::TablesListed(tables)) => {
                if self.table is Some && tables.contains(self.table->0) {
                    self.survey()
                } else {
                    self.fail(CtGenErrorView::validation("Table does not exist"@))
                }
            },
            (CtGenSetupStage::Reflect, CtGenSetupEventView::SchemaReflected(schema)) => {
                if self.table is Some && schema.table is Some {
                    CtGenTaskSetupView { schema: Some(schema), ..self }.build()
                } else {
                    self.fail(
                        CtGenErrorView::validation(
                            table_not_found(
                                match self.table {
                                    Some(table) => table,
                                    None => Seq::empty(),
                                },
                            ),
                        ),
                    )
                }
            },
            _ => self.fail(CtGenErrorView::runtime("Unexpected event for this stage."@)),
        }
    }
}

impl CtGenTaskSetup {
    /// No id of the profile is defined twice.
    pub closed spec fn wf(&self) -> bool {
        self.profile.wf()
    }

    /// How far the preparation has come.
    pub fn stage(&self) -> (r: CtGenSetupStage)
        ensures
            r == self@.stage,
    {
        self.stage
    }

    /// Ends the preparation with `error`.
    fn fail(&mut self, error: CtGenError) -> (r: CtGenSetupAction)
        ensures
            final(self).wf() == old(self).wf(),
            (final(self)@, r@) == old(self)@.fail(error@),
    {
        self.stage = CtGenSetupStage::Failed;
        CtGenSetupAction::Fail(error)
    }

    /// Takes `dsn` as the connection string and turns to the target directory.
    fn locate(&mut self, dsn: String) -> (r: CtGenSetupAction)
        ensures
            final(self).wf() == old(self).wf(),
            (final(self)@, r@) == old(self)@.locate(dsn@),
    {
        let full = resolve_dir(
            self.context_dir.as_str(),
            self.separator.as_str(),
            self.target_dir.as_str(),
        );
        let create = !crate::paths::here(self.target_dir.as_str());
        self.dsn = dsn;
        self.target_dir = full.clone();
        if create {
            self.stage = CtGenSetupStage::CreateDir;
            CtGenSetupAction::CreateDir(full)
        } else {
            self.stage = CtGenSetupStage::ProbeDir;
            CtGenSetupAction::ProbeDir(full)
        }
    }

    /// Turns to the template engine.
    fn build(&mut self) -> (r: CtGenSetupAction)
        ensures
            final(self).wf() == old(self).wf(),
            (final(self)@, r@) == old(self)@.build(),
    {
        self.stage = CtGenSetupStage::Renderer;
        CtGenSetupAction::BuildRenderer {
            templates_dir: self.profile.templates_dir_with(self.separator.as_str()),
            scripts_dir: self.profile.scripts_dir_with(self.separator.as_str()),
        }
    }

    /// Checks the prompts of the profile and turns to the schema, or to the
    /// template engine.
    fn survey(&mut self) -> (r: CtGenSetupAction)
        ensures
            final(self).wf() == old(self).wf(),
            (final(self)@, r@) == old(self)@.survey(),
    {
        let ids = self.profile.prompts();
        let missing = self.profile.first_undeclared_prompt();
        if missing < ids.len() {
            let message = "Invalid prompt `".to_owned().concat(ids[missing].as_str()).concat(
                "`. Make sure all included prompts are actually declared.",
            );
            assert(ids@[missing as int]@ == self@.profile.profile.prompts[missing as int]);
            return self.fail(CtGenError::ValidationError(message));
        }
        if !self.database.as_str().is_empty() {
            match &self.table {
                Some(table) => {
                    let subject = table.clone();
                    self.stage = CtGenSetupStage::Reflect;
                    return CtGenSetupAction::Reflect(subject);
                },
                None => {},
            }
        }
        self.build()
    }

    /// Begins the preparation of a task on `profile` in the directory
    /// `context_dir`, for the subject table `table` if one is given, with
    /// `profile_overrides` in force over the directives of the profile.
    pub fn begin(
        profile: CtGenProfile,
        context_dir: &str,
        table: Option<&str>,
        profile_overrides: Option<CtGenProfileConfigOverrides>,
    ) -> (r: (CtGenTaskSetup, CtGenSetupAction))
        requires
            profile.wf(),
        ensures
            r.0.wf(),
            exists|separator: Seq<char>|
                separator.len() == 1 && (r.0@, r.1@) == #[trigger] CtGenTaskSetupView::begin(
                    profile@,
                    context_dir@,
                    opt_str(table),
                    opt_overrides(profile_overrides),
                    separator,
                ),
    {
        let separator = separator();
        let r = Self::begin_with(profile, context_dir, table, profile_overrides, separator);
        assert((r.0@, r.1@) == CtGenTaskSetupView::begin(
            profile@,
            context_dir@,
            opt_str(table),
            opt_overrides(profile_overrides),
            separator@,
        ));
        r
    }

    /// Begins the preparation of a task, with `separator` between the parts
    /// of a path.
    pub fn begin_with(
        profile: CtGenProfile,
        context_dir: &str,
        table: Option<&str>,
        profile_overrides: Option<CtGenProfileConfigOverrides>,
        separator: &str,
    ) -> (r: (CtGenTaskSetup, CtGenSetupAction))
        requires
            profile.wf(),
        ensures
            r.0.wf(),
            (r.0@, r.1@) == CtGenTaskSetupView::begin(
                profile@,
                context_dir@,
                opt_str(table),
                opt_overrides(profile_overrides),
                separator@,
            ),
    {
        let config = profile.configuration();
        let (env_file, env_var, dsn, target_dir) = match &profile_overrides {
            Some(o) => (
                resolve_directive(o.env_file(), config.env_file()),
                resolve_directive(o.env_var(), config.env_var()),
                resolve_directive(o.dsn(), config.dsn()),
                resolve_directive(o.target_dir(), config.target_dir()),
            ),
            None => (
                config.env_file().to_owned(),
                config.env_var().to_owned(),
                config.dsn().to_owned(),
                config.target_dir().to_owned(),
            ),
        };
        let mut setup = CtGenTaskSetup {
            profile,
            overrides: profile_overrides,
            context_dir: context_dir.to_owned(),
            table: crate::text::own_opt(table),
            env_var,
            dsn: String::new(),
            target_dir,
            database: String::new(),
            schema: None,
            separator: separator.to_owned(),
            stage: CtGenSetupStage::EnvFile,
        };
        let action = if !dsn.as_str().is_empty() {
            setup.locate(dsn)
        } else if env_file.as_str().is_empty() {
            setup.fail(
                CtGenError::ValidationError(
                    "Invalid env-file specified. Either valid DSN or valid env-file is required.".to_owned(),
                ),
            )
        } else {
            CtGenSetupAction::LoadEnvFile(env_file)
        };
        (setup, action)
    }

    /// The error that a failure of the outside work is reported as.
    fn failure(&self, message: &str) -> (r: CtGenError)
        ensures
            r@ == self@.failure(message@),
    {
        match self.stage {
            CtGenSetupStage::EnvFile => CtGenError::validation(
                "Invalid env file specified: ",
                message,
            ),
            CtGenSetupStage::EnvVar => CtGenError::validation(
                "Invalid env var specified: ",
                message,
            ),
            CtGenSetupStage::CreateDir => CtGenError::init(
                "Cannot create config directory: ",
                message,
            ),
            CtGenSetupStage::ProbeDir => CtGenError::ValidationError(
                "Invalid target-dir specified.".to_owned(),
            ),
            CtGenSetupStage::Connect => CtGenError::database(message),
            CtGenSetupStage::ListTables => CtGenError::database(message),
            CtGenSetupStage::Reflect => CtGenError::database(message),
            CtGenSetupStage::Renderer => CtGenError::RuntimeError(message.to_owned()),
            CtGenSetupStage::Failed => CtGenError::RuntimeError(message.to_owned()),
        }
    }

    /// Takes note of `event` and says what to do next.
    pub fn advance(&mut self, event: CtGenSetupEvent) -> (r: CtGenSetupAction)
        ensures
            final(self).wf() == old(self).wf(),
            (final(self)@, r@) == old(self)@.step(event@),
    {
        match event {
            CtGenSetupEvent::Failed(message) => {
                let error = self.failure(message.as_str());
                self.fail(error)
            },
            CtGenSetupEvent::EnvFileLoaded => {
                if self.stage == CtGenSetupStage::EnvFile {
                    if self.env_var.as_str().is_empty() {
                        self.fail(
                            CtGenError::ValidationError(
                                "Invalid env-var specified. Either valid DSN or valid env-file and env-var is required.".to_owned(),
                            ),
                        )
                    } else {
                        self.stage = CtGenSetupStage::EnvVar;
                        CtGenSetupAction::ReadEnvVar(self.env_var.clone())
                    }
                } else {
                    self.unexpected()
                }
            },
            CtGenSetupEvent::EnvVarRead(value) => {
                if self.stage == CtGenSetupStage::EnvVar {
                    self.locate(value)
                } else {
                    self.unexpected()
                }
            },
            CtGenSetupEvent::DirCreated => {
                if self.stage == CtGenSetupStage::CreateDir {
                    self.stage = CtGenSetupStage::ProbeDir;
                    CtGenSetupAction::ProbeDir(self.target_dir.clone())
                } else {
                    self.unexpected()
                }
            },
            CtGenSetupEvent::DirProbed { exists, writable } => {
                if self.stage == CtGenSetupStage::ProbeDir {
                    if exists && writable {
                        self.stage = CtGenSetupStage::Connect;
                        CtGenSetupAction::Connect(self.dsn.clone())
                    } else {
                        self.fail(
                            CtGenError::ValidationError("Invalid target-dir specified.".to_owned()),
                        )
                    }
                } else {
                    self.unexpected()
                }
            },
            CtGenSetupEvent::Connected(database) => {
                if self.stage == CtGenSetupStage::Connect {
                    self.database = database;
                    if self.table.is_some() {
                        self.stage = CtGenSetupStage::ListTables;
                        CtGenSetupAction::ListTables
                    } else {
                        self.survey()
                    }
                } else {
                    self.unexpected()
                }
            },
            CtGenSetupEvent::TablesListed(tables) => {
                if self.stage == CtGenSetupStage::ListTables {
                    let known = match &self.table {
                        Some(table) => contains_text(&tables, table.as_str()),
                        None => false,
                    };
                    if known {
                        self.survey()
                    } else {
                        self.fail(CtGenError::ValidationError("Table does not exist".to_owned()))
                    }
                } else {
                    self.unexpected()
                }
            },
            CtGenSetupEvent::SchemaReflected(schema) => {
                if self.stage == CtGenSetupStage::Reflect {
                    if self.table.is_some() && schema.table.is_some() {
                        self.schema = Some(schema);
                        self.build()
                    } else {
                        let name = match &self.table {
                            Some(table) => table.clone(),
                            None => String::new(),
                        };
                        self.fail(CtGenError::validation("Table not found: ", name.as_str()))
                    }
                } else {
                    self.unexpected()
                }
            },
        }
    }

    /// Ends the preparation on an event that the stage does not wait for.
    fn unexpected(&mut self) -> (r: CtGenSetupAction)
        ensures
            final(self).wf() == old(self).wf(),
            (final(self)@, r@) == old(self)@.fail(
                CtGenErrorView::runtime("Unexpected event for this stage."@),
            ),
    {
        self.fail(CtGenError::RuntimeError("Unexpected event for this stage.".to_owned()))
    }

    /// The task that was prepared, with `renderer` as its template engine.
    /// Fails unless the preparation has come to the template engine.
    pub fn finish(self, renderer: handlebars::Handlebars<'static>) -> (r: Result<
        CtGenTask,
        CtGenError,
    >)
        requires
            self.wf(),
        ensures
            self@.stage != CtGenSetupStage::Renderer ==> r is Err && r->Err_0@
                == CtGenErrorView::runtime("The preparation of the task is not complete."@),
            self@.stage == CtGenSetupStage::Renderer ==> (r is Ok
                <==> self@.profile.first_undeclared_prompt() == self@.profile.profile.prompts.len()
                && (starts_with_context(self@.database, self@.table, self@.schema)
                ==> self@.schema->0.table is Some)),
            r is Ok ==> r->Ok_0.wf() && r->Ok_0.engine() == renderer && r->Ok_0@
                == CtGenTaskView::initial(
                self@.profile,
                self@.context_dir,
                self@.table,
                self@.overrides,
                self@.target_dir,
                self@.database,
                self@.schema,
            ),
    {
        if self.stage != CtGenSetupStage::Renderer {
            return Err(
                CtGenError::RuntimeError("The preparation of the task is not complete.".to_owned()),
            );
        }
        let CtGenTaskSetup {
            profile,
            overrides,
            context_dir,
            table,
            env_var: _,
            dsn: _,
            target_dir,
            database,
            schema,
            separator: _,
            stage: _,
        } = self;
        let subject = as_opt_str(&table);
        let r = CtGenTask::new(
            profile,
            context_dir.as_str(),
            subject,
            overrides,
            target_dir.as_str(),
            database.as_str(),
            schema,
            renderer,
        );
        r
    }
}

/// A connection string that is set wins: the preparation begins with the
/// target directory, whatever the environment file and the environment
/// variable are, set or not, and once the directory is found to exist and
/// to be writable, it connects with that connection string.
pub proof fn lemma_dsn_wins(
    profile: CtGenProfileView,
    context_dir: Seq<char>,
    table: Option<Seq<char>>,
    overrides: Option<CtGenProfileConfigOverridesView>,
    separator: Seq<char>,
)
    requires
        effective(given_dsn(overrides), profile.profile.dsn).len() > 0,
    ensures
        ({
            let dsn = effective(given_dsn(overrides), profile.profile.dsn);
            let (state, action) = CtGenTaskSetupView::begin(
                profile,
                context_dir,
                table,
                overrides,
                separator,
            );
            &&& state.dsn == dsn
            &&& (action is CreateDir || action is ProbeDir)
            &&& (state.stage == CtGenSetupStage::CreateDir ==> state.step(
                CtGenSetupEventView::DirCreated,
            ).0.step(CtGenSetupEventView::DirProbed { exists: true, writable: true }).1
                == CtGenSetupActionView::Connect(dsn))
            &&& (state.stage == CtGenSetupStage::ProbeDir ==> state.step(
                CtGenSetupEventView::DirProbed { exists: true, writable: true },
            ).1 == CtGenSetupActionView::Connect(dsn))
        }),
{
}

/// Without a connection string, the environment file is asked for before
/// the environment variable: where the file is not set the preparation
/// fails at once, and where the variable is not set it fails only after
/// the file was loaded.
pub proof fn lemma_env_file_before_env_var(
    profile: CtGenProfileView,
    context_dir: Seq<char>,
    table: Option<Seq<char>>,
    overrides: Option<CtGenProfileConfigOverridesView>,
    separator: Seq<char>,
)
    requires
        effective(given_dsn(overrides), profile.profile.dsn).len() == 0,
    ensures
        ({
            let env_file = effective(given_env_file(overrides), profile.profile.env_file);
            let env_var = effective(given_env_var(overrides), profile.profile.env_var);
            let (state, action) = CtGenTaskSetupView::begin(
                profile,
                context_dir,
                table,
                overrides,
                separator,
            );
            &&& env_file.len() == 0 ==> action is Fail && state.stage == CtGenSetupStage::Failed
            &&& env_file.len() > 0 ==> action == CtGenSetupActionView::LoadEnvFile(env_file)
            &&& env_file.len() > 0 && env_var.len() == 0 ==> state.step(
                CtGenSetupEventView::EnvFileLoaded,
            ).1 is Fail
            &&& env_file.len() > 0 && env_var.len() > 0 ==> state.step(
                CtGenSetupEventView::EnvFileLoaded,
            ).1 == CtGenSetupActionView::ReadEnvVar(env_var)
        }),
{
}

} // verus!
