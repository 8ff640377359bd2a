use vstd::prelude::*;
use crate::config::{ConfigModel, LaunchConfig, Shell, opt_path_view};
use crate::logs::{fallback_logs_dir, log_file_in, log_file_name, logs_name};
use crate::path::{AppPath, parent_of};

verus! {

pub open spec fn python_name() -> Seq<char> {
    seq!['p', 'y', 't', 'h', 'o', 'n']
}

pub open spec fn staging_name() -> Seq<char> {
    seq!['_', 'u', 'p', '_']
}

pub open spec fn script_name() -> Seq<char> {
    seq!['s', 't', 'a', 'r', 't', '_', 'b', 'a', 'c', 'k', 'e', 'n', 'd', '.', 'b', 'a', 't']
}

/// `<app_dir>/python/start_backend.bat`
pub open spec fn primary_script(app_dir: Seq<Seq<char>>) -> Seq<Seq<char>> {
    app_dir.push(python_name()).push(script_name())
}

/// `<app_dir>/_up_/python/start_backend.bat`, where an update is staged.
pub open spec fn fallback_script(app_dir: Seq<Seq<char>>) -> Seq<Seq<char>> {
    app_dir.push(staging_name()).push(python_name()).push(script_name())
}

/// How a bootstrap ended.
#[derive(Clone, Copy, Debug, PartialEq, Eq, Structural)]
pub enum Outcome {
    /// The script was launched; `logged` tells whether its output goes to a log.
    Started { logged: bool },
    /// The executable's own location could not be determined.
    NoExecutable,
    /// Neither the primary nor the fallback script exists.
    ScriptNotFound,
    /// The operating system refused to start the script.
    SpawnFailed,
}

/// What to hand the operating system to start the backend.
#[derive(Debug)]
pub struct SpawnRequest {
    pub shell: Shell,
    pub script: AppPath,
    pub work_dir: AppPath,
    /// Whether the child is started without a console window.
    pub hide_window: bool,
    /// File that receives the child's standard output and standard error.
    pub log_file: Option<AppPath>,
}

/// The mathematical model of a [`SpawnRequest`].
pub struct SpawnModel {
    pub shell: Shell,
    pub script: Seq<Seq<char>>,
    pub work_dir: Seq<Seq<char>>,
    pub hide_window: bool,
    pub log_file: Option<Seq<Seq<char>>>,
}

impl View for SpawnRequest {
    type V = SpawnModel;

    open spec fn view(&self) -> SpawnModel {
        SpawnModel {
            shell: self.shell,
            script: self.script@,
            work_dir: self.work_dir@,
            hide_window: self.hide_window,
            log_file: opt_path_view(self.log_file),
        }
    }
}

/// The work the host performs next on behalf of the bootstrap.
#[derive(Debug)]
pub enum Action {
    /// Wait this many seconds, then report `Slept`.
    Sleep { secs: u64 },
    /// Report the running executable's path with `ExeLocated`.
    QueryExe,
    /// Report with `Checked` whether this file exists.
    CheckExists { path: AppPath },
    /// Report the application's per-user log directory with `DataDir`.
    QueryDataDir,
    /// Create this directory and its parents; report with `DirCreated`.
    CreateDir { path: AppPath },
    /// Open this file for appending, creating it; report with `LogOpened`.
    OpenAppend { path: AppPath },
    /// Start the child process; report with `Spawned`.
    Spawn { req: SpawnRequest },
    /// Nothing more to do.
    Finish { outcome: Outcome },
}

/// The mathematical model of an [`Action`].
pub enum ActionModel {
    Sleep { secs: nat },
    QueryExe,
    CheckExists { path: Seq<Seq<char>> },
    QueryDataDir,
    CreateDir { path: Seq<Seq<char>> },
    OpenAppend { path: Seq<Seq<char>> },
    Spawn { req: SpawnModel },
    Finish { outcome: Outcome },
}

impl View for Action {
    type V = ActionModel;

    open spec fn view(&self) -> ActionModel {
        match self {
            Action::Sleep { secs } => ActionModel::Sleep { secs: *secs as nat },
            Action::QueryExe => ActionModel::QueryExe,
            Action::CheckExists { path } => ActionModel::CheckExists { path: path@ },
            Action::QueryDataDir => ActionModel::QueryDataDir,
            Action::CreateDir { path } => ActionModel::CreateDir { path: path@ },
            Action::OpenAppend { path } => ActionModel::OpenAppend { path: path@ },
            Action::Spawn { req } => ActionModel::Spawn { req: req@ },
            Action::Finish { outcome } => ActionModel::Finish { outcome: *outcome },
        }
    }
}

/// The result of an action, as the host reports it.
#[derive(Debug)]
pub enum Event {
    Slept,
    ExeLocated { exe: Option<AppPath> },
    Checked { exists: bool },
    DataDir { dir: Option<AppPath> },
    DirCreated { created: bool },
    LogOpened { opened: bool },
    Spawned { spawned: bool },
}

/// The mathematical model of an [`Event`].
pub enum EventModel {
    Slept,
    ExeLocated { exe: Option<Seq<Seq<char>>> },
    Checked { exists: bool },
    DataDir { dir: Option<Seq<Seq<char>>> },
    DirCreated { created: bool },
    LogOpened { opened: bool },
    Spawned { spawned: bool },
}

impl View for Event {
    type V = EventModel;

    open spec fn view(&self) -> EventModel {
        match self {
            Event::Slept => EventModel::Slept,
            Event::ExeLocated { exe } => EventModel::ExeLocated { exe: opt_path_view(*exe) },
            Event::Checked { exists } => EventModel::Checked { exists: *exists },
            Event::DataDir { dir } => EventModel::DataDir { dir: opt_path_view(*dir) },
            Event::DirCreated { created } => EventModel::DirCreated { created: *created },
            Event::LogOpened { opened } => EventModel::LogOpened { opened: *opened },
            Event::Spawned { spawned } => EventModel::Spawned { spawned: *spawned },
        }
    }
}

/// Where a bootstrap stands.
#[allow(inconsistent_fields)]
pub enum Stage {
    Warmup,
    LocateExe,
    ProbePrimary { app_dir: AppPath },
    ProbeFallback { app_dir: AppPath },
    ResolveLogDir { app_dir: AppPath, script: AppPath },
    MakeLogDir { script: AppPath, log_dir: AppPath },
    OpenLog { script: AppPath, log_file: AppPath },
    Launch { script: AppPath, log_file: Option<AppPath> },
    Done { outcome: Outcome },
}

/// The mathematical model of a [`Stage`].
#[allow(inconsistent_fields)]
pub enum StageModel {
    Warmup,
    LocateExe,
    ProbePrimary { app_dir: Seq<Seq<char>> },
    ProbeFallback { app_dir: Seq<Seq<char>> },
    ResolveLogDir { app_dir: Seq<Seq<char>>, script: Seq<Seq<char>> },
    MakeLogDir { script: Seq<Seq<char>>, log_dir: Seq<Seq<char>> },
    OpenLog { script: Seq<Seq<char>>, log_file: Seq<Seq<char>> },
    Launch { script: Seq<Seq<char>>, log_file: Option<Seq<Seq<char>>> },
    Done { outcome: Outcome },
}

impl View for Stage {
    type V = StageModel;

    open spec fn view(&self) -> StageModel {
        match self {
            Stage::Warmup => StageModel::Warmup,
            Stage::LocateExe => StageModel::LocateExe,
            Stage::ProbePrimary { app_dir } => StageModel::ProbePrimary { app_dir: app_dir@ },
            Stage::ProbeFallback { app_dir } => StageModel::ProbeFallback { app_dir: app_dir@ },
            Stage::ResolveLogDir { app_dir, script } => StageModel::ResolveLogDir {
                app_dir: app_dir@,
                script: script@,
            },
            Stage::MakeLogDir { script, log_dir } => StageModel::MakeLogDir {
                script: script@,
                log_dir: log_dir@,
            },
            Stage::OpenLog { script, log_file } => StageModel::OpenLog {
                script: script@,
                log_file: log_file@,
            },
            Stage::Launch { script, log_file } => StageModel::Launch {
                script: script@,
                log_file: opt_path_view(*log_file),
            },
            Stage::Done { outcome } => StageModel::Done { outcome: *outcome },
        }
    }
}

/// The request that starts `script`: through the configured shell, from the
/// script's own directory, without a console window unless one is wanted.
pub open spec fn spawn_request_spec(
    c: ConfigModel,
    script: Seq<Seq<char>>,
    log_file: Option<Seq<Seq<char>>>,
) -> SpawnModel {
    SpawnModel {
        shell: c.shell,
        script,
        work_dir: script.drop_last(),
        hide_window: !c.show_console,
        log_file,
    }
}

/// The work that a stage asks for.
pub open spec fn action_spec(c: ConfigModel, s: StageModel) -> ActionModel {
    match s {
        StageModel::Warmup => ActionModel::Sleep { secs: c.delay_secs },
        StageModel::LocateExe => ActionModel::QueryExe,
        StageModel::ProbePrimary { app_dir } => ActionModel::CheckExists {
            path: primary_script(app_dir),
        },
        StageModel::ProbeFallback { app_dir } => ActionModel::CheckExists {
            path: fallback_script(app_dir),
        },
        StageModel::ResolveLogDir { .. } => ActionModel::QueryDataDir,
        StageModel::MakeLogDir { log_dir, .. } => ActionModel::CreateDir { path: log_dir },
        StageModel::OpenLog { log_file, .. } => ActionModel::OpenAppend { path: log_file },
        StageModel::Launch { script, log_file } => ActionModel::Spawn {
            req: spawn_request_spec(c, script, log_file),
        },
        StageModel::Done { outcome } => ActionModel::Finish { outcome },
    }
}

/// The stage after a script has been found in `app_dir`.
pub open spec fn after_found(
    c: ConfigModel,
    app_dir: Seq<Seq<char>>,
    script: Seq<Seq<char>>,
) -> StageModel {
    if !c.enable_logging {
        StageModel::Launch { script, log_file: None }
    } else {
        match c.log_dir_override {
            Some(d) => StageModel::MakeLogDir { script, log_dir: d },
            None => StageModel::ResolveLogDir { app_dir, script },
        }
    }
}

/// The stage that follows `s` when the host reports `e`. An event that does
/// not answer the stage's action leaves the stage as it is.
pub open spec fn step_spec(c: ConfigModel, s: StageModel, e: EventModel) -> StageModel {
    match (s, e) {
        (StageModel::Warmup, EventModel::Slept) => StageModel::LocateExe,
        (StageModel::LocateExe, EventModel::ExeLocated { exe }) => match exe {
            Some(p) => match parent_of(p) {
                Some(d) => StageModel::ProbePrimary { app_dir: d },
                None => StageModel::Done { outcome: Outcome::NoExecutable },
            },
            None => StageModel::Done { outcome: Outcome::NoExecutable },
        },
        (StageModel::ProbePrimary { app_dir }, EventModel::Checked { exists }) => if exists {
            after_found(c, app_dir, primary_script(app_dir))
        } else {
            StageModel::ProbeFallback { app_dir }
        },
        (StageModel::ProbeFallback { app_dir }, EventModel::Checked { exists }) => if exists {
            after_found(c, app_dir, fallback_script(app_dir))
        } else {
            StageModel::Done { outcome: Outcome::ScriptNotFound }
        },
        (StageModel::ResolveLogDir { app_dir, script }, EventModel::DataDir { dir }) => {
            let log_dir = match dir {
                Some(d) => d,
                None => app_dir.push(logs_name()),
            };
            StageModel::MakeLogDir { script, log_dir }
        },
        (StageModel::MakeLogDir { script, log_dir }, EventModel::DirCreated { created }) => {
            if created {
                StageModel::OpenLog { script, log_file: log_dir.push(log_file_name()) }
            } else {
                StageModel::Launch { script, log_file: None }
            }
        },
        (StageModel::OpenLog { script, log_file }, EventModel::LogOpened { opened }) => {
            StageModel::Launch {
                script,
                log_file: if opened {
                    Some(log_file)
                } else {
                    None
                },
            }
        },
        (StageModel::Launch { log_file, .. }, EventModel::Spawned { spawned }) => {
            StageModel::Done {
                outcome: if spawned {
                    Outcome::Started { logged: log_file is Some }
                } else {
                    Outcome::SpawnFailed
                },
            }
        },
        _ => s,
    }
}

fn dup_opt(p: &Option<AppPath>) -> (r: Option<AppPath>)
    ensures
        opt_path_view(r) == opt_path_view(*p),
{
    match p {
        Some(q) => Some(q.duplicate()),
        None => None,
    }
}

/// `<app_dir>/python/start_backend.bat`
pub fn primary_script_in(app_dir: &AppPath) -> (r: AppPath)
    ensures
        r@ == primary_script(app_dir@),
{
    let r = app_dir.join("python").join("start_backend.bat");
    proof {
        reveal_strlit("python");
        reveal_strlit("start_backend.bat");
        assert("python"@ =~= python_name());
        assert("start_backend.bat"@ =~= script_name());
    }
    r
}

/// `<app_dir>/_up_/python/start_backend.bat`
pub fn fallback_script_in(app_dir: &AppPath) -> (r: AppPath)
    ensures
        r@ == fallback_script(app_dir@),
{
    let r = app_dir.join("_up_").join("python").join("start_backend.bat");
    proof {
        reveal_strlit("_up_");
        reveal_strlit("python");
        reveal_strlit("start_backend.bat");
        assert("_up_"@ =~= staging_name());
        assert("python"@ =~= python_name());
        assert("start_backend.bat"@ =~= script_name());
    }
    r
}

/// The request that starts `script` under configuration `c`.
pub fn spawn_request(c: &LaunchConfig, script: &AppPath, log_file: &Option<AppPath>) -> (r:
    SpawnRequest)
    requires
        script@.len() > 0,
    ensures
        r@ == spawn_request_spec(c@, script@, opt_path_view(*log_file)),
{
    let work_dir = match script.parent() {
        Some(d) => d,
        None => AppPath { parts: Vec::new() },
    };
    SpawnRequest {
        shell: c.shell,
        script: script.duplicate(),
        work_dir,
        hide_window: !c.show_console,
        log_file: dup_opt(log_file),
    }
}

/// Whether every path a stage holds names a file, not the empty path. Every
/// stage that [`next_stage`] produces has this property.
pub open spec fn stage_wf(s: StageModel) -> bool {
    match s {
        StageModel::ResolveLogDir { script, .. } => script.len() > 0,
        StageModel::MakeLogDir { script, .. } => script.len() > 0,
        StageModel::OpenLog { script, .. } => script.len() > 0,
        StageModel::Launch { script, .. } => script.len() > 0,
        _ => true,
    }
}

fn found(c: &LaunchConfig, app_dir: &AppPath, script: AppPath) -> (r: Stage)
    requires
        script@.len() > 0,
    ensures
        r@ == after_found(c@, app_dir@, script@),
{
    if !c.enable_logging {
        Stage::Launch { script, log_file: None }
    } else {
        match &c.log_dir_override {
            Some(d) => Stage::MakeLogDir { script, log_dir: d.duplicate() },
            None => Stage::ResolveLogDir { app_dir: app_dir.duplicate(), script },
        }
    }
}

/// The stage that follows `s` under configuration `c` when the host reports `e`.
pub fn next_stage(c: &LaunchConfig, s: &Stage, e: Event) -> (r: Stage)
    requires
        stage_wf(s@),
    ensures
        r@ == step_spec(c@, s@, e@),
        stage_wf(r@),
{
    match (s, e) {
        (Stage::Warmup, Event::Slept) => Stage::LocateExe,
        (Stage::LocateExe, Event::ExeLocated { exe }) => match exe {
            Some(p) => match p.parent() {
                Some(d) => Stage::ProbePrimary { app_dir: d },
                None => Stage::Done { outcome: Outcome::NoExecutable },
            },
            None => Stage::Done { outcome: Outcome::NoExecutable },
        },
        (Stage::ProbePrimary { app_dir }, Event::Checked { exists }) => if exists {
            found(c, app_dir, primary_script_in(app_dir))
        } else {
            Stage::ProbeFallback { app_dir: app_dir.duplicate() }
        },
        (Stage::ProbeFallback { app_dir }, Event::Checked { exists }) => if exists {
            found(c, app_dir, fallback_script_in(app_dir))
        } else {
            Stage::Done { outcome: Outcome::ScriptNotFound }
        },
        (Stage::ResolveLogDir { app_dir, script }, Event::DataDir { dir }) => {
            let log_dir = match dir {
                Some(d) => d,
                None => fallback_logs_dir(app_dir),
            };
            Stage::MakeLogDir { script: script.duplicate(), log_dir }
        },
        (Stage::MakeLogDir { script, log_dir }, Event::DirCreated { created }) => {
            if created {
                Stage::OpenLog { script: script.duplicate(), log_file: log_file_in(log_dir) }
            } else {
                Stage::Launch { script: script.duplicate(), log_file: None }
            }
        },
        (Stage::OpenLog { script, log_file }, Event::LogOpened { opened }) => {
            let log_file = if opened {
                Some(log_file.duplicate())
            } else {
                None
            };
            Stage::Launch { script: script.duplicate(), log_file }
        },
        (Stage::Launch { log_file, .. }, Event::Spawned { spawned }) => {
            let outcome = if spawned {
                Outcome::Started { logged: log_file.is_some() }
            } else {
                Outcome::SpawnFailed
            };
            Stage::Done { outcome }
        },
        (Stage::Warmup, _) => Stage::Warmup,
        (Stage::LocateExe, _) => Stage::LocateExe,
        (Stage::ProbePrimary { app_dir }, _) => Stage::ProbePrimary { app_dir: app_dir.duplicate() },
        (Stage::ProbeFallback { app_dir }, _) => Stage::ProbeFallback {
            app_dir: app_dir.duplicate(),
        },
        (Stage::ResolveLogDir { app_dir, script }, _) => Stage::ResolveLogDir {
            app_dir: app_dir.duplicate(),
            script: script.duplicate(),
        },
        (Stage::MakeLogDir { script, log_dir }, _) => Stage::MakeLogDir {
            script: script.duplicate(),
            log_dir: log_dir.duplicate(),
        },
        (Stage::OpenLog { script, log_file }, _) => Stage::OpenLog {
            script: script.duplicate(),
            log_file: log_file.duplicate(),
        },
        (Stage::Launch { script, log_file }, _) => Stage::Launch {
            script: script.duplicate(),
            log_file: dup_opt(log_file),
        },
        (Stage::Done { outcome }, _) => Stage::Done { outcome: *outcome },
    }
}

/// The work that stage `s` asks for under configuration `c`.
pub fn stage_action(c: &LaunchConfig, s: &Stage) -> (r: Action)
    requires
        stage_wf(s@),
    ensures
        r@ == action_spec(c@, s@),
{
    match s {
        Stage::Warmup => Action::Sleep { secs: c.delay_secs },
        Stage::LocateExe => Action::QueryExe,
        Stage::ProbePrimary { app_dir } => Action::CheckExists { path: primary_script_in(app_dir) },
        Stage::ProbeFallback { app_dir } => Action::CheckExists {
            path: fallback_script_in(app_dir),
        },
        Stage::ResolveLogDir { .. } => Action::QueryDataDir,
        Stage::MakeLogDir { log_dir, .. } => Action::CreateDir { path: log_dir.duplicate() },
        Stage::OpenLog { log_file, .. } => Action::OpenAppend { path: log_file.duplicate() },
        Stage::Launch { script, log_file } => Action::Spawn {
            req: spawn_request(c, script, log_file),
        },
        Stage::Done { outcome } => Action::Finish { outcome: *outcome },
    }
}

/// One run of the backend bootstrap: its configuration and where it stands.
pub struct Bootstrap {
    config: LaunchConfig,
    stage: Stage,
}

/// The mathematical model of a [`Bootstrap`].
pub struct BootstrapModel {
    pub config: ConfigModel,
    pub stage: StageModel,
}

impl View for Bootstrap {
    type V = BootstrapModel;

    closed spec fn view(&self) -> BootstrapModel {
        BootstrapModel { config: self.config@, stage: self.stage@ }
    }
}

impl Bootstrap {
    /// The paths the current stage holds are well formed.
    pub closed spec fn wf(&self) -> bool {
        stage_wf(self.stage@)
    }

    /// A bootstrap that has not started yet.
    pub fn new(config: LaunchConfig) -> (r: Bootstrap)
        ensures
            r.wf(),
            r@ == (BootstrapModel { config: config@, stage: StageModel::Warmup }),
    {
        Bootstrap { config, stage: Stage::Warmup }
    }

    /// The work the host is to perform next.
    pub fn next_action(&self) -> (r: Action)
        requires
            self.wf(),
        ensures
            r@ == action_spec(self@.config, self@.stage),
    {
        stage_action(&self.config, &self.stage)
    }

    /// Takes in the result of the last action.
    pub fn step(&mut self, e: Event)
        requires
            old(self).wf(),
        ensures
            final(self).wf(),
            final(self)@.config == old(self)@.config,
            final(self)@.stage == step_spec(old(self)@.config, old(self)@.stage, e@),
    {
        self.stage = next_stage(&self.config, &self.stage, e);
    }

    /// Whether the bootstrap has ended.
    pub fn is_finished(&self) -> (r: bool)
        ensures
            r <==> self@.stage is Done,
    {
        matches!(self.stage, Stage::Done { .. })
    }
}

} // verus!
