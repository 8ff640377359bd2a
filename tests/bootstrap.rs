use backend_bootstrap::{
    app_logs_dir, get_app_data_dir, Action, AppPath, Bootstrap, Event, LaunchConfig, Outcome,
    Shell, DEFAULT_DELAY_SECS,
};

fn path(parts: &[&str]) -> AppPath {
    AppPath::from_parts(parts.iter().map(|p| p.to_string()).collect())
}

fn parts(p: &AppPath) -> Vec<&str> {
    p.parts().iter().map(|s| s.as_str()).collect()
}

struct FakeWorld {
    exe: Option<Vec<&'static str>>,
    present: Vec<Vec<&'static str>>,
    data_dir: Option<Vec<&'static str>>,
    dir_creatable: bool,
    log_openable: bool,
    spawn_succeeds: bool,
}

fn world(exe: &[&'static str], present: Vec<Vec<&'static str>>) -> FakeWorld {
    FakeWorld {
        exe: Some(exe.to_vec()),
        present,
        data_dir: None,
        dir_creatable: true,
        log_openable: true,
        spawn_succeeds: true,
    }
}

/// Runs a whole bootstrap against the fake world and returns its actions.
fn session(config: LaunchConfig, w: &FakeWorld) -> Vec<Action> {
    let mut b = Bootstrap::new(config);
    let mut actions = Vec::new();
    for _ in 0..20 {
        let a = b.next_action();
        let e = match &a {
            Action::Sleep { .. } => Event::Slept,
            Action::QueryExe => Event::ExeLocated { exe: w.exe.as_ref().map(|e| path(e)) },
            Action::CheckExists { path: p } => Event::Checked {
                exists: w.present.iter().any(|q| *q == parts(p)),
            },
            Action::QueryDataDir => Event::DataDir { dir: w.data_dir.as_ref().map(|d| path(d)) },
            Action::CreateDir { .. } => Event::DirCreated { created: w.dir_creatable },
            Action::OpenAppend { .. } => Event::LogOpened { opened: w.log_openable },
            Action::Spawn { .. } => Event::Spawned { spawned: w.spawn_succeeds },
            Action::Finish { .. } => {
                actions.push(a);
                return actions;
            }
        };
        actions.push(a);
        b.step(e);
    }
    panic!("bootstrap did not finish");
}

fn spawns(actions: &[Action]) -> Vec<&backend_bootstrap::SpawnRequest> {
    actions
        .iter()
        .filter_map(|a| match a {
            Action::Spawn { req } => Some(req),
            _ => None,
        })
        .collect()
}

fn probed(actions: &[Action]) -> Vec<Vec<&str>> {
    actions
        .iter()
        .filter_map(|a| match a {
            Action::CheckExists { path: p } => Some(parts(p)),
            _ => None,
        })
        .collect()
}

fn outcome(actions: &[Action]) -> Outcome {
    match actions.last() {
        Some(Action::Finish { outcome }) => *outcome,
        other => panic!("no outcome: {:?}", other),
    }
}

fn logging_config() -> LaunchConfig {
    let mut c = LaunchConfig::standard(Shell::Cmd);
    c.enable_logging = true;
    c
}

const EXE: [&str; 3] = ["/", "app", "CityNH.exe"];
const PRIMARY: [&str; 4] = ["/", "app", "python", "start_backend.bat"];
const FALLBACK: [&str; 5] = ["/", "app", "_up_", "python", "start_backend.bat"];

#[test]
fn scenario_primary_script() {
    let w = world(&EXE, vec![PRIMARY.to_vec(), FALLBACK.to_vec()]);
    let actions = session(LaunchConfig::standard(Shell::Cmd), &w);
    assert_eq!(probed(&actions), vec![PRIMARY.to_vec()]);
    let s = spawns(&actions);
    assert_eq!(s.len(), 1);
    assert_eq!(parts(&s[0].script), PRIMARY.to_vec());
    assert_eq!(parts(&s[0].work_dir), vec!["/", "app", "python"]);
    assert!(s[0].hide_window);
    assert!(s[0].log_file.is_none());
    assert_eq!(s[0].shell, Shell::Cmd);
    assert_eq!(outcome(&actions), Outcome::Started { logged: false });
}

#[test]
fn scenario_fallback_script() {
    let w = world(&EXE, vec![FALLBACK.to_vec()]);
    let actions = session(LaunchConfig::standard(Shell::Sh), &w);
    assert_eq!(probed(&actions), vec![PRIMARY.to_vec(), FALLBACK.to_vec()]);
    let s = spawns(&actions);
    assert_eq!(s.len(), 1);
    assert_eq!(parts(&s[0].script), FALLBACK.to_vec());
    assert_eq!(parts(&s[0].work_dir), vec!["/", "app", "_up_", "python"]);
    assert_eq!(outcome(&actions), Outcome::Started { logged: false });
}

#[test]
fn scenario_no_script() {
    let w = world(&EXE, vec![]);
    let actions = session(LaunchConfig::standard(Shell::Cmd), &w);
    assert!(spawns(&actions).is_empty());
    assert_eq!(outcome(&actions), Outcome::ScriptNotFound);
    assert_eq!(actions.len(), 5);
}

#[test]
fn scenario_log_dir_fails() {
    let mut w = world(&EXE, vec![PRIMARY.to_vec()]);
    w.dir_creatable = false;
    let actions = session(logging_config(), &w);
    let s = spawns(&actions);
    assert_eq!(s.len(), 1);
    assert!(s[0].log_file.is_none());
    assert_eq!(parts(&s[0].work_dir), vec!["/", "app", "python"]);
    assert!(!actions.iter().any(|a| matches!(a, Action::OpenAppend { .. })));
    assert_eq!(outcome(&actions), Outcome::Started { logged: false });
}

#[test]
fn waits_before_any_check() {
    let w = world(&EXE, vec![PRIMARY.to_vec()]);
    let mut c = LaunchConfig::standard(Shell::Cmd);
    c.delay_secs = 7;
    let actions = session(c, &w);
    assert!(matches!(actions[0], Action::Sleep { secs: 7 }));
    assert!(matches!(actions[1], Action::QueryExe));
}

#[test]
fn standard_delay_is_two_seconds() {
    let c = LaunchConfig::standard(Shell::Sh);
    assert_eq!(c.delay_secs, 2);
    assert_eq!(DEFAULT_DELAY_SECS, 2);
    assert!(!c.show_console);
    assert!(!c.enable_logging);
    assert!(c.log_dir_override.is_none());
}

#[test]
fn logs_to_user_data_dir() {
    let mut w = world(&EXE, vec![PRIMARY.to_vec()]);
    w.data_dir = Some(vec!["/", "home", "u", ".local", "share", "CityNH", "logs"]);
    let actions = session(logging_config(), &w);
    assert!(actions.iter().any(|a| matches!(a, Action::QueryDataDir)));
    let created: Vec<Vec<&str>> = actions
        .iter()
        .filter_map(|a| match a {
            Action::CreateDir { path: p } => Some(parts(p)),
            _ => None,
        })
        .collect();
    assert_eq!(created, vec![vec!["/", "home", "u", ".local", "share", "CityNH", "logs"]]);
    let s = spawns(&actions);
    assert_eq!(
        parts(s[0].log_file.as_ref().unwrap()),
        vec!["/", "home", "u", ".local", "share", "CityNH", "logs", "backend.log"]
    );
    assert_eq!(outcome(&actions), Outcome::Started { logged: true });
}

#[test]
fn logs_next_to_app_without_data_dir() {
    let w = world(&EXE, vec![PRIMARY.to_vec()]);
    let actions = session(logging_config(), &w);
    let s = spawns(&actions);
    assert_eq!(parts(s[0].log_file.as_ref().unwrap()), vec!["/", "app", "logs", "backend.log"]);
}

#[test]
fn log_dir_override_skips_data_dir() {
    let w = world(&EXE, vec![PRIMARY.to_vec()]);
    let mut c = logging_config();
    c.log_dir_override = Some(path(&["/", "var", "log"]));
    let actions = session(c, &w);
    assert!(!actions.iter().any(|a| matches!(a, Action::QueryDataDir)));
    let s = spawns(&actions);
    assert_eq!(parts(s[0].log_file.as_ref().unwrap()), vec!["/", "var", "log", "backend.log"]);
}

#[test]
fn log_file_open_fails() {
    let mut w = world(&EXE, vec![PRIMARY.to_vec()]);
    w.log_openable = false;
    let actions = session(logging_config(), &w);
    let s = spawns(&actions);
    assert_eq!(s.len(), 1);
    assert!(s[0].log_file.is_none());
    assert_eq!(outcome(&actions), Outcome::Started { logged: false });
}

#[test]
fn spawn_failure_is_reported() {
    let mut w = world(&EXE, vec![PRIMARY.to_vec()]);
    w.spawn_succeeds = false;
    let actions = session(LaunchConfig::standard(Shell::Cmd), &w);
    assert_eq!(outcome(&actions), Outcome::SpawnFailed);
}

#[test]
fn missing_executable_aborts() {
    let mut w = world(&EXE, vec![PRIMARY.to_vec()]);
    w.exe = None;
    let actions = session(LaunchConfig::standard(Shell::Cmd), &w);
    assert_eq!(actions.len(), 3);
    assert!(probed(&actions).is_empty());
    assert_eq!(outcome(&actions), Outcome::NoExecutable);
}

#[test]
fn empty_executable_path_aborts() {
    let w = world(&[], vec![PRIMARY.to_vec()]);
    let actions = session(LaunchConfig::standard(Shell::Cmd), &w);
    assert_eq!(outcome(&actions), Outcome::NoExecutable);
}

#[test]
fn console_shown_when_asked() {
    let w = world(&EXE, vec![PRIMARY.to_vec()]);
    let mut c = LaunchConfig::standard(Shell::Sh);
    c.show_console = true;
    let actions = session(c, &w);
    assert!(!spawns(&actions)[0].hide_window);
}

#[test]
fn unexpected_event_keeps_stage() {
    let mut b = Bootstrap::new(LaunchConfig::standard(Shell::Cmd));
    b.step(Event::Checked { exists: true });
    assert!(matches!(b.next_action(), Action::Sleep { secs: 2 }));
    assert!(!b.is_finished());
}

#[test]
fn finished_after_outcome() {
    let mut b = Bootstrap::new(LaunchConfig::standard(Shell::Cmd));
    b.step(Event::Slept);
    b.step(Event::ExeLocated { exe: None });
    assert!(b.is_finished());
    b.step(Event::Slept);
    assert!(matches!(b.next_action(), Action::Finish { outcome: Outcome::NoExecutable }));
}

#[test]
fn shell_words() {
    assert_eq!(Shell::Cmd.program(), "cmd");
    assert_eq!(Shell::Cmd.flag(), "/C");
    assert_eq!(Shell::Sh.program(), "sh");
    assert_eq!(Shell::Sh.flag(), "-c");
}

#[test]
fn path_join_and_parent() {
    let p = path(&["/", "app"]);
    let q = p.join("python");
    assert_eq!(parts(&q), vec!["/", "app", "python"]);
    assert_eq!(parts(&q.parent().unwrap()), vec!["/", "app"]);
    assert!(path(&[]).parent().is_none());
    assert_eq!(parts(&q.duplicate()), parts(&q));
}

#[test]
fn app_logs_dir_appends_name() {
    let d = app_logs_dir(Some(path(&["C:", "\\", "Users", "a", "AppData", "Local"]))).unwrap();
    assert_eq!(parts(&d), vec!["C:", "\\", "Users", "a", "AppData", "Local", "CityNH", "logs"]);
    assert!(app_logs_dir(None).is_none());
}

#[test]
fn user_data_dir_ends_in_app_logs() {
    if let Some(d) = get_app_data_dir() {
        let p = parts(&d);
        assert!(p.len() > 2);
        assert_eq!(&p[p.len() - 2..], &["CityNH", "logs"]);
    }
}
