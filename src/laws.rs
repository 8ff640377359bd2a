use vstd::prelude::*;
use crate::bootstrap::{
    ActionModel, EventModel, Outcome, StageModel, action_spec, after_found, fallback_script,
    primary_script, step_spec,
};
use crate::config::ConfigModel;

verus! {

/// What the host's surroundings answer to the bootstrap's actions.
pub struct World {
    /// The running executable's path, if the platform reports it.
    pub exe: Option<Seq<Seq<char>>>,
    /// The files that exist.
    pub present: Set<Seq<Seq<char>>>,
    /// The per-user log directory, if the platform reports one.
    pub data_dir: Option<Seq<Seq<char>>>,
    pub dir_creatable: bool,
    pub log_openable: bool,
    pub spawn_succeeds: bool,
}

/// The event with which the world answers action `a`.
pub open spec fn respond(w: World, a: ActionModel) -> EventModel {
    match a {
        ActionModel::Sleep { .. } => EventModel::Slept,
        ActionModel::QueryExe => EventModel::ExeLocated { exe: w.exe },
        ActionModel::CheckExists { path } => EventModel::Checked { exists: w.present.contains(path) },
        ActionModel::QueryDataDir => EventModel::DataDir { dir: w.data_dir },
        ActionModel::CreateDir { .. } => EventModel::DirCreated { created: w.dir_creatable },
        ActionModel::OpenAppend { .. } => EventModel::LogOpened { opened: w.log_openable },
        ActionModel::Spawn { .. } => EventModel::Spawned { spawned: w.spawn_succeeds },
        ActionModel::Finish { .. } => EventModel::Slept,
    }
}

/// The actions issued from stage `s` in world `w`, at most `n` of them,
/// ending with the first `Finish`.
pub open spec fn run(c: ConfigModel, w: World, s: StageModel, n: nat) -> Seq<ActionModel>
    decreases n,
{
    if n == 0 {
        Seq::empty()
    } else {
        let a = action_spec(c, s);
        if a is Finish {
            seq![a]
        } else {
            seq![a] + run(c, w, step_spec(c, s, respond(w, a)), (n - 1) as nat)
        }
    }
}

/// Enough steps for any bootstrap to finish: one per stage.
pub open spec fn session_bound() -> nat {
    9
}

/// Every action of one whole bootstrap in world `w`.
pub open spec fn session(c: ConfigModel, w: World) -> Seq<ActionModel> {
    run(c, w, StageModel::Warmup, session_bound())
}

/// The trace starts a child process.
pub open spec fn spawns(t: Seq<ActionModel>) -> bool {
    exists|i: int| 0 <= i < t.len() && (#[trigger] t[i]) is Spawn
}

/// The trace looks for file `p`.
pub open spec fn probes(t: Seq<ActionModel>, p: Seq<Seq<char>>) -> bool {
    exists|i: int| 0 <= i < t.len() && #[trigger] t[i] == (ActionModel::CheckExists { path: p })
}

/// Every child that the trace starts runs `script` from the script's own
/// directory, and without a log when `unlogged`.
pub open spec fn spawns_only(t: Seq<ActionModel>, script: Seq<Seq<char>>, unlogged: bool) -> bool {
    forall|i: int|
        0 <= i < t.len() && (#[trigger] t[i]) is Spawn ==> {
            &&& t[i]->req.script == script
            &&& t[i]->req.work_dir == script.drop_last()
            &&& unlogged ==> t[i]->req.log_file is None
        }
}

/// The trace checks no file.
pub open spec fn probes_none(t: Seq<ActionModel>) -> bool {
    forall|i: int| 0 <= i < t.len() ==> !((#[trigger] t[i]) is CheckExists)
}

/// What a trace from a found script looks like.
pub open spec fn launch_trace(t: Seq<ActionModel>, script: Seq<Seq<char>>, unlogged: bool) -> bool {
    &&& spawns(t)
    &&& spawns_only(t, script, unlogged)
    &&& probes_none(t)
}

proof fn lemma_unfold(c: ConfigModel, w: World, s: StageModel, n: nat)
    requires
        n > 0,
        !(action_spec(c, s) is Finish),
    ensures
        run(c, w, s, n) == seq![action_spec(c, s)] + run(
            c,
            w,
            step_spec(c, s, respond(w, action_spec(c, s))),
            (n - 1) as nat,
        ),
{
}

proof fn lemma_prepend(a: ActionModel, t: Seq<ActionModel>, script: Seq<Seq<char>>, unlogged: bool)
    requires
        launch_trace(t, script, unlogged),
        !(a is CheckExists),
        a is Spawn ==> {
            &&& a->req.script == script
            &&& a->req.work_dir == script.drop_last()
            &&& unlogged ==> a->req.log_file is None
        },
    ensures
        launch_trace(seq![a] + t, script, unlogged),
{
    let u = seq![a] + t;
    let i = choose|i: int| 0 <= i < t.len() && (#[trigger] t[i]) is Spawn;
    assert(u[i + 1] == t[i]);
    assert forall|j: int| 0 <= j < u.len() && (#[trigger] u[j]) is Spawn implies {
        &&& u[j]->req.script == script
        &&& u[j]->req.work_dir == script.drop_last()
        &&& unlogged ==> u[j]->req.log_file is None
    } by {
        if j > 0 {
            assert(u[j] == t[j - 1]);
        }
    }
    assert forall|j: int| 0 <= j < u.len() implies !((#[trigger] u[j]) is CheckExists) by {
        if j > 0 {
            assert(u[j] == t[j - 1]);
        }
    }
}

proof fn lemma_launch(
    c: ConfigModel,
    w: World,
    script: Seq<Seq<char>>,
    log_file: Option<Seq<Seq<char>>>,
    n: nat,
)
    requires
        n >= 2,
    ensures
        launch_trace(
            run(c, w, StageModel::Launch { script, log_file }, n),
            script,
            log_file is None,
        ),
{
    let s = StageModel::Launch { script, log_file };
    lemma_unfold(c, w, s, n);
    let next = step_spec(c, s, respond(w, action_spec(c, s)));
    let t = run(c, w, next, (n - 1) as nat);
    assert(t == seq![action_spec(c, next)]) by {
        reveal_with_fuel(run, 2);
    }
    let u = run(c, w, s, n);
    assert(u[0] is Spawn);
    assert(u =~= seq![action_spec(c, s), action_spec(c, next)]);
}

proof fn lemma_open_log(
    c: ConfigModel,
    w: World,
    script: Seq<Seq<char>>,
    log_file: Seq<Seq<char>>,
    n: nat,
)
    requires
        n >= 3,
    ensures
        launch_trace(run(c, w, StageModel::OpenLog { script, log_file }, n), script, false),
{
    let s = StageModel::OpenLog { script, log_file };
    lemma_unfold(c, w, s, n);
    let next = step_spec(c, s, respond(w, action_spec(c, s)));
    lemma_launch(c, w, script, next->Launch_log_file, (n - 1) as nat);
    lemma_prepend(action_spec(c, s), run(c, w, next, (n - 1) as nat), script, false);
}

proof fn lemma_make_log_dir(
    c: ConfigModel,
    w: World,
    script: Seq<Seq<char>>,
    log_dir: Seq<Seq<char>>,
    n: nat,
)
    requires
        n >= 4,
    ensures
        launch_trace(
            run(c, w, StageModel::MakeLogDir { script, log_dir }, n),
            script,
            !w.dir_creatable,
        ),
{
    let s = StageModel::MakeLogDir { script, log_dir };
    lemma_unfold(c, w, s, n);
    let next = step_spec(c, s, respond(w, action_spec(c, s)));
    if w.dir_creatable {
        lemma_open_log(c, w, script, next->OpenLog_log_file, (n - 1) as nat);
    } else {
        lemma_launch(c, w, script, None, (n - 1) as nat);
    }
    lemma_prepend(action_spec(c, s), run(c, w, next, (n - 1) as nat), script, !w.dir_creatable);
}

proof fn lemma_found(c: ConfigModel, w: World, app_dir: Seq<Seq<char>>, script: Seq<Seq<char>>, n: nat)
    requires
        n >= 5,
    ensures
        launch_trace(
            run(c, w, after_found(c, app_dir, script), n),
            script,
            !c.enable_logging || !w.dir_creatable,
        ),
{
    let s = after_found(c, app_dir, script);
    if !c.enable_logging {
        lemma_launch(c, w, script, None, n);
    } else if c.log_dir_override is Some {
        lemma_make_log_dir(c, w, script, c.log_dir_override->Some_0, n);
    } else {
        lemma_unfold(c, w, s, n);
        let next = step_spec(c, s, respond(w, action_spec(c, s)));
        lemma_make_log_dir(c, w, script, next->MakeLogDir_log_dir, (n - 1) as nat);
        lemma_prepend(action_spec(c, s), run(c, w, next, (n - 1) as nat), script, !w.dir_creatable);
    }
}

proof fn lemma_prefix(
    a: ActionModel,
    t: Seq<ActionModel>,
    script: Seq<Seq<char>>,
    skipped: Seq<Seq<char>>,
    unlogged: bool,
)
    requires
        spawns(t),
        spawns_only(t, script, unlogged),
        !probes(t, skipped),
        !(a is Spawn),
        a != (ActionModel::CheckExists { path: skipped }),
    ensures
        spawns(seq![a] + t),
        spawns_only(seq![a] + t, script, unlogged),
        !probes(seq![a] + t, skipped),
{
    let u = seq![a] + t;
    let i = choose|i: int| 0 <= i < t.len() && (#[trigger] t[i]) is Spawn;
    assert(u[i + 1] == t[i]);
    assert forall|j: int| 0 <= j < u.len() && (#[trigger] u[j]) is Spawn implies {
        &&& u[j]->req.script == script
        &&& u[j]->req.work_dir == script.drop_last()
        &&& unlogged ==> u[j]->req.log_file is None
    } by {
        assert(u[j] == t[j - 1]);
    }
    if probes(u, skipped) {
        let j = choose|j: int|
            0 <= j < u.len() && #[trigger] u[j] == (ActionModel::CheckExists { path: skipped });
        assert(u[j] == t[j - 1]);
    }
}

proof fn lemma_probes_none(t: Seq<ActionModel>, p: Seq<Seq<char>>)
    requires
        probes_none(t),
    ensures
        !probes(t, p),
{
    if probes(t, p) {
        let j = choose|j: int| 0 <= j < t.len() && #[trigger] t[j] == (ActionModel::CheckExists { path: p });
        assert(t[j] is CheckExists);
    }
}

proof fn lemma_start(c: ConfigModel, w: World, exe: Seq<Seq<char>>)
    requires
        w.exe == Some(exe),
        exe.len() > 0,
    ensures
        session(c, w) == seq![
            ActionModel::Sleep { secs: c.delay_secs },
            ActionModel::QueryExe,
        ] + run(c, w, StageModel::ProbePrimary { app_dir: exe.drop_last() }, 7),
{
    lemma_unfold(c, w, StageModel::Warmup, 9);
    lemma_unfold(c, w, StageModel::LocateExe, 8);
    assert(session(c, w) =~= seq![
        ActionModel::Sleep { secs: c.delay_secs },
        ActionModel::QueryExe,
    ] + run(c, w, StageModel::ProbePrimary { app_dir: exe.drop_last() }, 7));
}

/// When the start script stands at its primary location, that script is
/// launched, from its own directory, and the fallback location is never looked at.
pub proof fn lemma_primary_preferred(c: ConfigModel, w: World, exe: Seq<Seq<char>>)
    requires
        w.exe == Some(exe),
        exe.len() > 0,
        w.present.contains(primary_script(exe.drop_last())),
    ensures
        spawns(session(c, w)),
        spawns_only(session(c, w), primary_script(exe.drop_last()), false),
        !probes(session(c, w), fallback_script(exe.drop_last())),
{
    let d = exe.drop_last();
    let primary = primary_script(d);
    let fallback = fallback_script(d);
    let s = StageModel::ProbePrimary { app_dir: d };
    lemma_start(c, w, exe);
    lemma_unfold(c, w, s, 7);
    let t = run(c, w, after_found(c, d, primary), 6);
    lemma_found(c, w, d, primary, 6);
    lemma_probes_none(t, fallback);
    assert(primary.len() != fallback.len());
    lemma_prefix(action_spec(c, s), t, primary, fallback, false);
    let t1 = seq![action_spec(c, s)] + t;
    lemma_prefix(ActionModel::QueryExe, t1, primary, fallback, false);
    lemma_prefix(ActionModel::Sleep { secs: c.delay_secs }, seq![ActionModel::QueryExe] + t1, primary, fallback, false);
    assert(session(c, w) =~= seq![ActionModel::Sleep { secs: c.delay_secs }] + (seq![ActionModel::QueryExe] + t1));
}

/// When only the fallback script exists, the fallback script is launched,
/// from its own directory.
pub proof fn lemma_fallback_used(c: ConfigModel, w: World, exe: Seq<Seq<char>>)
    requires
        w.exe == Some(exe),
        exe.len() > 0,
        !w.present.contains(primary_script(exe.drop_last())),
        w.present.contains(fallback_script(exe.drop_last())),
    ensures
        spawns(session(c, w)),
        spawns_only(session(c, w), fallback_script(exe.drop_last()), false),
{
    let d = exe.drop_last();
    let fallback = fallback_script(d);
    let s = StageModel::ProbePrimary { app_dir: d };
    let s2 = StageModel::ProbeFallback { app_dir: d };
    lemma_start(c, w, exe);
    lemma_unfold(c, w, s, 7);
    lemma_unfold(c, w, s2, 6);
    let t = run(c, w, after_found(c, d, fallback), 5);
    lemma_found(c, w, d, fallback, 5);
    let unused = Seq::<Seq<char>>::empty();
    lemma_probes_none(t, unused);
    assert(primary_script(d).len() != unused.len());
    assert(fallback.len() != unused.len());
    lemma_prefix(action_spec(c, s2), t, fallback, unused, false);
    let t1 = seq![action_spec(c, s2)] + t;
    lemma_prefix(action_spec(c, s), t1, fallback, unused, false);
    let t2 = seq![action_spec(c, s)] + t1;
    lemma_prefix(ActionModel::QueryExe, t2, fallback, unused, false);
    lemma_prefix(ActionModel::Sleep { secs: c.delay_secs }, seq![ActionModel::QueryExe] + t2, fallback, unused, false);
    assert(session(c, w) =~= seq![ActionModel::Sleep { secs: c.delay_secs }] + (seq![ActionModel::QueryExe] + t2));
}

/// When neither script exists, no child is started and the bootstrap ends
/// reporting the missing script.
pub proof fn lemma_nothing_found(c: ConfigModel, w: World, exe: Seq<Seq<char>>)
    requires
        w.exe == Some(exe),
        exe.len() > 0,
        !w.present.contains(primary_script(exe.drop_last())),
        !w.present.contains(fallback_script(exe.drop_last())),
    ensures
        !spawns(session(c, w)),
        session(c, w).last() == (ActionModel::Finish { outcome: Outcome::ScriptNotFound }),
{
    let d = exe.drop_last();
    let s = StageModel::ProbePrimary { app_dir: d };
    let s2 = StageModel::ProbeFallback { app_dir: d };
    let done = StageModel::Done { outcome: Outcome::ScriptNotFound };
    lemma_start(c, w, exe);
    lemma_unfold(c, w, s, 7);
    lemma_unfold(c, w, s2, 6);
    assert(run(c, w, done, 5) == seq![action_spec(c, done)]) by {
        reveal_with_fuel(run, 2);
    }
    let t = session(c, w);
    assert(t =~= seq![
        ActionModel::Sleep { secs: c.delay_secs },
        ActionModel::QueryExe,
        action_spec(c, s),
        action_spec(c, s2),
        action_spec(c, done),
    ]);
    assert forall|i: int| 0 <= i < t.len() implies !((#[trigger] t[i]) is Spawn) by {}
}

/// When the executable's own path is unknown, or has no parent, no child is
/// started and no file is looked at.
pub proof fn lemma_no_executable(c: ConfigModel, w: World)
    requires
        w.exe matches Some(exe) ==> exe.len() == 0,
    ensures
        !spawns(session(c, w)),
        probes_none(session(c, w)),
        session(c, w).last() == (ActionModel::Finish { outcome: Outcome::NoExecutable }),
{
    let done = StageModel::Done { outcome: Outcome::NoExecutable };
    lemma_unfold(c, w, StageModel::Warmup, 9);
    lemma_unfold(c, w, StageModel::LocateExe, 8);
    assert(run(c, w, done, 7) == seq![action_spec(c, done)]) by {
        reveal_with_fuel(run, 2);
    }
    let t = session(c, w);
    assert(t =~= seq![
        ActionModel::Sleep { secs: c.delay_secs },
        ActionModel::QueryExe,
        action_spec(c, done),
    ]);
    assert forall|i: int| 0 <= i < t.len() implies !((#[trigger] t[i]) is Spawn) by {}
}

/// Every bootstrap first waits the configured delay; no file is looked at,
/// no directory made and no child started before that.
pub proof fn lemma_waits_first(c: ConfigModel, w: World)
    ensures
        session(c, w).len() > 0,
        session(c, w)[0] == (ActionModel::Sleep { secs: c.delay_secs }),
{
    lemma_unfold(c, w, StageModel::Warmup, 9);
}

/// With logging on and a log directory that cannot be made, a found script
/// is still launched, without a log.
pub proof fn lemma_log_dir_failure(c: ConfigModel, w: World, exe: Seq<Seq<char>>)
    requires
        c.enable_logging,
        !w.dir_creatable,
        w.exe == Some(exe),
        exe.len() > 0,
        w.present.contains(primary_script(exe.drop_last())) || w.present.contains(
            fallback_script(exe.drop_last()),
        ),
    ensures
        spawns(session(c, w)),
        forall|i: int|
            0 <= i < session(c, w).len() && (#[trigger] session(c, w)[i]) is Spawn
                ==> session(c, w)[i]->req.log_file is None,
{
    let d = exe.drop_last();
    let s = StageModel::ProbePrimary { app_dir: d };
    let s2 = StageModel::ProbeFallback { app_dir: d };
    lemma_start(c, w, exe);
    lemma_unfold(c, w, s, 7);
    let unused = Seq::<Seq<char>>::empty();
    assert(primary_script(d).len() != unused.len());
    assert(fallback_script(d).len() != unused.len());
    let script = if w.present.contains(primary_script(d)) {
        primary_script(d)
    } else {
        fallback_script(d)
    };
    let t2 = if w.present.contains(primary_script(d)) {
        let t = run(c, w, after_found(c, d, script), 6);
        lemma_found(c, w, d, script, 6);
        lemma_probes_none(t, unused);
        lemma_prefix(action_spec(c, s), t, script, unused, true);
        seq![action_spec(c, s)] + t
    } else {
        lemma_unfold(c, w, s2, 6);
        let t = run(c, w, after_found(c, d, script), 5);
        lemma_found(c, w, d, script, 5);
        lemma_probes_none(t, unused);
        lemma_prefix(action_spec(c, s2), t, script, unused, true);
        let t1 = seq![action_spec(c, s2)] + t;
        lemma_prefix(action_spec(c, s), t1, script, unused, true);
        seq![action_spec(c, s)] + t1
    };
    lemma_prefix(ActionModel::QueryExe, t2, script, unused, true);
    let t3 = seq![ActionModel::QueryExe] + t2;
    lemma_prefix(ActionModel::Sleep { secs: c.delay_secs }, t3, script, unused, true);
    assert(session(c, w) =~= seq![ActionModel::Sleep { secs: c.delay_secs }] + t3);
}

proof fn lemma_run_work_dir(c: ConfigModel, w: World, s: StageModel, n: nat)
    ensures
        forall|i: int|
            0 <= i < run(c, w, s, n).len() && (#[trigger] run(c, w, s, n)[i]) is Spawn
                ==> run(c, w, s, n)[i]->req.work_dir == run(c, w, s, n)[i]->req.script.drop_last(),
    decreases n,
{
    if n > 0 && !(action_spec(c, s) is Finish) {
        let next = step_spec(c, s, respond(w, action_spec(c, s)));
        lemma_run_work_dir(c, w, next, (n - 1) as nat);
        let t = run(c, w, next, (n - 1) as nat);
        let u = run(c, w, s, n);
        assert forall|i: int| 0 <= i < u.len() && (#[trigger] u[i]) is Spawn implies u[i]->req.work_dir
            == u[i]->req.script.drop_last() by {
            if i > 0 {
                assert(u[i] == t[i - 1]);
            }
        }
    }
}

/// Every child a bootstrap starts runs in the directory of the script it runs.
pub proof fn lemma_work_dir_is_script_dir(c: ConfigModel, w: World)
    ensures
        forall|i: int|
            0 <= i < session(c, w).len() && (#[trigger] session(c, w)[i]) is Spawn
                ==> session(c, w)[i]->req.work_dir == session(c, w)[i]->req.script.drop_last(),
{
    lemma_run_work_dir(c, w, StageModel::Warmup, session_bound());
}

proof fn lemma_run_single_spawn(c: ConfigModel, w: World, s: StageModel, n: nat)
    ensures
        forall|i: int, j: int|
            0 <= i < run(c, w, s, n).len() && 0 <= j < run(c, w, s, n).len() && (#[trigger] run(
                c,
                w,
                s,
                n,
            )[i]) is Spawn && (#[trigger] run(c, w, s, n)[j]) is Spawn ==> i == j,
    decreases n,
{
    if n > 0 && !(action_spec(c, s) is Finish) {
        let a = action_spec(c, s);
        let next = step_spec(c, s, respond(w, a));
        lemma_run_single_spawn(c, w, next, (n - 1) as nat);
        let t = run(c, w, next, (n - 1) as nat);
        let u = run(c, w, s, n);
        if a is Spawn {
            assert(next is Done);
            if n > 1 {
                assert(t == seq![action_spec(c, next)]);
            }
            assert forall|i: int| 0 < i < u.len() implies !((#[trigger] u[i]) is Spawn) by {
                assert(u[i] == t[i - 1]);
            }
        }
        assert forall|i: int, j: int|
            0 <= i < u.len() && 0 <= j < u.len() && (#[trigger] u[i]) is Spawn && (#[trigger] u[j]) is Spawn
                implies i == j by {
            if i > 0 {
                assert(u[i] == t[i - 1]);
            }
            if j > 0 {
                assert(u[j] == t[j - 1]);
            }
        }
    }
}

/// A bootstrap starts at most one child process.
pub proof fn lemma_at_most_one_child(c: ConfigModel, w: World)
    ensures
        forall|i: int, j: int|
            0 <= i < session(c, w).len() && 0 <= j < session(c, w).len() && (#[trigger] session(
                c,
                w,
            )[i]) is Spawn && (#[trigger] session(c, w)[j]) is Spawn ==> i == j,
{
    lemma_run_single_spawn(c, w, StageModel::Warmup, session_bound());
}

} // verus!
