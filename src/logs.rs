use vstd::prelude::*;
use crate::path::AppPath;

verus! {

/// Name of the application's directory under the per-user data directory.
pub open spec fn app_name() -> Seq<char> {
    seq!['C', 'i', 't', 'y', 'N', 'H']
}

pub open spec fn logs_name() -> Seq<char> {
    seq!['l', 'o', 'g', 's']
}

pub open spec fn log_file_name() -> Seq<char> {
    seq!['b', 'a', 'c', 'k', 'e', 'n', 'd', '.', 'l', 'o', 'g']
}

/// The log directory under a per-user data directory.
pub open spec fn app_logs_dir_spec(base: Seq<Seq<char>>) -> Seq<Seq<char>> {
    base.push(app_name()).push(logs_name())
}

/// Relies on dirs::data_local_dir: the per-user local data directory, if the
/// platform reports one, as its path components. It depends on the
/// environment, so nothing is stated of it.
#[verifier::external_body]
fn data_local_dir() -> (r: Option<Vec<String>>) {
    dirs::data_local_dir().map(
        |p| p.components().map(|c| c.as_os_str().to_string_lossy().into_owned()).collect(),
    )
}

/// The application's log directory under `base`, if a base is known.
pub fn app_logs_dir(base: Option<AppPath>) -> (r: Option<AppPath>)
    ensures
        r is None <==> base is None,
        base matches Some(b) ==> r matches Some(d) && d@ == app_logs_dir_spec(b@),
{
    match base {
        Some(b) => {
            let d = b.join("CityNH");
            let d = d.join("logs");
            proof {
                reveal_strlit("CityNH");
                reveal_strlit("logs");
                assert("CityNH"@ =~= app_name());
                assert("logs"@ =~= logs_name());
            }
            assert(d@ =~= app_logs_dir_spec(b@));
            Some(d)
        },
        None => None,
    }
}

/// The application's log directory under the per-user local data directory,
/// if the platform reports one.
pub fn get_app_data_dir() -> (r: Option<AppPath>)
    ensures
        r matches Some(d) ==> exists|b: Seq<Seq<char>>| d@ == #[trigger] app_logs_dir_spec(b),
{
    let base = match data_local_dir() {
        Some(parts) => Some(AppPath::from_parts(parts)),
        None => None,
    };
    let r = app_logs_dir(base);
    proof {
        if r is Some {
            assert(r->Some_0@ == app_logs_dir_spec(base->Some_0@));
        }
    }
    r
}

/// The log directory used when no per-user data directory is known.
pub fn fallback_logs_dir(app_dir: &AppPath) -> (r: AppPath)
    ensures
        r@ == app_dir@.push(logs_name()),
{
    let r = app_dir.join("logs");
    proof {
        reveal_strlit("logs");
        assert("logs"@ =~= logs_name());
    }
    assert(r@ =~= app_dir@.push(logs_name()));
    r
}

/// The log file inside a log directory.
pub fn log_file_in(dir: &AppPath) -> (r: AppPath)
    ensures
        r@ == dir@.push(log_file_name()),
{
    let r = dir.join("backend.log");
    proof {
        reveal_strlit("backend.log");
        assert("backend.log"@ =~= log_file_name());
    }
    assert(r@ =~= dir@.push(log_file_name()));
    r
}

} // verus!
