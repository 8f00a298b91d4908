//! Paths the installer and launcher work with: the default install location,
//! the installed executable, and the candidate locations of the backend
//! program.
//!
//! Directory lookups that depend on the user's environment go through the
//! `dirs` crate; everything built from their results is verified.

use vstd::prelude::*;

verus! {

/// The path formed by placing `name` under `base`.  The separator is `/` on
/// every platform: the windowed platform's file APIs accept it alongside its
/// native one, and one fixed separator keeps the contracts exact.
pub open spec fn joined(base: Seq<char>, name: Seq<char>) -> Seq<char> {
    base + "/"@ + name
}

/// Builds the path of `name` under `base`.
pub fn join_path(base: &str, name: &str) -> (r: String)
    ensures
        r@ == joined(base@, name@),
{
    let mut r = base.to_owned();
    r.append("/");
    r.append(name);
    r
}

/// Relies on `dirs::data_local_dir`: the user's local data directory, which
/// depends on the operating system and the environment, or `None` when it
/// cannot be determined.
#[verifier::external_body]
pub(crate) fn data_local_dir_path() -> Option<String> {
    dirs::data_local_dir().map(|p| p.to_string_lossy().to_string())
}

/// Relies on `dirs::desktop_dir`: the user's desktop directory, which depends
/// on the operating system and the environment, or `None` when it cannot be
/// determined.
#[verifier::external_body]
pub(crate) fn desktop_dir_path() -> Option<String> {
    dirs::desktop_dir().map(|p| p.to_string_lossy().to_string())
}

/// Relies on `dirs::data_dir`: the user's roaming data directory, which
/// depends on the operating system and the environment, or `None` when it
/// cannot be determined.
#[verifier::external_body]
pub(crate) fn data_dir_path() -> Option<String> {
    dirs::data_dir().map(|p| p.to_string_lossy().to_string())
}

/// The directory name the application installs under.
pub open spec fn app_dir_name() -> Seq<char> {
    "LoArchive"@
}

/// The file name of the installed executable.
pub open spec fn app_exe_name() -> Seq<char> {
    "LoArchive.exe"@
}

/// The default install location: `LoArchive` under whatever local data
/// directory the environment offers.
pub fn get_default_install_path() -> (r: Result<String, String>)
    ensures
        r matches Ok(p) ==> (exists|base: Seq<char>| p@ == joined(base, app_dir_name())),
        r matches Err(e) ==> e@ == "无法获取本地应用数据目录"@,
{
    match data_local_dir_path() {
        Some(base) => {
            let p = join_path(base.as_str(), "LoArchive");
            proof {
                assert(p@ == joined(base@, app_dir_name()));
            }
            Ok(p)
        },
        None => Err("无法获取本地应用数据目录".to_owned()),
    }
}

/// The placeholder answer for free-space queries; no measurement is made.
pub open spec fn space_placeholder() -> Seq<char> {
    "充足"@
}

/// Reports the space available at `path`.  No filesystem query is made: the
/// answer is a fixed placeholder, whatever the path.
pub fn get_available_space(path: String) -> (r: Result<String, String>)
    ensures
        r matches Ok(s) && s@ == space_placeholder(),
{
    let _ = path;
    Ok("充足".to_owned())
}

/// The executable to start for an installation rooted at `install_path`.
/// The caller spawns it.
pub fn launch_app_path(install_path: &str) -> (r: String)
    ensures
        r@ == joined(install_path@, app_exe_name()),
{
    join_path(install_path, "LoArchive.exe")
}

/// The candidate locations of the backend program, in the order they are
/// probed: a `backend` directory beside the executable, then one, two and
/// three levels above it, then one under the working directory.
pub fn backend_candidates(exe_dir: &str, cwd: &str) -> (r: Vec<String>)
    ensures
        r@.len() == 5,
        r@[0]@ == joined(exe_dir@, "backend"@),
        r@[1]@ == joined(exe_dir@, "../backend"@),
        r@[2]@ == joined(exe_dir@, "../../backend"@),
        r@[3]@ == joined(exe_dir@, "../../../backend"@),
        r@[4]@ == joined(cwd@, "backend"@),
{
    let mut r: Vec<String> = Vec::new();
    r.push(join_path(exe_dir, "backend"));
    r.push(join_path(exe_dir, "../backend"));
    r.push(join_path(exe_dir, "../../backend"));
    r.push(join_path(exe_dir, "../../../backend"));
    r.push(join_path(cwd, "backend"));
    r
}

/// Picks the candidate to use: the index of the first existing one, or the
/// first candidate when none exists, deferring the failure to the spawn step.
pub fn resolve_backend_path(present: &Vec<bool>) -> (r: usize)
    requires
        present@.len() > 0,
    ensures
        r < present@.len(),
        present@.contains(true) ==> present@[r as int] && (forall|j: int|
            0 <= j < r ==> !present@[j]),
        !present@.contains(true) ==> r == 0,
{
    let n = present.len();
    let mut i: usize = 0;
    while i < n
        invariant
            n == present@.len(),
            0 <= i <= n,
            forall|j: int| 0 <= j < i ==> !present@[j],
        decreases n - i,
    {
        if present[i] {
            return i;
        }
        i += 1;
    }
    proof {
        assert(forall|j: int| 0 <= j < present@.len() ==> present@[j] != true);
        assert(!present@.contains(true));
    }
    0
}

} // verus!
