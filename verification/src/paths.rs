use vstd::prelude::*;
use vstd::string::StringExecFns;

use crate::outcome::LockError;

verus! {

/// The lock path for a lock name: the runtime base directory, a path
/// separator, and the caller's relative name.
pub open spec fn lock_path_spec(base: Seq<char>, name: Seq<char>) -> Seq<char> {
    base + seq!['/'] + name
}

/// Relies on dirs::runtime_dir: the per-user runtime directory, if the
/// platform defines one. When a directory is reported it is an absolute
/// path, so it is non-empty and rooted at the separator; the platforms
/// that report none yield `None`. The result depends on the process
/// environment, so nothing relates two calls.
#[verifier::external_body]
fn runtime_dir_string() -> (r: Option<String>)
    ensures
        r matches Some(s) ==> s@.len() > 0 && s@[0] == '/',
{
    dirs::runtime_dir().and_then(|p| p.to_str().map(String::from))
}

/// Combine a base directory and a relative lock name into one path,
/// with a separator in between.
pub fn lock_path_for(base: &str, name: &str) -> (p: String)
    ensures
        p@ == lock_path_spec(base@, name@),
{
    let mut p = base.to_owned();
    p.append("/");
    p.append(name);
    proof {
        reveal_strlit("/");
        assert(p@ =~= lock_path_spec(base@, name@));
    }
    p
}

/// Resolve a lock name to its lock path under the per-user runtime
/// directory, or report that no such directory exists on this platform.
pub fn get_lock_path(name: &str) -> (r: Result<String, LockError>)
    ensures
        r matches Ok(p) ==> p@.len() > 0 && p@[0] == '/' && (exists|base: Seq<char>|
            p@ == lock_path_spec(base, name@)),
        r matches Err(e) ==> e == LockError::ConfigurationError,
{
    match runtime_dir_string() {
        None => Err(LockError::ConfigurationError),
        Some(base) => {
            let p = lock_path_for(base.as_str(), name);
            proof {
                assert(p@ == lock_path_spec(base@, name@));
            }
            Ok(p)
        },
    }
}

} // verus!
