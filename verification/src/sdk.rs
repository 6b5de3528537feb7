//! Finding the Playdate SDK from the shell environment of a worktree.
//!
//! The environment is a list of name and value pairs in the order the shell
//! gave them; where a name stands twice, the first pair is the one looked up.

use crate::error::Error;
use crate::platform::Os;
use crate::text::{joined, same_text};
use vstd::prelude::*;
use vstd::string::*;

verus! {

/// The variable that names the SDK's directory.
pub open spec fn sdk_variable() -> Seq<char> {
    "PLAYDATE_SDK_PATH"@
}

/// The value of the variable `name`: that of the first pair so named.
pub open spec fn lookup_env_var_spec(env: Seq<(String, String)>, name: Seq<char>) -> Option<
    Seq<char>,
>
    decreases env.len(),
{
    if env.len() == 0 {
        None
    } else if env[0].0@ == name {
        Some(env[0].1@)
    } else {
        lookup_env_var_spec(env.drop_first(), name)
    }
}

/// The SDK directory that the environment names outright: the value of the
/// SDK variable, where it is set and not empty.
pub open spec fn sdk_override(env: Seq<(String, String)>) -> Option<Seq<char>> {
    match lookup_env_var_spec(env, sdk_variable()) {
        Some(path) => if path.len() > 0 {
            Some(path)
        } else {
            None
        },
        None => None,
    }
}

/// The variable that names the user's home directory on `os`.
pub open spec fn home_variable_spec(os: Os) -> Seq<char> {
    match os {
        Os::Windows => "USERPROFILE"@,
        _ => "HOME"@,
    }
}

/// The user's home directory on `os`: the value of its home variable, and
/// the empty text where that is not set.
pub open spec fn home_dir(env: Seq<(String, String)>, os: Os) -> Seq<char> {
    match lookup_env_var_spec(env, home_variable_spec(os)) {
        Some(home) => home,
        None => Seq::empty(),
    }
}

/// Where the SDK installs itself below the home directory.
pub open spec fn sdk_suffix_spec(os: Os) -> Seq<char> {
    match os {
        Os::Mac => "/Developer/PlaydateSDK"@,
        Os::Linux => "/.local/share/playdate-sdk"@,
        Os::Windows => "\\Documents\\PlaydateSDK"@,
    }
}

/// Where the simulator's executable lies below the SDK's directory.
pub open spec fn simulator_suffix_spec(os: Os) -> Seq<char> {
    match os {
        Os::Mac => "/bin/Playdate Simulator.app/Contents/MacOS/Playdate Simulator"@,
        Os::Linux => "/bin/PlaydateSimulator"@,
        Os::Windows => "\\bin\\PlaydateSimulator.exe"@,
    }
}

/// The SDK's directory: the one the environment names, else the conventional
/// one below the home directory. Nothing is looked up on disk.
pub open spec fn detect_sdk_path_spec(env: Seq<(String, String)>, os: Os) -> Seq<char> {
    match sdk_override(env) {
        Some(path) => path,
        None => home_dir(env, os) + sdk_suffix_spec(os),
    }
}

/// The simulator's executable inside the detected SDK.
pub open spec fn simulator_path_spec(env: Seq<(String, String)>, os: Os) -> Seq<char> {
    detect_sdk_path_spec(env, os) + simulator_suffix_spec(os)
}

/// Where the environment names no SDK directory, the detected one is the
/// home directory followed by the platform's suffix, whatever is on disk.
pub proof fn law_conventional_sdk_path(env: Seq<(String, String)>, os: Os)
    requires
        sdk_override(env) is None,
    ensures
        detect_sdk_path_spec(env, os) == home_dir(env, os) + sdk_suffix_spec(os),
{
}

/// A directory that the environment names wins over the conventional one.
pub proof fn law_sdk_override_wins(env: Seq<(String, String)>, os: Os)
    requires
        sdk_override(env) is Some,
    ensures
        detect_sdk_path_spec(env, os) == sdk_override(env)->0,
{
}

/// The value of the environment variable `name`.
pub fn lookup_env_var(env: &Vec<(String, String)>, name: &str) -> (r: Option<String>)
    ensures
        r is Some <==> lookup_env_var_spec(env@, name@) is Some,
        r is Some ==> r->0@ == lookup_env_var_spec(env@, name@)->0,
{
    let n = env.len();
    let mut i: usize = 0;
    proof {
        assert(env@.subrange(0, n as int) =~= env@);
    }
    while i < n
        invariant
            n == env@.len(),
            i <= n,
            lookup_env_var_spec(env@, name@) == lookup_env_var_spec(
                env@.subrange(i as int, n as int),
                name@,
            ),
        decreases n - i,
    {
        let ghost rest = env@.subrange(i as int, n as int);
        assert(rest[0] == env@[i as int]);
        if same_text(env[i].0.as_str(), name) {
            return Some(env[i].1.clone());
        }
        proof {
            assert(rest.drop_first() =~= env@.subrange(i + 1, n as int));
        }
        i = i + 1;
    }
    None
}

/// The variable that names the user's home directory on `os`.
pub fn home_variable(os: Os) -> (s: &'static str)
    ensures
        s@ == home_variable_spec(os),
{
    match os {
        Os::Windows => "USERPROFILE",
        _ => "HOME",
    }
}

/// Where the SDK installs itself below the home directory.
pub fn sdk_suffix(os: Os) -> (s: &'static str)
    ensures
        s@ == sdk_suffix_spec(os),
{
    match os {
        Os::Mac => "/Developer/PlaydateSDK",
        Os::Linux => "/.local/share/playdate-sdk",
        Os::Windows => "\\Documents\\PlaydateSDK",
    }
}

/// Where the simulator's executable lies below the SDK's directory.
pub fn simulator_suffix(os: Os) -> (s: &'static str)
    ensures
        s@ == simulator_suffix_spec(os),
{
    match os {
        Os::Mac => "/bin/Playdate Simulator.app/Contents/MacOS/Playdate Simulator",
        Os::Linux => "/bin/PlaydateSimulator",
        Os::Windows => "\\bin\\PlaydateSimulator.exe",
    }
}

/// Finds the SDK's directory. It always succeeds: where the environment names
/// no directory, the conventional one is given, whether or not it exists.
pub fn detect_sdk_path(env: &Vec<(String, String)>, os: Os) -> (r: Result<String, Error>)
    ensures
        r is Ok,
        r->Ok_0@ == detect_sdk_path_spec(env@, os),
{
    if let Some(path) = lookup_env_var(env, "PLAYDATE_SDK_PATH") {
        if !path.as_str().is_empty() {
            return Ok(path);
        }
    }
    let home = match lookup_env_var(env, home_variable(os)) {
        Some(home) => home,
        None => String::new(),
    };
    Ok(joined(home.as_str(), sdk_suffix(os)))
}

/// The simulator's executable inside the detected SDK.
pub fn get_simulator_path(env: &Vec<(String, String)>, os: Os) -> (r: Result<String, Error>)
    ensures
        r is Ok,
        r->Ok_0@ == simulator_path_spec(env@, os),
{
    match detect_sdk_path(env, os) {
        Ok(sdk) => Ok(joined(sdk.as_str(), simulator_suffix(os))),
        Err(e) => Err(e),
    }
}

} // verus!
