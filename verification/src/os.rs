use vstd::prelude::*;

verus! {

/// The ambient directory information that path resolution depends on: the
/// user's home directory, the platform-standard per-user data directory,
/// whether the platform is Unix-like, and the platform's path-segment
/// separator.
///
/// Holding these as plain data makes every resolution a pure function of the
/// resolver's state; `Environment::current` captures the real process
/// environment, and tests may supply a fixed one.
pub struct Environment {
    pub home_dir: Option<String>,
    pub data_dir: Option<String>,
    pub unix_like: bool,
    pub separator: String,
}

impl Environment {
    /// A well-formed environment has a single-character path separator,
    /// which on a Unix-like platform is `/`.
    pub open spec fn wf(self) -> bool {
        &&& self.separator@.len() == 1
        &&& (self.unix_like ==> self.separator@ == seq!['/'])
    }

    /// The environment of the running process.
    pub fn current() -> (e: Environment)
        ensures
            e.wf(),
    {
        let (unix_like, separator) = platform_separator();
        Environment { home_dir: os_home_dir(), data_dir: os_data_dir(), unix_like, separator }
    }
}

/// Relies on dirs::home_dir: the home directory of the current user, if the
/// operating system can supply one. The result depends on the process
/// environment, so nothing is stated of its contents; `None` also covers a
/// home directory that is not valid UTF-8.
#[verifier::external_body]
fn os_home_dir() -> Option<String> {
    dirs::home_dir().and_then(|p| p.to_str().map(|s| s.to_string()))
}

/// Relies on dirs::data_dir: the platform-standard per-user data directory,
/// if the operating system can supply one. The result depends on the process
/// environment, so nothing is stated of its contents; `None` also covers a
/// data directory that is not valid UTF-8.
#[verifier::external_body]
fn os_data_dir() -> Option<String> {
    dirs::data_dir().and_then(|p| p.to_str().map(|s| s.to_string()))
}

/// Relies on std::path::MAIN_SEPARATOR: the platform's primary path-segment
/// separator, a single character, which is `/` exactly on the Unix-like
/// platforms. The boolean says whether the platform is Unix-like, read off
/// that separator.
#[verifier::external_body]
fn platform_separator() -> (r: (bool, String))
    ensures
        r.1@.len() == 1,
        r.0 ==> r.1@ == seq!['/'],
{
    let sep = std::path::MAIN_SEPARATOR;
    (sep == '/', sep.to_string())
}

} // verus!
