//! Where the sidecar's entry point lies, by build mode, platform and
//! bundling strategy.
//!
//! A development build runs the sidecar's script from the project that lies
//! beside the working directory. A packaged build holds either that script
//! among its resources, to be run by an interpreter, or a native executable
//! under `bin`; which of the two is fixed when the bundle is built.

use crate::error::{Directory, SidecarError, SidecarErrorView};
use crate::path::{join, joined, parent_or_same, parent_or_self};
use crate::platform::Platform;
use vstd::prelude::*;

verus! {

/// How the shell was built.
#[derive(Clone, Copy, Debug, PartialEq, Eq)]
pub enum BuildMode {
    /// Run from source, inside the project's directory.
    Development,
    /// Bundled for distribution.
    Packaged,
}

/// What a packaged build carries as its sidecar.
#[derive(Clone, Copy, Debug, PartialEq, Eq)]
pub enum Strategy {
    /// The script, run by an interpreter found on the search path.
    InterpreterScript,
    /// A native executable, run directly.
    NativeBinary,
}

/// The choices fixed when the shell is built.
#[derive(Clone, Copy, Debug, PartialEq, Eq)]
pub struct Config {
    pub mode: BuildMode,
    pub platform: Platform,
    pub strategy: Strategy,
}

/// How the entry point is started.
#[derive(Clone, Copy, Debug, PartialEq, Eq)]
pub enum Requirement {
    /// The entry point is itself executable.
    RunDirectly,
    /// The entry point is handed to the interpreter.
    RunViaInterpreter,
}

/// The entry point of the sidecar and how to start it.
#[derive(Debug, PartialEq, Eq)]
pub struct ResolvedPath {
    pub path: String,
    pub interpreter: Requirement,
}

/// A `ResolvedPath` with its path as a sequence of characters.
pub struct ResolvedPathView {
    pub path: Seq<char>,
    pub interpreter: Requirement,
}

impl View for ResolvedPath {
    type V = ResolvedPathView;

    open spec fn view(&self) -> ResolvedPathView {
        ResolvedPathView { path: self.path@, interpreter: self.interpreter }
    }
}

/// What the host answered when asked for a directory, as sequences of
/// characters: the directory, or the cause of the failure.
pub open spec fn lookup_view(lookup: Result<String, String>) -> Result<Seq<char>, Seq<char>> {
    match lookup {
        Ok(dir) => Ok(dir@),
        Err(cause) => Err(cause@),
    }
}

/// What `resolve` returns, as views.
pub open spec fn resolved_view(resolved: Result<ResolvedPath, SidecarError>) -> Result<
    ResolvedPathView,
    SidecarErrorView,
> {
    match resolved {
        Ok(target) => Ok(target@),
        Err(error) => Err(error@),
    }
}

/// The directory of the sidecar's project.
pub open spec fn sidecar_dir() -> Seq<char> {
    "yaLLMa3API"@
}

/// The script that starts the sidecar.
pub open spec fn entry_file() -> Seq<char> {
    "index.js"@
}

/// The interpreter that runs the script.
pub open spec fn interpreter() -> Seq<char> {
    "node"@
}

/// The directory of a bundle's native executables.
pub open spec fn bin_dir() -> Seq<char> {
    "bin"@
}

/// The name of the native executable bundled for `platform`.
pub open spec fn native_name(platform: Platform) -> Seq<char> {
    match platform {
        Platform::Linux => "index-x86_64-unknown-linux-gnu"@,
        Platform::Windows => "index-x86_64-pc-windows-msvc.exe"@,
        Platform::MacOs => "index-x86_64-apple-darwin"@,
    }
}

/// Where the installer of `platform` unpacks a bundle.
pub open spec fn fallback_root(platform: Platform) -> Seq<char> {
    match platform {
        Platform::Linux => "/usr/lib/yaLLMa3"@,
        Platform::Windows => "C:\\Program Files\\yaLLMa3"@,
        Platform::MacOs => "/Applications/yaLLMa3.app/Contents/Resources"@,
    }
}

/// The script in the sidecar's directory under `root`.
pub open spec fn script_under(platform: Platform, root: Seq<char>) -> Seq<char> {
    joined(platform, joined(platform, root, sidecar_dir()), entry_file())
}

/// The native executable among the resources in `resource_dir`.
pub open spec fn native_under(platform: Platform, resource_dir: Seq<char>) -> Seq<char> {
    joined(platform, joined(platform, resource_dir, bin_dir()), native_name(platform))
}

/// The script of a development build started in `working_dir`: the sidecar's
/// project lies beside the working directory, under the same parent.
pub open spec fn development_target(platform: Platform, working_dir: Seq<char>) -> Seq<char> {
    script_under(platform, parent_or_self(platform, working_dir))
}

/// The script where the installer of `platform` unpacks it.
pub open spec fn fallback_target(platform: Platform) -> Seq<char> {
    script_under(platform, fallback_root(platform))
}

/// The first of two candidates that exists, and the first of them where
/// neither does.
pub open spec fn first_existing(
    primary: Seq<char>,
    fallback: Seq<char>,
    primary_exists: bool,
    fallback_exists: bool,
) -> Seq<char> {
    if primary_exists {
        primary
    } else if fallback_exists {
        fallback
    } else {
        primary
    }
}

/// The entry point for a build, from what the host answered.
///
/// A development build takes the script beside the working directory and
/// looks at nothing else. A packaged build needs the resource directory: with
/// a native executable it takes the one for its platform, unchecked; with a
/// script it takes the one among the resources if that exists, else the one
/// at the installer's location if that exists, else the one among the
/// resources all the same. The only failure is a directory the host could not
/// name.
pub open spec fn resolution(
    config: Config,
    resource_dir: Result<Seq<char>, Seq<char>>,
    working_dir: Result<Seq<char>, Seq<char>>,
    primary_exists: bool,
    fallback_exists: bool,
) -> Result<ResolvedPathView, SidecarErrorView> {
    match config.mode {
        BuildMode::Development => match working_dir {
            Ok(dir) => Ok(
                ResolvedPathView {
                    path: development_target(config.platform, dir),
                    interpreter: Requirement::RunViaInterpreter,
                },
            ),
            Err(cause) => Err(
                SidecarErrorView::PathUnavailable { directory: Directory::Working, cause },
            ),
        },
        BuildMode::Packaged => match resource_dir {
            Ok(dir) => match config.strategy {
                Strategy::NativeBinary => Ok(
                    ResolvedPathView {
                        path: native_under(config.platform, dir),
                        interpreter: Requirement::RunDirectly,
                    },
                ),
                Strategy::InterpreterScript => Ok(
                    ResolvedPathView {
                        path: first_existing(
                            script_under(config.platform, dir),
                            fallback_target(config.platform),
                            primary_exists,
                            fallback_exists,
                        ),
                        interpreter: Requirement::RunViaInterpreter,
                    },
                ),
            },
            Err(cause) => Err(
                SidecarErrorView::PathUnavailable { directory: Directory::Resource, cause },
            ),
        },
    }
}

/// In a development build the entry point depends on the platform and the
/// working directory alone: two resolutions that agree on these agree on the
/// result, whatever the strategy, the resource directory and the disk hold.
pub proof fn lemma_development_is_deterministic(
    a: Config,
    b: Config,
    working_dir: Result<Seq<char>, Seq<char>>,
    resource_dir_a: Result<Seq<char>, Seq<char>>,
    resource_dir_b: Result<Seq<char>, Seq<char>>,
    exists_a: (bool, bool),
    exists_b: (bool, bool),
)
    requires
        a.mode is Development,
        b.mode is Development,
        a.platform == b.platform,
    ensures
        resolution(a, resource_dir_a, working_dir, exists_a.0, exists_a.1) == resolution(
            b,
            resource_dir_b,
            working_dir,
            exists_b.0,
            exists_b.1,
        ),
        working_dir matches Ok(dir) ==> resolution(
            a,
            resource_dir_a,
            working_dir,
            exists_a.0,
            exists_a.1,
        ) == Ok::<ResolvedPathView, SidecarErrorView>(
            ResolvedPathView {
                path: development_target(a.platform, dir),
                interpreter: Requirement::RunViaInterpreter,
            },
        ),
{
}

/// The entry point among the resources in `resource_dir` for a packaged
/// build: the script or the native executable, by its strategy.
pub open spec fn resource_target(config: Config, resource_dir: Seq<char>) -> ResolvedPathView {
    match config.strategy {
        Strategy::InterpreterScript => ResolvedPathView {
            path: script_under(config.platform, resource_dir),
            interpreter: Requirement::RunViaInterpreter,
        },
        Strategy::NativeBinary => ResolvedPathView {
            path: native_under(config.platform, resource_dir),
            interpreter: Requirement::RunDirectly,
        },
    }
}

/// A packaged build takes the entry point among its resources whenever that
/// exists, whether or not the one at the installer's location exists too. A
/// build that carries the native executable takes it even unseen.
pub proof fn lemma_packaged_prefers_resources(
    config: Config,
    resource_dir: Seq<char>,
    working_dir: Result<Seq<char>, Seq<char>>,
    primary_exists: bool,
    fallback_exists: bool,
)
    requires
        config.mode is Packaged,
        primary_exists || config.strategy is NativeBinary,
    ensures
        resolution(config, Ok(resource_dir), working_dir, primary_exists, fallback_exists) == Ok::<
            ResolvedPathView,
            SidecarErrorView,
        >(resource_target(config, resource_dir)),
{
}

/// The name of the interpreter.
pub fn interpreter_name() -> (name: &'static str)
    ensures
        name@ == interpreter(),
{
    "node"
}

/// The name of the native executable bundled for `platform`.
pub fn native_binary_name(platform: Platform) -> (name: &'static str)
    ensures
        name@ == native_name(platform),
{
    match platform {
        Platform::Linux => "index-x86_64-unknown-linux-gnu",
        Platform::Windows => "index-x86_64-pc-windows-msvc.exe",
        Platform::MacOs => "index-x86_64-apple-darwin",
    }
}

/// Gives the script in the sidecar's directory under `root`.
pub fn script_path(platform: Platform, root: &str) -> (path: String)
    ensures
        path@ == script_under(platform, root@),
{
    let dir = join(platform, root, "yaLLMa3API");
    join(platform, dir.as_str(), "index.js")
}

/// Gives the native executable among the resources in `resource_dir`.
pub fn native_path(platform: Platform, resource_dir: &str) -> (path: String)
    ensures
        path@ == native_under(platform, resource_dir@),
{
    let dir = join(platform, resource_dir, "bin");
    join(platform, dir.as_str(), native_binary_name(platform))
}

/// Gives the script of a development build started in `working_dir`.
pub fn development_path(platform: Platform, working_dir: &str) -> (path: String)
    ensures
        path@ == development_target(platform, working_dir@),
{
    let root = parent_or_same(platform, working_dir);
    script_path(platform, root.as_str())
}

/// Gives the script where the installer of `platform` unpacks it.
pub fn fallback_path(platform: Platform) -> (path: String)
    ensures
        path@ == fallback_target(platform),
{
    let root = match platform {
        Platform::Linux => "/usr/lib/yaLLMa3",
        Platform::Windows => "C:\\Program Files\\yaLLMa3",
        Platform::MacOs => "/Applications/yaLLMa3.app/Contents/Resources",
    };
    script_path(platform, root)
}

/// Picks between the two candidates of a packaged build that carries the
/// script, from whether each exists.
pub fn choose_existing(
    primary: String,
    fallback: String,
    primary_exists: bool,
    fallback_exists: bool,
) -> (chosen: String)
    ensures
        chosen@ == first_existing(primary@, fallback@, primary_exists, fallback_exists),
{
    if primary_exists || !fallback_exists {
        primary
    } else {
        fallback
    }
}

/// Resolves the entry point of the sidecar.
///
/// `resource_dir` and `working_dir` are what the host answered when asked for
/// each directory; `primary_exists` and `fallback_exists` say whether the
/// script among the resources and the one at the installer's location were
/// found on disk. What a build does not consult is ignored.
pub fn resolve(
    config: Config,
    resource_dir: &Result<String, String>,
    working_dir: &Result<String, String>,
    primary_exists: bool,
    fallback_exists: bool,
) -> (resolved: Result<ResolvedPath, SidecarError>)
    ensures
        resolved_view(resolved) == resolution(
            config,
            lookup_view(*resource_dir),
            lookup_view(*working_dir),
            primary_exists,
            fallback_exists,
        ),
{
    match config.mode {
        BuildMode::Development => match working_dir {
            Ok(dir) => Ok(
                ResolvedPath {
                    path: development_path(config.platform, dir.as_str()),
                    interpreter: Requirement::RunViaInterpreter,
                },
            ),
            Err(cause) => Err(
                SidecarError::PathUnavailable { directory: Directory::Working, cause: cause.clone() },
            ),
        },
        BuildMode::Packaged => match resource_dir {
            Ok(dir) => match config.strategy {
                Strategy::NativeBinary => Ok(
                    ResolvedPath {
                        path: native_path(config.platform, dir.as_str()),
                        interpreter: Requirement::RunDirectly,
                    },
                ),
                Strategy::InterpreterScript => Ok(
                    ResolvedPath {
                        path: choose_existing(
                            script_path(config.platform, dir.as_str()),
                            fallback_path(config.platform),
                            primary_exists,
                            fallback_exists,
                        ),
                        interpreter: Requirement::RunViaInterpreter,
                    },
                ),
            },
            Err(cause) => Err(
                SidecarError::PathUnavailable {
                    directory: Directory::Resource,
                    cause: cause.clone(),
                },
            ),
        },
    }
}

} // verus!
