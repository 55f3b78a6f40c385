//! Resolving where the backend lives and planning how to start it.
//!
//! The backend is a server script named `api.py`, run under a Python
//! interpreter, bound to a fixed loopback address and port. This module
//! computes the backend directory for either layout, selects the
//! interpreter for the target platform, and builds the exact invocation;
//! the caller checks the filesystem and spawns the process.

use crate::paths::{has_parent, join, join_path, parent_dir, parent_path};
use vstd::prelude::*;

verus! {

/// Where the shell is running, and so where the backend directory lies.
pub enum Layout {
    /// A development tree: the backend directory sits beside the shell's
    /// own source directory, whose location is known at build time.
    Development { manifest_dir: String },
    /// A packaged install: the backend directory was bundled under the
    /// host's resource directory, queried at run time.
    Packaged { resource_dir: String },
}

/// The target platform, which decides the interpreter.
#[derive(Clone, Copy, Debug, PartialEq, Eq)]
pub enum Platform {
    MacOs,
    Windows,
    Linux,
}

/// Name of the directory holding the backend.
pub open spec fn backend_dir_name() -> Seq<char> {
    "backend"@
}

/// Name of the backend's entry script.
pub open spec fn entry_file_name() -> Seq<char> {
    "api.py"@
}

/// A development layout needs a source directory that has a parent.
pub open spec fn layout_wf(layout: Layout) -> bool {
    layout matches Layout::Development { manifest_dir } ==> has_parent(manifest_dir@)
}

/// The backend directory for a layout: in development, the sibling of the
/// shell's source directory named for the backend; packaged, the backend
/// directory under the resource directory.
pub open spec fn backend_dir_spec(layout: Layout) -> Seq<char>
    recommends
        layout_wf(layout),
{
    match layout {
        Layout::Development { manifest_dir } => join_path(
            parent_path(manifest_dir@),
            backend_dir_name(),
        ),
        Layout::Packaged { resource_dir } => join_path(resource_dir@, backend_dir_name()),
    }
}

/// The directory expected to contain the backend's entry script.
pub fn resolve_backend_dir(layout: &Layout) -> (r: String)
    requires
        layout_wf(*layout),
    ensures
        r@ == backend_dir_spec(*layout),
{
    match layout {
        Layout::Development { manifest_dir } => {
            let parent = parent_dir(manifest_dir.as_str());
            join(parent.as_str(), "backend")
        },
        Layout::Packaged { resource_dir } => join(resource_dir.as_str(), "backend"),
    }
}

/// The interpreter that runs the backend: a bundled executable inside the
/// backend directory on Windows, the system interpreter elsewhere.
pub open spec fn interpreter_spec(platform: Platform, backend_dir: Seq<char>) -> Seq<char> {
    match platform {
        Platform::Windows => join_path(
            join_path(backend_dir, "python-embed"@),
            "python.exe"@,
        ),
        Platform::MacOs => "python3"@,
        Platform::Linux => "python3"@,
    }
}

/// The interpreter command for a platform, given the backend directory.
pub fn interpreter_command(platform: Platform, backend_dir: &str) -> (r: String)
    ensures
        r@ == interpreter_spec(platform, backend_dir@),
{
    match platform {
        Platform::Windows => {
            let embed = join(backend_dir, "python-embed");
            join(embed.as_str(), "python.exe")
        },
        Platform::MacOs => String::from_str("python3"),
        Platform::Linux => String::from_str("python3"),
    }
}

/// The fixed argument list: run the server package as a module on the entry
/// application, bound to the loopback address and the backend's port. This
/// is the wire-level contract with the backend and must not drift.
pub open spec fn backend_args_spec() -> Seq<Seq<char>> {
    seq!["-m"@, "uvicorn"@, "api:app"@, "--host"@, "127.0.0.1"@, "--port"@, "8000"@]
}

/// Build the fixed argument list.
pub fn backend_args() -> (r: Vec<String>)
    ensures
        r@.map_values(|a: String| a@) == backend_args_spec(),
{
    let mut args: Vec<String> = Vec::new();
    args.push(String::from_str("-m"));
    args.push(String::from_str("uvicorn"));
    args.push(String::from_str("api:app"));
    args.push(String::from_str("--host"));
    args.push(String::from_str("127.0.0.1"));
    args.push(String::from_str("--port"));
    args.push(String::from_str("8000"));
    proof {
        assert(args@.map_values(|a: String| a@) =~= backend_args_spec());
    }
    args
}

/// A subprocess invocation, ready to be spawned.
#[derive(Debug)]
pub struct LaunchPlan {
    /// The interpreter to invoke.
    pub program: String,
    /// Its argument list.
    pub args: Vec<String>,
    /// The directory the process starts in.
    pub working_dir: String,
}

/// A plan is right for a backend directory and platform when it invokes that
/// platform's interpreter with exactly the fixed argument list, starting in
/// that directory.
pub open spec fn plan_ok(plan: LaunchPlan, backend_dir: Seq<char>, platform: Platform) -> bool {
    &&& plan.program@ == interpreter_spec(platform, backend_dir)
    &&& plan.args@.map_values(|a: String| a@) == backend_args_spec()
    &&& plan.working_dir@ == backend_dir
}

/// The error reported when the backend directory itself is missing.
pub open spec fn dir_missing_message(backend_dir: Seq<char>) -> Seq<char> {
    "Backend directory not found at: "@ + backend_dir
}

/// The error reported when the directory exists but the entry script is
/// missing from it.
pub open spec fn entry_missing_message(backend_dir: Seq<char>) -> Seq<char> {
    "api.py not found at: "@ + join_path(backend_dir, entry_file_name())
}

/// Plan the backend launch. `dir_exists` and `entry_exists` report what the
/// caller found on the filesystem: whether `backend_dir` is present, and
/// whether the entry script is present inside it. A plan comes back exactly
/// when both are there; otherwise the error names what is missing and where
/// it was looked for, and nothing is to be spawned.
pub fn plan_launch(
    backend_dir: &str,
    platform: Platform,
    dir_exists: bool,
    entry_exists: bool,
) -> (r: Result<LaunchPlan, String>)
    ensures
        dir_exists && entry_exists ==> (r matches Ok(plan) && plan_ok(
            plan,
            backend_dir@,
            platform,
        )),
        !dir_exists ==> (r matches Err(e) && e@ == dir_missing_message(backend_dir@)),
        dir_exists && !entry_exists ==> (r matches Err(e) && e@ == entry_missing_message(
            backend_dir@,
        )),
{
    if !dir_exists {
        return Err(String::from_str("Backend directory not found at: ").concat(backend_dir));
    }
    if !entry_exists {
        let entry = join(backend_dir, "api.py");
        return Err(String::from_str("api.py not found at: ").concat(entry.as_str()));
    }
    Ok(
        LaunchPlan {
            program: interpreter_command(platform, backend_dir),
            args: backend_args(),
            working_dir: String::from_str(backend_dir),
        },
    )
}

} // verus!
