//! Running `wrangler-js` and installing it: the command lines, and the
//! decisions taken on what the processes report.
use vstd::prelude::*;
use vstd::string::*;
use crate::bundle::WrangerjsOutput;

verus! {

/// Why a build failed.
#[derive(Debug, Clone, PartialEq, Eq)]
pub enum BuildError {
    /// A file or directory could not be created, read, written or deleted.
    Io(String),
    /// The bundler exited with a failure status.
    ToolFailed { command: String, status: String },
    /// The bundler succeeded but its result file does not hold a valid result.
    MalformedOutput(String),
    /// The bundler's working directory could not be removed.
    CleanupFailed(String),
}

/// Why an installation failed.
#[derive(Debug, Clone, PartialEq, Eq)]
pub enum InstallError {
    /// The package manager exited with a failure status.
    NonZeroExit { command: String, status: String },
}

/// What the build runner learns, step by step.
#[derive(Debug, PartialEq, Eq)]
pub enum BuildEvent {
    /// The bundler exited; `status` describes the exit status.
    Exited { success: bool, command: String, status: String },
    /// The result file was decoded: the result, or why it is not one.
    Decoded(Result<WrangerjsOutput, String>),
}

/// What the build runner does next.
#[derive(Debug, PartialEq, Eq)]
pub enum BuildAction {
    /// Decode the result file that the bundler wrote.
    DecodeOutput,
    /// Stop with this outcome.
    Finish(Result<WrangerjsOutput, BuildError>),
}

/// The path of the bundler, relative to the project.
pub open spec fn executable() -> Seq<char> {
    "./node_modules/.bin/wrangler-js"@
}

/// The variable of the bundler's environment that holds the path of `wasm-pack`.
pub open spec fn wasm_pack_env() -> Seq<char> {
    "WASM_PACK_PATH"@
}

/// The arguments of the bundler: where to write its result and, when the
/// project has no webpack configuration, the entry point to use instead.
pub open spec fn invocation(output_file: Seq<char>, has_config: bool, entry: Seq<char>) -> Seq<Seq<char>> {
    let out = "--output-file="@ + output_file;
    if has_config {
        seq![out]
    } else {
        seq![out, "--no-webpack-config=1"@, "--use-entry="@ + entry]
    }
}

/// The step of the runner after `event`: a failed exit ends the build before
/// the result file is decoded; a successful one leads to decoding; a decoded
/// file ends it, with `MalformedOutput` where it held no result.
pub open spec fn next_action(event: BuildEvent) -> BuildAction {
    match event {
        BuildEvent::Exited { success, command, status } => if success {
            BuildAction::DecodeOutput
        } else {
            BuildAction::Finish(Err(BuildError::ToolFailed { command, status }))
        },
        BuildEvent::Decoded(Ok(o)) => BuildAction::Finish(Ok(o)),
        BuildEvent::Decoded(Err(m)) => BuildAction::Finish(Err(BuildError::MalformedOutput(m))),
    }
}

/// A failed exit ends the build with `ToolFailed` and nothing is decoded; a
/// successful exit leads to decoding; a result file that holds no valid
/// result ends the build with `MalformedOutput`, never with a result.
pub proof fn lemma_exit_then_decode(success: bool, command: String, status: String, m: String)
    ensures
        !success ==> next_action(BuildEvent::Exited { success, command, status }) == BuildAction::Finish(
            Err(BuildError::ToolFailed { command, status }),
        ),
        success ==> next_action(BuildEvent::Exited { success, command, status })
            == BuildAction::DecodeOutput,
        next_action(BuildEvent::Decoded(Err(m))) == BuildAction::Finish(
            Err(BuildError::MalformedOutput(m)),
        ),
{
}

/// The path of the bundler, relative to the project.
pub fn executable_path() -> (r: String)
    ensures
        r@ == executable(),
{
    String::from_str("./node_modules/.bin/wrangler-js")
}

/// The name of the environment variable that passes the path of `wasm-pack`.
pub fn wasm_pack_env_var() -> (r: String)
    ensures
        r@ == wasm_pack_env(),
{
    String::from_str("WASM_PACK_PATH")
}

/// The arguments of the bundler, given the result file, whether the project
/// has a webpack configuration, and the absolute path of its entry point.
pub fn build_args(output_file: &str, has_webpack_config: bool, entry: &str) -> (r: Vec<String>)
    ensures
        r@.len() == invocation(output_file@, has_webpack_config, entry@).len(),
        forall|i: int|
            0 <= i < r@.len() ==> #[trigger] r@[i]@ == invocation(
                output_file@,
                has_webpack_config,
                entry@,
            )[i],
{
    let mut args: Vec<String> = Vec::new();
    let mut out = String::from_str("--output-file=");
    out.append(output_file);
    args.push(out);
    if !has_webpack_config {
        args.push(String::from_str("--no-webpack-config=1"));
        let mut use_entry = String::from_str("--use-entry=");
        use_entry.append(entry);
        args.push(use_entry);
    }
    proof {
        let inv = invocation(output_file@, has_webpack_config, entry@);
        assert forall|i: int| 0 <= i < args@.len() implies #[trigger] args@[i]@ == inv[i] by {}
    }
    args
}

/// The next step of a build after `event`.
pub fn build_step(event: BuildEvent) -> (r: BuildAction)
    ensures
        r == next_action(event),
{
    match event {
        BuildEvent::Exited { success, command, status } => if success {
            BuildAction::DecodeOutput
        } else {
            BuildAction::Finish(Err(BuildError::ToolFailed { command, status }))
        },
        BuildEvent::Decoded(Ok(o)) => BuildAction::Finish(Ok(o)),
        BuildEvent::Decoded(Err(m)) => BuildAction::Finish(Err(BuildError::MalformedOutput(m))),
    }
}

/// The arguments of the package manager that install `wrangler-js`.
pub fn install_args() -> (r: Vec<String>)
    ensures
        r@.len() == 2,
        r@[0]@ == "install"@,
        r@[1]@ == "wrangler-js"@,
{
    let mut args: Vec<String> = Vec::new();
    args.push(String::from_str("install"));
    args.push(String::from_str("wrangler-js"));
    args
}

/// The arguments of the package manager that install the project's
/// dependencies.
pub fn npm_install_args() -> (r: Vec<String>)
    ensures
        r@.len() == 1,
        r@[0]@ == "install"@,
{
    let mut args: Vec<String> = Vec::new();
    args.push(String::from_str("install"));
    args
}

/// The outcome of an installation whose package manager exited with `status`.
pub fn install_outcome(success: bool, command: String, status: String) -> (r: Result<(), InstallError>)
    ensures
        success ==> r is Ok,
        !success ==> r == Err::<(), InstallError>(InstallError::NonZeroExit { command, status }),
{
    if success {
        Ok(())
    } else {
        Err(InstallError::NonZeroExit { command, status })
    }
}

} // verus!
