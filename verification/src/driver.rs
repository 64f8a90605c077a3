use crate::platform::{TargetPlatform, executable_name_spec, get_executable_name};
use vstd::prelude::*;

verus! {

/// The compiler target identifier handed to the external compiler: a Windows
/// cross-target triple, or the native Linux triple.
pub open spec fn target_triple_spec(platform: TargetPlatform) -> Seq<char> {
    match platform {
        TargetPlatform::Windows => "x86_64-pc-windows-gnu"@,
        TargetPlatform::Linux => "x86_64-unknown-linux-gnu"@,
    }
}

/// Derives the compiler target identifier for a platform.
pub fn target_triple(platform: TargetPlatform) -> (r: String)
    ensures
        r@ == target_triple_spec(platform),
{
    match platform {
        TargetPlatform::Windows => "x86_64-pc-windows-gnu".to_owned(),
        TargetPlatform::Linux => "x86_64-unknown-linux-gnu".to_owned(),
    }
}

/// Where the synthesized source is written: `output/<base>.rs`.
pub open spec fn source_path_spec(base: Seq<char>) -> Seq<char> {
    "output/"@ + base + ".rs"@
}

/// Derives the path the synthesized source is written to.
pub fn source_path(base_name: &str) -> (r: String)
    ensures
        r@ == source_path_spec(base_name@),
{
    let mut r = "output/".to_owned();
    r.append(base_name);
    r.append(".rs");
    r
}

/// Where the compiled binary is written: `output/` plus the platform-specific
/// executable filename.
pub open spec fn executable_path_spec(platform: TargetPlatform, base: Seq<char>) -> Seq<char> {
    "output/"@ + executable_name_spec(platform, base)
}

/// Derives the path the compiled binary is written to.
pub fn executable_path(platform: TargetPlatform, base_name: &str) -> (r: String)
    ensures
        r@ == executable_path_spec(platform, base_name@),
{
    let exe = get_executable_name(platform, base_name);
    let mut r = "output/".to_owned();
    r.append(exe.as_str());
    r
}

/// The external compiler's argument list, in the fixed order: the target
/// flag and triple, the output flag and binary path, then the source path.
pub open spec fn compiler_args_spec(
    platform: TargetPlatform,
    base: Seq<char>,
    source: Seq<char>,
) -> Seq<Seq<char>> {
    seq![
        "--target"@,
        target_triple_spec(platform),
        "-o"@,
        executable_path_spec(platform, base),
        source,
    ]
}

/// Builds the external compiler's argument list for one invocation.
pub fn compiler_args(platform: TargetPlatform, base_name: &str, source_file: &str) -> (r: Vec<
    String,
>)
    ensures
        r@.len() == compiler_args_spec(platform, base_name@, source_file@).len(),
        forall|i: int|
            0 <= i < r@.len() ==> #[trigger] r@[i]@ == compiler_args_spec(
                platform,
                base_name@,
                source_file@,
            )[i],
{
    let mut r: Vec<String> = Vec::new();
    r.push("--target".to_owned());
    r.push(target_triple(platform));
    r.push("-o".to_owned());
    r.push(executable_path(platform, base_name));
    r.push(source_file.to_owned());
    r
}

/// The remediation guidance reported when the external compiler cannot be
/// launched at all: it names the target that may need installing.
pub open spec fn guidance_spec(platform: TargetPlatform) -> Seq<char> {
    "Make sure Rust is installed and the target is available.\nYou may need to install the target with:\n  rustup target add "@
        + target_triple_spec(platform)
}

/// How a compiler subprocess that did launch ended: whether it exited with
/// status zero, and its captured standard error.
pub struct CompilerExit {
    pub exited_zero: bool,
    pub stderr: Vec<u8>,
}

/// The outcome of one attempted compiler invocation. A non-zero compiler exit
/// is surfaced with its diagnostics and is not retried; a compiler that could
/// not be launched at all ends the operation with remediation guidance.
#[derive(Debug)]
pub enum CompileResult {
    /// The compiler exited with status zero; the binary stands at `executable`.
    Success { executable: String },
    /// The compiler ran but exited non-zero; `stderr` holds its captured
    /// diagnostic text for display.
    CompilationFailed { stderr: Vec<u8> },
    /// The compiler could not be launched (not found, permission denied, ...).
    ToolchainUnavailable { guidance: String },
}

/// Classifies the result of one compiler invocation: `None` means the
/// subprocess could not be launched; otherwise its exit status decides
/// between success (reporting the derived binary path) and failure
/// (carrying the captured standard error).
pub fn interpret_compile_outcome(
    platform: TargetPlatform,
    base_name: &str,
    launch: Option<CompilerExit>,
) -> (r: CompileResult)
    ensures
        match launch {
            Option::Some(exit) => {
                if exit.exited_zero {
                    r matches CompileResult::Success { executable } && executable@
                        == executable_path_spec(platform, base_name@)
                } else {
                    r matches CompileResult::CompilationFailed { stderr } && stderr@
                        == exit.stderr@
                }
            },
            Option::None => (r matches CompileResult::ToolchainUnavailable { guidance }
                && guidance@ == guidance_spec(platform)),
        },
{
    match launch {
        Option::Some(exit) => {
            if exit.exited_zero {
                CompileResult::Success { executable: executable_path(platform, base_name) }
            } else {
                CompileResult::CompilationFailed { stderr: exit.stderr }
            }
        },
        Option::None => {
            let mut guidance =
                "Make sure Rust is installed and the target is available.\nYou may need to install the target with:\n  rustup target add ".to_owned();
            let triple = target_triple(platform);
            guidance.append(triple.as_str());
            CompileResult::ToolchainUnavailable { guidance }
        },
    }
}

} // verus!
