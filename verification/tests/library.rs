use command_embedder::driver::{
    compiler_args, executable_path, interpret_compile_outcome, source_path, target_triple,
    CompileResult, CompilerExit,
};
use command_embedder::platform::{get_executable_name, parse_platform_choice, TargetPlatform};
use command_embedder::synthesizer::{escape_command, generate_rust_code};

/// Reads a string the way the compiler reads a double-quoted literal body:
/// a backslash escapes the character after it, everything else is literal.
fn read_back_literal(s: &str) -> String {
    let mut out = String::new();
    let mut chars = s.chars();
    while let Some(c) = chars.next() {
        if c == '\\' {
            match chars.next() {
                Some(next) => out.push(next),
                None => out.push(c),
            }
        } else {
            out.push(c);
        }
    }
    out
}

#[test]
fn synthesize_is_deterministic() {
    let a = generate_rust_code(TargetPlatform::Windows, "dir /S \"C:\\tmp\"");
    let b = generate_rust_code(TargetPlatform::Windows, "dir /S \"C:\\tmp\"");
    assert_eq!(a, b);
    let c = generate_rust_code(TargetPlatform::Linux, "ls -la");
    let d = generate_rust_code(TargetPlatform::Linux, "ls -la");
    assert_eq!(c, d);
}

#[test]
fn escape_doubles_backslashes_then_escapes_quotes() {
    assert_eq!(escape_command("say \"hi\"\\now"), "say \\\"hi\\\"\\\\now");
}

#[test]
fn escape_counts_add_up() {
    // Two backslashes and one quote: 2 * 2 + 1 = 5 backslashes, 1 quote.
    let escaped = escape_command("a\\b\\c\"d");
    assert_eq!(escaped, "a\\\\b\\\\c\\\"d");
    assert_eq!(escaped.chars().filter(|c| *c == '\\').count(), 5);
    assert_eq!(escaped.chars().filter(|c| *c == '"').count(), 1);
}

#[test]
fn escape_round_trips_through_literal_reading() {
    let original = "echo \"a\\b\" && ls \\\\server\\share";
    let escaped = escape_command(original);
    assert_eq!(read_back_literal(&escaped), original);
}

#[test]
fn escape_of_empty_command_is_empty() {
    assert_eq!(escape_command(""), "");
}

#[test]
fn empty_command_still_yields_source_text() {
    let source = generate_rust_code(TargetPlatform::Linux, "");
    assert!(source.contains(".args([\"-c\", \"\"])"));
    assert!(source.starts_with("use std::process::Command;"));
    assert!(source.ends_with("}"));
}

#[test]
fn windows_source_invokes_cmd_slash_c() {
    let source = generate_rust_code(TargetPlatform::Windows, "echo hi");
    assert!(source.contains("Command::new(\"cmd\")"));
    assert!(source.contains(".args([\"/C\", \"echo hi\"])"));
}

#[test]
fn linux_source_invokes_sh_dash_c() {
    let source = generate_rust_code(TargetPlatform::Linux, "echo hi");
    assert!(source.contains("Command::new(\"sh\")"));
    assert!(source.contains(".args([\"-c\", \"echo hi\"])"));
}

#[test]
fn generated_source_matches_template_exactly() {
    let source = generate_rust_code(TargetPlatform::Linux, "echo hi");
    let expected = "use std::process::Command;\nuse std::io::{self, Write};\n\nfn main() {\n    // Embedded command: echo hi\n    println!(\"Executing embedded command...\");\n    \n    let output = Command::new(\"sh\")\n        .args([\"-c\", \"echo hi\"])\n        .output()\n        .expect(\"Failed to execute command\");\n    \n    // Print stdout\n    if !output.stdout.is_empty() {\n        println!(\"Output:\");\n        io::stdout().write_all(&output.stdout).unwrap();\n    }\n    \n    // Print stderr if there are errors\n    if !output.stderr.is_empty() {\n        eprintln!(\"Error:\");\n        io::stderr().write_all(&output.stderr).unwrap();\n    }\n    \n    // Exit with the same code as the embedded command\n    std::process::exit(output.status.code().unwrap_or(1));\n}";
    assert_eq!(source, expected);
}

#[test]
fn executable_name_appends_exe_only_on_windows() {
    assert_eq!(get_executable_name(TargetPlatform::Windows, "tool"), "tool.exe");
    assert_eq!(get_executable_name(TargetPlatform::Linux, "tool"), "tool");
}

#[test]
fn platform_choice_parses_menu_input() {
    assert_eq!(parse_platform_choice("1"), Some(TargetPlatform::Windows));
    assert_eq!(parse_platform_choice("2"), Some(TargetPlatform::Linux));
    assert_eq!(parse_platform_choice(""), None);
    assert_eq!(parse_platform_choice("3"), None);
    assert_eq!(parse_platform_choice("12"), None);
    assert_eq!(parse_platform_choice("windows"), None);
}

#[test]
fn target_triples_per_platform() {
    assert_eq!(target_triple(TargetPlatform::Windows), "x86_64-pc-windows-gnu");
    assert_eq!(target_triple(TargetPlatform::Linux), "x86_64-unknown-linux-gnu");
}

#[test]
fn artifact_paths_are_derived_from_base_name() {
    assert_eq!(source_path("lister"), "output/lister.rs");
    assert_eq!(executable_path(TargetPlatform::Windows, "tool"), "output/tool.exe");
    assert_eq!(executable_path(TargetPlatform::Linux, "tool"), "output/tool");
}

#[test]
fn compiler_args_come_in_fixed_order() {
    let args = compiler_args(TargetPlatform::Windows, "tool", "output/tool.rs");
    assert_eq!(
        args,
        vec![
            "--target".to_string(),
            "x86_64-pc-windows-gnu".to_string(),
            "-o".to_string(),
            "output/tool.exe".to_string(),
            "output/tool.rs".to_string(),
        ]
    );
}

#[test]
fn zero_exit_is_success_with_binary_path() {
    let outcome = interpret_compile_outcome(
        TargetPlatform::Windows,
        "tool",
        Some(CompilerExit { exited_zero: true, stderr: Vec::new() }),
    );
    match outcome {
        CompileResult::Success { executable } => assert_eq!(executable, "output/tool.exe"),
        other => panic!("expected success, got {:?}", other),
    }
}

#[test]
fn nonzero_exit_carries_captured_stderr() {
    let diagnostics = b"error: linking failed".to_vec();
    let outcome = interpret_compile_outcome(
        TargetPlatform::Linux,
        "tool",
        Some(CompilerExit { exited_zero: false, stderr: diagnostics.clone() }),
    );
    match outcome {
        CompileResult::CompilationFailed { stderr } => assert_eq!(stderr, diagnostics),
        other => panic!("expected compilation failure, got {:?}", other),
    }
}

#[test]
fn failed_launch_reports_toolchain_guidance() {
    let outcome = interpret_compile_outcome(TargetPlatform::Windows, "tool", None);
    match outcome {
        CompileResult::ToolchainUnavailable { guidance } => {
            assert!(guidance.contains("rustup target add x86_64-pc-windows-gnu"));
        },
        other => panic!("expected toolchain guidance, got {:?}", other),
    }
}

#[test]
fn end_to_end_lister_scenario() {
    let platform = TargetPlatform::Linux;
    let source = generate_rust_code(platform, "ls -la");
    assert!(source.contains("Command::new(\"sh\")"));
    assert!(source.contains(".args([\"-c\", \"ls -la\"])"));
    assert_eq!(source_path("lister"), "output/lister.rs");
    assert_eq!(get_executable_name(platform, "lister"), "lister");
    assert_eq!(
        compiler_args(platform, "lister", "output/lister.rs"),
        vec![
            "--target".to_string(),
            "x86_64-unknown-linux-gnu".to_string(),
            "-o".to_string(),
            "output/lister".to_string(),
            "output/lister.rs".to_string(),
        ]
    );
    // The compiler fails: the failure is surfaced with its diagnostics, and
    // the already-written source artifact is untouched by classification.
    let diagnostics = b"error[E0601]: main function not found".to_vec();
    let outcome = interpret_compile_outcome(
        platform,
        "lister",
        Some(CompilerExit { exited_zero: false, stderr: diagnostics.clone() }),
    );
    match outcome {
        CompileResult::CompilationFailed { stderr } => assert_eq!(stderr, diagnostics),
        other => panic!("expected compilation failure, got {:?}", other),
    }
}
