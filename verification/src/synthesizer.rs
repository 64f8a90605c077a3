use crate::platform::TargetPlatform;
use vstd::prelude::*;

verus! {

/// How a single character of the raw command is rendered inside the generated
/// double-quoted string literal: a backslash becomes two backslashes, a double
/// quote becomes backslash-quote, anything else is kept as it is.
pub open spec fn escaped_char(c: char) -> Seq<char> {
    if c == '\\' {
        seq!['\\', '\\']
    } else if c == '"' {
        seq!['\\', '"']
    } else {
        seq![c]
    }
}

/// The escaped form of a whole command: each character rendered by
/// `escaped_char`, in order. This single pass is the stated two-pass rule
/// (first double every backslash, then prefix every quote with a backslash):
/// the backslashes the first pass inserts sit before other backslashes, never
/// before a quote, so the second pass touches only original quotes.
pub open spec fn escape_spec(s: Seq<char>) -> Seq<char>
    decreases s.len(),
{
    if s.len() == 0 {
        Seq::empty()
    } else {
        escaped_char(s[0]) + escape_spec(s.subrange(1, s.len() as int))
    }
}

/// Escaping distributes over concatenation of commands.
pub proof fn lemma_escape_concat(a: Seq<char>, b: Seq<char>)
    ensures
        escape_spec(a + b) == escape_spec(a) + escape_spec(b),
    decreases a.len(),
{
    if a.len() == 0 {
        assert(a + b =~= b);
        assert(escape_spec(a) + escape_spec(b) =~= escape_spec(b));
    } else {
        let t = a.subrange(1, a.len() as int);
        lemma_escape_concat(t, b);
        assert((a + b).subrange(1, (a + b).len() as int) =~= t + b);
        assert((a + b)[0] == a[0]);
        assert(escape_spec(a + b) == escaped_char(a[0]) + (escape_spec(t) + escape_spec(b)));
        assert(escaped_char(a[0]) + (escape_spec(t) + escape_spec(b)) =~= (escaped_char(a[0])
            + escape_spec(t)) + escape_spec(b));
    }
}

/// Extending the command by one character extends the escaped form by that
/// character's rendering.
pub proof fn lemma_escape_snoc(s: Seq<char>, c: char)
    ensures
        escape_spec(s.push(c)) == escape_spec(s) + escaped_char(c),
{
    let single = seq![c];
    assert(s.push(c) =~= s + single);
    lemma_escape_concat(s, single);
    assert(single.len() == 1);
    assert(single[0] == c);
    assert(single.subrange(1, 1) =~= Seq::<char>::empty());
    assert(escape_spec(single) == escaped_char(c) + escape_spec(single.subrange(1, 1)));
    assert(escape_spec(single) =~= escaped_char(c));
}

/// How many times character `c` occurs in `s`.
pub open spec fn count_char(s: Seq<char>, c: char) -> nat
    decreases s.len(),
{
    if s.len() == 0 {
        0
    } else {
        (if s[0] == c {
            1nat
        } else {
            0nat
        }) + count_char(s.subrange(1, s.len() as int), c)
    }
}

pub proof fn lemma_count_char_concat(a: Seq<char>, b: Seq<char>, c: char)
    ensures
        count_char(a + b, c) == count_char(a, c) + count_char(b, c),
    decreases a.len(),
{
    if a.len() == 0 {
        assert(a + b =~= b);
    } else {
        let t = a.subrange(1, a.len() as int);
        lemma_count_char_concat(t, b, c);
        assert((a + b).subrange(1, (a + b).len() as int) =~= t + b);
        assert((a + b)[0] == a[0]);
    }
}

proof fn lemma_count_char_single(a: char, c: char)
    ensures
        count_char(seq![a], c) == (if a == c {
            1nat
        } else {
            0nat
        }),
{
    let s = seq![a];
    assert(s.len() == 1 && s[0] == a);
    assert(s.subrange(1, 1) =~= Seq::<char>::empty());
    assert(count_char(Seq::<char>::empty(), c) == 0);
}

proof fn lemma_count_char_pair(a: char, b: char, c: char)
    ensures
        count_char(seq![a, b], c) == (if a == c {
            1nat
        } else {
            0nat
        }) + (if b == c {
            1nat
        } else {
            0nat
        }),
{
    let s = seq![a, b];
    let t = s.subrange(1, 2);
    assert(t =~= seq![b]);
    lemma_count_char_single(b, c);
}

/// Escaping a command with `n` backslashes and `m` double quotes yields text
/// with `2 * n + m` backslashes (each original backslash doubled, plus one
/// inserted before each quote) and the same `m` quotes.
pub proof fn lemma_escape_counts(s: Seq<char>)
    ensures
        count_char(escape_spec(s), '\\') == 2 * count_char(s, '\\') + count_char(s, '"'),
        count_char(escape_spec(s), '"') == count_char(s, '"'),
    decreases s.len(),
{
    if s.len() == 0 {
    } else {
        let t = s.subrange(1, s.len() as int);
        lemma_escape_counts(t);
        lemma_count_char_concat(escaped_char(s[0]), escape_spec(t), '\\');
        lemma_count_char_concat(escaped_char(s[0]), escape_spec(t), '"');
        if s[0] == '\\' {
            lemma_count_char_pair('\\', '\\', '\\');
            lemma_count_char_pair('\\', '\\', '"');
        } else if s[0] == '"' {
            lemma_count_char_pair('\\', '"', '\\');
            lemma_count_char_pair('\\', '"', '"');
        } else {
            lemma_count_char_single(s[0], '\\');
            lemma_count_char_single(s[0], '"');
        }
    }
}

/// How a double-quoted string literal body reads back: a backslash followed by
/// any character stands for that character alone; every other character stands
/// for itself.
pub open spec fn unescape_spec(s: Seq<char>) -> Seq<char>
    decreases s.len(),
{
    if s.len() == 0 {
        Seq::empty()
    } else if s[0] == '\\' && s.len() >= 2 {
        seq![s[1]] + unescape_spec(s.subrange(2, s.len() as int))
    } else {
        seq![s[0]] + unescape_spec(s.subrange(1, s.len() as int))
    }
}

/// Round trip: the escaped text, read back as a quoted string literal body,
/// yields the original command.
pub proof fn lemma_escape_unescape(s: Seq<char>)
    ensures
        unescape_spec(escape_spec(s)) == s,
    decreases s.len(),
{
    if s.len() == 0 {
    } else {
        let t = s.subrange(1, s.len() as int);
        lemma_escape_unescape(t);
        let e = escape_spec(s);
        let et = escape_spec(t);
        if s[0] == '\\' {
            assert(e == seq!['\\', '\\'] + et);
            assert(e[0] == '\\' && e[1] == '\\' && e.len() >= 2);
            assert(e.subrange(2, e.len() as int) =~= et);
            assert(unescape_spec(e) == seq!['\\'] + t);
            assert(seq!['\\'] + t =~= s);
        } else if s[0] == '"' {
            assert(e == seq!['\\', '"'] + et);
            assert(e[0] == '\\' && e[1] == '"' && e.len() >= 2);
            assert(e.subrange(2, e.len() as int) =~= et);
            assert(unescape_spec(e) == seq!['"'] + t);
            assert(seq!['"'] + t =~= s);
        } else {
            assert(e == seq![s[0]] + et);
            assert(e[0] == s[0]);
            assert(e.subrange(1, e.len() as int) =~= et);
            assert(unescape_spec(e) == seq![s[0]] + t);
            assert(seq![s[0]] + t =~= s);
        }
    }
}

/// `s` is a well-formed double-quoted string literal body: every backslash
/// escapes a character that follows it, and no quote stands unescaped. Such a
/// body never terminates the surrounding literal early.
pub open spec fn literal_body_ok(s: Seq<char>) -> bool
    decreases s.len(),
{
    if s.len() == 0 {
        true
    } else if s[0] == '\\' {
        s.len() >= 2 && literal_body_ok(s.subrange(2, s.len() as int))
    } else {
        s[0] != '"' && literal_body_ok(s.subrange(1, s.len() as int))
    }
}

/// Safety of embedding: whatever the command holds, its escaped form is a
/// well-formed literal body — no dangling backslash, no unescaped quote.
pub proof fn lemma_escape_safe_to_embed(s: Seq<char>)
    ensures
        literal_body_ok(escape_spec(s)),
    decreases s.len(),
{
    if s.len() == 0 {
    } else {
        let t = s.subrange(1, s.len() as int);
        lemma_escape_safe_to_embed(t);
        let e = escape_spec(s);
        let et = escape_spec(t);
        if s[0] == '\\' || s[0] == '"' {
            assert(e[0] == '\\' && e.len() >= 2);
            assert(e.subrange(2, e.len() as int) =~= et);
        } else {
            assert(e[0] == s[0]);
            assert(e.subrange(1, e.len() as int) =~= et);
        }
    }
}

/// Escapes a raw command for safe embedding in a double-quoted string literal
/// of the generated source. No input is rejected.
pub fn escape_command(command: &str) -> (r: String)
    ensures
        r@ == escape_spec(command@),
{
    let n = command.unicode_len();
    let mut r = String::new();
    let mut i: usize = 0;
    while i < n
        invariant
            n == command@.len(),
            0 <= i <= n,
            r@ == escape_spec(command@.subrange(0, i as int)),
        decreases n - i,
    {
        let c = command.get_char(i);
        if c == '\\' {
            r.append("\\\\");
        } else if c == '"' {
            r.append("\\\"");
        } else {
            let piece = command.substring_char(i, i + 1);
            r.append(piece);
        }
        proof {
            reveal_strlit("\\\\");
            reveal_strlit("\\\"");
            let done = command@.subrange(0, i as int);
            lemma_escape_snoc(done, command@[i as int]);
            assert(command@.subrange(0, i + 1) =~= done.push(command@[i as int]));
            assert(command@.subrange(i as int, i + 1) =~= seq![command@[i as int]]);
            assert(r@ =~= escape_spec(command@.subrange(0, i + 1)));
        }
        i = i + 1;
    }
    proof {
        assert(command@.subrange(0, n as int) =~= command@);
    }
    r
}

/// The shell program the generated source invokes on each platform.
pub open spec fn shell_program_spec(platform: TargetPlatform) -> Seq<char> {
    match platform {
        TargetPlatform::Windows => "cmd"@,
        TargetPlatform::Linux => "sh"@,
    }
}

/// The flag that hands the embedded command to that shell.
pub open spec fn shell_flag_spec(platform: TargetPlatform) -> Seq<char> {
    match platform {
        TargetPlatform::Windows => "/C"@,
        TargetPlatform::Linux => "-c"@,
    }
}

/// The shell-invocation statement embedded in the generated source, with the
/// escaped command `esc` placed inside the argument list's string literal.
pub open spec fn invocation_spec(platform: TargetPlatform, esc: Seq<char>) -> Seq<char> {
    "    let output = Command::new(\""@ + shell_program_spec(platform)
        + "\")\n        .args([\""@ + shell_flag_spec(platform) + "\", \""@ + esc
        + "\"])\n        .output()\n        .expect(\"Failed to execute command\");"@
}

/// The complete generated program text for a platform and a raw command: a
/// fixed header (which repeats the escaped command in a comment), the
/// platform's shell invocation around the escaped command, and a fixed tail
/// that relays captured output and the exit code (or `1` when the embedded
/// process left none, e.g. was killed by a signal).
pub open spec fn source_spec(platform: TargetPlatform, command: Seq<char>) -> Seq<char> {
    "use std::process::Command;\nuse std::io::{self, Write};\n\nfn main() {\n    // Embedded command: "@
        + escape_spec(command)
        + "\n    println!(\"Executing embedded command...\");\n    \n"@
        + "    let output = Command::new(\""@ + shell_program_spec(platform)
        + "\")\n        .args([\""@ + shell_flag_spec(platform) + "\", \""@
        + escape_spec(command)
        + "\"])\n        .output()\n        .expect(\"Failed to execute command\");"@
        + "\n    \n    // Print stdout\n    if !output.stdout.is_empty() {\n        println!(\"Output:\");\n        io::stdout().write_all(&output.stdout).unwrap();\n    }\n    \n    // Print stderr if there are errors\n    if !output.stderr.is_empty() {\n        eprintln!(\"Error:\");\n        io::stderr().write_all(&output.stderr).unwrap();\n    }\n    \n    // Exit with the same code as the embedded command\n    std::process::exit(output.status.code().unwrap_or(1));\n}"@
}

/// Renders the complete program source for the given platform and raw
/// command. Pure text generation: no input is rejected, and the result is a
/// function of the two arguments alone.
pub fn generate_rust_code(platform: TargetPlatform, command: &str) -> (r: String)
    ensures
        r@ == source_spec(platform, command@),
{
    let esc = escape_command(command);
    let mut r = String::new();
    r.append(
        "use std::process::Command;\nuse std::io::{self, Write};\n\nfn main() {\n    // Embedded command: ",
    );
    r.append(esc.as_str());
    r.append("\n    println!(\"Executing embedded command...\");\n    \n");
    r.append("    let output = Command::new(\"");
    match platform {
        TargetPlatform::Windows => r.append("cmd"),
        TargetPlatform::Linux => r.append("sh"),
    }
    r.append("\")\n        .args([\"");
    match platform {
        TargetPlatform::Windows => r.append("/C"),
        TargetPlatform::Linux => r.append("-c"),
    }
    r.append("\", \"");
    r.append(esc.as_str());
    r.append("\"])\n        .output()\n        .expect(\"Failed to execute command\");");
    r.append(
        "\n    \n    // Print stdout\n    if !output.stdout.is_empty() {\n        println!(\"Output:\");\n        io::stdout().write_all(&output.stdout).unwrap();\n    }\n    \n    // Print stderr if there are errors\n    if !output.stderr.is_empty() {\n        eprintln!(\"Error:\");\n        io::stderr().write_all(&output.stderr).unwrap();\n    }\n    \n    // Exit with the same code as the embedded command\n    std::process::exit(output.status.code().unwrap_or(1));\n}",
    );
    proof {
        assert(r@ =~= source_spec(platform, command@));
    }
    r
}

/// `needle` occurs contiguously somewhere in `hay`.
pub open spec fn contains_seq(hay: Seq<char>, needle: Seq<char>) -> bool {
    exists|i: int|
        0 <= i && i + needle.len() <= hay.len() && #[trigger] hay.subrange(i, i + needle.len())
            == needle
}

/// Platform dispatch: the synthesized source embeds, as one contiguous piece,
/// the shell invocation of the chosen platform — `cmd` with `/C` on Windows,
/// `sh` with `-c` on Linux — with the escaped command inside it.
pub proof fn lemma_platform_dispatch(platform: TargetPlatform, command: Seq<char>)
    ensures
        contains_seq(source_spec(platform, command), invocation_spec(platform, escape_spec(command))),
{
    let src = source_spec(platform, command);
    let needle = invocation_spec(platform, escape_spec(command));
    let start: int = ("use std::process::Command;\nuse std::io::{self, Write};\n\nfn main() {\n    // Embedded command: "@.len()
        + escape_spec(command).len()
        + "\n    println!(\"Executing embedded command...\");\n    \n"@.len()) as int;
    assert(src.subrange(start, start + needle.len())
        =~= needle);
}

/// Determinism: the synthesized source is a function of the platform and the
/// command alone, so any two results for the same inputs are identical.
pub proof fn lemma_synthesize_deterministic(
    platform: TargetPlatform,
    command: Seq<char>,
    r1: Seq<char>,
    r2: Seq<char>,
)
    requires
        r1 == source_spec(platform, command),
        r2 == source_spec(platform, command),
    ensures
        r1 == r2,
{
}

} // verus!
