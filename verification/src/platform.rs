use vstd::prelude::*;

verus! {

/// The operating systems this library can synthesize sources and name
/// artifacts for. Exactly these two variants exist, so platform dispatch is
/// an exhaustive match and an unsupported platform tag is impossible by
/// construction.
#[derive(Clone, Copy, PartialEq, Eq, Structural, Debug)]
pub enum TargetPlatform {
    Windows,
    Linux,
}

/// The executable file name for a base name on a platform: Windows appends
/// `.exe`, Linux uses the base name unchanged.
pub open spec fn executable_name_spec(platform: TargetPlatform, base: Seq<char>) -> Seq<char> {
    match platform {
        TargetPlatform::Windows => base + ".exe"@,
        TargetPlatform::Linux => base,
    }
}

/// Derives the platform-specific executable filename from a base name.
pub fn get_executable_name(platform: TargetPlatform, base_name: &str) -> (r: String)
    ensures
        r@ == executable_name_spec(platform, base_name@),
{
    match platform {
        TargetPlatform::Windows => {
            let mut r = base_name.to_owned();
            r.append(".exe");
            r
        },
        TargetPlatform::Linux => base_name.to_owned(),
    }
}

/// Validates the interactive menu choice once trimmed: `"1"` selects
/// Windows, `"2"` selects Linux, anything else is rejected so the caller can
/// prompt again. This is the construction-time validation that makes an
/// unsupported platform tag impossible past this point.
pub fn parse_platform_choice(input: &str) -> (r: Option<TargetPlatform>)
    ensures
        r == Some(TargetPlatform::Windows) <==> input@ == "1"@,
        r == Some(TargetPlatform::Linux) <==> input@ == "2"@,
        r is None <==> (input@ != "1"@ && input@ != "2"@),
{
    proof {
        reveal_strlit("1");
        reveal_strlit("2");
    }
    let n = input.unicode_len();
    if n == 1 {
        let c = input.get_char(0);
        if c == '1' {
            proof {
                assert(input@ =~= "1"@);
            }
            Some(TargetPlatform::Windows)
        } else if c == '2' {
            proof {
                assert(input@ =~= "2"@);
            }
            Some(TargetPlatform::Linux)
        } else {
            None
        }
    } else {
        None
    }
}

} // verus!
