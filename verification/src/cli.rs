//! Command-line decisions: the standard marker table, argument parsing,
//! the usage text, and exit codes.

use vstd::prelude::*;

verus! {

/// Exit code when a match was found and printed.
pub const EXIT_FOUND: i32 = 0;

/// Exit code when no ancestor held any candidate.
pub const EXIT_NOT_FOUND: i32 = 1;

/// Exit code for a usage error or an undeterminable working directory.
pub const EXIT_USAGE: i32 = 2;

/// The standard marker table: well-known root-indicator names across
/// ecosystems, in tie-break order. Version-control markers come first,
/// being the most universal "project root" signal.
pub open spec fn std_names_seq() -> Seq<Seq<char>> {
    seq![
        ".git"@,
        ".jj"@,
        "package.json"@,
        "pnpm-lock.yaml"@,
        "yarn.lock"@,
        "bun.lockb"@,
        "bun.lock"@,
        "package-lock.json"@,
        "tsconfig.json"@,
        "deno.json"@,
        "deno.jsonc"@,
        "Cargo.toml"@,
        "go.mod"@,
        "go.work"@,
        "pyproject.toml"@,
        "poetry.lock"@,
        "Pipfile"@,
        "requirements.txt"@,
        "setup.py"@,
        "setup.cfg"@,
        "pom.xml"@,
        "build.gradle"@,
        "build.gradle.kts"@,
        "settings.gradle"@,
        "settings.gradle.kts"@,
        ".sln"@,
        "composer.json"@,
        "Gemfile"@,
        "mix.exs"@,
        "stack.yaml"@,
        "cabal.project"@,
        "CMakeLists.txt"@,
        "Makefile"@,
        "Package.swift"@,
        "dune-project"@,
        "opam"@,
        "build.zig"@,
        "rockspec"@,
        "flake.nix"@,
        "default.nix"@,
    ]
}

/// Build the standard marker table.
pub fn std_names() -> (r: Vec<String>)
    ensures
        r.deep_view() == std_names_seq(),
{
    let r: Vec<String> = vec![
        String::from_str(".git"),
        String::from_str(".jj"),
        String::from_str("package.json"),
        String::from_str("pnpm-lock.yaml"),
        String::from_str("yarn.lock"),
        String::from_str("bun.lockb"),
        String::from_str("bun.lock"),
        String::from_str("package-lock.json"),
        String::from_str("tsconfig.json"),
        String::from_str("deno.json"),
        String::from_str("deno.jsonc"),
        String::from_str("Cargo.toml"),
        String::from_str("go.mod"),
        String::from_str("go.work"),
        String::from_str("pyproject.toml"),
        String::from_str("poetry.lock"),
        String::from_str("Pipfile"),
        String::from_str("requirements.txt"),
        String::from_str("setup.py"),
        String::from_str("setup.cfg"),
        String::from_str("pom.xml"),
        String::from_str("build.gradle"),
        String::from_str("build.gradle.kts"),
        String::from_str("settings.gradle"),
        String::from_str("settings.gradle.kts"),
        String::from_str(".sln"),
        String::from_str("composer.json"),
        String::from_str("Gemfile"),
        String::from_str("mix.exs"),
        String::from_str("stack.yaml"),
        String::from_str("cabal.project"),
        String::from_str("CMakeLists.txt"),
        String::from_str("Makefile"),
        String::from_str("Package.swift"),
        String::from_str("dune-project"),
        String::from_str("opam"),
        String::from_str("build.zig"),
        String::from_str("rockspec"),
        String::from_str("flake.nix"),
        String::from_str("default.nix"),
    ];
    proof {
        assert(r.deep_view() =~~= std_names_seq());
    }
    r
}

/// Whether some argument is the flag that selects the standard table.
pub open spec fn has_std_flag(args: Seq<Seq<char>>) -> bool {
    exists|k: int| 0 <= k < args.len() && args[k] == "--std"@
}

/// What the command line asks for: `None` is a usage error, `Some` the
/// candidate names to search with. Any occurrence of the flag selects
/// the standard table and discards every collected name; otherwise the
/// arguments themselves are the names, kept in the order given, and an
/// empty argument list is a usage error.
pub open spec fn spec_parse(args: Seq<Seq<char>>) -> Option<Seq<Seq<char>>> {
    if has_std_flag(args) {
        Some(std_names_seq())
    } else if args.len() == 0 {
        None
    } else {
        Some(args)
    }
}

/// The parsed command line: a usage error, or the candidate names to
/// run the search with.
pub enum ParseOutcome {
    Usage,
    Run(Vec<String>),
}

/// Parse the arguments (the program name already removed). Every token
/// other than the flag counts as a candidate name, however flag-like it
/// looks.
pub fn parse_args(args: &Vec<String>) -> (r: ParseOutcome)
    ensures
        match r {
            ParseOutcome::Usage => spec_parse(args.deep_view()) is None,
            ParseOutcome::Run(names) => spec_parse(args.deep_view()) == Some(names.deep_view()),
        },
{
    let flag = String::from_str("--std");
    let mut use_std = false;
    let mut names: Vec<String> = Vec::new();
    let mut i: usize = 0;
    while i < args.len()
        invariant
            i <= args.len(),
            flag@ == "--std"@,
            use_std == exists|k: int| 0 <= k < i && args.deep_view()[k] == "--std"@,
            !use_std ==> names.deep_view() =~= args.deep_view().subrange(0, i as int),
        decreases args.len() - i,
    {
        let is_flag = args[i] == flag;
        proof {
            assert(args.deep_view()[i as int] == args@[i as int]@);
        }
        if is_flag {
            use_std = true;
        } else {
            names.push(args[i].clone());
        }
        i += 1;
    }
    if use_std {
        return ParseOutcome::Run(std_names());
    }
    if names.len() == 0 {
        assert(args.deep_view().len() == 0);
        return ParseOutcome::Usage;
    }
    proof {
        assert(names.deep_view() =~= args.deep_view());
    }
    ParseOutcome::Run(names)
}

/// The two-line usage message, parameterized by the program name.
pub fn usage_text(program: &String) -> (r: String)
    ensures
        r@ == "Usage: "@ + program@ + " [--std] <name> [name ...]\n       "@ + program@
            + " --std"@,
{
    let mut r = String::from_str("Usage: ");
    r.append(program.as_str());
    r.append(" [--std] <name> [name ...]\n       ");
    r.append(program.as_str());
    r.append(" --std");
    proof {
        assert(r@ =~= "Usage: "@ + program@ + " [--std] <name> [name ...]\n       "@ + program@
            + " --std"@);
    }
    r
}

/// The exit code that reports a finished search: success when a match
/// was found, the no-match code otherwise.
pub fn exit_code_for(result: &Option<String>) -> (c: i32)
    ensures
        result is Some ==> c == EXIT_FOUND,
        result is None ==> c == EXIT_NOT_FOUND,
{
    match result {
        Some(_) => EXIT_FOUND,
        None => EXIT_NOT_FOUND,
    }
}

} // verus!
