use find_up::cli::exit_code_for;
use find_up::cli::parse_args;
use find_up::cli::std_names;
use find_up::cli::usage_text;
use find_up::cli::ParseOutcome;
use find_up::cli::EXIT_USAGE;
use find_up::search::find_up_closest;

fn s(x: &str) -> String {
    x.to_string()
}

fn run_names(r: ParseOutcome) -> Vec<String> {
    match r {
        ParseOutcome::Run(names) => names,
        ParseOutcome::Usage => panic!("expected a run, got a usage error"),
    }
}

#[test]
fn std_flag_matches_explicit_table() {
    // --std must behave exactly as spelling the whole table out.
    let by_flag = run_names(parse_args(&vec![s("--std")]));
    let explicit = run_names(parse_args(&std_names()));
    assert_eq!(by_flag, explicit);
    assert_eq!(by_flag, std_names());

    // and the search agrees on the same snapshot for both.
    let chain = vec![s("/p/q"), s("/p"), s("/")];
    let mut level0 = vec![false; by_flag.len()];
    let level_rest = vec![false; by_flag.len()];
    // let .jj (second entry) exist in the origin
    level0[1] = true;
    let levels = vec![level0, level_rest.clone(), level_rest];
    let r1 = find_up_closest(&chain, &by_flag, &levels);
    let r2 = find_up_closest(&chain, &explicit, &levels);
    assert_eq!(r1, r2);
    assert_eq!(r1, Some(s("/p/q/.jj")));
}

#[test]
fn no_names_is_a_usage_error() {
    let r = parse_args(&vec![]);
    assert!(matches!(r, ParseOutcome::Usage));
    assert_eq!(EXIT_USAGE, 2);
}

#[test]
fn usage_text_has_two_lines() {
    let text = usage_text(&s("find-up"));
    assert_eq!(
        text,
        "Usage: find-up [--std] <name> [name ...]\n       find-up --std"
    );
}

#[test]
fn std_flag_discards_collected_names() {
    let r = run_names(parse_args(&vec![s("foo"), s("--std"), s("bar")]));
    assert_eq!(r, std_names());
}

#[test]
fn flag_like_tokens_are_names() {
    // anything that is not the flag is a candidate name, dashes and all.
    let r = run_names(parse_args(&vec![s("-x"), s("foo")]));
    assert_eq!(r, vec![s("-x"), s("foo")]);
}

#[test]
fn explicit_names_keep_their_order() {
    let r = run_names(parse_args(&vec![s("b"), s("a"), s("b")]));
    assert_eq!(r, vec![s("b"), s("a"), s("b")]);
}

#[test]
fn std_table_contents() {
    let t = std_names();
    assert_eq!(t.len(), 40);
    // version control first, as the most universal root signal
    assert_eq!(t[0], s(".git"));
    assert_eq!(t[1], s(".jj"));
    assert_eq!(t[2], s("package.json"));
    assert_eq!(t[11], s("Cargo.toml"));
    assert_eq!(t[12], s("go.mod"));
    assert_eq!(t[13], s("go.work"));
    assert_eq!(t[14], s("pyproject.toml"));
    assert_eq!(t[39], s("default.nix"));
    assert!(t.contains(&s("Makefile")));
    assert!(t.contains(&s("flake.nix")));
    assert!(!t.contains(&s("--std")));
}

#[test]
fn exit_codes_cover_the_table() {
    assert_eq!(exit_code_for(&Some(s("/a/.git"))), 0);
    assert_eq!(exit_code_for(&None), 1);
}
