use find_up::cli::exit_code_for;
use find_up::cli::EXIT_FOUND;
use find_up::cli::EXIT_NOT_FOUND;
use find_up::search::build_chain;
use find_up::search::closest_hit;
use find_up::search::find_up_closest;

fn s(x: &str) -> String {
    x.to_string()
}

#[test]
fn closest_wins_over_list_order() {
    // m1 sits in the origin, m2 in its parent; the list asks for m2
    // first, but the origin's entry is closer and wins.
    let chain = vec![s("/d"), s("/")];
    let names = vec![s("m2"), s("m1")];
    let levels = vec![vec![false, true], vec![true, false]];
    assert_eq!(closest_hit(&levels), Some((0, 1)));
    let r = find_up_closest(&chain, &names, &levels);
    assert_eq!(r, Some(s("/d/m1")));
}

#[test]
fn order_breaks_ties_at_equal_distance() {
    // both names exist in the origin: the first of the list wins.
    let chain = vec![s("/d"), s("/")];
    let names = vec![s("m2"), s("m1")];
    let levels = vec![vec![true, true], vec![false, false]];
    assert_eq!(closest_hit(&levels), Some((0, 0)));
    let r = find_up_closest(&chain, &names, &levels);
    assert_eq!(r, Some(s("/d/m2")));
}

#[test]
fn no_match_anywhere_returns_none() {
    let chain = vec![s("/a/b"), s("/a"), s("/")];
    let names = vec![s("nothing.here")];
    let levels = vec![vec![false], vec![false], vec![false]];
    let r = find_up_closest(&chain, &names, &levels);
    assert_eq!(r, None);
    assert_eq!(exit_code_for(&r), EXIT_NOT_FOUND);
    assert_eq!(exit_code_for(&r), 1);
}

#[test]
fn origin_itself_is_checked_first() {
    let chain = vec![s("/a/b"), s("/a"), s("/")];
    let names = vec![s("Cargo.toml")];
    let levels = vec![vec![true], vec![true], vec![false]];
    assert_eq!(closest_hit(&levels), Some((0, 0)));
    let r = find_up_closest(&chain, &names, &levels);
    assert_eq!(r, Some(s("/a/b/Cargo.toml")));
    assert_eq!(exit_code_for(&r), EXIT_FOUND);
}

#[test]
fn go_mod_in_grandparent() {
    // origin /a/b/c, go.mod placed in /a: the search must land on
    // /a/go.mod; a name nowhere on the chain must find nothing.
    let chain = build_chain(&s("/a/b/c"));
    assert_eq!(chain, vec![s("/a/b/c"), s("/a/b"), s("/a"), s("/")]);
    let names = vec![s("go.mod")];
    let levels = vec![vec![false], vec![false], vec![true], vec![false]];
    let r = find_up_closest(&chain, &names, &levels);
    assert_eq!(r, Some(s("/a/go.mod")));
    assert_eq!(exit_code_for(&r), 0);

    let names2 = vec![s("pyproject.toml")];
    let levels2 = vec![vec![false], vec![false], vec![false], vec![false]];
    let r2 = find_up_closest(&chain, &names2, &levels2);
    assert_eq!(r2, None);
    assert_eq!(exit_code_for(&r2), 1);
}

#[test]
fn repeated_runs_agree() {
    // against one unchanged snapshot, two invocations return the same
    // match and the same exit code.
    let chain = build_chain(&s("/x/y"));
    let names = vec![s(".git"), s("Makefile")];
    let levels = vec![vec![false, true], vec![false, false], vec![false, false]];
    let r1 = find_up_closest(&chain, &names, &levels);
    let r2 = find_up_closest(&chain, &names, &levels);
    assert_eq!(r1, r2);
    assert_eq!(exit_code_for(&r1), exit_code_for(&r2));
    assert_eq!(r1, Some(s("/x/y/Makefile")));
}

#[test]
fn deeper_match_loses_to_nearer_level() {
    // a hit at the nearest level hides hits farther up, whatever the
    // column.
    let levels = vec![
        vec![false, false, false],
        vec![false, false, true],
        vec![true, true, true],
    ];
    assert_eq!(closest_hit(&levels), Some((1, 2)));
}

#[test]
fn empty_matrix_has_no_hit() {
    let levels: Vec<Vec<bool>> = vec![];
    assert_eq!(closest_hit(&levels), None);
}
