//! The laws of the locator, each stated over the spec model and proved
//! once and for all.

use vstd::prelude::*;

use crate::cli::has_std_flag;
use crate::cli::spec_parse;
use crate::cli::std_names_seq;
use crate::search::chain_hit;
use crate::search::lemma_chain_hit;
use crate::search::spec_locate;

verus! {

/// Closest match wins: whenever any cell of the snapshot is `true`, the
/// search finds a match, and never at a level farther from the origin
/// than that cell, whatever the candidate order says.
pub proof fn lemma_closest_wins(m: Seq<Seq<bool>>, i: int, j: int)
    requires
        0 <= i < m.len(),
        0 <= j < m[i].len(),
        m[i][j],
    ensures
        chain_hit(m) matches Some(p) && p.0 <= i,
{
    lemma_chain_hit(m);
}

/// Order breaks ties: at the level where the search stops, the matched
/// name is the first of the candidate list that exists there.
pub proof fn lemma_order_breaks_ties(m: Seq<Seq<bool>>)
    requires
        chain_hit(m) is Some,
    ensures
        chain_hit(m) matches Some(p) && m[p.0][p.1] && (forall|b: int|
            0 <= b < p.1 ==> !m[p.0][b]),
{
    lemma_chain_hit(m);
}

/// No match: when no cell of the snapshot is `true`, the search comes
/// back empty-handed.
pub proof fn lemma_no_match(m: Seq<Seq<bool>>)
    requires
        forall|a: int, b: int| 0 <= a < m.len() && 0 <= b < m[a].len() ==> !m[a][b],
    ensures
        chain_hit(m) is None,
{
    lemma_chain_hit(m);
}

/// The origin itself is checked first: when the origin holds a
/// candidate, the match is at the origin and no ancestor decides.
pub proof fn lemma_origin_checked_first(m: Seq<Seq<bool>>, j: int)
    requires
        m.len() > 0,
        0 <= j < m[0].len(),
        m[0][j],
    ensures
        chain_hit(m) matches Some(p) && p.0 == 0,
{
    lemma_chain_hit(m);
}

/// No entry of the standard marker table is the flag that selects it.
pub proof fn lemma_std_names_no_flag()
    ensures
        !has_std_flag(std_names_seq()),
{
    reveal_strlit("--std");
    reveal_strlit(".git");
    reveal_strlit(".jj");
    reveal_strlit("package.json");
    reveal_strlit("pnpm-lock.yaml");
    reveal_strlit("yarn.lock");
    reveal_strlit("bun.lockb");
    reveal_strlit("bun.lock");
    reveal_strlit("package-lock.json");
    reveal_strlit("tsconfig.json");
    reveal_strlit("deno.json");
    reveal_strlit("deno.jsonc");
    reveal_strlit("Cargo.toml");
    reveal_strlit("go.mod");
    reveal_strlit("go.work");
    reveal_strlit("pyproject.toml");
    reveal_strlit("poetry.lock");
    reveal_strlit("Pipfile");
    reveal_strlit("requirements.txt");
    reveal_strlit("setup.py");
    reveal_strlit("setup.cfg");
    reveal_strlit("pom.xml");
    reveal_strlit("build.gradle");
    reveal_strlit("build.gradle.kts");
    reveal_strlit("settings.gradle");
    reveal_strlit("settings.gradle.kts");
    reveal_strlit(".sln");
    reveal_strlit("composer.json");
    reveal_strlit("Gemfile");
    reveal_strlit("mix.exs");
    reveal_strlit("stack.yaml");
    reveal_strlit("cabal.project");
    reveal_strlit("CMakeLists.txt");
    reveal_strlit("Makefile");
    reveal_strlit("Package.swift");
    reveal_strlit("dune-project");
    reveal_strlit("opam");
    reveal_strlit("build.zig");
    reveal_strlit("rockspec");
    reveal_strlit("flake.nix");
    reveal_strlit("default.nix");
    assert forall|k: int| 0 <= k < std_names_seq().len() implies std_names_seq()[k]
        != "--std"@ by {
        assert(("--std")@.len() == 5);
        assert(std_names_seq()[k].len() != 5);
    }
}

/// Selecting the standard table by its flag asks for exactly the same
/// search as spelling the whole table out as explicit names, so both
/// invocations return the same result on the same tree.
pub proof fn lemma_std_flag_equivalence(args: Seq<Seq<char>>)
    requires
        has_std_flag(args),
    ensures
        spec_parse(args) == spec_parse(std_names_seq()),
        spec_parse(args) == Some(std_names_seq()),
{
    lemma_std_names_no_flag();
    assert(std_names_seq().len() > 0);
}

/// The search is a function of its snapshot alone: two runs against an
/// unchanged tree return identical results.
pub proof fn lemma_search_deterministic(
    chain: Seq<Seq<char>>,
    names: Seq<Seq<char>>,
    levels: Seq<Seq<bool>>,
    r1: Option<Seq<char>>,
    r2: Option<Seq<char>>,
)
    requires
        r1 == spec_locate(chain, names, levels),
        r2 == spec_locate(chain, names, levels),
    ensures
        r1 == r2,
{
}

} // verus!
