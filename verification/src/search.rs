//! The closest-ancestor search over a snapshot of existence facts.

use vstd::prelude::*;

verus! {

/// Index of the first `true` in a row of existence facts, if any.
pub open spec fn row_hit(row: Seq<bool>) -> Option<int>
    decreases row.len(),
{
    if row.len() == 0 {
        None
    } else if row[0] {
        Some(0int)
    } else {
        match row_hit(row.drop_first()) {
            Some(j) => Some(j + 1),
            None => None,
        }
    }
}

/// Find the first `true` cell of the matrix `m`, scanning rows in order
/// (nearest ancestor first) and, within a row, columns in order
/// (candidate names in the given order). This is the closest-wins,
/// order-as-tiebreak rule of the locator.
pub open spec fn chain_hit(m: Seq<Seq<bool>>) -> Option<(int, int)>
    decreases m.len(),
{
    if m.len() == 0 {
        None
    } else {
        match row_hit(m[0]) {
            Some(j) => Some((0int, j)),
            None => match chain_hit(m.drop_first()) {
                Some(p) => Some((p.0 + 1, p.1)),
                None => None,
            },
        }
    }
}

/// `row_hit` yields exactly the first `true` of the row: `None` when the
/// row is all `false`, and `Some(j)` when `row[j]` is the first `true`.
pub proof fn lemma_row_hit(row: Seq<bool>)
    ensures
        row_hit(row) is None <==> (forall|b: int| 0 <= b < row.len() ==> !row[b]),
        row_hit(row) matches Some(j) ==> 0 <= j < row.len() && row[j] && (forall|b: int|
            0 <= b < j ==> !row[b]),
    decreases row.len(),
{
    if row.len() > 0 && !row[0] {
        lemma_row_hit(row.drop_first());
        assert(forall|b: int| 1 <= b < row.len() ==> #[trigger] row[b] == row.drop_first()[b - 1]);
    }
}

/// `chain_hit` yields exactly the first `true` cell in row-major order:
/// `None` when every cell is `false`, and `Some((i, j))` when `m[i][j]`
/// is `true`, every earlier row is all `false`, and every earlier cell of
/// row `i` is `false`.
pub proof fn lemma_chain_hit(m: Seq<Seq<bool>>)
    ensures
        chain_hit(m) is None <==> (forall|a: int, b: int|
            0 <= a < m.len() && 0 <= b < m[a].len() ==> !m[a][b]),
        chain_hit(m) matches Some(p) ==> {
            &&& 0 <= p.0 < m.len()
            &&& 0 <= p.1 < m[p.0].len()
            &&& m[p.0][p.1]
            &&& forall|a: int, b: int| 0 <= a < p.0 && 0 <= b < m[a].len() ==> !m[a][b]
            &&& forall|b: int| 0 <= b < p.1 ==> !m[p.0][b]
        },
    decreases m.len(),
{
    if m.len() > 0 {
        lemma_row_hit(m[0]);
        if row_hit(m[0]) is None {
            lemma_chain_hit(m.drop_first());
            assert forall|a: int| 1 <= a < m.len() implies #[trigger] m[a] =~= m.drop_first()[a
                - 1] by {}
        }
    }
}

/// The result of the whole locator on a snapshot: the directory of the
/// first hit joined with the name that hit, or `None` when no cell of
/// `levels` is `true`.
pub open spec fn spec_locate(
    chain: Seq<Seq<char>>,
    names: Seq<Seq<char>>,
    levels: Seq<Seq<bool>>,
) -> Option<Seq<char>> {
    match chain_hit(levels) {
        Some(p) => Some(crate::paths::spec_join(chain[p.0], names[p.1])),
        None => None,
    }
}

/// Scan the existence matrix for its first `true` cell, rows (ancestor
/// levels, nearest first) in the outer loop and columns (candidate
/// names, in the given order) in the inner loop.
pub fn closest_hit(levels: &Vec<Vec<bool>>) -> (r: Option<(usize, usize)>)
    ensures
        match r {
            Some(p) => chain_hit(levels.deep_view()) == Some((p.0 as int, p.1 as int)),
            None => chain_hit(levels.deep_view()) is None,
        },
{
    let ghost m = levels.deep_view();
    let mut i: usize = 0;
    while i < levels.len()
        invariant
            i <= levels.len(),
            m == levels.deep_view(),
            forall|a: int, b: int| 0 <= a < i && 0 <= b < m[a].len() ==> !m[a][b],
        decreases levels.len() - i,
    {
        let row = &levels[i];
        assert(row@ == m[i as int]);
        let mut j: usize = 0;
        while j < row.len()
            invariant
                i < levels.len(),
                j <= row.len(),
                m == levels.deep_view(),
                row@ == m[i as int],
                forall|a: int, b: int| 0 <= a < i && 0 <= b < m[a].len() ==> !m[a][b],
                forall|b: int| 0 <= b < j ==> !m[i as int][b],
            decreases row.len() - j,
        {
            if row[j] {
                proof {
                    lemma_chain_hit_at(m, i as int, j as int);
                }
                return Some((i, j));
            }
            j += 1;
        }
        i += 1;
    }
    proof {
        lemma_chain_hit(m);
    }
    None
}

/// `chain_hit` returns exactly the cell that the nested scan stops at.
proof fn lemma_chain_hit_at(m: Seq<Seq<bool>>, i: int, j: int)
    requires
        0 <= i < m.len(),
        0 <= j < m[i].len(),
        m[i][j],
        forall|a: int, b: int| 0 <= a < i && 0 <= b < m[a].len() ==> !m[a][b],
        forall|b: int| 0 <= b < j ==> !m[i][b],
    ensures
        chain_hit(m) == Some((i, j)),
    decreases m.len(),
{
    lemma_row_hit(m[0]);
    if i == 0 {
        assert(row_hit(m[0]) == Some(j));
    } else {
        assert(row_hit(m[0]) is None);
        assert forall|a: int| 1 <= a < m.len() implies #[trigger] m[a] =~= m.drop_first()[a
            - 1] by {}
        lemma_chain_hit_at(m.drop_first(), i - 1, j);
    }
}

/// Build the directory chain of an origin: the origin itself followed
/// by each of its ancestors in turn, ending at the path that has no
/// parent. A relative origin yields its own relative chain; nothing is
/// made absolute here.
pub fn build_chain(start: &String) -> (chain: Vec<String>)
    ensures
        chain@.len() >= 1,
        chain@[0]@ == start@,
        forall|i: int|
            0 <= i < chain@.len() - 1 ==> crate::paths::spec_parent(chain@[i]@) == Some(
                chain@[i + 1]@,
            ),
        crate::paths::spec_parent(chain@[chain@.len() - 1]@) is None,
{
    let mut chain: Vec<String> = Vec::new();
    let mut cur: String = start.clone();
    chain.push(cur.clone());
    loop
        invariant
            chain@.len() >= 1,
            chain@[0]@ == start@,
            cur@ == chain@[chain@.len() - 1]@,
            forall|i: int|
                0 <= i < chain@.len() - 1 ==> crate::paths::spec_parent(chain@[i]@) == Some(
                    chain@[i + 1]@,
                ),
        ensures
            crate::paths::spec_parent(cur@) is None,
        decreases cur@.len(),
    {
        match crate::paths::parent_of(&cur) {
            Some(par) => {
                proof {
                    crate::paths::lemma_parent_shorter(cur@);
                }
                cur = par;
                chain.push(cur.clone());
            },
            None => {
                break;
            },
        }
    }
    chain
}

/// Locate the closest ancestor of the origin that holds a candidate.
///
/// `chain` is the origin followed by its ancestors, nearest first;
/// `names` the candidate names in priority order; and `levels` the
/// existence snapshot, where `levels[i][j]` says whether entry
/// `names[j]` exists in directory `chain[i]`. The result is the matched
/// directory joined with the matched name, or `None` when nothing
/// matched anywhere along the chain.
pub fn find_up_closest(chain: &Vec<String>, names: &Vec<String>, levels: &Vec<Vec<bool>>) -> (r:
    Option<String>)
    requires
        names@.len() > 0,
        levels@.len() == chain@.len(),
        forall|i: int| 0 <= i < levels@.len() ==> levels@[i]@.len() == names@.len(),
    ensures
        r.deep_view() == spec_locate(chain.deep_view(), names.deep_view(), levels.deep_view()),
{
    match closest_hit(levels) {
        Some((i, j)) => {
            proof {
                lemma_chain_hit(levels.deep_view());
            }
            Some(crate::paths::join_path(&chain[i], &names[j]))
        },
        None => None,
    }
}

} // verus!
