//! What a mode drags in: the modes reachable through a platform's implications,
//! and the order in which a breadth-first search meets them.

use vstd::prelude::*;
use super::compile::BundleReason;
use super::mode_set;
use super::{FsMode, MODE_COUNT};

verus! {

/// A platform's implications: granting a mode also grants each listed mode, for
/// the listed reason.
pub type Implications = spec_fn(FsMode) -> Seq<(FsMode, BundleReason)>;

/// Whether granting `from` directly drags in `to`.
pub open spec fn implies_directly(implied: Implications, from: FsMode, to: FsMode) -> bool {
    exists|i: int| 0 <= i < implied(from).len() && (#[trigger] implied(from)[i]).0 == to
}

/// Whether `path` leads from its first mode to its last by direct implications.
pub open spec fn is_path(implied: Implications, path: Seq<FsMode>) -> bool {
    &&& path.len() > 0
    &&& forall|i: int|
        #![trigger path[i]]
        0 < i < path.len() ==> implies_directly(implied, path[i - 1], path[i])
}

/// Whether granting `from` drags in `to`, in any number of steps.
pub open spec fn reaches(implied: Implications, from: FsMode, to: FsMode) -> bool {
    exists|path: Seq<FsMode>| #[trigger]
        is_path(implied, path) && path.first() == from && path.last() == to
}

/// Everything a grant of `requested` confers: the requested modes and all they
/// drag in.
pub open spec fn granted_by(implied: Implications, requested: Set<FsMode>) -> Set<FsMode> {
    Set::new(
        |mode: FsMode|
            exists|root: FsMode| #[trigger]
                requested.contains(root) && reaches(implied, root, mode),
    )
}

/// Whether a search from `root` has met `mode`.
pub open spec fn met(root: FsMode, found: Seq<(FsMode, BundleReason)>, mode: FsMode) -> bool {
    mode == root || exists|i: int| 0 <= i < found.len() && (#[trigger] found[i]).0 == mode
}

/// `found`, extended in order by those of `edges` whose mode was not met yet.
pub open spec fn extended(
    root: FsMode,
    found: Seq<(FsMode, BundleReason)>,
    edges: Seq<(FsMode, BundleReason)>,
) -> Seq<(FsMode, BundleReason)>
    decreases edges.len(),
{
    if edges.len() == 0 {
        found
    } else {
        let before = extended(root, found, edges.drop_last());
        if met(root, before, edges.last().0) {
            before
        } else {
            before.push(edges.last())
        }
    }
}

/// The mode at place `i` of a search: the root first, then what was found.
pub open spec fn place(root: FsMode, found: Seq<(FsMode, BundleReason)>, i: int) -> FsMode {
    if i == 0 {
        root
    } else {
        found[i - 1].0
    }
}

/// The search from `root` carried on from place `i`, with `found` met so far.
pub open spec fn search(
    implied: Implications,
    root: FsMode,
    found: Seq<(FsMode, BundleReason)>,
    i: nat,
) -> Seq<(FsMode, BundleReason)>
    decreases MODE_COUNT - i,
{
    if i > found.len() || i >= MODE_COUNT {
        found
    } else {
        search(implied, root, extended(root, found, implied(place(root, found, i as int))), i + 1)
    }
}

/// The modes that a breadth-first search from `root` meets besides `root`, in
/// that order, each with the reason on the edge that first met it.
pub open spec fn dragged_in(implied: Implications, root: FsMode) -> Seq<(FsMode, BundleReason)> {
    search(implied, root, Seq::empty(), 0)
}

/// The modes met by a search are pairwise distinct.
pub open spec fn distinct(root: FsMode, found: Seq<(FsMode, BundleReason)>) -> bool {
    &&& forall|i: int| 0 <= i < found.len() ==> (#[trigger] found[i]).0 != root
    &&& forall|i: int, j: int|
        0 <= i < j < found.len() ==> (#[trigger] found[i]).0 != (#[trigger] found[j]).0
}

/// Extending keeps what was found, meets every edge's mode, and meets nothing
/// else.
pub proof fn lemma_extended(
    root: FsMode,
    found: Seq<(FsMode, BundleReason)>,
    edges: Seq<(FsMode, BundleReason)>,
)
    requires
        distinct(root, found),
    ensures
        distinct(root, extended(root, found, edges)),
        found.is_prefix_of(extended(root, found, edges)),
        forall|i: int|
            found.len() <= i < extended(root, found, edges).len() ==> edges.contains(
                #[trigger] extended(root, found, edges)[i],
            ),
        forall|i: int|
            0 <= i < edges.len() ==> met(
                root,
                extended(root, found, edges),
                (#[trigger] edges[i]).0,
            ),
    decreases edges.len(),
{
    if edges.len() > 0 {
        let rest = edges.drop_last();
        lemma_extended(root, found, rest);
        let before = extended(root, found, rest);
        let after = extended(root, found, edges);
        assert(before.is_prefix_of(after));
        assert forall|i: int| found.len() <= i < after.len() implies edges.contains(
            #[trigger] after[i],
        ) by {
            if i < before.len() {
                assert(rest.contains(before[i]));
                let k = choose|k: int| 0 <= k < rest.len() && rest[k] == before[i];
                assert(edges[k] == after[i]);
            } else {
                assert(edges[edges.len() - 1] == after[i]);
            }
        }
        assert forall|i: int| 0 <= i < edges.len() implies met(root, after, (#[trigger] edges[i]).0) by {
            if i < rest.len() {
                assert(met(root, before, rest[i].0));
                if edges[i].0 != root {
                    let k = choose|k: int| 0 <= k < before.len() && (#[trigger] before[k]).0 == edges[i].0;
                    assert(after[k].0 == edges[i].0);
                }
            } else if !met(root, before, edges.last().0) {
                assert(after[before.len() as int].0 == edges[i].0);
            }
        }
    }
}

/// At most twelve modes are met besides the root.
pub proof fn lemma_distinct_len(root: FsMode, found: Seq<(FsMode, BundleReason)>)
    requires
        distinct(root, found),
    ensures
        found.len() < MODE_COUNT,
{
    mode_set::lemma_all_modes();
    let modes = Seq::new(found.len() + 1, |i: int| place(root, found, i));
    assert(modes.no_duplicates());
    modes.unique_seq_to_set();
    let all = super::all_modes();
    all.unique_seq_to_set();
    assert(modes.to_set().subset_of(all.to_set())) by {
        assert forall|mode: FsMode| modes.to_set().contains(mode) implies all.to_set().contains(
            mode,
        ) by {
            assert(all.contains(mode));
        }
    }
    vstd::set_lib::lemma_len_subset(modes.to_set(), all.to_set());
}

/// Every mode met so far is reachable.
pub open spec fn sound(
    implied: Implications,
    root: FsMode,
    found: Seq<(FsMode, BundleReason)>,
) -> bool {
    forall|i: int| 0 <= i < found.len() ==> reaches(implied, root, (#[trigger] found[i]).0)
}

/// Every mode before place `n` has had its implications met.
pub open spec fn explored(
    implied: Implications,
    root: FsMode,
    found: Seq<(FsMode, BundleReason)>,
    n: int,
) -> bool {
    forall|i: int, k: int|
        #![trigger implied(place(root, found, i))[k]]
        0 <= i < n && i <= found.len() && 0 <= k < implied(place(root, found, i)).len() ==> met(
            root,
            found,
            implied(place(root, found, i))[k].0,
        )
}

/// Every mode reaches itself.
pub proof fn lemma_reaches_self(implied: Implications, mode: FsMode)
    ensures
        reaches(implied, mode, mode),
{
    assert(is_path(implied, seq![mode]));
}

/// One more direct implication extends a path.
pub proof fn lemma_reaches_step(implied: Implications, root: FsMode, from: FsMode, to: FsMode)
    requires
        reaches(implied, root, from),
        implies_directly(implied, from, to),
    ensures
        reaches(implied, root, to),
{
    let path = choose|path: Seq<FsMode>| #[trigger]
        is_path(implied, path) && path.first() == root && path.last() == from;
    let longer = path.push(to);
    assert forall|i: int| #![trigger longer[i]] 0 < i < longer.len() implies implies_directly(
        implied,
        longer[i - 1],
        longer[i],
    ) by {
        if i < path.len() {
            assert(implies_directly(implied, path[i - 1], path[i]));
        }
    }
    assert(is_path(implied, longer));
    assert(longer.first() == root && longer.last() == to);
}

/// One step of the search keeps its invariants.
pub proof fn lemma_search_step(
    implied: Implications,
    root: FsMode,
    found: Seq<(FsMode, BundleReason)>,
    i: int,
)
    requires
        0 <= i <= found.len(),
        distinct(root, found),
        sound(implied, root, found),
        explored(implied, root, found, i),
    ensures
        ({
            let next = extended(root, found, implied(place(root, found, i)));
            &&& distinct(root, next)
            &&& sound(implied, root, next)
            &&& explored(implied, root, next, i + 1)
            &&& found.is_prefix_of(next)
        }),
{
    let current = place(root, found, i);
    let edges = implied(current);
    let next = extended(root, found, edges);
    lemma_extended(root, found, edges);
    assert(reaches(implied, root, current)) by {
        if i == 0 {
            lemma_reaches_self(implied, root);
        } else {
            assert(reaches(implied, root, found[i - 1].0));
        }
    }
    assert forall|k: int| 0 <= k < next.len() implies reaches(
        implied,
        root,
        (#[trigger] next[k]).0,
    ) by {
        if k < found.len() {
            assert(next[k] == found[k]);
        } else {
            assert(edges.contains(next[k]));
            let e = choose|e: int| 0 <= e < edges.len() && edges[e] == next[k];
            assert(implied(current)[e].0 == next[k].0);
            lemma_reaches_step(implied, root, current, next[k].0);
        }
    }
    assert forall|j: int, k: int|
        #![trigger implied(place(root, next, j))[k]]
        0 <= j < i + 1 && j <= next.len() && 0 <= k < implied(
            place(root, next, j),
        ).len() implies met(root, next, implied(place(root, next, j))[k].0) by {
        assert(place(root, next, j) == place(root, found, j));
        let to = implied(place(root, next, j))[k].0;
        if j < i {
            assert(met(root, found, implied(place(root, found, j))[k].0));
            if to != root {
                let f = choose|f: int| 0 <= f < found.len() && (#[trigger] found[f]).0 == to;
                assert(next[f].0 == to);
            }
        } else {
            assert(edges[k].0 == to);
        }
    }
}

/// A finished search has met exactly the reachable modes.
proof fn lemma_search_complete(
    implied: Implications,
    root: FsMode,
    found: Seq<(FsMode, BundleReason)>,
)
    requires
        explored(implied, root, found, (found.len() + 1) as int),
    ensures
        forall|mode: FsMode| #[trigger] reaches(implied, root, mode) ==> met(root, found, mode),
{
    assert forall|mode: FsMode| #[trigger] reaches(implied, root, mode) implies met(
        root,
        found,
        mode,
    ) by {
        let path = choose|path: Seq<FsMode>| #[trigger]
            is_path(implied, path) && path.first() == root && path.last() == mode;
        lemma_path_met(implied, root, found, path, path.len() - 1);
    }
}

proof fn lemma_path_met(
    implied: Implications,
    root: FsMode,
    found: Seq<(FsMode, BundleReason)>,
    path: Seq<FsMode>,
    i: int,
)
    requires
        explored(implied, root, found, (found.len() + 1) as int),
        is_path(implied, path),
        path.first() == root,
        0 <= i < path.len(),
    ensures
        met(root, found, path[i]),
    decreases i,
{
    if i > 0 {
        lemma_path_met(implied, root, found, path, i - 1);
        let from = path[i - 1];
        assert(implies_directly(implied, path[i - 1], path[i]));
        let k = choose|k: int| 0 <= k < implied(from).len() && (#[trigger] implied(from)[k]).0 == path[i];
        if from == root {
            assert(place(root, found, 0) == from);
            assert(met(root, found, implied(place(root, found, 0))[k].0));
        } else {
            let f = choose|f: int| 0 <= f < found.len() && (#[trigger] found[f]).0 == from;
            assert(place(root, found, f + 1) == from);
            assert(met(root, found, implied(place(root, found, f + 1))[k].0));
        }
    }
}

/// The search ends with the reachable modes, each met once.
pub proof fn lemma_search(
    implied: Implications,
    root: FsMode,
    found: Seq<(FsMode, BundleReason)>,
    i: nat,
)
    requires
        i <= found.len() + 1,
        distinct(root, found),
        sound(implied, root, found),
        explored(implied, root, found, i as int),
    ensures
        distinct(root, search(implied, root, found, i)),
        found.is_prefix_of(search(implied, root, found, i)),
        forall|mode: FsMode|
            met(root, search(implied, root, found, i), mode) <==> reaches(implied, root, mode),
    decreases MODE_COUNT - i,
{
    let end = search(implied, root, found, i);
    lemma_distinct_len(root, found);
    if i > found.len() || i >= MODE_COUNT {
        lemma_search_complete(implied, root, found);
        lemma_reaches_self(implied, root);
    } else {
        let next = extended(root, found, implied(place(root, found, i as int)));
        lemma_search_step(implied, root, found, i as int);
        lemma_search(implied, root, next, i + 1);
    }
}

/// What a mode drags in is what it reaches besides itself, each mode once.
pub proof fn lemma_dragged_in(implied: Implications, root: FsMode)
    ensures
        distinct(root, dragged_in(implied, root)),
        forall|mode: FsMode|
            met(root, dragged_in(implied, root), mode) <==> reaches(implied, root, mode),
{
    lemma_search(implied, root, Seq::empty(), 0);
}

/// Whether `edge` is an implication of a mode that `root` reaches.
pub open spec fn is_edge_from(
    implied: Implications,
    root: FsMode,
    edge: (FsMode, BundleReason),
) -> bool {
    exists|from: FsMode| #[trigger]
        reaches(implied, root, from) && implied(from).contains(edge)
}

proof fn lemma_search_edges(
    implied: Implications,
    root: FsMode,
    found: Seq<(FsMode, BundleReason)>,
    i: nat,
)
    requires
        i <= found.len() + 1,
        distinct(root, found),
        sound(implied, root, found),
        explored(implied, root, found, i as int),
        forall|k: int| 0 <= k < found.len() ==> is_edge_from(implied, root, #[trigger] found[k]),
    ensures
        forall|k: int|
            0 <= k < search(implied, root, found, i).len() ==> is_edge_from(
                implied,
                root,
                #[trigger] search(implied, root, found, i)[k],
            ),
    decreases MODE_COUNT - i,
{
    if i > found.len() || i >= MODE_COUNT {
        assert(search(implied, root, found, i) == found);
    } else {
        let current = place(root, found, i as int);
        let next = extended(root, found, implied(current));
        lemma_search_step(implied, root, found, i as int);
        lemma_extended(root, found, implied(current));
        assert(reaches(implied, root, current)) by {
            lemma_reaches_self(implied, root);
        }
        assert forall|k: int| 0 <= k < next.len() implies is_edge_from(
            implied,
            root,
            #[trigger] next[k],
        ) by {
            if k < found.len() {
                assert(next[k] == found[k]);
            } else {
                assert(implied(current).contains(next[k]));
            }
        }
        lemma_search_edges(implied, root, next, i + 1);
        assert(search(implied, root, found, i) == search(implied, root, next, i + 1));
    }
}

/// Every mode dragged in comes with the reason of a real implication.
pub proof fn lemma_dragged_in_edges(implied: Implications, root: FsMode)
    ensures
        forall|k: int|
            0 <= k < dragged_in(implied, root).len() ==> is_edge_from(
                implied,
                root,
                #[trigger] dragged_in(implied, root)[k],
            ),
{
    lemma_search_edges(implied, root, Seq::empty(), 0);
}

} // verus!
