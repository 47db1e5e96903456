//! What holds of every compiled request, whatever the platform's tables are, and
//! what holds of the two platforms' own.

use vstd::prelude::*;
use super::closure;
use super::closure::Implications;
use super::compile;
use super::compile::{
    BundleReason, ModeAlwaysAllowed, ModeBundle, ModeDelegation, ModeRefusal, ModeTarget, Refusals,
};
use super::landlock_map;
use super::landlock_map::LandlockRightName;
use super::mode_set;
use super::sbpl_map;
use super::FsMode;

verus! {

/// A mapped listing holds exactly what its modes map to.
pub(crate) proof fn lemma_filter_map<B>(modes: Seq<FsMode>, entry: spec_fn(FsMode) -> Option<B>)
    ensures
        forall|item: B|
            modes.filter_map(entry).contains(item) <==> exists|mode: FsMode| #[trigger]
                modes.contains(mode) && entry(mode) == Some(item),
    decreases modes.len(),
{
    if modes.len() > 0 {
        let rest = modes.drop_last();
        let last = modes.last();
        lemma_filter_map(rest, entry);
        let earlier = rest.filter_map(entry);
        let full = modes.filter_map(entry);
        assert(modes == rest.push(last));
        assert forall|item: B|
            full.contains(item) <==> exists|mode: FsMode| #[trigger]
                modes.contains(mode) && entry(mode) == Some(item) by {
            if full.contains(item) {
                if earlier.contains(item) {
                    let mode = choose|mode: FsMode| #[trigger]
                        rest.contains(mode) && entry(mode) == Some(item);
                    let i = choose|i: int| 0 <= i < rest.len() && rest[i] == mode;
                    assert(modes[i] == mode);
                    assert(modes.contains(mode) && entry(mode) == Some(item));
                } else {
                    let i = choose|i: int| 0 <= i < full.len() && full[i] == item;
                    if i < earlier.len() {
                        assert(earlier[i] == item);
                    }
                    assert(modes[modes.len() - 1] == last);
                    assert(modes.contains(last) && entry(last) == Some(item));
                }
            }
            if exists|mode: FsMode| #[trigger]
                modes.contains(mode) && entry(mode) == Some(item) {
                let mode = choose|mode: FsMode| #[trigger]
                    modes.contains(mode) && entry(mode) == Some(item);
                let i = choose|i: int| 0 <= i < modes.len() && modes[i] == mode;
                if i < rest.len() {
                    assert(rest[i] == mode);
                    assert(rest.contains(mode) && entry(mode) == Some(item));
                    assert(earlier.contains(item));
                    let k = choose|k: int| 0 <= k < earlier.len() && earlier[k] == item;
                    assert(full[k] == item);
                } else {
                    assert(full[full.len() - 1] == item);
                }
            }
        }
    }
}

/// Which modes each of the four listings of a report names.
pub(crate) proof fn lemma_listings(
    implied: Implications,
    refusals: Refusals,
    target: ModeTarget,
    requested: Set<FsMode>,
)
    ensures
        ({
            let granted = closure::granted_by(implied, requested);
            let report = compile::report(implied, refusals, target, requested);
            &&& forall|mode: FsMode|
                report.refuses(mode) <==> (granted.contains(mode) && refusals(mode) is Some)
            &&& forall|mode: FsMode|
                report.always_allows(mode) <==> (compile::honoured(granted, refusals, mode)
                    && compile::unrestrictable(target, mode))
            &&& forall|mode: FsMode|
                report.delegates(mode) <==> (compile::honoured(granted, refusals, mode)
                    && mode is UnixSocketConnect)
            &&& forall|mode: FsMode|
                report.enforced.contains(mode) <==> requested.contains(mode) && (if mode is AtomicWrite {
                    report.refused.len() == 0
                } else {
                    refusals(mode) is None && !(mode is UnixSocketConnect)
                        && !compile::unrestrictable(target, mode)
                })
        }),
{
    mode_set::lemma_all_modes();
    let all = super::all_modes();
    let granted = closure::granted_by(implied, requested);
    let report = compile::report(implied, refusals, target, requested);
    let refusal = compile::refusal_entry(granted, refusals);
    let always = compile::always_allowed_entry(granted, refusals, target);
    let delegation = compile::delegation_entry(granted, refusals);
    let enforcement = compile::enforced_entry(requested, refusals, target);
    lemma_filter_map::<ModeRefusal>(all, refusal);
    lemma_filter_map::<ModeAlwaysAllowed>(all, always);
    lemma_filter_map::<ModeDelegation>(all, delegation);
    lemma_filter_map::<FsMode>(all, enforcement);
    assert forall|mode: FsMode|
        report.refuses(mode) <==> (granted.contains(mode) && refusals(mode) is Some) by {
        if report.refuses(mode) {
            let i = choose|i: int|
                0 <= i < report.refused.len() && (#[trigger] report.refused[i]).mode == mode;
            assert(all.filter_map(refusal).contains(report.refused[i]));
        }
        if granted.contains(mode) && refusals(mode) is Some {
            let item = ModeRefusal { mode, why: refusals(mode)->0 };
            assert(all.contains(mode) && refusal(mode) == Some(item));
            assert(report.refused.contains(item));
        }
    }
    assert forall|mode: FsMode|
        report.always_allows(mode) <==> (compile::honoured(granted, refusals, mode)
            && compile::unrestrictable(target, mode)) by {
        if report.always_allows(mode) {
            let i = choose|i: int|
                0 <= i < report.always_allowed.len() && (#[trigger] report.always_allowed[i]).mode
                    == mode;
            assert(all.filter_map(always).contains(report.always_allowed[i]));
        }
        if compile::honoured(granted, refusals, mode) && compile::unrestrictable(target, mode) {
            let item = always(mode)->0;
            assert(all.contains(mode) && always(mode) == Some(item));
            assert(report.always_allowed.contains(item));
        }
    }
    assert forall|mode: FsMode|
        report.delegates(mode) <==> (compile::honoured(granted, refusals, mode)
            && mode is UnixSocketConnect) by {
        if report.delegates(mode) {
            let i = choose|i: int|
                0 <= i < report.delegated.len() && (#[trigger] report.delegated[i]).mode == mode;
            assert(all.filter_map(delegation).contains(report.delegated[i]));
        }
        if compile::honoured(granted, refusals, mode) && mode is UnixSocketConnect {
            let item = delegation(mode)->0;
            assert(all.contains(mode) && delegation(mode) == Some(item));
            assert(report.delegated.contains(item));
        }
    }
    let leaves = all.filter_map(enforcement);
    assert forall|mode: FsMode|
        leaves.contains(mode) <==> (requested.contains(mode) && refusals(mode) is None
            && !(mode is AtomicWrite) && !(mode is UnixSocketConnect)
            && !compile::unrestrictable(target, mode)) by {
        if enforcement(mode) is Some {
            assert(all.contains(mode) && enforcement(mode) == Some(mode));
        }
    }
    assert forall|mode: FsMode|
        report.enforced.contains(mode) <==> (leaves.contains(mode) || (mode is AtomicWrite
            && requested.contains(mode) && report.refused.len() == 0)) by {
        if leaves.contains(mode) {
            let i = choose|i: int| 0 <= i < leaves.len() && leaves[i] == mode;
            assert(report.enforced[i] == mode);
        }
        if requested.contains(FsMode::AtomicWrite) && report.refused.len() == 0 {
            assert(report.enforced[leaves.len() as int] == FsMode::AtomicWrite);
        }
        if report.enforced.contains(mode) {
            let i = choose|i: int| 0 <= i < report.enforced.len() && report.enforced[i] == mode;
            if i < leaves.len() {
                assert(leaves[i] == mode);
            }
        }
    }
}

/// No two entries name the same mode as riding along.
pub open spec fn named_once(bundled: Seq<ModeBundle>) -> bool {
    forall|i: int, j: int|
        0 <= i < j < bundled.len() ==> (#[trigger] bundled[i]).also_granted != (
        #[trigger] bundled[j]).also_granted
}

proof fn lemma_disclosed_for(
    requested: Set<FsMode>,
    before: Seq<ModeBundle>,
    root: FsMode,
    found: Seq<(FsMode, BundleReason)>,
)
    requires
        named_once(before),
    ensures
        ({
            let after = compile::disclosed_for(requested, before, root, found);
            &&& before.is_prefix_of(after)
            &&& named_once(after)
            &&& forall|mode: FsMode|
                compile::named(after, mode) <==> (compile::named(before, mode) || (
                !requested.contains(mode) && exists|k: int|
                    0 <= k < found.len() && (#[trigger] found[k]).0 == mode))
            &&& forall|i: int|
                before.len() <= i < after.len() ==> {
                    &&& (#[trigger] after[i]).requested == root
                    &&& found.contains((after[i].also_granted, after[i].why))
                }
        }),
    decreases found.len(),
{
    if found.len() > 0 {
        let rest = found.drop_last();
        lemma_disclosed_for(requested, before, root, rest);
        let earlier = compile::disclosed_for(requested, before, root, rest);
        let after = compile::disclosed_for(requested, before, root, found);
        let (last, why) = found.last();
        assert(earlier.is_prefix_of(after));
        assert forall|mode: FsMode|
            compile::named(after, mode) <==> (compile::named(before, mode) || (
            !requested.contains(mode) && exists|k: int|
                0 <= k < found.len() && (#[trigger] found[k]).0 == mode)) by {
            if compile::named(earlier, mode) {
                let i = choose|i: int|
                    0 <= i < earlier.len() && (#[trigger] earlier[i]).also_granted == mode;
                assert(after[i].also_granted == mode);
                if !compile::named(before, mode) {
                    let k = choose|k: int| 0 <= k < rest.len() && (#[trigger] rest[k]).0 == mode;
                    assert(found[k].0 == mode);
                }
            } else if compile::named(after, mode) {
                let i = choose|i: int|
                    0 <= i < after.len() && (#[trigger] after[i]).also_granted == mode;
                if i < earlier.len() {
                    assert(earlier[i].also_granted == mode);
                }
                assert(found[found.len() - 1].0 == mode);
            }
            if !requested.contains(mode) && exists|k: int|
                0 <= k < found.len() && (#[trigger] found[k]).0 == mode {
                let k = choose|k: int| 0 <= k < found.len() && (#[trigger] found[k]).0 == mode;
                if k < rest.len() {
                    assert(rest[k].0 == mode);
                    assert(compile::named(earlier, mode));
                } else if !compile::named(earlier, mode) {
                    assert(after[earlier.len() as int].also_granted == mode);
                }
            }
        }
        assert forall|i: int| before.len() <= i < after.len() implies {
            &&& (#[trigger] after[i]).requested == root
            &&& found.contains((after[i].also_granted, after[i].why))
        } by {
            if i < earlier.len() {
                assert(after[i] == earlier[i]);
                let edge = (earlier[i].also_granted, earlier[i].why);
                assert(rest.contains(edge));
                let k = choose|k: int| 0 <= k < rest.len() && rest[k] == edge;
                assert(found[k] == edge);
            } else {
                assert(found[found.len() - 1] == (last, why));
            }
        }
        assert(named_once(after)) by {
            if after.len() > earlier.len() {
                assert forall|i: int, j: int| 0 <= i < j < after.len() implies (
                #[trigger] after[i]).also_granted != (#[trigger] after[j]).also_granted by {
                    assert(after[i] == earlier[i]);
                    if j < earlier.len() {
                        assert(after[j] == earlier[j]);
                    } else {
                        assert(!compile::named(earlier, last));
                    }
                }
            }
        }
    }
}

/// Whether an entry names the first of `roots` that drags its mode in.
pub open spec fn first_to_reach(
    implied: Implications,
    roots: Seq<FsMode>,
    entry: ModeBundle,
) -> bool {
    exists|j: int|
        0 <= j < roots.len() && #[trigger] roots[j] == entry.requested && forall|k: int|
            0 <= k < j ==> !closure::reaches(implied, #[trigger] roots[k], entry.also_granted)
}

proof fn lemma_disclosures(implied: Implications, requested: Set<FsMode>, roots: Seq<FsMode>)
    requires
        forall|i: int| 0 <= i < roots.len() ==> requested.contains(#[trigger] roots[i]),
    ensures
        ({
            let bundled = compile::disclosures(implied, requested, roots);
            &&& named_once(bundled)
            &&& forall|mode: FsMode|
                compile::named(bundled, mode) <==> (!requested.contains(mode) && exists|i: int|
                    0 <= i < roots.len() && closure::reaches(implied, #[trigger] roots[i], mode))
            &&& forall|i: int|
                0 <= i < bundled.len() ==> {
                    &&& requested.contains((#[trigger] bundled[i]).requested)
                    &&& closure::reaches(implied, bundled[i].requested, bundled[i].also_granted)
                    &&& closure::is_edge_from(
                        implied,
                        bundled[i].requested,
                        (bundled[i].also_granted, bundled[i].why),
                    )
                    &&& first_to_reach(implied, roots, bundled[i])
                }
        }),
    decreases roots.len(),
{
    if roots.len() > 0 {
        let rest = roots.drop_last();
        let root = roots.last();
        assert(root == roots[roots.len() - 1]);
        assert forall|i: int| 0 <= i < rest.len() implies requested.contains(#[trigger] rest[i]) by {
            assert(rest[i] == roots[i]);
        }
        lemma_disclosures(implied, requested, rest);
        let before = compile::disclosures(implied, requested, rest);
        let found = closure::dragged_in(implied, root);
        let bundled = compile::disclosures(implied, requested, roots);
        lemma_disclosed_for(requested, before, root, found);
        closure::lemma_dragged_in(implied, root);
        closure::lemma_dragged_in_edges(implied, root);
        assert forall|mode: FsMode|
            compile::named(bundled, mode) <==> (!requested.contains(mode) && exists|i: int|
                0 <= i < roots.len() && closure::reaches(implied, #[trigger] roots[i], mode)) by {
            if compile::named(before, mode) {
                let i = choose|i: int|
                    0 <= i < rest.len() && closure::reaches(implied, #[trigger] rest[i], mode);
                assert(closure::reaches(implied, roots[i], mode));
            }
            if !requested.contains(mode) {
                assert(closure::met(root, found, mode) <==> closure::reaches(implied, root, mode));
                if closure::reaches(implied, root, mode) {
                    assert(closure::reaches(implied, roots[roots.len() - 1], mode));
                }
                if exists|i: int|
                    0 <= i < roots.len() && closure::reaches(implied, #[trigger] roots[i], mode) {
                    let i = choose|i: int|
                        0 <= i < roots.len() && closure::reaches(
                            implied,
                            #[trigger] roots[i],
                            mode,
                        );
                    if i < rest.len() {
                        assert(closure::reaches(implied, rest[i], mode));
                    }
                }
            }
        }
        assert forall|i: int| 0 <= i < bundled.len() implies {
            &&& requested.contains((#[trigger] bundled[i]).requested)
            &&& closure::reaches(implied, bundled[i].requested, bundled[i].also_granted)
            &&& closure::is_edge_from(
                implied,
                bundled[i].requested,
                (bundled[i].also_granted, bundled[i].why),
            )
            &&& first_to_reach(implied, roots, bundled[i])
        } by {
            if i < before.len() {
                assert(bundled[i] == before[i]);
                let j = choose|j: int|
                    0 <= j < rest.len() && #[trigger] rest[j] == before[i].requested && forall|
                        k: int,
                    |
                        0 <= k < j ==> !closure::reaches(
                            implied,
                            #[trigger] rest[k],
                            before[i].also_granted,
                        );
                assert(roots[j] == rest[j]);
                assert forall|k: int| 0 <= k < j implies !closure::reaches(
                    implied,
                    #[trigger] roots[k],
                    bundled[i].also_granted,
                ) by {
                    assert(rest[k] == roots[k]);
                }
            } else {
                assert(roots[roots.len() - 1] == bundled[i].requested);
                assert(compile::named(bundled, bundled[i].also_granted));
                lemma_new_is_new(before, bundled, i);
                assert forall|k: int| 0 <= k < roots.len() - 1 implies !closure::reaches(
                    implied,
                    #[trigger] roots[k],
                    bundled[i].also_granted,
                ) by {
                    assert(rest[k] == roots[k]);
                }
                let edge = (bundled[i].also_granted, bundled[i].why);
                assert(found.contains(edge));
                let k = choose|k: int| 0 <= k < found.len() && found[k] == edge;
                assert(found[k].0 == edge.0);
                assert(closure::met(root, found, edge.0));
            }
        }
    }
}

proof fn lemma_new_is_new(before: Seq<ModeBundle>, after: Seq<ModeBundle>, i: int)
    requires
        before.is_prefix_of(after),
        named_once(after),
        before.len() <= i < after.len(),
    ensures
        !compile::named(before, after[i].also_granted),
{
    if compile::named(before, after[i].also_granted) {
        let k = choose|k: int|
            0 <= k < before.len() && (#[trigger] before[k]).also_granted == after[i].also_granted;
        assert(after[k] == before[k]);
    }
}

/// Nothing is widened without an entry that names it: the modes disclosed as
/// riding along are exactly those granted beyond the request, each in one entry,
/// and the entry names the first requested mode that really drags it in, for the
/// reason on a real implication.
pub proof fn law_nothing_is_widened_silently(
    implied: Implications,
    refusals: Refusals,
    target: ModeTarget,
    requested: Set<FsMode>,
)
    ensures
        ({
            let granted = closure::granted_by(implied, requested);
            let report = compile::report(implied, refusals, target, requested);
            &&& forall|mode: FsMode|
                report.discloses(mode) <==> (granted.contains(mode) && !requested.contains(mode))
            &&& named_once(report.bundled)
            &&& forall|i: int|
                0 <= i < report.bundled.len() ==> {
                    let entry = #[trigger] report.bundled[i];
                    &&& requested.contains(entry.requested)
                    &&& closure::reaches(implied, entry.requested, entry.also_granted)
                    &&& closure::is_edge_from(
                        implied,
                        entry.requested,
                        (entry.also_granted, entry.why),
                    )
                    &&& first_to_reach(implied, super::in_order(requested), entry)
                }
        }),
{
    let roots = super::in_order(requested);
    let granted = closure::granted_by(implied, requested);
    let report = compile::report(implied, refusals, target, requested);
    mode_set::lemma_in_order(requested);
    assert forall|i: int| 0 <= i < roots.len() implies requested.contains(#[trigger] roots[i]) by {
        assert(roots.contains(roots[i]));
    }
    lemma_disclosures(implied, requested, roots);
    assert forall|mode: FsMode|
        report.discloses(mode) <==> (granted.contains(mode) && !requested.contains(mode)) by {
        assert(report.discloses(mode) <==> compile::named(report.bundled, mode));
        if granted.contains(mode) {
            let root = choose|root: FsMode| #[trigger]
                requested.contains(root) && closure::reaches(implied, root, mode);
            assert(roots.contains(root));
            let i = choose|i: int| 0 <= i < roots.len() && roots[i] == root;
            assert(closure::reaches(implied, roots[i], mode));
        }
        if report.discloses(mode) {
            let i = choose|i: int|
                0 <= i < roots.len() && closure::reaches(implied, #[trigger] roots[i], mode);
            assert(requested.contains(roots[i]) && closure::reaches(implied, roots[i], mode));
        }
    }
}

/// Nothing is dropped: every requested mode is enforced, always allowed,
/// delegated or refused. The one name without a list of its own is an atomic
/// write of which a mode was refused: then the whole grant is refused.
pub proof fn law_nothing_is_dropped(
    implied: Implications,
    refusals: Refusals,
    target: ModeTarget,
    requested: Set<FsMode>,
)
    ensures
        ({
            let report = compile::report(implied, refusals, target, requested);
            forall|mode: FsMode| #[trigger]
                requested.contains(mode) ==> report.enforced.contains(mode)
                    || report.always_allows(mode) || report.delegates(mode) || report.refuses(mode)
                    || (mode is AtomicWrite && report.refused.len() > 0)
        }),
{
    lemma_listings(implied, refusals, target, requested);
    let report = compile::report(implied, refusals, target, requested);
    assert forall|mode: FsMode| #[trigger] requested.contains(mode) implies report.enforced.contains(
        mode,
    ) || report.always_allows(mode) || report.delegates(mode) || report.refuses(mode) || (
    mode is AtomicWrite && report.refused.len() > 0) by {
        closure::lemma_reaches_self(implied, mode);
    }
}

/// The lists do not overlap, and what is enforced is what the caller asked for
/// and got: no enforced mode is refused, disclosed, a no-op or delegated.
pub proof fn law_enforced_is_what_was_asked_for(
    implied: Implications,
    refusals: Refusals,
    target: ModeTarget,
    requested: Set<FsMode>,
    mode: FsMode,
)
    requires
        compile::report(implied, refusals, target, requested).enforced.contains(mode),
    ensures
        requested.contains(mode),
        !compile::report(implied, refusals, target, requested).refuses(mode),
        !compile::report(implied, refusals, target, requested).discloses(mode),
        !compile::report(implied, refusals, target, requested).always_allows(mode),
        !compile::report(implied, refusals, target, requested).delegates(mode),
{
    lemma_listings(implied, refusals, target, requested);
    law_nothing_is_widened_silently(implied, refusals, target, requested);
    let report = compile::report(implied, refusals, target, requested);
    if mode is AtomicWrite && report.refuses(mode) {
        let i = choose|i: int|
            0 <= i < report.refused.len() && (#[trigger] report.refused[i]).mode == mode;
        assert(report.refused.len() > 0);
    }
}

/// A caller who asked for everything the grant confers is told of no widening.
pub proof fn law_a_closed_request_discloses_nothing(
    implied: Implications,
    refusals: Refusals,
    target: ModeTarget,
    requested: Set<FsMode>,
)
    requires
        closure::granted_by(implied, requested) == requested,
    ensures
        compile::report(implied, refusals, target, requested).bundled.len() == 0,
{
    law_nothing_is_widened_silently(implied, refusals, target, requested);
    let report = compile::report(implied, refusals, target, requested);
    if report.bundled.len() > 0 {
        assert(report.discloses(report.bundled[0].also_granted));
    }
}

/// Granting is a closure: it keeps the request, and granting what was granted
/// adds nothing.
pub proof fn law_granting_is_a_closure(implied: Implications, requested: Set<FsMode>)
    ensures
        requested.subset_of(closure::granted_by(implied, requested)),
        closure::granted_by(implied, closure::granted_by(implied, requested))
            == closure::granted_by(implied, requested),
{
    let granted = closure::granted_by(implied, requested);
    let again = closure::granted_by(implied, granted);
    assert forall|mode: FsMode| requested.contains(mode) implies granted.contains(mode) by {
        closure::lemma_reaches_self(implied, mode);
    }
    assert forall|mode: FsMode| again.contains(mode) <==> granted.contains(mode) by {
        if granted.contains(mode) {
            closure::lemma_reaches_self(implied, mode);
        }
        if again.contains(mode) {
            let middle = choose|root: FsMode| #[trigger]
                granted.contains(root) && closure::reaches(implied, root, mode);
            let root = choose|root: FsMode| #[trigger]
                requested.contains(root) && closure::reaches(implied, root, middle);
            lemma_reaches_transitive(implied, root, middle, mode);
            assert(requested.contains(root) && closure::reaches(implied, root, mode));
        }
    }
    assert(again =~= granted);
}

proof fn lemma_reaches_transitive(implied: Implications, a: FsMode, b: FsMode, c: FsMode)
    requires
        closure::reaches(implied, a, b),
        closure::reaches(implied, b, c),
    ensures
        closure::reaches(implied, a, c),
{
    let path = choose|path: Seq<FsMode>| #[trigger]
        closure::is_path(implied, path) && path.first() == b && path.last() == c;
    lemma_along(implied, a, path, path.len() - 1);
}

proof fn lemma_along(implied: Implications, root: FsMode, path: Seq<FsMode>, i: int)
    requires
        closure::is_path(implied, path),
        closure::reaches(implied, root, path[0]),
        0 <= i < path.len(),
    ensures
        closure::reaches(implied, root, path[i]),
    decreases i,
{
    if i > 0 {
        lemma_along(implied, root, path, i - 1);
        assert(closure::implies_directly(implied, path[i - 1], path[i]));
        closure::lemma_reaches_step(implied, root, path[i - 1], path[i]);
    }
}

/// A request grants more, never less, when it asks for more.
pub proof fn law_granting_is_monotone(implied: Implications, less: Set<FsMode>, more: Set<FsMode>)
    requires
        less.subset_of(more),
    ensures
        closure::granted_by(implied, less).subset_of(closure::granted_by(implied, more)),
{
    assert forall|mode: FsMode| closure::granted_by(implied, less).contains(
        mode,
    ) implies closure::granted_by(implied, more).contains(mode) by {
        let root = choose|root: FsMode| #[trigger]
            less.contains(root) && closure::reaches(implied, root, mode);
        assert(more.contains(root) && closure::reaches(implied, root, mode));
    }
}

/// Landlock refuses exactly the granted modes whose right the kernel lacks.
pub proof fn law_landlock_refuses_what_the_kernel_lacks(requested: Set<FsMode>, abi: u8)
    ensures
        forall|mode: FsMode| #[trigger]
            landlock_map::landlock_report(requested, abi).refuses(mode) <==> (
            landlock_map::landlock_granted(requested).contains(mode) && exists|i: int|
                0 <= i < landlock_map::rights_of(mode).len() && abi < (
                #[trigger] landlock_map::rights_of(mode)[i]).since()),
{
    let implied = |mode: FsMode| landlock_map::implied_modes(mode);
    let refusals = |mode: FsMode| landlock_map::refusal_at(abi, mode);
    lemma_listings(implied, refusals, ModeTarget::Landlock, requested);
    let report = landlock_map::landlock_report(requested, abi);
    assert forall|mode: FsMode|
        report.refuses(mode) <==> (landlock_map::landlock_granted(requested).contains(mode)
            && exists|i: int|
            0 <= i < landlock_map::rights_of(mode).len() && abi < (
            #[trigger] landlock_map::rights_of(mode)[i]).since()) by {
        assert(landlock_map::rights_of(mode).len() <= 1);
        if refusals(mode) is Some {
            assert(abi < landlock_map::rights_of(mode)[0].since());
        }
    }
}

/// A newer kernel refuses no mode that an older one grants, and from ABI V3 on
/// nothing is refused.
pub proof fn law_newer_kernels_refuse_less(requested: Set<FsMode>, older: u8, newer: u8)
    requires
        older <= newer,
    ensures
        forall|mode: FsMode| #[trigger]
            landlock_map::landlock_report(requested, newer).refuses(mode)
                ==> landlock_map::landlock_report(requested, older).refuses(mode),
        newer >= 3 ==> landlock_map::landlock_report(requested, newer).refused.len() == 0,
{
    law_landlock_refuses_what_the_kernel_lacks(requested, older);
    law_landlock_refuses_what_the_kernel_lacks(requested, newer);
    let report = landlock_map::landlock_report(requested, newer);
    assert forall|mode: FsMode| report.refuses(mode) implies landlock_map::landlock_report(
        requested,
        older,
    ).refuses(mode) by {
        let i = choose|i: int|
            0 <= i < landlock_map::rights_of(mode).len() && newer < (
            #[trigger] landlock_map::rights_of(mode)[i]).since();
        assert(older < landlock_map::rights_of(mode)[i].since());
    }
    if newer >= 3 && report.refused.len() > 0 {
        let mode = report.refused[0].mode;
        assert(report.refuses(mode));
    }
}

/// The rights of a Landlock rule are exactly those of the granted modes, each
/// once: none is missing and none is invented.
pub proof fn law_landlock_rights_are_exact(granted: Set<FsMode>)
    ensures
        landlock_map::needed_rights(granted).no_duplicates(),
        forall|right: LandlockRightName|
            landlock_map::needed_rights(granted).contains(right) <==> landlock_map::needed(
                granted,
                right,
            ),
{
    let all = landlock_map::all_rights();
    let keep = |right: LandlockRightName| landlock_map::needed(granted, right);
    lemma_filter_exact(all, keep);
    assert forall|right: LandlockRightName| all.contains(right) by {
        let i: int = match right {
            LandlockRightName::ReadFile => 0,
            LandlockRightName::ReadDir => 1,
            LandlockRightName::WriteFile => 2,
            LandlockRightName::Execute => 3,
            LandlockRightName::MakeReg => 4,
            LandlockRightName::RemoveFile => 5,
            LandlockRightName::RemoveDir => 6,
            LandlockRightName::Refer => 7,
            LandlockRightName::Truncate => 8,
        };
        assert(all[i] == right);
    }
}

proof fn lemma_filter_exact<A>(items: Seq<A>, keep: spec_fn(A) -> bool)
    requires
        items.no_duplicates(),
    ensures
        items.filter(keep).no_duplicates(),
        forall|item: A| items.filter(keep).contains(item) <==> (items.contains(item) && keep(item)),
    decreases items.len(),
{
    reveal(Seq::filter);
    if items.len() > 0 {
        let rest = items.drop_last();
        let last = items.last();
        lemma_filter_exact(rest, keep);
        let kept = rest.filter(keep);
        let full = items.filter(keep);
        assert(items == rest.push(last));
        assert(!rest.contains(last));
        assert forall|item: A| full.contains(item) <==> (items.contains(item) && keep(item)) by {
            if rest.contains(item) {
                let i = choose|i: int| 0 <= i < rest.len() && rest[i] == item;
                assert(items[i] == item);
            }
            if kept.contains(item) {
                let i = choose|i: int| 0 <= i < kept.len() && kept[i] == item;
                assert(full[i] == item);
            }
            if full.contains(item) {
                let i = choose|i: int| 0 <= i < full.len() && full[i] == item;
                if i < kept.len() {
                    assert(kept[i] == item);
                    assert(kept.contains(item));
                } else {
                    assert(items[items.len() - 1] == item);
                }
            }
            if items.contains(item) && keep(item) {
                if item == last {
                    assert(full[full.len() - 1] == item);
                } else {
                    let i = choose|i: int| 0 <= i < items.len() && items[i] == item;
                    assert(rest[i] == item);
                }
            }
        }
        assert(full.no_duplicates()) by {
            if keep(last) {
                assert(!kept.contains(last));
            }
        }
    }
}

/// Seatbelt refuses nothing and can restrict every operation, `stat(2)` among
/// them.
pub proof fn law_seatbelt_refuses_nothing(requested: Set<FsMode>)
    ensures
        sbpl_map::seatbelt_report(requested).refused.len() == 0,
        sbpl_map::seatbelt_report(requested).always_allowed.len() == 0,
{
    let implied = |mode: FsMode| sbpl_map::implied_within(requested, mode);
    let refusals = |mode: FsMode| None::<compile::RefusalReason>;
    lemma_listings(implied, refusals, ModeTarget::Seatbelt, requested);
    let report = sbpl_map::seatbelt_report(requested);
    if report.refused.len() > 0 {
        assert(report.refuses(report.refused[0].mode));
    }
    if report.always_allowed.len() > 0 {
        assert(report.always_allows(report.always_allowed[0].mode));
    }
}

/// The operations of a Seatbelt rule are exactly those of the granted modes,
/// each once.
pub proof fn law_seatbelt_operations_are_exact(granted: Set<FsMode>)
    ensures
        sbpl_map::needed_operations(granted).no_duplicates(),
        forall|operation: sbpl_map::SbplOperation|
            sbpl_map::needed_operations(granted).contains(operation) <==> sbpl_map::needed(
                granted,
                operation,
            ),
{
    let all = sbpl_map::all_operations();
    lemma_filter_exact(
        all,
        |operation: sbpl_map::SbplOperation| sbpl_map::needed(granted, operation),
    );
    assert forall|operation: sbpl_map::SbplOperation| all.contains(operation) by {
        let i: int = match operation {
            sbpl_map::SbplOperation::FileReadData => 0,
            sbpl_map::SbplOperation::FileReadMetadata => 1,
            sbpl_map::SbplOperation::FileWriteData => 2,
            sbpl_map::SbplOperation::FileWriteCreate => 3,
            sbpl_map::SbplOperation::FileWriteUnlink => 4,
            sbpl_map::SbplOperation::ProcessExec => 5,
            sbpl_map::SbplOperation::FileMapExecutable => 6,
        };
        assert(all[i] == operation);
    }
}

/// A set that holds the request and everything its modes imply holds all that is
/// granted.
proof fn lemma_granted_within(implied: Implications, requested: Set<FsMode>, bound: Set<FsMode>)
    requires
        requested.subset_of(bound),
        forall|a: FsMode, b: FsMode|
            bound.contains(a) && #[trigger] closure::implies_directly(implied, a, b)
                ==> bound.contains(b),
    ensures
        closure::granted_by(implied, requested).subset_of(bound),
{
    assert forall|mode: FsMode| closure::granted_by(implied, requested).contains(
        mode,
    ) implies bound.contains(mode) by {
        let root = choose|root: FsMode| #[trigger]
            requested.contains(root) && closure::reaches(implied, root, mode);
        let path = choose|path: Seq<FsMode>| #[trigger]
            closure::is_path(implied, path) && path.first() == root && path.last() == mode;
        lemma_path_within(implied, bound, path, path.len() - 1);
    }
}

proof fn lemma_path_within(implied: Implications, bound: Set<FsMode>, path: Seq<FsMode>, i: int)
    requires
        closure::is_path(implied, path),
        bound.contains(path[0]),
        forall|a: FsMode, b: FsMode|
            bound.contains(a) && #[trigger] closure::implies_directly(implied, a, b)
                ==> bound.contains(b),
        0 <= i < path.len(),
    ensures
        bound.contains(path[i]),
    decreases i,
{
    if i > 0 {
        lemma_path_within(implied, bound, path, i - 1);
        assert(closure::implies_directly(implied, path[i - 1], path[i]));
    }
}

/// What a granted mode implies is granted.
proof fn lemma_granted_step(implied: Implications, requested: Set<FsMode>, a: FsMode, b: FsMode)
    requires
        closure::granted_by(implied, requested).contains(a),
        closure::implies_directly(implied, a, b),
    ensures
        closure::granted_by(implied, requested).contains(b),
{
    let root = choose|root: FsMode| #[trigger]
        requested.contains(root) && closure::reaches(implied, root, a);
    closure::lemma_reaches_step(implied, root, a, b);
    assert(requested.contains(root) && closure::reaches(implied, root, b));
}

/// What the `i`th implication of a granted mode names is granted under Seatbelt.
pub(crate) proof fn lemma_seatbelt_step(requested: Set<FsMode>, mode: FsMode, i: int)
    requires
        sbpl_map::seatbelt_granted(requested).contains(mode),
        0 <= i < sbpl_map::implied_within(requested, mode).len(),
    ensures
        sbpl_map::seatbelt_granted(requested).contains(
            sbpl_map::implied_within(requested, mode)[i].0,
        ),
{
    let implied = |m: FsMode| sbpl_map::implied_within(requested, m);
    let to = sbpl_map::implied_within(requested, mode)[i].0;
    assert(implied(mode)[i].0 == to);
    lemma_granted_step(implied, requested, mode, to);
}

/// Which modes imply a create or an unlink under Seatbelt.
proof fn lemma_seatbelt_sources(requested: Set<FsMode>, mode: FsMode, i: int)
    requires
        0 <= i < sbpl_map::implied_within(requested, mode).len(),
    ensures
        ({
            let to = sbpl_map::implied_within(requested, mode)[i].0;
            &&& to is Create ==> mode is Rename || mode is AtomicWrite
            &&& to is RemoveFile ==> mode is RemoveDir || mode is Rename || mode is AtomicWrite
            &&& to is RemoveDir ==> mode is RemoveFile
        }),
{
}

/// A set that holds the request and is closed under every implication holds all
/// that is granted.
pub(crate) proof fn lemma_granted_in_closed_set(
    implied: Implications,
    requested: Set<FsMode>,
    bound: Set<FsMode>,
)
    requires
        requested.subset_of(bound),
        forall|m: FsMode, i: int|
            bound.contains(m) && 0 <= i < implied(m).len() ==> bound.contains(
                (#[trigger] implied(m)[i]).0,
            ),
    ensures
        closure::granted_by(implied, requested).subset_of(bound),
{
    assert forall|a: FsMode, b: FsMode|
        bound.contains(a) && #[trigger] closure::implies_directly(
            implied,
            a,
            b,
        ) implies bound.contains(b) by {
        let i = choose|i: int| 0 <= i < implied(a).len() && (#[trigger] implied(a)[i]).0 == b;
        assert(bound.contains(implied(a)[i].0));
    }
    lemma_granted_within(implied, requested, bound);
}

/// Nothing of `out` is granted, where none of it was asked for and none is
/// implied from outside it.
proof fn lemma_granted_without(
    implied: Implications,
    requested: Set<FsMode>,
    out: Set<FsMode>,
    mode: FsMode,
)
    requires
        forall|m: FsMode| #[trigger] out.contains(m) ==> !requested.contains(m),
        forall|m: FsMode, i: int|
            closure::granted_by(implied, requested).contains(m) && !out.contains(m) && 0 <= i
                < implied(m).len() ==> !out.contains((#[trigger] implied(m)[i]).0),
        out.contains(mode),
    ensures
        !closure::granted_by(implied, requested).contains(mode),
{
    let granted = closure::granted_by(implied, requested);
    let bound = granted.difference(out);
    law_granting_is_a_closure(implied, requested);
    assert forall|m: FsMode, i: int|
        bound.contains(m) && 0 <= i < implied(m).len() implies bound.contains(
        (#[trigger] implied(m)[i]).0,
    ) by {
        lemma_granted_step(implied, requested, m, implied(m)[i].0);
    }
    lemma_granted_in_closed_set(implied, requested, bound);
}

/// Under Seatbelt a create and an unlink are never granted without the rename
/// they amount to.
pub(crate) proof fn lemma_create_and_unlink_rename(requested: Set<FsMode>)
    ensures
        ({
            let granted = sbpl_map::seatbelt_granted(requested);
            granted.contains(FsMode::Create) && (granted.contains(FsMode::RemoveFile)
                || granted.contains(FsMode::RemoveDir)) ==> granted.contains(FsMode::Rename)
        }),
{
    let granted = sbpl_map::seatbelt_granted(requested);
    if !granted.contains(FsMode::Rename) {
        if granted.contains(FsMode::AtomicWrite) {
            lemma_seatbelt_step(requested, FsMode::AtomicWrite, 2);
        }
        let out = if !requested.contains(FsMode::Create) {
            set![FsMode::Create]
        } else {
            set![FsMode::RemoveFile, FsMode::RemoveDir]
        };
        if sbpl_map::renames_anyway(requested) {
            lemma_seatbelt_asked(requested, FsMode::Create);
            lemma_seatbelt_step(requested, FsMode::Create, 0);
        } else {
            let implied = |m: FsMode| sbpl_map::implied_within(requested, m);
            assert forall|m: FsMode, i: int|
                closure::granted_by(implied, requested).contains(m) && !out.contains(m) && 0 <= i
                    < implied(m).len() implies !out.contains((#[trigger] implied(m)[i]).0) by {
                lemma_seatbelt_sources(requested, m, i);
            }
            if !requested.contains(FsMode::Create) {
                lemma_granted_without(implied, requested, out, FsMode::Create);
            } else {
                lemma_granted_without(implied, requested, out, FsMode::RemoveFile);
                lemma_granted_without(implied, requested, out, FsMode::RemoveDir);
            }
        }
    }
}

/// What is asked for is granted under Seatbelt.
proof fn lemma_seatbelt_asked(requested: Set<FsMode>, mode: FsMode)
    requires
        requested.contains(mode),
    ensures
        sbpl_map::seatbelt_granted(requested).contains(mode),
{
    law_granting_is_a_closure(|m: FsMode| sbpl_map::implied_within(requested, m), requested);
}

/// Nothing is widened silently under Seatbelt, measured by what its rules allow:
/// a mode all of whose operations are allowed was asked for or has an entry that
/// names it.
pub proof fn law_seatbelt_widens_nothing_silently(requested: Set<FsMode>, mode: FsMode)
    requires
        sbpl_map::operations_of(mode).len() > 0,
        forall|operation: sbpl_map::SbplOperation| #[trigger]
            sbpl_map::operations_of(mode).contains(operation) ==> sbpl_map::needed_operations(
                sbpl_map::seatbelt_granted(requested),
            ).contains(operation),
    ensures
        requested.contains(mode) || sbpl_map::seatbelt_report(requested).discloses(mode),
{
    let implied = |m: FsMode| sbpl_map::implied_within(requested, m);
    let granted = sbpl_map::seatbelt_granted(requested);
    let operations = sbpl_map::operations_of(mode);
    law_seatbelt_operations_are_exact(granted);
    law_nothing_is_widened_silently(
        implied,
        |m: FsMode| None::<compile::RefusalReason>,
        ModeTarget::Seatbelt,
        requested,
    );
    assert(operations.contains(operations[0]));
    assert(sbpl_map::needed(granted, operations[0]));
    let first = choose|m: FsMode| #[trigger]
        granted.contains(m) && sbpl_map::operations_of(m).contains(operations[0]);
    lemma_create_and_unlink_rename(requested);
    if mode is Rename {
        assert(operations.contains(operations[1]));
        assert(sbpl_map::needed(granted, operations[1]));
        let second = choose|m: FsMode| #[trigger]
            granted.contains(m) && sbpl_map::operations_of(m).contains(operations[1]);
        lemma_who_needs(first, operations[0]);
        lemma_who_needs(second, operations[1]);
    } else {
        lemma_who_needs(first, operations[0]);
        lemma_same_operation(requested, first, mode);
    }
    assert(granted.contains(mode));
}

/// Which modes need an operation.
pub(crate) proof fn lemma_who_needs(mode: FsMode, operation: sbpl_map::SbplOperation)
    requires
        sbpl_map::operations_of(mode).contains(operation),
    ensures
        match operation {
            sbpl_map::SbplOperation::FileReadData => mode is ReadContents || mode is ReadDir,
            sbpl_map::SbplOperation::FileReadMetadata => mode is ReadMetadata,
            sbpl_map::SbplOperation::FileWriteData => mode is Write || mode is Append
                || mode is Truncate,
            sbpl_map::SbplOperation::FileWriteCreate => mode is Create || mode is Rename,
            sbpl_map::SbplOperation::FileWriteUnlink => mode is RemoveFile || mode is RemoveDir
                || mode is Rename,
            sbpl_map::SbplOperation::ProcessExec => mode is Execute,
            sbpl_map::SbplOperation::FileMapExecutable => mode is ReadContents || mode is Execute,
        },
{
}

/// A mode whose first operation a granted mode needs is granted with it.
proof fn lemma_same_operation(requested: Set<FsMode>, granted_mode: FsMode, mode: FsMode)
    requires
        sbpl_map::seatbelt_granted(requested).contains(granted_mode),
        sbpl_map::operations_of(mode).len() > 0,
        sbpl_map::operations_of(granted_mode).contains(sbpl_map::operations_of(mode)[0]),
        !(mode is Rename),
    ensures
        sbpl_map::seatbelt_granted(requested).contains(mode),
{
    lemma_who_needs(granted_mode, sbpl_map::operations_of(mode)[0]);
    if granted_mode is Rename {
        lemma_seatbelt_step(requested, FsMode::Rename, 0);
        lemma_seatbelt_step(requested, FsMode::Rename, 1);
        lemma_seatbelt_step(requested, FsMode::RemoveFile, 0);
    } else if granted_mode != mode {
        lemma_seatbelt_step(requested, granted_mode, 0);
        if granted_mode is Write || granted_mode is Append || granted_mode is Truncate {
            lemma_seatbelt_step(requested, granted_mode, 1);
        }
    }
}

/// Nothing is widened silently under Landlock, measured by the rights of the
/// rule: a mode whose rights are all carried was asked for or has an entry that
/// names it.
pub proof fn law_landlock_widens_nothing_silently(requested: Set<FsMode>, abi: u8, mode: FsMode)
    requires
        landlock_map::rights_of(mode).len() > 0,
        forall|right: LandlockRightName| #[trigger]
            landlock_map::rights_of(mode).contains(right) ==> landlock_map::needed_rights(
                landlock_map::landlock_granted(requested),
            ).contains(right),
    ensures
        requested.contains(mode) || landlock_map::landlock_report(requested, abi).discloses(mode),
{
    let implied = |m: FsMode| landlock_map::implied_modes(m);
    let granted = landlock_map::landlock_granted(requested);
    let rights = landlock_map::rights_of(mode);
    law_landlock_rights_are_exact(granted);
    law_nothing_is_widened_silently(
        implied,
        |m: FsMode| landlock_map::refusal_at(abi, m),
        ModeTarget::Landlock,
        requested,
    );
    assert(rights.contains(rights[0]));
    assert(landlock_map::needed(granted, rights[0]));
    let other = choose|m: FsMode| #[trigger]
        granted.contains(m) && landlock_map::rights_of(m).contains(rights[0]);
    assert(landlock_map::rights_of(other)[0] == rights[0]);
    if other != mode {
        assert(implied(other)[0].0 == mode);
        lemma_granted_step(implied, requested, other, mode);
    }
    assert(granted.contains(mode));
}

/// A Seatbelt request grants more, never less, when it asks for more, and asking
/// for what was granted grants nothing beyond it.
pub proof fn law_seatbelt_granting_is_monotone_and_closed(less: Set<FsMode>, more: Set<FsMode>)
    requires
        less.subset_of(more),
    ensures
        sbpl_map::seatbelt_granted(less).subset_of(sbpl_map::seatbelt_granted(more)),
        sbpl_map::seatbelt_granted(sbpl_map::seatbelt_granted(less))
            == sbpl_map::seatbelt_granted(less),
{
    let small = |m: FsMode| sbpl_map::implied_within(less, m);
    let bound = sbpl_map::seatbelt_granted(more);
    law_granting_is_a_closure(|m: FsMode| sbpl_map::implied_within(more, m), more);
    assert forall|m: FsMode, i: int|
        bound.contains(m) && 0 <= i < small(m).len() implies bound.contains(
        (#[trigger] small(m)[i]).0,
    ) by {
        lemma_edges_stay(less, more, m);
        lemma_seatbelt_step(more, m, i);
    }
    lemma_granted_in_closed_set(small, less, bound);
    lemma_seatbelt_closed(less);
}

proof fn lemma_edges_stay(less: Set<FsMode>, more: Set<FsMode>, mode: FsMode)
    requires
        less.subset_of(more),
        sbpl_map::implied_within(less, mode).len() > 0,
    ensures
        sbpl_map::implied_within(more, mode) == sbpl_map::implied_within(less, mode),
{
}

proof fn lemma_seatbelt_closed(requested: Set<FsMode>)
    ensures
        sbpl_map::seatbelt_granted(sbpl_map::seatbelt_granted(requested))
            == sbpl_map::seatbelt_granted(requested),
{
    let granted = sbpl_map::seatbelt_granted(requested);
    let again = |m: FsMode| sbpl_map::implied_within(granted, m);
    lemma_create_and_unlink_rename(requested);
    assert forall|m: FsMode, i: int|
        granted.contains(m) && 0 <= i < again(m).len() implies granted.contains(
        (#[trigger] again(m)[i]).0,
    ) by {
        if !(m is Create) {
            lemma_seatbelt_step(requested, m, i);
        }
    }
    lemma_granted_in_closed_set(again, granted, granted);
    law_granting_is_a_closure(again, granted);
    assert(sbpl_map::seatbelt_granted(granted) =~= granted);
}

/// An atomic write grants each of its members, on both platforms.
pub proof fn law_atomic_write_grants_its_members(requested: Set<FsMode>, member: FsMode)
    requires
        requested.contains(FsMode::AtomicWrite),
        super::atomic_write_members().contains(member),
    ensures
        landlock_map::landlock_granted(requested).contains(member),
        sbpl_map::seatbelt_granted(requested).contains(member),
{
    let root = FsMode::AtomicWrite;
    let landlock = |mode: FsMode| landlock_map::implied_modes(mode);
    let seatbelt = |mode: FsMode| sbpl_map::implied_within(requested, mode);
    let members = super::atomic_write_members();
    let k = choose|k: int| 0 <= k < members.len() && members[k] == member;
    assert(landlock(root)[k].0 == member);
    assert(seatbelt(root)[k].0 == member);
    closure::lemma_reaches_self(landlock, root);
    closure::lemma_reaches_step(landlock, root, root, member);
    closure::lemma_reaches_self(seatbelt, root);
    closure::lemma_reaches_step(seatbelt, root, root, member);
}

/// Append cannot be granted without write, nor write without append.
pub proof fn law_append_is_a_write_grant(requested: Set<FsMode>)
    ensures
        landlock_map::landlock_granted(requested).contains(FsMode::Append)
            <==> landlock_map::landlock_granted(requested).contains(FsMode::Write),
        sbpl_map::seatbelt_granted(requested).contains(FsMode::Append)
            <==> sbpl_map::seatbelt_granted(requested).contains(FsMode::Write),
{
    let landlock = |mode: FsMode| landlock_map::implied_modes(mode);
    let seatbelt = |mode: FsMode| sbpl_map::implied_within(requested, mode);
    assert(landlock(FsMode::Append)[0].0 == FsMode::Write);
    assert(landlock(FsMode::Write)[0].0 == FsMode::Append);
    assert(seatbelt(FsMode::Append)[0].0 == FsMode::Write);
    assert(seatbelt(FsMode::Write)[0].0 == FsMode::Append);
    lemma_both_or_neither(landlock, requested, FsMode::Append, FsMode::Write);
    lemma_both_or_neither(seatbelt, requested, FsMode::Append, FsMode::Write);
}

proof fn lemma_both_or_neither(
    implied: Implications,
    requested: Set<FsMode>,
    a: FsMode,
    b: FsMode,
)
    requires
        closure::implies_directly(implied, a, b),
        closure::implies_directly(implied, b, a),
    ensures
        closure::granted_by(implied, requested).contains(a) <==> closure::granted_by(
            implied,
            requested,
        ).contains(b),
{
    let granted = closure::granted_by(implied, requested);
    if granted.contains(a) {
        let root = choose|root: FsMode| #[trigger]
            requested.contains(root) && closure::reaches(implied, root, a);
        closure::lemma_reaches_step(implied, root, a, b);
        assert(requested.contains(root) && closure::reaches(implied, root, b));
    }
    if granted.contains(b) {
        let root = choose|root: FsMode| #[trigger]
            requested.contains(root) && closure::reaches(implied, root, b);
        closure::lemma_reaches_step(implied, root, b, a);
        assert(requested.contains(root) && closure::reaches(implied, root, a));
    }
}

} // verus!
