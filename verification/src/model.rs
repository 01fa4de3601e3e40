use vstd::prelude::*;

use crate::plan::contains_name;

verus! {

// --- Splice, seen on a model of the root's top level.

/// The root's top-level names after the splice renames for `names`
/// have run, in order: each rename takes one entry out from under the
/// new root and puts it, under the same name, at the root level.
pub open spec fn splice_result(root: Set<Seq<char>>, names: Seq<Seq<char>>) -> Set<Seq<char>>
    decreases names.len(),
{
    if names.len() == 0 {
        root
    } else {
        splice_result(root, names.drop_last()).insert(names.last())
    }
}

/// After the splice, every entry that was under the new-root directory
/// exists, under the same name, directly at the root level; every name
/// already at the root level is still there; nothing else appeared.
/// Once the emptied new-root directory is removed, its name is absent.
///
/// The law asks that no entry under the new root carry the new-root
/// directory's own name: such an entry would be overwritten by the
/// final removal.
pub proof fn lemma_splice_promotes(
    root: Set<Seq<char>>,
    names: Seq<Seq<char>>,
    new_root: Seq<char>,
)
    requires
        forall|i: int| 0 <= i < names.len() ==> #[trigger] names[i] != new_root,
    ensures
        forall|i: int|
            0 <= i < names.len() ==> splice_result(root, names).remove(new_root).contains(
                #[trigger] names[i],
            ),
        forall|n: Seq<char>|
            root.contains(n) && n != new_root ==> splice_result(root, names).remove(
                new_root,
            ).contains(n),
        !splice_result(root, names).remove(new_root).contains(new_root),
        forall|n: Seq<char>|
            #[trigger] splice_result(root, names).contains(n) ==> root.contains(n)
                || contains_name(names, n),
    decreases names.len(),
{
    if names.len() > 0 {
        lemma_splice_promotes(root, names.drop_last(), new_root);
        assert forall|i: int|
            0 <= i < names.len() implies splice_result(root, names).remove(new_root).contains(
            #[trigger] names[i],
        ) by {
            if i < names.len() - 1 {
                assert(names.drop_last()[i] == names[i]);
            } else {
                assert(names[i] == names.last());
            }
        }
        assert forall|n: Seq<char>| #[trigger]
            splice_result(root, names).contains(n) implies root.contains(n) || contains_name(
            names,
            n,
        ) by {
            if n == names.last() {
                assert(names[names.len() - 1] == n);
            } else {
                assert(splice_result(root, names.drop_last()).contains(n));
                if contains_name(names.drop_last(), n) {
                    let i = choose|i: int|
                        0 <= i < names.drop_last().len() && #[trigger] names.drop_last()[i] == n;
                    assert(names[i] == n);
                }
            }
        }
    }
}

// --- The device filesystem's location across the transition.

/// Where the device filesystem is mounted: at its standard path, in
/// the holding directory, at both (never reachable), or at neither.
pub struct DevLocation {
    pub at_standard: bool,
    pub at_holding: bool,
}

/// The exclusivity invariant: the device filesystem never sits at its
/// standard path and in the holding directory at the same time.
pub open spec fn dev_exclusive(s: DevLocation) -> bool {
    !(s.at_standard && s.at_holding)
}

/// A mount move from the standard path into the holding directory: a
/// relocation, not a copy. When nothing is mounted at the source, the
/// kernel refuses the move and nothing changes.
pub open spec fn move_dev_to_holding(s: DevLocation) -> DevLocation {
    if s.at_standard {
        DevLocation { at_standard: false, at_holding: true }
    } else {
        s
    }
}

/// A mount move from the holding directory back to the standard path;
/// the mirror image of `move_dev_to_holding`.
pub open spec fn move_dev_to_standard(s: DevLocation) -> DevLocation {
    if s.at_holding {
        DevLocation { at_standard: true, at_holding: false }
    } else {
        s
    }
}

/// Moving the device filesystem in either direction preserves
/// exclusivity: the holding directory never holds the mount while the
/// standard path does too.
pub proof fn lemma_dev_move_exclusive(s: DevLocation)
    requires
        dev_exclusive(s),
    ensures
        dev_exclusive(move_dev_to_holding(s)),
        dev_exclusive(move_dev_to_standard(s)),
{
}

/// The whole transition's handling of the device filesystem: it starts
/// at its standard path, is parked in the holding directory for the
/// purge, and is restored afterward — and at no point in between does
/// it sit at both places.
pub proof fn lemma_dev_round_trip(s: DevLocation)
    requires
        s.at_standard,
        !s.at_holding,
    ensures
        dev_exclusive(move_dev_to_holding(s)),
        dev_exclusive(move_dev_to_standard(move_dev_to_holding(s))),
        move_dev_to_standard(move_dev_to_holding(s)) == s,
{
}

} // verus!
