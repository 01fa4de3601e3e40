use vstd::prelude::*;
use vstd::string::StringExecFns;

use crate::flags::{remount_flags, spec_remount_flags, MS_RDONLY};
use crate::plan::{contains_name, contains_string, name_views, Plan, PreserveMove};
use crate::step::{Action, Entry, EntryKind, Policy, Step};

verus! {

// --- Opening: remount read-write, preserve the self-image, detach
// --- pseudo-filesystems, park the device filesystem.

/// The first step of every run: remount the root read-write, so the
/// purge and the renames can write to it.
pub open spec fn remount_rw_step() -> Step {
    Step {
        action: Action::RemountRoot { flags: spec_remount_flags(0) },
        policy: Policy::Advisory { pause_secs: 0 },
    }
}

/// One preservation rename. Its failure is advisory with a settling
/// pause: losing preservation risks a later unmount failure but is not
/// immediately catastrophic.
pub open spec fn preserve_step(m: PreserveMove, settle: u64) -> Step {
    Step {
        action: Action::Rename { from: m.from, to: m.to },
        policy: Policy::Advisory { pause_secs: settle },
    }
}

/// The preservation renames, in plan order.
pub open spec fn spec_preserve_steps(moves: Seq<PreserveMove>, settle: u64) -> Seq<Step>
    decreases moves.len(),
{
    if moves.len() == 0 {
        Seq::empty()
    } else {
        spec_preserve_steps(moves.drop_last(), settle).push(preserve_step(moves.last(), settle))
    }
}

/// One best-effort unmount of a pseudo-filesystem the initrd may have
/// mounted.
pub open spec fn detach_step(path: String) -> Step {
    Step { action: Action::Unmount { path }, policy: Policy::Advisory { pause_secs: 0 } }
}

/// The detach steps, in plan order.
pub open spec fn spec_detach_steps(paths: Seq<String>) -> Seq<Step>
    decreases paths.len(),
{
    if paths.len() == 0 {
        Seq::empty()
    } else {
        spec_detach_steps(paths.drop_last()).push(detach_step(paths.last()))
    }
}

/// Everything that runs between the precondition check and the purge:
/// remount read-write, preservation renames, detaches, then create the
/// holding directory (fatal if that fails) and move the device
/// filesystem's mount point into it.
pub open spec fn spec_opening_steps(plan: Plan) -> Seq<Step> {
    seq![remount_rw_step()] + spec_preserve_steps(plan.preserve@, plan.settle_secs)
        + spec_detach_steps(plan.detach@) + seq![
        Step { action: Action::CreateDir { path: plan.holding_path }, policy: Policy::Fatal },
        Step {
            action: Action::MoveMount { from: plan.dev_path, to: plan.holding_path },
            policy: Policy::Advisory { pause_secs: 0 },
        },
    ]
}

/// Build the opening steps of the plan.
pub fn opening_steps(plan: &Plan) -> (r: Vec<Step>)
    ensures
        r@ == spec_opening_steps(*plan),
{
    let mut steps: Vec<Step> = Vec::new();
    steps.push(
        Step {
            action: Action::RemountRoot { flags: remount_flags(0) },
            policy: Policy::Advisory { pause_secs: 0 },
        },
    );

    let mut i: usize = 0;
    while i < plan.preserve.len()
        invariant
            0 <= i <= plan.preserve@.len(),
            steps@ =~= seq![remount_rw_step()] + spec_preserve_steps(
                plan.preserve@.take(i as int),
                plan.settle_secs,
            ),
        decreases plan.preserve@.len() - i,
    {
        let m = &plan.preserve[i];
        steps.push(
            Step {
                action: Action::Rename { from: m.from.clone(), to: m.to.clone() },
                policy: Policy::Advisory { pause_secs: plan.settle_secs },
            },
        );
        proof {
            assert(plan.preserve@.take(i as int + 1).drop_last() =~= plan.preserve@.take(
                i as int,
            ));
            assert(plan.preserve@.take(i as int + 1).last() == plan.preserve@[i as int]);
        }
        i += 1;
    }
    proof {
        assert(plan.preserve@.take(plan.preserve@.len() as int) =~= plan.preserve@);
    }

    let ghost mid = seq![remount_rw_step()] + spec_preserve_steps(
        plan.preserve@,
        plan.settle_secs,
    );
    let mut j: usize = 0;
    while j < plan.detach.len()
        invariant
            0 <= j <= plan.detach@.len(),
            steps@ =~= mid + spec_detach_steps(plan.detach@.take(j as int)),
            mid == seq![remount_rw_step()] + spec_preserve_steps(plan.preserve@, plan.settle_secs),
        decreases plan.detach@.len() - j,
    {
        steps.push(
            Step {
                action: Action::Unmount { path: plan.detach[j].clone() },
                policy: Policy::Advisory { pause_secs: 0 },
            },
        );
        proof {
            assert(plan.detach@.take(j as int + 1).drop_last() =~= plan.detach@.take(j as int));
            assert(plan.detach@.take(j as int + 1).last() == plan.detach@[j as int]);
        }
        j += 1;
    }
    proof {
        assert(plan.detach@.take(plan.detach@.len() as int) =~= plan.detach@);
    }

    steps.push(
        Step { action: Action::CreateDir { path: plan.holding_path.clone() }, policy: Policy::Fatal },
    );
    steps.push(
        Step {
            action: Action::MoveMount {
                from: plan.dev_path.clone(),
                to: plan.holding_path.clone(),
            },
            policy: Policy::Advisory { pause_secs: 0 },
        },
    );
    proof {
        assert(steps@ =~= spec_opening_steps(*plan));
    }
    steps
}

/// Precondition gate and opening of the run: the only checked
/// precondition of the whole pipeline. When the new-root path is
/// missing or is not a directory, no step is produced — the caller
/// prints one diagnostic and returns normally, and nothing on disk has
/// been touched.
pub fn begin_transition(plan: &Plan, new_root_exists: bool, new_root_is_dir: bool) -> (r: Option<
    Vec<Step>,
>)
    ensures
        (r is Some) == (new_root_exists && new_root_is_dir),
        r is Some ==> r.unwrap()@ == spec_opening_steps(*plan),
{
    if new_root_exists && new_root_is_dir {
        Some(opening_steps(plan))
    } else {
        None
    }
}

/// The one diagnostic line a refused run prints — the whole output of
/// a run whose new-root path is missing or is not a directory.
pub fn gate_diagnostic(new_root_path: &String) -> (r: String)
    ensures
        r@ == "Error: "@ + new_root_path@ + " does not exist or is not a directory"@,
{
    let mut r = "Error: ".to_owned();
    r.append(new_root_path.as_str());
    r.append(" does not exist or is not a directory");
    r
}

// --- Purge: delete every root-level entry outside the exempted set.

/// Whether the purge leaves `e` alone: exactly when its name is among
/// the exempt names.
pub open spec fn survives(exempt: Seq<Seq<char>>, e: Entry) -> bool {
    contains_name(exempt, e.name@)
}

/// An entry the purge cannot handle: not exempt, and neither a regular
/// file nor a directory. Meeting one aborts the whole run.
pub open spec fn fatal_entry(exempt: Seq<Seq<char>>, e: Entry) -> bool {
    !survives(exempt, e) && e.kind is Other
}

/// The deletion step for a non-exempt entry: unlink a regular file,
/// recursively delete a directory.
pub open spec fn delete_step(e: Entry) -> Step {
    Step {
        action: if e.kind is File {
            Action::DeleteFile { path: e.name }
        } else {
            Action::DeleteTree { path: e.name }
        },
        policy: Policy::Fatal,
    }
}

/// The purge steps for a listing: one deletion per non-exempt entry,
/// in listing order.
pub open spec fn spec_purge_steps(entries: Seq<Entry>, exempt: Seq<Seq<char>>) -> Seq<Step>
    decreases entries.len(),
{
    if entries.len() == 0 {
        Seq::empty()
    } else if survives(exempt, entries.last()) {
        spec_purge_steps(entries.drop_last(), exempt)
    } else {
        spec_purge_steps(entries.drop_last(), exempt).push(delete_step(entries.last()))
    }
}

/// Whether `s` deletes the entry named `name`.
pub open spec fn step_deletes(s: Step, name: Seq<char>) -> bool {
    match s.action {
        Action::DeleteFile { path } => path@ == name,
        Action::DeleteTree { path } => path@ == name,
        _ => false,
    }
}

/// Whether some step of `steps` deletes the entry named `name`.
pub open spec fn deletes_path(steps: Seq<Step>, name: Seq<char>) -> bool {
    exists|j: int| 0 <= j < steps.len() && step_deletes(#[trigger] steps[j], name)
}

/// The purge steps delete exactly the names of the non-exempt entries.
proof fn lemma_purge_deletes(entries: Seq<Entry>, exempt: Seq<Seq<char>>)
    ensures
        forall|n: Seq<char>| #[trigger]
            deletes_path(spec_purge_steps(entries, exempt), n) <==> exists|i: int|
                0 <= i < entries.len() && (#[trigger] entries[i]).name@ == n && !contains_name(
                    exempt,
                    n,
                ),
    decreases entries.len(),
{
    let s_all = spec_purge_steps(entries, exempt);
    if entries.len() == 0 {
        assert(forall|n: Seq<char>| !(#[trigger] deletes_path(s_all, n)));
    } else {
        let pre = entries.drop_last();
        let e = entries.last();
        lemma_purge_deletes(pre, exempt);
        let s_pre = spec_purge_steps(pre, exempt);
        assert forall|n: Seq<char>| #[trigger] deletes_path(s_all, n) implies exists|i: int|
            0 <= i < entries.len() && (#[trigger] entries[i]).name@ == n && !contains_name(
                exempt,
                n,
            ) by {
            let j = choose|j: int| 0 <= j < s_all.len() && step_deletes(#[trigger] s_all[j], n);
            if j < s_pre.len() {
                assert(s_all[j] == s_pre[j]);
                assert(deletes_path(s_pre, n));
                let i = choose|i: int|
                    0 <= i < pre.len() && (#[trigger] pre[i]).name@ == n && !contains_name(
                        exempt,
                        n,
                    );
                assert(entries[i] == pre[i]);
            } else {
                assert(!survives(exempt, e));
                assert(s_all[j] == delete_step(e));
                assert(e.name@ == n);
                assert(entries[entries.len() - 1] == e);
            }
        }
        assert forall|n: Seq<char>|
            (exists|i: int|
                0 <= i < entries.len() && (#[trigger] entries[i]).name@ == n && !contains_name(
                    exempt,
                    n,
                )) implies #[trigger] deletes_path(s_all, n) by {
            let i = choose|i: int|
                0 <= i < entries.len() && (#[trigger] entries[i]).name@ == n && !contains_name(
                    exempt,
                    n,
                );
            if i < pre.len() {
                assert(pre[i] == entries[i]);
                assert(deletes_path(s_pre, n));
                let j = choose|j: int| 0 <= j < s_pre.len() && step_deletes(#[trigger] s_pre[j], n);
                assert(s_all[j] == s_pre[j]);
                assert(step_deletes(s_all[j], n));
            } else {
                assert(entries[i] == e);
                assert(!survives(exempt, e));
                assert(s_all.last() == delete_step(e));
                assert(step_deletes(s_all[s_all.len() - 1], n));
            }
        }
    }
}

/// Plan the purge of a root-level listing. On success the steps delete
/// exactly the non-exempt entries, so the only entries that survive
/// are the exempted ones. The first non-exempt entry that is neither a
/// regular file nor a directory aborts the planning instead: its index
/// comes back as the error, and no entry after it has been looked at.
pub fn purge_steps(entries: &Vec<Entry>, exempt: &Vec<String>) -> (r: Result<Vec<Step>, usize>)
    ensures
        match r {
            Ok(steps) => {
                &&& steps@ == spec_purge_steps(entries@, name_views(exempt@))
                &&& forall|i: int|
                    0 <= i < entries@.len() ==> !fatal_entry(
                        name_views(exempt@),
                        #[trigger] entries@[i],
                    )
                &&& forall|i: int|
                    0 <= i < entries@.len() ==> (survives(
                        name_views(exempt@),
                        #[trigger] entries@[i],
                    ) <==> !deletes_path(steps@, entries@[i].name@))
            },
            Err(i) => {
                &&& 0 <= i < entries@.len()
                &&& fatal_entry(name_views(exempt@), entries@[i as int])
                &&& forall|j: int|
                    0 <= j < i ==> !fatal_entry(name_views(exempt@), #[trigger] entries@[j])
            },
        },
{
    let mut steps: Vec<Step> = Vec::new();
    let mut idx: usize = 0;
    while idx < entries.len()
        invariant
            0 <= idx <= entries@.len(),
            steps@ == spec_purge_steps(entries@.take(idx as int), name_views(exempt@)),
            forall|j: int|
                0 <= j < idx ==> !fatal_entry(name_views(exempt@), #[trigger] entries@[j]),
        decreases entries@.len() - idx,
    {
        let e = &entries[idx];
        let keep = contains_string(exempt, &e.name);
        if !keep {
            match e.kind {
                EntryKind::File => {
                    steps.push(
                        Step {
                            action: Action::DeleteFile { path: e.name.clone() },
                            policy: Policy::Fatal,
                        },
                    );
                },
                EntryKind::Directory => {
                    steps.push(
                        Step {
                            action: Action::DeleteTree { path: e.name.clone() },
                            policy: Policy::Fatal,
                        },
                    );
                },
                EntryKind::Other => {
                    return Err(idx);
                },
            }
        }
        proof {
            assert(entries@.take(idx as int + 1).drop_last() =~= entries@.take(idx as int));
            assert(entries@.take(idx as int + 1).last() == entries@[idx as int]);
        }
        idx += 1;
    }
    proof {
        assert(entries@.take(entries@.len() as int) =~= entries@);
        lemma_purge_deletes(entries@, name_views(exempt@));
        assert forall|i: int| 0 <= i < entries@.len() implies (survives(
            name_views(exempt@),
            #[trigger] entries@[i],
        ) <==> !deletes_path(steps@, entries@[i].name@)) by {
            let ex = name_views(exempt@);
            let n = entries@[i].name@;
            if survives(ex, entries@[i]) {
                if deletes_path(steps@, n) {
                    let i2 = choose|i2: int|
                        0 <= i2 < entries@.len() && (#[trigger] entries@[i2]).name@ == n
                            && !contains_name(ex, n);
                    assert(false);
                }
            } else {
                assert(0 <= i < entries@.len() && entries@[i].name@ == n && !contains_name(ex, n));
                assert(deletes_path(steps@, n));
            }
        }
    }
    Ok(steps)
}

// --- Splice: promote the new root's contents to the root level.

/// `dir`, a separator, `name`: the path of the entry `name` inside the
/// directory `dir`.
pub open spec fn path_join(dir: Seq<char>, name: Seq<char>) -> Seq<char> {
    dir + "/"@ + name
}

/// Plan the splice: for every entry name directly under the new-root
/// directory, one fatal rename from its place under the new root to
/// the same name at the root level, in listing order.
pub fn splice_steps(new_root_path: &String, names: &Vec<String>) -> (r: Vec<Step>)
    ensures
        r@.len() == names@.len(),
        forall|i: int|
            0 <= i < names@.len() ==> {
                &&& (#[trigger] r@[i]).policy is Fatal
                &&& r@[i].action matches Action::Rename { from, to } && from@ == path_join(
                    new_root_path@,
                    names@[i]@,
                ) && to@ == names@[i]@
            },
{
    let mut steps: Vec<Step> = Vec::new();
    let mut i: usize = 0;
    while i < names.len()
        invariant
            0 <= i <= names@.len(),
            steps@.len() == i,
            forall|k: int|
                0 <= k < i ==> {
                    &&& (#[trigger] steps@[k]).policy is Fatal
                    &&& steps@[k].action matches Action::Rename { from, to } && from@ == path_join(
                        new_root_path@,
                        names@[k]@,
                    ) && to@ == names@[k]@
                },
        decreases names@.len() - i,
    {
        let mut from = new_root_path.clone();
        from.append("/");
        from.append(names[i].as_str());
        let to = names[i].clone();
        steps.push(Step { action: Action::Rename { from, to }, policy: Policy::Fatal });
        i += 1;
    }
    steps
}

// --- Closing: drop the emptied new-root directory, restore the device
// --- filesystem, remount read-only, flush, settle, reboot.

/// Everything that runs after the splice: remove the now-empty
/// new-root directory, move the device filesystem back to its standard
/// path, remove the holding directory, remount read-only where the
/// plan asks for it, then flush, settle and reboot.
pub open spec fn spec_closing_steps(plan: Plan) -> Seq<Step> {
    let head = seq![
        Step { action: Action::RemoveDir { path: plan.new_root_path }, policy: Policy::Fatal },
        Step {
            action: Action::MoveMount { from: plan.holding_path, to: plan.dev_path },
            policy: Policy::Advisory { pause_secs: 0 },
        },
        Step { action: Action::RemoveDir { path: plan.holding_path }, policy: Policy::Fatal },
    ];
    let tail = seq![
        Step { action: Action::Sync, policy: Policy::Advisory { pause_secs: 0 } },
        Step {
            action: Action::Pause { secs: plan.settle_secs },
            policy: Policy::Advisory { pause_secs: 0 },
        },
        Step { action: Action::Reboot, policy: Policy::Advisory { pause_secs: 0 } },
    ];
    if plan.final_read_only {
        head + seq![
            Step {
                action: Action::RemountRoot { flags: spec_remount_flags(MS_RDONLY) },
                policy: Policy::Advisory { pause_secs: 0 },
            },
        ] + tail
    } else {
        head + tail
    }
}

/// Build the closing steps of the plan.
pub fn closing_steps(plan: &Plan) -> (r: Vec<Step>)
    ensures
        r@ == spec_closing_steps(*plan),
{
    let mut steps: Vec<Step> = Vec::new();
    steps.push(
        Step { action: Action::RemoveDir { path: plan.new_root_path.clone() }, policy: Policy::Fatal },
    );
    steps.push(
        Step {
            action: Action::MoveMount {
                from: plan.holding_path.clone(),
                to: plan.dev_path.clone(),
            },
            policy: Policy::Advisory { pause_secs: 0 },
        },
    );
    steps.push(
        Step { action: Action::RemoveDir { path: plan.holding_path.clone() }, policy: Policy::Fatal },
    );
    if plan.final_read_only {
        steps.push(
            Step {
                action: Action::RemountRoot { flags: remount_flags(MS_RDONLY) },
                policy: Policy::Advisory { pause_secs: 0 },
            },
        );
    }
    steps.push(Step { action: Action::Sync, policy: Policy::Advisory { pause_secs: 0 } });
    steps.push(
        Step {
            action: Action::Pause { secs: plan.settle_secs },
            policy: Policy::Advisory { pause_secs: 0 },
        },
    );
    steps.push(Step { action: Action::Reboot, policy: Policy::Advisory { pause_secs: 0 } });
    proof {
        assert(steps@ =~= spec_closing_steps(*plan));
    }
    steps
}

} // verus!
