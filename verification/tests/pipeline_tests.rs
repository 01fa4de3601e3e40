use switch_root::flags::{
    remount_flags, MS_MOVE, MS_RDONLY, MS_REMOUNT, REBOOT_CMD_RESTART, REBOOT_MAGIC1,
    REBOOT_MAGIC2,
};
use switch_root::pipeline::{
    begin_transition, closing_steps, gate_diagnostic, purge_steps, splice_steps,
};
use switch_root::plan::{contains_string, full_plan, lean_plan};
use switch_root::step::{Action, Entry, EntryKind, Policy, Step};

fn entry(name: &str, kind: EntryKind) -> Entry {
    Entry { name: name.to_string(), kind }
}

fn is_fatal(s: &Step) -> bool {
    matches!(s.policy, Policy::Fatal)
}

fn advisory_pause(s: &Step) -> u64 {
    match s.policy {
        Policy::Advisory { pause_secs } => pause_secs,
        Policy::Fatal => panic!("expected an advisory step"),
    }
}

#[test]
fn wire_level_flag_values() {
    assert_eq!(MS_RDONLY, 1);
    assert_eq!(MS_REMOUNT, 32);
    assert_eq!(MS_MOVE, 8192);
    assert_eq!(REBOOT_MAGIC1, 0xfee1dead);
    assert_eq!(REBOOT_MAGIC2, 672274793);
    assert_eq!(REBOOT_CMD_RESTART, 0x1234567);
}

#[test]
fn remount_always_carries_remount_bit() {
    assert_eq!(remount_flags(0), 32);
    assert_eq!(remount_flags(MS_RDONLY), 33);
}

#[test]
fn remount_request_is_stable() {
    // The same extra flags compose to the same flag word every time,
    // so repeating the remount request repeats the same kernel call.
    let first = remount_flags(MS_RDONLY);
    let second = remount_flags(MS_RDONLY);
    assert_eq!(first, second);
}

#[test]
fn refused_gate_has_one_exact_diagnostic() {
    let plan = full_plan();
    assert_eq!(
        gate_diagnostic(&plan.new_root_path),
        "Error: /new_root does not exist or is not a directory"
    );
}

#[test]
fn absent_new_root_produces_no_steps() {
    let plan = full_plan();
    assert!(begin_transition(&plan, false, false).is_none());
    assert!(begin_transition(&plan, false, true).is_none());
    assert!(begin_transition(&plan, true, false).is_none());
}

#[test]
fn full_plan_wires_the_known_paths() {
    let plan = full_plan();
    assert_eq!(plan.new_root_path, "/new_root");
    assert_eq!(plan.new_root_name, "new_root");
    assert_eq!(plan.dev_path, "dev");
    assert_eq!(plan.holding_path, "old_dev");
    assert_eq!(plan.exempt, vec!["new_root", "old_dev", "lost+found"]);
    assert_eq!(plan.detach, vec!["proc", "run", "sys"]);
    assert_eq!(plan.preserve.len(), 3);
    assert_eq!(plan.preserve[0].from, "/sbin/init");
    assert_eq!(plan.preserve[0].to, "/new_root/tmp/init");
    assert_eq!(plan.preserve[1].from, "/lib");
    assert_eq!(plan.preserve[1].to, "/new_root/tmp/lib");
    assert_eq!(plan.preserve[2].from, "/usr/lib/gcc/x86_64-pc-linux-gnu");
    assert_eq!(plan.preserve[2].to, "/new_root/tmp/lib_gcc");
    assert!(plan.final_read_only);
    assert_eq!(plan.settle_secs, 3);
}

#[test]
fn lean_plan_skips_preservation_and_readonly() {
    let plan = lean_plan();
    assert_eq!(plan.new_root_path, "new_root");
    assert_eq!(plan.exempt, vec!["new_root", "old_dev"]);
    assert!(plan.preserve.is_empty());
    assert!(!plan.final_read_only);
}

#[test]
fn opening_steps_of_the_full_plan() {
    let plan = full_plan();
    let steps = begin_transition(&plan, true, true).expect("gate should pass");
    assert_eq!(steps.len(), 9);

    match &steps[0].action {
        Action::RemountRoot { flags } => assert_eq!(*flags, 32),
        _ => panic!("first step must remount read-write"),
    }
    assert_eq!(advisory_pause(&steps[0]), 0);

    let expected_renames = [
        ("/sbin/init", "/new_root/tmp/init"),
        ("/lib", "/new_root/tmp/lib"),
        ("/usr/lib/gcc/x86_64-pc-linux-gnu", "/new_root/tmp/lib_gcc"),
    ];
    for (k, (f, t)) in expected_renames.iter().enumerate() {
        match &steps[1 + k].action {
            Action::Rename { from, to } => {
                assert_eq!(from, f);
                assert_eq!(to, t);
            }
            _ => panic!("preservation steps must be renames"),
        }
        assert_eq!(advisory_pause(&steps[1 + k]), 3);
    }

    let expected_unmounts = ["proc", "run", "sys"];
    for (k, p) in expected_unmounts.iter().enumerate() {
        match &steps[4 + k].action {
            Action::Unmount { path } => assert_eq!(path, p),
            _ => panic!("detach steps must be unmounts"),
        }
        assert_eq!(advisory_pause(&steps[4 + k]), 0);
    }

    match &steps[7].action {
        Action::CreateDir { path } => assert_eq!(path, "old_dev"),
        _ => panic!("the holding directory must be created"),
    }
    assert!(is_fatal(&steps[7]));

    match &steps[8].action {
        Action::MoveMount { from, to } => {
            assert_eq!(from, "dev");
            assert_eq!(to, "old_dev");
        }
        _ => panic!("the device filesystem must be parked"),
    }
    assert_eq!(advisory_pause(&steps[8]), 0);
}

#[test]
fn opening_steps_of_the_lean_plan() {
    let plan = lean_plan();
    let steps = begin_transition(&plan, true, true).expect("gate should pass");
    // No preservation renames: remount, three unmounts, create, move.
    assert_eq!(steps.len(), 6);
    assert!(matches!(steps[0].action, Action::RemountRoot { flags: 32 }));
    assert!(matches!(&steps[1].action, Action::Unmount { path } if path == "proc"));
    assert!(matches!(&steps[4].action, Action::CreateDir { path } if path == "old_dev"));
    assert!(
        matches!(&steps[5].action, Action::MoveMount { from, to } if from == "dev" && to == "old_dev")
    );
}

#[test]
fn purge_deletes_everything_not_exempt() {
    let plan = full_plan();
    let entries = vec![
        entry("a", EntryKind::File),
        entry("new_root", EntryKind::Directory),
        entry("b", EntryKind::Directory),
        entry("old_dev", EntryKind::Directory),
        entry("lost+found", EntryKind::Directory),
    ];
    let steps = purge_steps(&entries, &plan.exempt).expect("no fatal entry");
    assert_eq!(steps.len(), 2);
    assert!(matches!(&steps[0].action, Action::DeleteFile { path } if path == "a"));
    assert!(matches!(&steps[1].action, Action::DeleteTree { path } if path == "b"));
    assert!(steps.iter().all(is_fatal));
}

#[test]
fn purge_never_touches_the_exempted_set() {
    let plan = full_plan();
    let entries = vec![
        entry("new_root", EntryKind::Directory),
        entry("old_dev", EntryKind::Directory),
        entry("lost+found", EntryKind::Directory),
    ];
    let steps = purge_steps(&entries, &plan.exempt).expect("no fatal entry");
    assert!(steps.is_empty());
}

#[test]
fn purge_stops_at_the_first_unclassifiable_entry() {
    let plan = full_plan();
    let entries = vec![
        entry("a", EntryKind::File),
        entry("new_root", EntryKind::Directory),
        entry("weird", EntryKind::Other),
        entry("also_weird", EntryKind::Other),
        entry("b", EntryKind::Directory),
    ];
    let err = purge_steps(&entries, &plan.exempt).expect_err("an unclassifiable entry");
    assert_eq!(err, 2);
    assert_eq!(entries[err].name, "weird");
}

#[test]
fn exempt_entry_of_unknown_kind_is_left_alone() {
    // Exemption is decided before classification, so an exempted
    // entry of unexpected kind does not abort the purge.
    let plan = full_plan();
    let entries = vec![entry("lost+found", EntryKind::Other)];
    let steps = purge_steps(&entries, &plan.exempt).expect("exempt entries are never classified");
    assert!(steps.is_empty());
}

#[test]
fn splice_promotes_top_level_entries() {
    // The new root holds files `a`, `b` and directory `c` (with `d`
    // inside, which moves along with `c`): each top-level entry is
    // renamed to the same name at the root level, and the closing
    // steps then remove the emptied new-root directory.
    let plan = full_plan();
    let names = vec!["a".to_string(), "b".to_string(), "c".to_string()];
    let steps = splice_steps(&plan.new_root_path, &names);
    assert_eq!(steps.len(), 3);
    let expected = [
        ("/new_root/a", "a"),
        ("/new_root/b", "b"),
        ("/new_root/c", "c"),
    ];
    for (k, (f, t)) in expected.iter().enumerate() {
        match &steps[k].action {
            Action::Rename { from, to } => {
                assert_eq!(from, f);
                assert_eq!(to, t);
            }
            _ => panic!("splice steps must be renames"),
        }
        assert!(is_fatal(&steps[k]));
    }

    let closing = closing_steps(&plan);
    assert!(
        matches!(&closing[0].action, Action::RemoveDir { path } if path == "/new_root"),
        "the new-root directory must be removed right after the splice"
    );
}

#[test]
fn closing_steps_of_the_full_plan() {
    let plan = full_plan();
    let steps = closing_steps(&plan);
    assert_eq!(steps.len(), 7);
    assert!(matches!(&steps[0].action, Action::RemoveDir { path } if path == "/new_root"));
    assert!(is_fatal(&steps[0]));
    assert!(
        matches!(&steps[1].action, Action::MoveMount { from, to } if from == "old_dev" && to == "dev")
    );
    assert!(matches!(&steps[2].action, Action::RemoveDir { path } if path == "old_dev"));
    assert!(is_fatal(&steps[2]));
    assert!(matches!(steps[3].action, Action::RemountRoot { flags: 33 }));
    assert!(matches!(steps[4].action, Action::Sync));
    assert!(matches!(steps[5].action, Action::Pause { secs: 3 }));
    assert!(matches!(steps[6].action, Action::Reboot));
}

#[test]
fn closing_steps_of_the_lean_plan() {
    let plan = lean_plan();
    let steps = closing_steps(&plan);
    assert_eq!(steps.len(), 6);
    assert!(matches!(&steps[0].action, Action::RemoveDir { path } if path == "new_root"));
    assert!(matches!(steps[3].action, Action::Sync));
    assert!(matches!(steps[4].action, Action::Pause { secs: 3 }));
    assert!(matches!(steps[5].action, Action::Reboot));
}

#[test]
fn device_filesystem_is_moved_not_copied() {
    // Across the whole run the device filesystem is touched by exactly
    // two actions, both mount moves: parked into the holding directory
    // before the purge, restored to its standard path afterward. No
    // step ever creates or copies anything at the standard path while
    // the holding directory holds the mount.
    let plan = full_plan();
    let mut all: Vec<Step> = begin_transition(&plan, true, true).unwrap();
    all.extend(closing_steps(&plan));

    let mut moves: Vec<(String, String)> = Vec::new();
    for s in &all {
        match &s.action {
            Action::MoveMount { from, to } => moves.push((from.clone(), to.clone())),
            Action::CreateDir { path } => assert_ne!(path, "dev"),
            Action::Rename { from, to } => {
                assert_ne!(from, "dev");
                assert_ne!(to, "dev");
            }
            _ => {}
        }
    }
    assert_eq!(
        moves,
        vec![
            ("dev".to_string(), "old_dev".to_string()),
            ("old_dev".to_string(), "dev".to_string()),
        ]
    );
}

#[test]
fn contains_string_matches_exact_names() {
    let names = vec!["new_root".to_string(), "old_dev".to_string()];
    assert!(contains_string(&names, &"new_root".to_string()));
    assert!(contains_string(&names, &"old_dev".to_string()));
    assert!(!contains_string(&names, &"new_roo".to_string()));
    assert!(!contains_string(&names, &"dev".to_string()));
    assert!(!contains_string(&Vec::new(), &"dev".to_string()));
}

#[test]
fn purge_of_an_empty_root_does_nothing() {
    let plan = full_plan();
    let steps = purge_steps(&Vec::new(), &plan.exempt).expect("nothing to classify");
    assert!(steps.is_empty());
}

#[test]
fn splice_of_an_empty_new_root_does_nothing() {
    let plan = full_plan();
    let steps = splice_steps(&plan.new_root_path, &Vec::new());
    assert!(steps.is_empty());
}
