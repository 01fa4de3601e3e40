use vstd::prelude::*;

verus! {

/// One path renamed into the new root's temporary area before the
/// purge, because it backs the running process's own memory image.
pub struct PreserveMove {
    pub from: String,
    pub to: String,
}

/// The views of a list of names, for contracts.
pub open spec fn name_views(names: Seq<String>) -> Seq<Seq<char>> {
    names.map_values(|s: String| s@)
}

/// Whether `name` occurs among `names`.
pub open spec fn contains_name(names: Seq<Seq<char>>, name: Seq<char>) -> bool {
    exists|i: int| 0 <= i < names.len() && names[i] == name
}

/// The whole transition, as one static plan: where the new root is,
/// where the device filesystem lives and where it is parked during the
/// purge, which root-level entries the purge must leave alone, which
/// paths are preserved for the running process's sake, which
/// pseudo-filesystems are detached, and how the run ends.
pub struct Plan {
    /// Path of the directory holding the new root's contents.
    pub new_root_path: String,
    /// The same directory's name as a root-level entry.
    pub new_root_name: String,
    /// Standard path of the device filesystem.
    pub dev_path: String,
    /// Directory the device filesystem is parked in during the purge.
    pub holding_path: String,
    /// Root-level entry names the purge leaves alone.
    pub exempt: Vec<String>,
    /// Renames performed before the purge to keep the running
    /// process's own files alive; empty in the lean variant.
    pub preserve: Vec<PreserveMove>,
    /// Mount points of pseudo-filesystems to detach, best-effort.
    pub detach: Vec<String>,
    /// Whether the root is remounted read-only at the end.
    pub final_read_only: bool,
    /// Settling delay, in seconds, after a failed preservation rename
    /// and between the final flush and the reboot.
    pub settle_secs: u64,
}

impl Plan {
    /// The invariant that makes the purge survivable: the new root's
    /// directory and the device-filesystem holding directory are both
    /// exempt from deletion. A plan that violates this would destroy
    /// the only path back to a usable system.
    pub open spec fn wf(self) -> bool {
        &&& contains_name(name_views(self.exempt@), self.new_root_name@)
        &&& contains_name(name_views(self.exempt@), self.holding_path@)
    }
}

/// The full variant: the new root sits at an absolute path, the
/// process preserves its own image, a recovery directory is exempt
/// from the purge, and the root is remounted read-only at the end.
pub fn full_plan() -> (r: Plan)
    ensures
        r.wf(),
        r.new_root_path@ == "/new_root"@,
        r.new_root_name@ == "new_root"@,
        r.dev_path@ == "dev"@,
        r.holding_path@ == "old_dev"@,
        name_views(r.exempt@) =~= seq!["new_root"@, "old_dev"@, "lost+found"@],
        r.preserve@.len() == 3,
        r.preserve@[0].from@ == "/sbin/init"@,
        r.preserve@[0].to@ == "/new_root/tmp/init"@,
        r.preserve@[1].from@ == "/lib"@,
        r.preserve@[1].to@ == "/new_root/tmp/lib"@,
        r.preserve@[2].from@ == "/usr/lib/gcc/x86_64-pc-linux-gnu"@,
        r.preserve@[2].to@ == "/new_root/tmp/lib_gcc"@,
        name_views(r.detach@) =~= seq!["proc"@, "run"@, "sys"@],
        r.final_read_only == true,
        r.settle_secs == 3,
{
    let mut exempt: Vec<String> = Vec::new();
    exempt.push("new_root".to_owned());
    exempt.push("old_dev".to_owned());
    exempt.push("lost+found".to_owned());

    let mut preserve: Vec<PreserveMove> = Vec::new();
    preserve.push(PreserveMove {
        from: "/sbin/init".to_owned(),
        to: "/new_root/tmp/init".to_owned(),
    });
    preserve.push(PreserveMove { from: "/lib".to_owned(), to: "/new_root/tmp/lib".to_owned() });
    preserve.push(PreserveMove {
        from: "/usr/lib/gcc/x86_64-pc-linux-gnu".to_owned(),
        to: "/new_root/tmp/lib_gcc".to_owned(),
    });

    let mut detach: Vec<String> = Vec::new();
    detach.push("proc".to_owned());
    detach.push("run".to_owned());
    detach.push("sys".to_owned());

    let r = Plan {
        new_root_path: "/new_root".to_owned(),
        new_root_name: "new_root".to_owned(),
        dev_path: "dev".to_owned(),
        holding_path: "old_dev".to_owned(),
        exempt,
        preserve,
        detach,
        final_read_only: true,
        settle_secs: 3,
    };
    proof {
        assert(name_views(r.exempt@) =~= seq!["new_root"@, "old_dev"@, "lost+found"@]);
        assert(name_views(r.detach@) =~= seq!["proc"@, "run"@, "sys"@]);
        assert(name_views(r.exempt@)[0] == r.new_root_name@);
        assert(name_views(r.exempt@)[1] == r.holding_path@);
    }
    r
}

/// The lean variant: the new root is named relative to the working
/// directory, nothing is preserved, no recovery directory exists, and
/// the root is left read-write before the reboot.
pub fn lean_plan() -> (r: Plan)
    ensures
        r.wf(),
        r.new_root_path@ == "new_root"@,
        r.new_root_name@ == "new_root"@,
        r.dev_path@ == "dev"@,
        r.holding_path@ == "old_dev"@,
        name_views(r.exempt@) =~= seq!["new_root"@, "old_dev"@],
        r.preserve@.len() == 0,
        name_views(r.detach@) =~= seq!["proc"@, "run"@, "sys"@],
        r.final_read_only == false,
        r.settle_secs == 3,
{
    let mut exempt: Vec<String> = Vec::new();
    exempt.push("new_root".to_owned());
    exempt.push("old_dev".to_owned());

    let preserve: Vec<PreserveMove> = Vec::new();

    let mut detach: Vec<String> = Vec::new();
    detach.push("proc".to_owned());
    detach.push("run".to_owned());
    detach.push("sys".to_owned());

    let r = Plan {
        new_root_path: "new_root".to_owned(),
        new_root_name: "new_root".to_owned(),
        dev_path: "dev".to_owned(),
        holding_path: "old_dev".to_owned(),
        exempt,
        preserve,
        detach,
        final_read_only: false,
        settle_secs: 3,
    };
    proof {
        assert(name_views(r.exempt@) =~= seq!["new_root"@, "old_dev"@]);
        assert(name_views(r.detach@) =~= seq!["proc"@, "run"@, "sys"@]);
        assert(name_views(r.exempt@)[0] == r.new_root_name@);
        assert(name_views(r.exempt@)[1] == r.holding_path@);
    }
    r
}

/// Whether `name` occurs among `names`; the executable counterpart of
/// `contains_name`.
pub fn contains_string(names: &Vec<String>, name: &String) -> (r: bool)
    ensures
        r == contains_name(name_views(names@), name@),
{
    let mut i: usize = 0;
    while i < names.len()
        invariant
            0 <= i <= names@.len(),
            forall|j: int| 0 <= j < i ==> name_views(names@)[j] != name@,
        decreases names@.len() - i,
    {
        if names[i] == *name {
            proof {
                assert(name_views(names@)[i as int] == name@);
            }
            return true;
        }
        i += 1;
    }
    false
}

} // verus!
