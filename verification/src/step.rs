use vstd::prelude::*;

verus! {

/// Classification of a directory entry, as the purge step needs it: a
/// regular file, a directory, or anything else (a device node, a
/// symbolic link, a socket, ...). The procedure refuses to touch the
/// last kind: meeting one means an assumption about the root's layout
/// was wrong.
#[derive(Clone, Copy, Debug)]
pub enum EntryKind {
    File,
    Directory,
    Other,
}

/// One entry of a directory listing: its name (not a full path) and
/// its classification.
#[derive(Debug)]
pub struct Entry {
    pub name: String,
    pub kind: EntryKind,
}

/// One request to the kernel or to the filesystem. Paths are
/// interpreted by the executor against the process's current root,
/// exactly as the step builders produced them.
#[derive(Debug)]
pub enum Action {
    /// Remount the filesystem mounted at the root path in place, with
    /// the given, already composed, flag word.
    RemountRoot { flags: u32 },
    /// Detach the filesystem mounted at `path`; best-effort, since an
    /// optional pseudo-filesystem may not be mounted at all.
    Unmount { path: String },
    /// Atomically relocate the mount point at `from` to `to`.
    MoveMount { from: String, to: String },
    /// Create the directory `path`.
    CreateDir { path: String },
    /// Rename `from` to `to`.
    Rename { from: String, to: String },
    /// Unlink the regular file `path`.
    DeleteFile { path: String },
    /// Delete the directory `path` and everything beneath it.
    DeleteTree { path: String },
    /// Remove the directory `path`, which must be empty by then.
    RemoveDir { path: String },
    /// Flush all pending filesystem writes to the underlying devices.
    Sync,
    /// Pause for the given number of seconds.
    Pause { secs: u64 },
    /// Issue the cold-restart request; it does not return on success.
    Reboot,
}

/// What a failure of a step means for the rest of the run.
#[derive(Debug)]
pub enum Policy {
    /// Log the failure, pause for `pause_secs` seconds when that is
    /// nonzero, and go on with the next step.
    Advisory { pause_secs: u64 },
    /// Stop the whole process at once: the system may already be half
    /// transformed, and going on could make it unbootable.
    Fatal,
}

/// One step of the pipeline: an action together with its failure
/// policy.
#[derive(Debug)]
pub struct Step {
    pub action: Action,
    pub policy: Policy,
}

} // verus!
