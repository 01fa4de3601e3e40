//! Final step of a Linux boot sequence: switch from a temporary
//! initial root filesystem to the real one without re-executing the
//! kernel. The library plans the whole transition — remount the root
//! read-write, preserve the files backing the running process, detach
//! transient pseudo-filesystems, relocate the device filesystem, purge
//! the old root, splice the new root's contents into place, restore
//! the device filesystem, remount read-only, flush and reboot — as an
//! ordered list of steps, each tagged advisory or fatal, for a thin
//! unverified executor to carry out.

pub mod flags;
pub mod model;
pub mod pipeline;
pub mod plan;
pub mod step;
