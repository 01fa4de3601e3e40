use vstd::prelude::*;

verus! {

/// Kernel mount flag: the filesystem is (re)mounted read-only.
pub const MS_RDONLY: u32 = 1;

/// Kernel mount flag: alter the flags of an existing mount in place
/// instead of mounting something new.
pub const MS_REMOUNT: u32 = 32;

/// Kernel mount flag: atomically relocate an existing mount point to a
/// new path.
pub const MS_MOVE: u32 = 8192;

/// First magic identification constant the kernel demands of a reboot
/// request.
pub const REBOOT_MAGIC1: u32 = 0xfee1dead;

/// Second magic identification constant the kernel demands of a reboot
/// request.
pub const REBOOT_MAGIC2: u32 = 672274793;

/// Reboot command code requesting a cold restart.
pub const REBOOT_CMD_RESTART: u32 = 0x1234567;

/// The flag word handed to the kernel when the root filesystem is
/// remounted in place: the remount bit is always present, combined
/// with whatever extra option bits the caller asks for.
pub open spec fn spec_remount_flags(extra: u32) -> u32 {
    MS_REMOUNT | extra
}

/// Compose the flag word for an in-place remount of the root
/// filesystem from the caller's extra option bits.
pub fn remount_flags(extra: u32) -> (r: u32)
    ensures
        r == spec_remount_flags(extra),
{
    MS_REMOUNT | extra
}

/// Model of the root mount's state, so far as this procedure observes
/// it: the option bits that the most recent remount established. A
/// remount replaces the mount's option bits wholesale with the bits it
/// carries, so the state after a remount does not depend on the state
/// before it.
pub open spec fn apply_remount(state: u32, extra: u32) -> u32 {
    extra
}

/// Remounting is idempotent: issuing the remount request twice with
/// identical flags leaves the mount in the same state as issuing it
/// once.
pub proof fn lemma_remount_idempotent(state: u32, extra: u32)
    ensures
        apply_remount(apply_remount(state, extra), extra) == apply_remount(state, extra),
{
}

} // verus!
