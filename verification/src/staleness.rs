//! Dependency-staleness detection: whether an install step is required,
//! decided from the install mode and the modification times of the lock
//! artifact and the installed-dependencies directory. The unverified shell
//! reads the filesystem metadata; a metadata read that fails is surfaced by
//! the shell as a configuration error and never reaches this decision.

use vstd::prelude::*;
use crate::text::{ci_eq_seq, eq_ci, trim_spec, trim_str};

verus! {

/// Whether the trimmed install-mode value names `word`, case-insensitively.
pub open spec fn mode_is(mode: Seq<char>, word: Seq<char>) -> bool {
    ci_eq_seq(trim_spec(mode), word)
}

/// Whether an install step is required. `never` and `always` decide alone;
/// any other mode compares filesystem state: an absent dependency directory
/// (`nm_mtime` is `None`) means a first run, and an existing lock artifact
/// newer than the directory means the installed dependencies are stale.
pub open spec fn needs_install_spec(
    mode: Seq<char>,
    nm_mtime: Option<u64>,
    lock_mtime: Option<u64>,
) -> bool {
    if mode_is(mode, "never"@) {
        false
    } else if mode_is(mode, "always"@) {
        true
    } else {
        match nm_mtime {
            None => true,
            Some(n) => match lock_mtime {
                Some(l) => l > n,
                None => false,
            },
        }
    }
}

/// Decides whether the install step must run. Modification times are given
/// as nanoseconds since the epoch; `None` means the file is absent.
pub fn should_npm_install(
    mode: &str,
    nm_mtime: Option<u64>,
    lock_mtime: Option<u64>,
) -> (r: bool)
    ensures
        r == needs_install_spec(mode@, nm_mtime, lock_mtime),
{
    let t = trim_str(mode);
    if eq_ci(t, "never") {
        false
    } else if eq_ci(t, "always") {
        true
    } else {
        match nm_mtime {
            None => true,
            Some(n) => match lock_mtime {
                Some(l) => l > n,
                None => false,
            },
        }
    }
}

/// The modes `never` and `always` decide the outcome by themselves: `never`
/// yields false and `always` yields true, whatever the filesystem state.
pub proof fn lemma_mode_overrides_fs(
    mode: Seq<char>,
    nm_mtime: Option<u64>,
    lock_mtime: Option<u64>,
)
    ensures
        mode_is(mode, "never"@) ==> !needs_install_spec(mode, nm_mtime, lock_mtime),
        mode_is(mode, "always"@) ==> needs_install_spec(mode, nm_mtime, lock_mtime),
{
    reveal_strlit("never");
    reveal_strlit("always");
}

/// In any mode other than `never` and `always`: an absent dependency
/// directory forces an install; with both timestamps present the result is
/// exactly "lock newer than directory" (so touching the lock after an
/// install flips staleness back on); a missing lock with an existing
/// directory requires nothing.
pub proof fn lemma_auto_staleness(
    mode: Seq<char>,
    nm_mtime: Option<u64>,
    lock_mtime: Option<u64>,
)
    requires
        !mode_is(mode, "never"@),
        !mode_is(mode, "always"@),
    ensures
        match nm_mtime {
            None => needs_install_spec(mode, nm_mtime, lock_mtime),
            Some(n) => match lock_mtime {
                Some(l) => needs_install_spec(mode, nm_mtime, lock_mtime) == (l > n),
                None => !needs_install_spec(mode, nm_mtime, lock_mtime),
            },
        },
{
}

} // verus!
