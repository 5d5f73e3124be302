use vstd::prelude::*;

use crate::assert_unmoved::{drop_check, pinned_access, unpinned_access, Moved};

verus! {

/// A guard that was never pinned is never reported moved: unpinned accesses
/// succeed wherever the guard lies (and leave it unpinned, see
/// `AssertUnmoved::get_mut_at`), and so does the drop check.
pub proof fn never_pinned_never_moved(panicking: bool)
    ensures
        forall|now: usize| #[trigger] unpinned_access(None, now) == Ok::<(), Moved>(()),
        forall|now: usize| #[trigger] drop_check(None, now, panicking) == Ok::<(), Moved>(()),
{
}

/// The first pinned access succeeds wherever the guard lies, and records that
/// address.
pub proof fn first_pinned_access_succeeds(now: usize)
    ensures
        pinned_access(None, now) == Ok::<usize, Moved>(now),
{
}

/// A pinned access that finds the guard where the previous successful one did
/// succeeds, and keeps the recorded address.
pub proof fn pinned_access_in_place_succeeds(pinned: Option<usize>, now: usize)
    requires
        pinned_access(pinned, now) is Ok,
    ensures
        pinned_access(Some(pinned_access(pinned, now)->Ok_0), now) == pinned_access(pinned, now),
{
}

/// A pinned access that finds the guard elsewhere than the previous successful
/// one did reports a move between pinned accesses.
pub proof fn pinned_access_after_move_fails(pinned: Option<usize>, first: usize, second: usize)
    requires
        pinned_access(pinned, first) is Ok,
        second != first,
    ensures
        pinned_access(Some(pinned_access(pinned, first)->Ok_0), second) == Err::<usize, Moved>(
            Moved::BetweenGetPinMutCalls,
        ),
{
}

/// A guard dropped elsewhere than where a successful pinned access found it is
/// reported moved before drop, unless the thread is already panicking.
pub proof fn drop_after_move_fails(pinned: Option<usize>, at_access: usize, at_drop: usize)
    requires
        pinned_access(pinned, at_access) is Ok,
        at_drop != at_access,
    ensures
        drop_check(Some(pinned_access(pinned, at_access)->Ok_0), at_drop, false) == Err::<
            (),
            Moved,
        >(Moved::BeforeDrop),
{
}

/// While the thread is already panicking the drop check never reports a move, so
/// that a second panic cannot abort the process.
pub proof fn no_drop_failure_while_panicking(pinned: Option<usize>, now: usize)
    ensures
        drop_check(pinned, now, true) == Ok::<(), Moved>(()),
{
}

} // verus!
