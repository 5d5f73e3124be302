//! A wrapper that reports when the wrapped value is moved after it was pinned and
//! mutably accessed.
mod assert_unmoved;
mod laws;
mod macro_format;

pub use crate::assert_unmoved::{
    drop_check, moved_message, pinned_access, unpinned_access, AssertUnmoved, Moved,
};

pub use crate::laws::{
    drop_after_move_fails, first_pinned_access_succeeds, never_pinned_never_moved,
    no_drop_failure_while_panicking, pinned_access_after_move_fails,
    pinned_access_in_place_succeeds,
};

pub use crate::macro_format::{format_macros, formatted, formatted_from};
