use vstd::prelude::*;

use crate::error::Error;

verus! {

broadcast use vstd::std_specs::hash::group_hash_axioms;

/// The theme of a window's menu bar.
#[derive(Debug, Clone, Copy, PartialEq, Eq, PartialOrd, Ord, Structural)]
pub enum MenuTheme {
    Dark,
    Light,
    Auto,
}

/// The state of a menu on one window it is attached to.
#[derive(Debug, Clone, Copy, PartialEq, Eq, Structural)]
pub struct Attachment {
    /// The theme of the menu bar.
    pub theme: MenuTheme,
    /// Whether the menu bar is shown.
    pub visible: bool,
}

/// The life of one attachment: once `hwnd` is attached, attaching it again finds it
/// attached (and so fails with [`Error::AlreadyInitialized`]); once it is detached, the
/// operations on it find it missing (and so fail with [`Error::NotInitialized`]).
pub proof fn lemma_attachment_lifecycle(windows: Map<isize, Attachment>, hwnd: isize, state: Attachment)
    ensures
        windows.insert(hwnd, state).contains_key(hwnd),
        !windows.insert(hwnd, state).remove(hwnd).contains_key(hwnd),
        !windows.remove(hwnd).contains_key(hwnd),
{
}

} // verus!
