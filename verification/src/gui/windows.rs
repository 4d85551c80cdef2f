//! The application's extra windows: how many are open, the one Settings
//! and one About window, and when a picker that lost focus goes away.

use vstd::prelude::*;

verus! {

/// A window opened beside the main one.
#[derive(Clone, Copy, Debug, PartialEq, Eq, Structural)]
pub enum AuxiliaryKind {
    Settings,
    About,
    /// A picker opened by the daemon.
    Picker,
}

/// The application's bookkeeping of its extra windows.
#[derive(Clone, Copy, Debug, PartialEq, Eq, Structural)]
pub struct AuxiliaryWindows {
    /// How many extra windows are open (counted as the toolkit's atomic
    /// counter does, wrapping around).
    pub open: usize,
    /// A Settings window is known.
    pub settings: bool,
    /// An About window is known.
    pub about: bool,
}

/// The count after one more window opens.
pub open spec fn count_after_open(count: usize) -> usize {
    if count == usize::MAX { 0 } else { (count + 1) as usize }
}

/// The count after a window closes, or after opening one failed.
pub open spec fn count_after_close(count: usize) -> usize {
    if count == 0 { usize::MAX } else { (count - 1) as usize }
}

/// Whether a window of a single-window kind is known.
pub open spec fn known(w: AuxiliaryWindows, kind: AuxiliaryKind) -> bool {
    match kind {
        AuxiliaryKind::Settings => w.settings,
        AuxiliaryKind::About => w.about,
        AuxiliaryKind::Picker => false,
    }
}

impl AuxiliaryWindows {
    /// No extra windows.
    pub fn new() -> (r: Self)
        ensures
            r == (AuxiliaryWindows { open: 0, settings: false, about: false }),
    {
        AuxiliaryWindows { open: 0, settings: false, about: false }
    }

    /// Asking for the Settings or About window: when one is known and
    /// activating it succeeded (`activated`), nothing more is done and
    /// false is returned; otherwise the stale window is forgotten and true
    /// is returned: a new one is to be opened.
    pub fn needs_new_window(&mut self, kind: AuxiliaryKind, activated: bool) -> (open_new: bool)
        ensures
            open_new == !(known(*old(self), kind) && activated),
            open_new ==> !known(*final(self), kind),
            !open_new ==> *final(self) == *old(self),
            final(self).open == old(self).open,
            kind != AuxiliaryKind::Settings ==> final(self).settings == old(self).settings,
            kind != AuxiliaryKind::About ==> final(self).about == old(self).about,
    {
        match kind {
            AuxiliaryKind::Settings => {
                if self.settings && activated {
                    return false;
                }
                self.settings = false;
                true
            },
            AuxiliaryKind::About => {
                if self.about && activated {
                    return false;
                }
                self.about = false;
                true
            },
            AuxiliaryKind::Picker => true,
        }
    }

    /// A window is about to be opened: it is counted at once.
    pub fn begin_open(&mut self)
        ensures
            *final(self) == (AuxiliaryWindows { open: count_after_open(old(self).open), ..*old(self) }),
    {
        self.open = if self.open == usize::MAX { 0 } else { self.open + 1 };
    }

    /// The window opened: a Settings or About window is now known.
    pub fn opened(&mut self, kind: AuxiliaryKind)
        ensures
            final(self).open == old(self).open,
            final(self).settings == (old(self).settings || kind == AuxiliaryKind::Settings),
            final(self).about == (old(self).about || kind == AuxiliaryKind::About),
    {
        match kind {
            AuxiliaryKind::Settings => self.settings = true,
            AuxiliaryKind::About => self.about = true,
            AuxiliaryKind::Picker => {},
        }
    }

    /// Opening the window failed: it is no longer counted.
    pub fn open_failed(&mut self)
        ensures
            *final(self) == (AuxiliaryWindows { open: count_after_close(old(self).open), ..*old(self) }),
    {
        self.open = if self.open == 0 { usize::MAX } else { self.open - 1 };
    }

    /// An extra window closed.
    pub fn closed(&mut self)
        ensures
            *final(self) == (AuxiliaryWindows { open: count_after_close(old(self).open), ..*old(self) }),
    {
        self.open = if self.open == 0 { usize::MAX } else { self.open - 1 };
    }
}

/// Whether a picker that lost focus is dismissed: when it is visible, was
/// active before, the settings ask for it, and no other extra window is
/// open (a picker that is itself an extra window counts itself).
pub fn dismiss_on_focus_lost(
    picker_visible: bool,
    ever_activated: bool,
    quit_on_lost_focus: bool,
    windows: &AuxiliaryWindows,
    picker_is_auxiliary: bool,
) -> (r: bool)
    ensures
        r == (picker_visible && ever_activated && quit_on_lost_focus
            && windows.open <= (if picker_is_auxiliary { 1usize } else { 0usize })),
{
    let allowed: usize = if picker_is_auxiliary { 1 } else { 0 };
    picker_visible && ever_activated && windows.open <= allowed && quit_on_lost_focus
}

/// A window that failed to open leaves the count as it was.
pub proof fn failed_open_leaves_count(count: usize)
    ensures
        count_after_close(count_after_open(count)) == count,
{
}

} // verus!
