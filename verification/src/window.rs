//! Window-visibility control.
//!
//! The main window of the shell is always resident: a close request on it is
//! suppressed and merely hides the window, while close requests on any other
//! window keep their default behaviour.  The show transition — un-minimize,
//! show, focus — forces one fixed target state whatever the window was in
//! before.  Windows are modelled by their label and visibility state; the
//! host applies the decided transitions to the real OS windows.

use crate::text::str_eq;
use vstd::prelude::*;

verus! {

/// The label of the always-resident main window.
pub const MAIN_WINDOW_LABEL: &'static str = "main";

/// Visibility state of one window.
#[derive(PartialEq, Eq, Structural, Clone, Copy, Debug)]
pub struct VisibilityState {
    pub visible: bool,
    pub minimized: bool,
    pub focused: bool,
}

/// One window the shell knows: its label and its visibility state.
pub struct TrackedWindow {
    pub label: String,
    pub state: VisibilityState,
}

/// All windows of the process, in creation order.
pub struct WindowSet {
    pub windows: Vec<TrackedWindow>,
}

/// The state the show transition forces: visible, not minimized, focused.
pub open spec fn shown_state() -> VisibilityState {
    VisibilityState { visible: true, minimized: false, focused: true }
}

/// The state a suppressed close request forces: hidden, the rest unchanged.
pub open spec fn hidden_state(s: VisibilityState) -> VisibilityState {
    VisibilityState { visible: false, minimized: s.minimized, focused: s.focused }
}

/// The window list after the show transition on every window carrying
/// `label`: those windows reach [`shown_state`], the others are untouched.
pub open spec fn after_show(ws: Seq<TrackedWindow>, label: Seq<char>) -> Seq<TrackedWindow> {
    ws.map(
        |i: int, w: TrackedWindow|
            if w.label@ == label {
                TrackedWindow { label: w.label, state: shown_state() }
            } else {
                w
            },
    )
}

/// The window list after a suppressed close request: every main window is
/// hidden, the others are untouched.
pub open spec fn after_hide_main(ws: Seq<TrackedWindow>) -> Seq<TrackedWindow> {
    ws.map(
        |i: int, w: TrackedWindow|
            if w.label@ == "main"@ {
                TrackedWindow { label: w.label, state: hidden_state(w.state) }
            } else {
                w
            },
    )
}

impl WindowSet {
    /// A set with no windows yet.
    pub fn new() -> (r: WindowSet)
        ensures
            r.windows@.len() == 0,
    {
        WindowSet { windows: Vec::new() }
    }

    /// Whether some window carries `label`.
    pub open spec fn has_window(self, label: Seq<char>) -> bool {
        exists|i: int| 0 <= i < self.windows@.len() && self.windows@[i].label@ == label
    }

    /// Registers a window under `label` in the given state.
    pub fn add_window(&mut self, label: String, state: VisibilityState)
        ensures
            final(self).windows@ == old(self).windows@.push(TrackedWindow { label, state }),
    {
        self.windows.push(TrackedWindow { label, state });
    }

    /// Decides a close request on the window labelled `label`.
    ///
    /// For the main window the default close is suppressed and the window is
    /// hidden; for any other label nothing is touched and the default
    /// behaviour stands.  The window count never changes either way.
    pub fn on_close_requested(&mut self, label: &str) -> (suppress: bool)
        ensures
            final(self).windows@.len() == old(self).windows@.len(),
            suppress == (label@ == "main"@ && old(self).has_window("main"@)),
            !suppress ==> *final(self) == *old(self),
            suppress ==> final(self).windows@ == after_hide_main(old(self).windows@),
    {
        if !str_eq(label, MAIN_WINDOW_LABEL) {
            return false;
        }
        let mut i: usize = 0;
        let mut found = false;
        while i < self.windows.len()
            invariant
                i <= self.windows@.len(),
                self.windows@.len() == old(self).windows@.len(),
                found == exists|j: int| 0 <= j < i && old(self).windows@[j].label@ == "main"@,
                !found ==> self.windows == old(self).windows,
                forall|j: int|
                    0 <= j < old(self).windows@.len() ==> #[trigger] self.windows@[j] == (if j < i
                        && old(self).windows@[j].label@ == "main"@ {
                        TrackedWindow {
                            label: old(self).windows@[j].label,
                            state: hidden_state(old(self).windows@[j].state),
                        }
                    } else {
                        old(self).windows@[j]
                    }),
            decreases self.windows@.len() - i,
        {
            if str_eq(self.windows[i].label.as_str(), MAIN_WINDOW_LABEL) {
                let entry = self.windows.remove(i);
                self.windows.insert(
                    i,
                    TrackedWindow { label: entry.label, state: hidden_state_of(&entry.state) },
                );
                proof {
                    assert(old(self).windows@[i as int].label@ == "main"@);
                }
                found = true;
            }
            i += 1;
        }
        if found {
            proof {
                assert(self.windows@ =~= after_hide_main(old(self).windows@));
            }
        } else {
            proof {
                assert(self.windows@ =~= old(self).windows@);
            }
        }
        found
    }

    /// Applies the show transition — un-minimize, show, focus — to every
    /// window labelled `label`; reports whether one was there.
    pub fn show(&mut self, label: &str) -> (found: bool)
        ensures
            final(self).windows@ == after_show(old(self).windows@, label@),
            final(self).windows@.len() == old(self).windows@.len(),
            found == old(self).has_window(label@),
    {
        let mut i: usize = 0;
        let mut found = false;
        while i < self.windows.len()
            invariant
                i <= self.windows@.len(),
                self.windows@.len() == old(self).windows@.len(),
                found == exists|j: int| 0 <= j < i && old(self).windows@[j].label@ == label@,
                forall|j: int|
                    0 <= j < old(self).windows@.len() ==> #[trigger] self.windows@[j] == (if j < i
                        && old(self).windows@[j].label@ == label@ {
                        TrackedWindow {
                            label: old(self).windows@[j].label,
                            state: shown_state(),
                        }
                    } else {
                        old(self).windows@[j]
                    }),
            decreases self.windows@.len() - i,
        {
            if str_eq(self.windows[i].label.as_str(), label) {
                let entry = self.windows.remove(i);
                self.windows.insert(
                    i,
                    TrackedWindow {
                        label: entry.label,
                        state: VisibilityState { visible: true, minimized: false, focused: true },
                    },
                );
                proof {
                    assert(old(self).windows@[i as int].label@ == label@);
                }
                found = true;
            }
            i += 1;
        }
        proof {
            assert(self.windows@ =~= after_show(old(self).windows@, label@));
        }
        found
    }
}

/// The hidden state, computed: visible off, the rest kept.
fn hidden_state_of(s: &VisibilityState) -> (r: VisibilityState)
    ensures
        r == hidden_state(*s),
{
    VisibilityState { visible: false, minimized: s.minimized, focused: s.focused }
}

/// Law: a close request on the main window never changes the window count
/// and sets the main window invisible, all other windows untouched.
pub proof fn lemma_close_hides_main(ws: Seq<TrackedWindow>)
    ensures
        after_hide_main(ws).len() == ws.len(),
        forall|i: int|
            0 <= i < ws.len() && ws[i].label@ == "main"@ ==> (#[trigger] after_hide_main(
                ws,
            )[i]).state.visible == false && after_hide_main(ws)[i].label == ws[i].label,
        forall|i: int|
            0 <= i < ws.len() && ws[i].label@ != "main"@ ==> #[trigger] after_hide_main(ws)[i]
                == ws[i],
{
}

/// Law: the show transition converges — every window carrying the label ends
/// {visible, not minimized, focused} whatever it was in before, and a second
/// application (a repeated tray double activation, or a show-window route
/// after it) changes nothing further.
pub proof fn lemma_show_converges(ws: Seq<TrackedWindow>, label: Seq<char>)
    ensures
        forall|i: int|
            0 <= i < ws.len() && ws[i].label@ == label ==> #[trigger] after_show(ws, label)[i].state
                == shown_state(),
        forall|i: int|
            0 <= i < ws.len() && ws[i].label@ != label ==> #[trigger] after_show(ws, label)[i]
                == ws[i],
        after_show(after_show(ws, label), label) == after_show(ws, label),
{
    assert(after_show(after_show(ws, label), label) =~= after_show(ws, label));
}

} // verus!
