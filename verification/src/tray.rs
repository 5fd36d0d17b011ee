//! Tray-icon registry.
//!
//! The process owns at most one tray icon, registered under the stable
//! identifier `default`.  A menu update locates the icon by that identifier
//! and replaces its menu in place; if the icon is absent the update fails
//! with an error and creates nothing — recreating the icon would flash and
//! reset OS-level state.

use crate::menu::TrayMenuModel;
use crate::text::str_eq;
use vstd::prelude::*;

verus! {

/// The stable identifier of the process's one tray icon.
pub const DEFAULT_TRAY_ID: &'static str = "default";

/// A recoverable tray operation failure, surfaced to the caller.
#[derive(PartialEq, Eq, Structural, Clone, Copy, Debug)]
pub enum TrayError {
    /// No tray icon is registered under the given identifier.
    IconNotFound,
    /// A tray icon is already registered under the given identifier.
    IconAlreadyExists,
}

impl TrayError {
    /// A human-readable message for the failure.
    pub fn message(&self) -> (m: &'static str)
        ensures
            *self is IconNotFound ==> m@ == "tray icon not found"@,
            *self is IconAlreadyExists ==> m@ == "tray icon already exists"@,
    {
        match self {
            TrayError::IconNotFound => "tray icon not found",
            TrayError::IconAlreadyExists => "tray icon already exists",
        }
    }
}

/// One live tray icon: its stable identifier and its current menu.
pub struct TrayIconHandle {
    pub id: String,
    pub menu: TrayMenuModel,
}

/// The tray icons of the process, keyed by their stable identifiers.
pub struct TrayRegistry {
    pub icons: Vec<TrayIconHandle>,
}

impl TrayRegistry {
    /// Identifiers are unique across the registry.
    pub open spec fn wf(self) -> bool {
        forall|i: int, j: int|
            0 <= i < j < self.icons@.len() ==> self.icons@[i].id@ != self.icons@[j].id@
    }

    /// Whether an icon is registered under `id`.
    pub open spec fn has_icon(self, id: Seq<char>) -> bool {
        exists|i: int| 0 <= i < self.icons@.len() && self.icons@[i].id@ == id
    }

    /// A registry with no icon yet.
    pub fn new() -> (r: TrayRegistry)
        ensures
            r.wf(),
            r.icons@.len() == 0,
    {
        TrayRegistry { icons: Vec::new() }
    }

    /// Registers a new icon under `id` with its initial menu.  Fails, and
    /// registers nothing, if an icon already carries that identifier.
    pub fn create(&mut self, id: String, menu: TrayMenuModel) -> (r: Result<(), TrayError>)
        requires
            old(self).wf(),
        ensures
            final(self).wf(),
            r is Ok <==> !old(self).has_icon(id@),
            r is Err ==> *final(self) == *old(self) && r == Err::<(), TrayError>(
                TrayError::IconAlreadyExists,
            ),
            r is Ok ==> final(self).icons@.len() == old(self).icons@.len() + 1
                && final(self).icons@.last().id@ == id@ && final(self).icons@.last().menu == menu
                && forall|i: int|
                0 <= i < old(self).icons@.len() ==> #[trigger] final(self).icons@[i] == old(
                    self,
                ).icons@[i],
    {
        if self.contains(id.as_str()) {
            return Err(TrayError::IconAlreadyExists);
        }
        self.icons.push(TrayIconHandle { id, menu });
        Ok(())
    }

    /// Replaces the menu of the icon registered under `id`.  If no icon
    /// carries that identifier, fails with [`TrayError::IconNotFound`] and
    /// changes nothing: in particular it creates no icon, so the icon count
    /// never grows.
    pub fn update(&mut self, id: &str, menu: TrayMenuModel) -> (r: Result<(), TrayError>)
        requires
            old(self).wf(),
        ensures
            final(self).wf(),
            final(self).icons@.len() == old(self).icons@.len(),
            r is Ok <==> old(self).has_icon(id@),
            r is Err ==> *final(self) == *old(self) && r == Err::<(), TrayError>(
                TrayError::IconNotFound,
            ),
            forall|i: int|
                0 <= i < old(self).icons@.len() ==> #[trigger] final(self).icons@[i].id == old(
                    self,
                ).icons@[i].id,
            forall|i: int|
                0 <= i < old(self).icons@.len() && old(self).icons@[i].id@ != id@
                    ==> #[trigger] final(self).icons@[i] == old(self).icons@[i],
            forall|i: int|
                0 <= i < old(self).icons@.len() && old(self).icons@[i].id@ == id@ ==> (
                #[trigger] final(self).icons@[i]).menu == menu,
    {
        let mut i: usize = 0;
        while i < self.icons.len()
            invariant
                old(self).wf(),
                i <= self.icons@.len(),
                self.icons == old(self).icons,
                forall|j: int| 0 <= j < i ==> old(self).icons@[j].id@ != id@,
            decreases self.icons@.len() - i,
        {
            if str_eq(self.icons[i].id.as_str(), id) {
                let entry = self.icons.remove(i);
                self.icons.insert(i, TrayIconHandle { id: entry.id, menu });
                proof {
                    assert(self.icons@ =~= old(self).icons@.update(
                        i as int,
                        TrayIconHandle { id: old(self).icons@[i as int].id, menu },
                    ));
                }
                return Ok(());
            }
            i += 1;
        }
        Err(TrayError::IconNotFound)
    }

    /// Whether an icon is registered under `id`, as executable code.
    pub fn contains(&self, id: &str) -> (r: bool)
        ensures
            r == self.has_icon(id@),
    {
        let mut i: usize = 0;
        while i < self.icons.len()
            invariant
                i <= self.icons@.len(),
                forall|j: int| 0 <= j < i ==> self.icons@[j].id@ != id@,
            decreases self.icons@.len() - i,
        {
            if str_eq(self.icons[i].id.as_str(), id) {
                return true;
            }
            i += 1;
        }
        false
    }
}

} // verus!
