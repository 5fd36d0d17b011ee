//! Menu-event routing.
//!
//! A clicked menu-item identifier maps to a lifecycle action: the fixed quit
//! identifier starts the safe-quit sequence, the fixed show-window identifier
//! shows the main window, the non-clickable placeholders are ignored, and any
//! other identifier is forwarded as an opaque payload to the UI boundary.
//! Tray-icon events route through the same action type: a double click shows
//! the main window; a single click leaves the menu to the OS.

use crate::text::str_eq;
use crate::text::str_starts_with;
use vstd::prelude::*;

verus! {

/// The notification event that carries a forwarded dynamic-item identifier
/// to the UI boundary.
pub const DYNAMIC_ITEM_EVENT: &'static str = "dynamic-item-activated";

/// The lifecycle action a routed identifier or tray event calls for.
#[derive(PartialEq, Eq, Structural, Clone, Copy, Debug)]
pub enum RouteAction {
    /// Start the safe-quit sequence, asynchronously.
    StartQuit,
    /// Apply the show transition to the canonical main window.
    ShowMainWindow,
    /// Do nothing: the identifier names a non-clickable entry.
    Ignore,
    /// Emit the identifier as an opaque payload to the UI boundary.
    ForwardToUi,
}

/// An event reported by the tray icon itself.
#[derive(PartialEq, Eq, Structural, Clone, Copy, Debug)]
pub enum TrayIconActivation {
    /// A single click: the OS shows the menu; no action of ours.
    Click,
    /// A double click: show the main window.
    DoubleClick,
    /// Any other tray event.
    Other,
}

/// Whether `id` names a non-clickable entry: the section header, or any
/// placeholder identifier (they carry the `no-` prefix).
pub open spec fn is_noop_id(id: Seq<char>) -> bool {
    id == "recent-title"@ || (id.len() >= 3 && id.subrange(0, 3) == "no-"@)
}

/// Where a clicked identifier routes, checked in dispatch order.
pub open spec fn route_of(id: Seq<char>) -> RouteAction {
    if id == "quit"@ {
        RouteAction::StartQuit
    } else if id == "show-window"@ {
        RouteAction::ShowMainWindow
    } else if is_noop_id(id) {
        RouteAction::Ignore
    } else {
        RouteAction::ForwardToUi
    }
}

/// Routes a clicked menu-item identifier to its lifecycle action.
pub fn route(id: &str) -> (r: RouteAction)
    ensures
        r == route_of(id@),
{
    proof {
        reveal_strlit("no-");
    }
    if str_eq(id, "quit") {
        RouteAction::StartQuit
    } else if str_eq(id, "show-window") {
        RouteAction::ShowMainWindow
    } else if str_eq(id, "recent-title") || str_starts_with(id, "no-") {
        RouteAction::Ignore
    } else {
        RouteAction::ForwardToUi
    }
}

/// The action a tray-icon event calls for.
pub open spec fn tray_action_of(ev: TrayIconActivation) -> RouteAction {
    match ev {
        TrayIconActivation::DoubleClick => RouteAction::ShowMainWindow,
        _ => RouteAction::Ignore,
    }
}

/// Routes a tray-icon event: a double click shows the main window; a single
/// click and every other event are left to the OS.
pub fn on_tray_activation(ev: TrayIconActivation) -> (r: RouteAction)
    ensures
        r == tray_action_of(ev),
{
    match ev {
        TrayIconActivation::DoubleClick => RouteAction::ShowMainWindow,
        TrayIconActivation::Click => RouteAction::Ignore,
        TrayIconActivation::Other => RouteAction::Ignore,
    }
}

/// Law: a tray double click and a routed show-window identifier call for the
/// same action, showing the main window.
pub proof fn lemma_double_click_routes_as_show_window()
    ensures
        tray_action_of(TrayIconActivation::DoubleClick) == route_of("show-window"@),
        route_of("show-window"@) == RouteAction::ShowMainWindow,
{
    reveal_strlit("show-window");
    reveal_strlit("quit");
    assert("show-window"@.len() == 11 && "quit"@.len() == 4);
}

} // verus!
