//! On-demand commands the UI boundary can invoke.
//!
//! Paste injection and the permission probe are one capability each with a
//! platform-specific strategy chosen here; the host then performs the chosen
//! OS call.  A platform without a settings deep-link reports that opening
//! the settings is not supported rather than failing silently.

use vstd::prelude::*;
use vstd::string::StringExecFns;

verus! {

/// The platform the shell runs on.
#[derive(PartialEq, Eq, Structural, Clone, Copy, Debug)]
pub enum Platform {
    Windows,
    MacOs,
    Linux,
}

/// How the paste keystroke is synthesized.
#[derive(PartialEq, Eq, Structural, Clone, Copy, Debug)]
pub enum PasteStrategy {
    /// Synthesize Ctrl+V through the input-injection library.
    InjectControlV,
    /// Spawn the scripting bridge to press Cmd+V.
    ScriptCommandV,
}

/// How input-injection permission is probed.
#[derive(PartialEq, Eq, Structural, Clone, Copy, Debug)]
pub enum PermissionProbe {
    /// Run the accessibility probe command and report its success.
    RunAccessibilityProbe,
    /// No probe exists on this platform: report permission as granted.
    AssumeGranted,
}

/// The permission-settings surface a platform can open.
#[derive(PartialEq, Eq, Structural, Clone, Copy, Debug)]
pub enum SettingsTarget {
    /// The accessibility privacy pane.
    AccessibilityPane,
    /// The keyboard ease-of-access page.
    KeyboardAccessPage,
}

/// A command failure, surfaced to the caller as a message.
#[derive(PartialEq, Eq, Structural, Clone, Copy, Debug)]
pub enum CommandError {
    /// The platform has no way to open its permission settings.
    SettingsNotSupported,
}

impl CommandError {
    /// A human-readable message for the failure.
    pub fn message(&self) -> (m: &'static str)
        ensures
            m@ == "opening the system settings is not supported on this platform"@,
    {
        match self {
            CommandError::SettingsNotSupported => {
                "opening the system settings is not supported on this platform"
            },
        }
    }
}

/// Chooses the paste strategy: the scripting bridge on macOS, direct
/// injection of Ctrl+V elsewhere.
pub fn paste_strategy(p: Platform) -> (r: PasteStrategy)
    ensures
        p == Platform::MacOs ==> r == PasteStrategy::ScriptCommandV,
        p != Platform::MacOs ==> r == PasteStrategy::InjectControlV,
{
    match p {
        Platform::MacOs => PasteStrategy::ScriptCommandV,
        Platform::Windows => PasteStrategy::InjectControlV,
        Platform::Linux => PasteStrategy::InjectControlV,
    }
}

/// Chooses the permission probe: only macOS has one; every other platform
/// reports permission as granted.
pub fn permission_probe(p: Platform) -> (r: PermissionProbe)
    ensures
        p == Platform::MacOs ==> r == PermissionProbe::RunAccessibilityProbe,
        p != Platform::MacOs ==> r == PermissionProbe::AssumeGranted,
{
    match p {
        Platform::MacOs => PermissionProbe::RunAccessibilityProbe,
        Platform::Windows => PermissionProbe::AssumeGranted,
        Platform::Linux => PermissionProbe::AssumeGranted,
    }
}

/// Chooses the permission-settings surface to open: the accessibility pane
/// on macOS, the keyboard access page on Windows; no supported surface
/// elsewhere, reported as an error.
pub fn settings_target(p: Platform) -> (r: Result<SettingsTarget, CommandError>)
    ensures
        p == Platform::MacOs ==> r == Ok::<SettingsTarget, CommandError>(
            SettingsTarget::AccessibilityPane,
        ),
        p == Platform::Windows ==> r == Ok::<SettingsTarget, CommandError>(
            SettingsTarget::KeyboardAccessPage,
        ),
        p == Platform::Linux ==> r == Err::<SettingsTarget, CommandError>(
            CommandError::SettingsNotSupported,
        ),
{
    match p {
        Platform::MacOs => Ok(SettingsTarget::AccessibilityPane),
        Platform::Windows => Ok(SettingsTarget::KeyboardAccessPage),
        Platform::Linux => Err(CommandError::SettingsNotSupported),
    }
}

/// The greeting the demo command returns for `name`.
pub fn greet(name: &str) -> (r: String)
    ensures
        r@ == "Hello, "@ + name@ + "! You've been greeted from Rust!"@,
{
    let mut s = String::from_str("Hello, ");
    s.append(name);
    s.append("! You've been greeted from Rust!");
    s
}

} // verus!
