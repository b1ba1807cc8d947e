//! Shared states, events and the boundaries the input method is built on.

use vstd::prelude::*;
use crate::text::str_eq;

verus! {

/// Overall state shown by the tray icon.
#[derive(Debug, Clone, Copy, PartialEq, Eq, Structural)]
pub enum Status {
    Idle,
    Recording,
    Transcribing,
    Polishing,
    Paused,
}

/// Feedback sounds.
#[derive(Debug, Clone, Copy, PartialEq, Eq, Structural)]
pub enum SoundEvent {
    Start,
    Stop,
    Cancel,
}

/// Recording channel: dictation (transcribe, polish, paste) or voice rewrite
/// (selection + spoken instruction, rewritten by the LLM in place).
#[derive(Debug, Clone, Copy, PartialEq, Eq, Structural)]
pub enum Channel {
    Dictate,
    Rewrite,
}

/// Result of the macOS privacy self-check; always granted on Windows.
#[derive(Debug, Clone, Copy, PartialEq, Eq, Structural)]
pub struct Permissions {
    pub input_monitoring: bool,
    pub accessibility: bool,
}

impl Permissions {
    pub fn all_granted(&self) -> (r: bool)
        ensures
            r == (self.input_monitoring && self.accessibility),
    {
        self.input_monitoring && self.accessibility
    }
}

/// Anchors of the system privacy settings panes.
#[derive(Debug, Clone, Copy, PartialEq, Eq, Structural)]
pub enum PrivacySection {
    InputMonitoring,
    Accessibility,
    Microphone,
}

pub open spec fn section_from_name(s: Seq<char>) -> Option<PrivacySection> {
    if s == "input_monitoring"@ {
        Some(PrivacySection::InputMonitoring)
    } else if s == "accessibility"@ {
        Some(PrivacySection::Accessibility)
    } else if s == "microphone"@ {
        Some(PrivacySection::Microphone)
    } else {
        None
    }
}

/// Reads a privacy pane name as used by the menu and the settings page.
pub fn parse_section(section: &str) -> (r: Option<PrivacySection>)
    ensures
        r == section_from_name(section@),
{
    if str_eq(section, "input_monitoring") {
        Some(PrivacySection::InputMonitoring)
    } else if str_eq(section, "accessibility") {
        Some(PrivacySection::Accessibility)
    } else if str_eq(section, "microphone") {
        Some(PrivacySection::Microphone)
    } else {
        None
    }
}

/// Frontmost application: display name and identifier (bundle id on macOS,
/// executable name without extension on Windows).
#[derive(Debug, Clone, PartialEq, Eq)]
pub struct FrontmostApp {
    pub name: String,
    pub id: String,
}

/// Status and notification callbacks, implemented by the UI layer.
pub trait Events {
    fn status(&self, status: Status);
    fn notify(&self, title: &str, message: &str);
    /// The first keyboard event ever received (input monitoring probe).
    fn first_key_event(&self);
}

/// LLM polishing / rewriting, implemented by the HTTP client. Failures give
/// `None` and the caller keeps the original text.
pub trait Polish {
    /// The `polish.enabled` switch.
    fn enabled(&self) -> bool;
    /// Whether the provider configuration is usable.
    fn configured(&self) -> bool;
    fn polish(&self, text: &str, style: Option<&str>) -> Option<String>;
    fn rewrite(&self, selection: &str, instruction: &str) -> Option<String>;
}

/// HUD that shows nothing (tests and headless runs).
#[derive(Debug, Default, Clone, Copy)]
pub struct NoopHud;

/// Events sink that ignores everything (tests and headless runs).
#[derive(Debug, Default, Clone, Copy)]
pub struct NoopEvents;

impl Events for NoopEvents {
    fn status(&self, status: Status) {
    }

    fn notify(&self, title: &str, message: &str) {
    }

    fn first_key_event(&self) {
    }
}

} // verus!
