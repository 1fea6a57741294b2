//! The application's main loop decisions: what each incoming event does
//! to the configuration and which action it asks for, and what the
//! one-shot overlay shows.
use vstd::prelude::*;
use crate::config::AppConfig;
use crate::hotkey::HotkeyAction;
use crate::translate::{error_message, TranslateError};
use crate::tray::TrayEvent;

verus! {

/// An event of the main loop, from the shortcut or the tray.
#[derive(Debug, Clone, Copy, PartialEq, Eq, Structural)]
pub enum AppEvent {
    CaptureRegion,
    ToggleMode,
    OpenSettings,
    Quit,
}

/// What the main loop does next.
#[derive(Debug, Clone, Copy, PartialEq, Eq, Structural)]
pub enum AppAction {
    /// Let the user select a region and translate it in the current mode.
    Capture,
    /// Write the configuration back to its file.
    SaveConfig,
    /// Open the settings window.
    ShowSettings,
    /// Leave the main loop.
    Exit,
}

/// The event a shortcut action stands for.
pub fn app_event_from_hotkey(action: HotkeyAction) -> (r: AppEvent)
    ensures
        r == AppEvent::CaptureRegion,
{
    match action {
        HotkeyAction::CaptureRegion => AppEvent::CaptureRegion,
    }
}

/// The event a tray menu choice stands for.
pub fn app_event_from_tray(event: TrayEvent) -> (r: AppEvent)
    ensures
        r == match event {
            TrayEvent::Capture => AppEvent::CaptureRegion,
            TrayEvent::ToggleMode => AppEvent::ToggleMode,
            TrayEvent::OpenConfig => AppEvent::OpenSettings,
            TrayEvent::Quit => AppEvent::Quit,
        },
{
    match event {
        TrayEvent::Capture => AppEvent::CaptureRegion,
        TrayEvent::ToggleMode => AppEvent::ToggleMode,
        TrayEvent::OpenConfig => AppEvent::OpenSettings,
        TrayEvent::Quit => AppEvent::Quit,
    }
}

/// Handles the next event of the main loop (`None` when the event source
/// is gone). Only `ToggleMode` changes the configuration: it switches the
/// mode and asks for the configuration to be saved.
pub fn handle_app_event(config: &mut AppConfig, event: Option<AppEvent>) -> (r: AppAction)
    ensures
        match event {
            Some(AppEvent::ToggleMode) => {
                &&& r == AppAction::SaveConfig
                &&& final(config).mode == old(config).mode.toggled_spec()
                &&& *final(config) == AppConfig { mode: final(config).mode, ..*old(config) }
            },
            _ => {
                &&& *final(config) == *old(config)
                &&& r == match event {
                    Some(AppEvent::CaptureRegion) => AppAction::Capture,
                    Some(AppEvent::OpenSettings) => AppAction::ShowSettings,
                    _ => AppAction::Exit,
                }
            },
        },
{
    match event {
        Some(AppEvent::CaptureRegion) => AppAction::Capture,
        Some(AppEvent::ToggleMode) => {
            config.mode = config.mode.toggled();
            AppAction::SaveConfig
        },
        Some(AppEvent::OpenSettings) => AppAction::ShowSettings,
        Some(AppEvent::Quit) => AppAction::Exit,
        None => AppAction::Exit,
    }
}

/// An OCR text is translated only when it is not empty.
pub fn should_translate(text: &str) -> (r: bool)
    ensures
        r == (text@.len() > 0),
{
    !text.is_empty()
}

/// What the one-shot overlay shows: the translation, or the error in
/// brackets.
pub fn oneshot_overlay_text(result: Result<String, TranslateError>) -> (r: String)
    ensures
        match result {
            Ok(t) => r@ == t@,
            Err(e) => r@ == "[Translation error: "@ + error_message(e) + "]"@,
        },
{
    match result {
        Ok(t) => t,
        Err(e) => {
            let mut m = String::from_str("[Translation error: ");
            let msg = e.message();
            m.append(msg.as_str());
            m.append("]");
            m
        },
    }
}

} // verus!
