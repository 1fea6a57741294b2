//! Screen-region translation helper: the verified core.
pub mod text;
pub mod config;
pub mod diff;
pub mod live;
pub mod selector;
pub mod settings;
pub mod translate;
pub mod capture;
pub mod ocr;
pub mod overlay;
pub mod tray;
pub mod hotkey;
pub mod events;
