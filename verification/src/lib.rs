//! A verified localized-string engine with the UI components around it.
//!
//! The core resolves a translation key to the best available text: an
//! externally provisioned, flash-resident override store is scanned in
//! bounded windows for the record at the key's ordinal, and the compiled-in
//! default table answers whenever the store cannot (`store`, `translations`,
//! `encode`, `laws`).  Around it stand the touch components that request
//! such translations: buttons, confirm prompts, swipeable pages and the
//! flows between them.  Rendering and the hardware clock stay outside; the
//! components' state machines are verified here.

pub mod button;
pub mod component;
pub mod confirm_action;
pub mod display;
pub mod encode;
pub mod flow;
pub mod geometry;
pub mod hold_to_confirm;
pub mod horizontal_page;
pub mod laws;
pub mod number_input_slider;
pub mod prompt_screen;
pub mod qr_code;
pub mod scroll;
pub mod set_brightness;
pub mod store;
pub mod swipe;
pub mod tap_to_confirm;
pub mod theme;
pub mod time;
pub mod translations;
