//! Privacy masking and data-loss-prevention core of a dictation assistant.
//!
//! Text that is about to leave the trust boundary goes through
//! [`masking::mask_text`], which is parameterised by an
//! [`settings::AppSettings`] snapshot: the DLP policy may reject the text,
//! the built-in detectors of [`pattern`] redact emails, phone-like sequences
//! and long digit runs, and the user's own replace rules run last.
//!
//! The other modules hold what surrounds the pipeline:
//!
//! - [`settings`]: the settings record and its defaults;
//! - [`json`]: structural values and the merge of a patch onto a value;
//! - [`schema`] and [`schema_laws`]: the record as a structural value, and
//!   updates of the record by patches;
//! - [`keys`]: the stored API keys;
//! - [`instructions`]: the system instructions for the formatting model;
//! - [`service`]: the decisions around the calls to the remote services;
//! - [`ptt`]: the push-to-talk state.
//!
//! Regular expressions are evaluated by the `regex` crate and audio is
//! decoded by the `base64` crate. What those crates compute is named, not
//! defined, in the contracts; everything else is verified.

pub mod instructions;
pub mod json;
pub mod keys;
pub mod masking;
pub mod pattern;
pub mod ptt;
pub mod schema;
pub mod schema_laws;
pub mod service;
pub mod settings;

pub use instructions::build_gemini_instructions;
pub use keys::{Keys, KeysPresence};
pub use masking::{apply_custom_rules, mask_text, DlpBlocked, DlpVerdict, MaskedText};
pub use schema::{update_settings, SettingsValidationError};
pub use settings::{AppSettings, ReplaceRule};
