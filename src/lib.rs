//! Saving images that a user interface hands over as base64 data URLs.
//!
//! `data_url` finds and decodes the payload of a data URL; `save` holds the
//! decisions of the single and batch save operations, from the folder that
//! the picker returned to the message shown to the user.
pub mod data_url;
pub mod save;
