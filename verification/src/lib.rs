//! Request planning for an image-upload service: data URLs, file names,
//! response bodies and the status codes of the native image bindings.

pub mod config;
pub mod text;
pub mod paths;
pub mod data_url;
pub mod json;
pub mod messages;
pub mod opencv;
pub mod upload;
pub mod vips;
