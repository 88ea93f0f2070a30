//! Verified client logic for the Gyazo image upload endpoint.
//!
//! The library assembles the multipart form fields for an upload request,
//! renders option values to their canonical text form, and decodes the JSON
//! response of the service into a typed record. Reading the image file and
//! performing the network round trip are left to the embedding application.

pub mod access_policy;
pub mod error;
pub mod form;
pub mod json;
pub mod render;
pub mod upload;
