//! A decode-once image cache addressed by URI.
//!
//! The cache sits between a source of raw bytes, which may answer "not yet",
//! and a consumer that asks on every frame whether an image is ready. Each
//! URI is decoded at most once, failures are remembered, and content that the
//! decoder cannot handle is turned away before any work is done.
//!
//! - [`format_gate`] judges a URI by its extension and content by its MIME
//!   type, without looking at any bytes.
//! - [`uri`] finds the part of a URI that names the resource.
//! - [`screening`] looks at fetched content before it is decoded.
//! - [`loader`] holds the cache and the load itself. Byte source and decoder
//!   are handed to a load as functions; what the loader makes of their
//!   answers is stated as a function of those answers.
//! - [`accounting`] says what a cache is charged for.
//! - [`laws`] states what holds of every load.
//! - [`outcome`] and [`text`] hold the values and the text matching that the
//!   rest is stated over.
//!
//! Calls into `image`, `egui` and the parts of the standard library that are
//! not specified elsewhere sit behind small functions whose contracts are
//! assumed. Each says so where it stands.

pub mod accounting;
pub mod format_gate;
pub mod laws;
pub mod loader;
pub mod outcome;
pub mod screening;
pub mod text;
pub mod uri;

pub use format_gate::{is_supported_mime, is_supported_uri};
pub use loader::ImageCrateLoader;
