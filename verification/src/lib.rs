//! Adapter that turns TrueType font bytes into a wrapped, mesh-capable font
//! handle for a host asset pipeline.
//!
//! The decoding itself is delegated to an external decoder (ttf2mesh on the
//! host side), handed in as a function value; this crate owns everything
//! around that call: it takes the buffered bytes of one font file, drives
//! the decode decision, and wraps the decoded handle in an asset value.
//! Every fallible step reports through [`FontLoaderError`] instead of
//! panicking.

mod font_loader;

pub use font_loader::FontLoader;
pub use font_loader::FontLoaderError;
pub use font_loader::ReadError;
pub use font_loader::TextMeshFont;
