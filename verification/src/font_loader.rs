//! The font loader: adapter from raw TrueType bytes to a wrapped decoded font.
//!
//! The host hands the loader the outcome of draining one font file's byte
//! source; the decoder (an external capability that turns bytes into an opaque
//! font handle) is handed in as a function value.  The loader owns every
//! decision in between: a failed read and a rejected buffer both surface as a
//! recoverable [`FontLoaderError`], never as a panic, and a successful decode
//! is wrapped in a [`TextMeshFont`] asset value.

use vstd::prelude::*;

verus! {

/// Error signalling that a font asset could not be loaded: either the byte
/// source failed before the whole file was buffered, or the decoder rejected
/// the buffer.  A marker value with no payload.
#[derive(Debug)]
pub struct FontLoaderError;

impl FontLoaderError {
    /// The text under which the error reports itself.
    pub fn message(&self) -> (r: String)
        ensures
            r@ == "FontLoaderError"@,
    {
        String::from_str("FontLoaderError")
    }
}

/// Marker for a failed read of the byte source: the host could not hand the
/// full file over.  The loader turns it into a [`FontLoaderError`] rather
/// than panicking.
#[derive(Debug)]
pub struct ReadError;

/// The asset value registered with the host: a wrapper holding exactly one
/// decoded font handle of type `D`.
///
/// There is no partially initialized state: outside this module a
/// `TextMeshFont` can only be produced by [`FontLoader::load`], so a value of
/// this type always holds a handle that a successful decode returned.
pub struct TextMeshFont<D> {
    pub(crate) ttf_font: D,
}

impl<D> View for TextMeshFont<D> {
    type V = D;

    /// A `TextMeshFont` is, mathematically, nothing but the handle it wraps.
    closed spec fn view(&self) -> D {
        self.ttf_font
    }
}

impl<D> TextMeshFont<D> {
    /// Hand the decoded handle back out, consuming the wrapper (the host side
    /// converts it into its own asset representation).
    pub fn into_font(self) -> (r: D)
        ensures
            r == self@,
    {
        self.ttf_font
    }
}

/// The loader registered with the host asset system for [`TextMeshFont`].
/// Stateless: concurrent loads share nothing through it.
#[derive(Default)]
pub struct FontLoader;

impl FontLoader {
    /// Load one font file.
    ///
    /// `source` is the outcome of draining the file's byte source: the whole
    /// file as a buffer, or the read failure.  `decode` is the external
    /// decode capability: it consumes the buffer and returns the decoded
    /// handle, or `None` when the bytes are not a font it accepts.
    ///
    /// The result is pinned to the decoder's own behaviour on exactly the
    /// buffer that was read: a returned asset wraps a handle the decoder
    /// derived from that buffer, and an error is returned when and only when
    /// the read failed or the decoder rejected the buffer.
    pub fn load<D, F>(&self, source: Result<Vec<u8>, ReadError>, decode: F) -> (r: Result<
        TextMeshFont<D>,
        FontLoaderError,
    >) where F: FnOnce(Vec<u8>) -> Option<D>
        requires
            source is Ok ==> call_requires(decode, (source->Ok_0,)),
        ensures
            match source {
                Result::Ok(bytes) => match r {
                    Result::Ok(font) => call_ensures(decode, (bytes,), Some(font@)),
                    Result::Err(_) => call_ensures(decode, (bytes,), None::<D>),
                },
                Result::Err(_) => r is Err,
            },
    {
        match source {
            Result::Ok(bytes) => match decode(bytes) {
                Option::Some(font) => Result::Ok(TextMeshFont { ttf_font: font }),
                Option::None => Result::Err(FontLoaderError),
            },
            Result::Err(_) => Result::Err(FontLoaderError),
        }
    }

    /// The file extensions this loader claims: none.  The host dispatches on
    /// the requested asset type instead, so no extension is bound to this
    /// loader and other loaders may claim the same files.
    pub fn extensions(&self) -> (r: &[&str])
        ensures
            r@.len() == 0,
    {
        &[]
    }
}

} // verus!
