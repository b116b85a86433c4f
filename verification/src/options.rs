//! Settings of the server.
use vstd::prelude::*;

verus! {

/// Limits of the request head decoder.
#[derive(Debug, Clone, Copy, PartialEq, Eq)]
pub struct DecodeOptions {
    /// The maximum number of bytes allowed for the request line.
    pub max_start_line_size: usize,
    /// The maximum number of bytes allowed for the header.
    pub max_header_size: usize,
}

/// `httpcodec::DecodeOptions::default()`.
///
/// Claimed of it: both limits are 65535 bytes.
#[verifier::external_body]
fn httpcodec_default_options() -> (r: DecodeOptions)
    ensures
        r.max_start_line_size == 0xFFFF,
        r.max_header_size == 0xFFFF,
{
    let options = httpcodec::DecodeOptions::default();
    DecodeOptions {
        max_start_line_size: options.max_start_line_size,
        max_header_size: options.max_header_size,
    }
}

impl Default for DecodeOptions {
    /// The limits that the request head decoder has where none are set.
    fn default() -> (r: Self)
        ensures
            r.max_start_line_size == 0xFFFF,
            r.max_header_size == 0xFFFF,
    {
        httpcodec_default_options()
    }
}

/// The settings that every connection of a server is made with.
#[derive(Debug, Clone, Copy, PartialEq, Eq)]
pub struct ServerOptions {
    /// The size of a connection's read buffer in bytes.
    pub read_buffer_size: usize,
    /// The size of a connection's write buffer in bytes.
    pub write_buffer_size: usize,
    /// The limits of the request head decoder.
    pub decode_options: DecodeOptions,
}

} // verus!
