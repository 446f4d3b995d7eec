//! `podders` writes and reads the POD5 container format: a single seekable
//! file that holds the reads, run-info and signal tables of a nanopore
//! sequencing run, each followed by a section marker, and a trailing footer
//! from which a reader finds every table again.
//!
//! The crate composes and takes apart the file image in memory. The rows of
//! a table are encoded by the `arrow` crate, the footer is laid out by the
//! `flatbuffers` crate, and identifiers come from the `uuid` crate; reading
//! and writing the file itself is left to the caller.

pub mod codec;
pub mod dictionary;
pub mod endian;
pub mod error;
pub mod flat;
pub mod footer;
pub mod ident;
pub mod reads;
pub mod reads_format;
pub mod run_info;
pub mod section;
pub mod session;
pub mod signal;
pub mod table;

pub use error::Pod5Error;
pub use section::_write_table;
pub use session::{Pod5File, SessionView};
pub use flat::RecordBuilder;
pub use reads_format::{
    finish_footer_buffer, finish_size_prefixed_footer_buffer, root_as_footer,
    root_as_footer_with_opts, size_prefixed_root_as_footer,
    size_prefixed_root_as_footer_with_opts, ContentType, EmbeddedFile, EmbeddedFileArgs,
    EmbeddedFileBuilder, Footer, FooterArgs, FooterBuilder, FooterContent, FooterView, Format,
    VerifierOptions,
};

use vstd::prelude::*;

verus! {

/// The eight bytes with which every POD5 file begins and ends.
pub const SIGNATURE: [u8; 8] = [0x8B, 0x50, 0x4F, 0x44, 0x0D, 0x0A, 0x1A, 0x0A];

/// The version of the POD5 format that the writer produces.
pub const POD5_VERSION: &'static str = "0.3.2";

/// The name under which the writer records itself in a file.
pub const SOFTWARE: &'static str = "PODDERS! v0.1.0";

} // verus!
