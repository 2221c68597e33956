//! A memory-safer, idiomatically-typed surface over a native multimedia
//! runtime in the style of 1990s DOS programs: text and graphics video
//! modes, an indexed-color palette, sprite blitting, keyboard and mouse
//! polling, and multi-channel sound and music playback.
//!
//! The rendering, mixing and file-format decoding are the native
//! runtime's own work and stay behind its C interface.  This crate holds
//! the part of the binding layer that is plain computation and proves it
//! correct: the closed enumerations and their one-to-one mapping onto the
//! native integer constants, path validation ahead of the foreign
//! boundary, interpretation of native result sentinels, bounds checks on
//! buffers and palettes, and the data types that own their contents as
//! plain values.

use vstd::prelude::*;
use vstd::string::StringSliceAdditionalSpecFns;

pub mod input;
pub mod music;
pub mod sound;
pub mod video;

verus! {

/// General error type for file loading functions which can fail.
#[derive(Debug, Clone, Copy, PartialEq, Eq, Structural)]
pub enum FileError {
    /// Invalid file path (typically due to the presence of null bytes in the string)
    BadFilePath,
    /// File not found, or failed to read
    FileNotFound,
}

impl FileError {
    /// A human-readable description of the error.
    pub fn message(&self) -> (r: &'static str)
        ensures
            *self is BadFilePath ==> r@ == "Invalid file path"@,
            *self is FileNotFound ==> r@ == "Failed to read file"@,
    {
        match self {
            FileError::BadFilePath => "Invalid file path",
            FileError::FileNotFound => "Failed to read file",
        }
    }
}

/// Holds exactly when the byte sequence carries a NUL byte, which a
/// C path string cannot represent.
pub open spec fn has_nul_byte(bytes: Seq<u8>) -> bool {
    exists|i: int| 0 <= i < bytes.len() && bytes[i] == 0
}

/// Checks that a stretch of text is free of NUL bytes and so can cross
/// the native boundary as a C string.
pub fn bytes_are_nul_free(text: &[u8]) -> (ok: bool)
    ensures
        ok == !has_nul_byte(text@),
{
    let n = text.len();
    let mut i: usize = 0;
    while i < n
        invariant
            n == text@.len(),
            i <= n,
            forall|j: int| 0 <= j < i ==> text@[j] != 0,
        decreases n - i,
    {
        if text[i] == 0 {
            proof {
                assert(has_nul_byte(text@)) by {
                    assert(text@[i as int] == 0);
                }
            }
            return false;
        }
        i += 1;
    }
    true
}

/// Checks that a path is free of embedded NUL bytes and so can cross the
/// native boundary as a C string.
pub fn path_is_valid(path: &str) -> (ok: bool)
    ensures
        ok == !has_nul_byte(path.spec_bytes()),
{
    bytes_are_nul_free(path.as_bytes())
}

/// Validates a path before any foreign call sees it: a path with an
/// embedded NUL byte is rejected with [`FileError::BadFilePath`], and
/// every other path is accepted.
pub fn validate_path(path: &str) -> (r: Result<(), FileError>)
    ensures
        r is Ok <==> !has_nul_byte(path.spec_bytes()),
        r matches Err(e) ==> e is BadFilePath,
{
    if path_is_valid(path) {
        Ok(())
    } else {
        Err(FileError::BadFilePath)
    }
}

/// Interprets a native loader's result: where the loader handed nothing
/// back, the file was not found or could not be read, and that is the
/// error reported; a present result is accepted.
pub fn found_or_not_found(found: bool) -> (r: Result<(), FileError>)
    ensures
        r is Ok <==> found,
        r matches Err(e) ==> e is FileNotFound,
{
    if found {
        Ok(())
    } else {
        Err(FileError::FileNotFound)
    }
}

} // verus!
