//! Music: music tracks held as plain byte data, and soundbank
//! identifiers with the interpretation of the native install result.

use vstd::prelude::*;
use vstd::slice::slice_to_vec;

use crate::FileError;

verus! {

/// The total number of music channels supported by the engine.
pub const MUSIC_CHANNELS: u32 = 16;

/// A music object: the byte data of a music file, owned by value.
///
/// The native layer parses the data when the music is handed to it for
/// playback; this type only carries the bytes.
#[derive(Debug)]
pub struct Music {
    data: Vec<u8>,
}

impl Music {
    /// The byte data this music was created from.
    pub closed spec fn spec_data(self) -> Seq<u8> {
        self.data@
    }

    /// Creates a music object from the byte data of a MUS file.
    ///
    /// The data is copied and owned by the result; whether it parses as a
    /// MUS file is the native loader's decision at playback time. The
    /// length bound is the native layer's: it takes the length as a
    /// signed 32-bit count.
    pub fn create_mus(data: &[u8]) -> (m: Music)
        requires
            data@.len() <= 0x7fff_ffff,
        ensures
            m.spec_data() == data@,
    {
        Music { data: slice_to_vec(data) }
    }

    /// The byte data of this music.
    pub fn data(&self) -> (d: &[u8])
        ensures
            d@ == self.spec_data(),
    {
        self.data.as_slice()
    }
}

/// A soundbank identifier.
///
/// A soundbank is a set of instrument definitions used to render MIDI and
/// MUS playback. The native layer hands out non-zero identifiers; zero is
/// its failure sentinel, so a `Soundbank` always carries a non-zero
/// identifier.
#[derive(Debug, Copy, Clone, Eq, Hash, PartialEq, Structural)]
pub struct Soundbank {
    id: u32,
}

impl Soundbank {
    /// The native identifier of this soundbank.
    pub closed spec fn spec_id(self) -> u32 {
        self.id
    }

    /// A soundbank identifier is valid when it is not the native
    /// layer's zero failure sentinel.
    pub open spec fn wf(self) -> bool {
        self.spec_id() != 0
    }

    /// Default soundbank: Sound Blaster AWE32.
    pub fn default_awe32() -> (s: Soundbank)
        ensures
            s.spec_id() == 1,
            s.wf(),
    {
        Soundbank { id: 1 }
    }

    /// Default soundbank: Sound Blaster 16.
    pub fn default_sb16() -> (s: Soundbank)
        ensures
            s.spec_id() == 2,
            s.wf(),
    {
        Soundbank { id: 2 }
    }

    /// Obtains a soundbank identifier by its internal index.
    ///
    /// This operation does not check whether the soundbank really
    /// exists; only the zero sentinel is rejected.
    pub fn from_id(id: u32) -> (r: Option<Soundbank>)
        ensures
            r is Some <==> id != 0,
            r matches Some(s) ==> s.spec_id() == id && s.wf(),
    {
        if id != 0 {
            Some(Soundbank { id })
        } else {
            None
        }
    }

    /// The native identifier of this soundbank.
    pub fn id(self) -> (id: u32)
        ensures
            id == self.spec_id(),
    {
        self.id
    }

    /// Interprets the result of the native soundbank installer: zero is
    /// its failure sentinel and means the file was not found or could
    /// not be read; every other value identifies the new soundbank.
    pub fn from_install_id(raw_id: u32) -> (r: Result<Soundbank, FileError>)
        ensures
            r is Ok <==> raw_id != 0,
            r matches Ok(s) ==> s.spec_id() == raw_id && s.wf(),
            r matches Err(e) ==> e is FileNotFound,
    {
        if raw_id != 0 {
            Ok(Soundbank { id: raw_id })
        } else {
            Err(FileError::FileNotFound)
        }
    }
}

} // verus!
