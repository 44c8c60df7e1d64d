//! Frame metadata, decoding error codes, and the stateless scans that locate MPEG frame
//! headers and ID3v2 tags in a byte window.
use vstd::prelude::*;
use vstd::slice::slice_subrange;

verus! {

/// MP3 metadata (MPEG version, layer, bitrate and the like), as the decoding engine
/// reports it for one frame. MP3 has no file header: a copy is in every frame.
#[allow(non_snake_case)]
#[derive(Clone, Copy, Debug, PartialEq, Eq, Structural)]
pub struct MP3FrameInfo {
    pub bitrate: i32,
    pub nChans: i32,
    pub samprate: i32,
    pub bitsPerSample: i32,
    pub outputSamps: i32,
    pub layer: i32,
    pub version: i32,
    pub size: i32,
}

/// Frame metadata with every field zero.
pub open spec fn zero_frame_info() -> MP3FrameInfo {
    MP3FrameInfo {
        bitrate: 0,
        nChans: 0,
        samprate: 0,
        bitsPerSample: 0,
        outputSamps: 0,
        layer: 0,
        version: 0,
        size: 0,
    }
}

impl MP3FrameInfo {
    pub fn new() -> (r: MP3FrameInfo)
        ensures
            r == zero_frame_info(),
    {
        MP3FrameInfo {
            bitrate: 0,
            nChans: 0,
            samprate: 0,
            bitsPerSample: 0,
            outputSamps: 0,
            layer: 0,
            version: 0,
            size: 0,
        }
    }

    /// Number of PCM samples a decode of this frame writes; a negative count stands for
    /// none.
    pub open spec fn samples(self) -> nat {
        if self.outputSamps < 0 {
            0
        } else {
            self.outputSamps as nat
        }
    }

    pub fn output_samples(&self) -> (r: usize)
        ensures
            r == self.samples(),
    {
        if self.outputSamps < 0 {
            0
        } else {
            self.outputSamps as usize
        }
    }
}

impl Default for MP3FrameInfo {
    fn default() -> (r: Self)
        ensures
            r == zero_frame_info(),
    {
        Self::new()
    }
}

/// ID3v2 header flags.
#[derive(Clone, Copy, Debug, PartialEq, Eq, Structural)]
pub struct Id3v2Flags {
    /// Unsynchronisation is applied on all frames.
    pub unsynchronisation: bool,
    /// The header is followed by an extended header.
    pub extended_header: bool,
    /// The tag is in an experimental stage.
    pub experimental: bool,
    /// A footer is present at the very end of the tag.
    pub footer_present: bool,
}

/// ID3v2 version named by a header's two version bytes.
#[derive(Clone, Copy, Debug, PartialEq, Eq, Structural)]
pub enum Id3v2Version {
    ID3v2_0,
    ID3v2_1,
    ID3v2_2,
    ID3v2_3,
    ID3v2_4,
    /// The version bytes name none of the versions above.
    Invalid,
}

/// A decoded ID3v2 tag header.
#[derive(Clone, Copy, Debug, PartialEq, Eq, Structural)]
pub struct Id3v2 {
    pub version: Id3v2Version,
    pub flags: Id3v2Flags,
    /// Length of the tag's payload, the 10 header bytes excluded.
    pub size: usize,
}

/// Errors that the decoding engine reports.
#[derive(Clone, Copy, Debug, PartialEq, Eq, Structural, PartialOrd)]
pub enum DecodeErr {
    Okay,
    InDataUnderflow,
    MaindataUnderfow,
    FreeBitrateSync,
    OutOfMemory,
    NullPointer,
    InvalidFrameheader,
    InvalidSideinfo,
    InvalidScalefact,
    InvalidHuffcodes,
    InvalidDequantize,
    InvalidImdct,
    InvalidSubband,
    Unknown,
    /// A code that names no error.
    InvalidError,
}

/// The error that an engine status code names.
pub open spec fn decode_err_of(code: i32) -> DecodeErr {
    if code == 0 {
        DecodeErr::Okay
    } else if code == -1 {
        DecodeErr::InDataUnderflow
    } else if code == -2 {
        DecodeErr::MaindataUnderfow
    } else if code == -3 {
        DecodeErr::FreeBitrateSync
    } else if code == -4 {
        DecodeErr::OutOfMemory
    } else if code == -5 {
        DecodeErr::NullPointer
    } else if code == -6 {
        DecodeErr::InvalidFrameheader
    } else if code == -7 {
        DecodeErr::InvalidSideinfo
    } else if code == -8 {
        DecodeErr::InvalidScalefact
    } else if code == -9 {
        DecodeErr::InvalidHuffcodes
    } else if code == -10 {
        DecodeErr::InvalidDequantize
    } else if code == -11 {
        DecodeErr::InvalidImdct
    } else if code == -12 {
        DecodeErr::InvalidSubband
    } else if code == -9999 {
        DecodeErr::Unknown
    } else {
        DecodeErr::InvalidError
    }
}

impl From<i32> for DecodeErr {
    fn from(value: i32) -> (r: Self) {
        match value {
            0 => DecodeErr::Okay,
            -1 => DecodeErr::InDataUnderflow,
            -2 => DecodeErr::MaindataUnderfow,
            -3 => DecodeErr::FreeBitrateSync,
            -4 => DecodeErr::OutOfMemory,
            -5 => DecodeErr::NullPointer,
            -6 => DecodeErr::InvalidFrameheader,
            -7 => DecodeErr::InvalidSideinfo,
            -8 => DecodeErr::InvalidScalefact,
            -9 => DecodeErr::InvalidHuffcodes,
            -10 => DecodeErr::InvalidDequantize,
            -11 => DecodeErr::InvalidImdct,
            -12 => DecodeErr::InvalidSubband,
            -9999 => DecodeErr::Unknown,
            _ => DecodeErr::InvalidError,
        }
    }
}

impl vstd::std_specs::convert::FromSpecImpl<i32> for DecodeErr {
    open spec fn obeys_from_spec() -> bool {
        true
    }

    open spec fn from_spec(v: i32) -> DecodeErr {
        decode_err_of(v)
    }
}

/// A frame sync word starts at `i`: a byte of all ones, then a byte whose top four bits
/// are ones.
pub open spec fn is_sync_at(w: Seq<u8>, i: int) -> bool {
    &&& 0 <= i
    &&& i + 1 < w.len()
    &&& w[i] == 0xFF
    &&& w[i + 1] & 0xF0 == 0xF0
}

/// No sync word starts before `k`.
pub open spec fn no_sync_before(w: Seq<u8>, k: int) -> bool {
    forall|j: int| 0 <= j < k ==> !is_sync_at(w, j)
}

/// The version that a header's major and minor version bytes name.
pub open spec fn id3v2_version_of(major: u8, minor: u8) -> Id3v2Version {
    if major == 2 && minor == 2 {
        Id3v2Version::ID3v2_2
    } else if major == 2 && minor == 3 {
        Id3v2Version::ID3v2_3
    } else if major == 2 && minor == 4 {
        Id3v2Version::ID3v2_4
    } else {
        Id3v2Version::Invalid
    }
}

pub open spec fn id3v2_flags_of(f: u8) -> Id3v2Flags {
    Id3v2Flags {
        unsynchronisation: f & 0x80 == 0x80,
        extended_header: f & 0x40 == 0x40,
        experimental: f & 0x20 == 0x20,
        footer_present: f & 0x10 == 0x10,
    }
}

/// Value of a 28-bit syncsafe integer: four big-endian bytes of seven bits each.
pub open spec fn syncsafe_value(s1: u8, s2: u8, s3: u8, s4: u8) -> nat {
    s1 as nat * 0x200000 + s2 as nat * 0x4000 + s3 as nat * 0x80 + s4 as nat
}

/// A 10-byte ID3v2 tag header that this scan accepts starts at `i`: the marker `ID3`,
/// version bytes that name no version of the `Id3v2Version` list, a flag byte whose low
/// nibble is not all ones, and four size bytes without their top bit set.
pub open spec fn is_id3v2_at(w: Seq<u8>, i: int) -> bool {
    &&& 0 <= i
    &&& i + 10 <= w.len()
    &&& w[i] == 0x49
    &&& w[i + 1] == 0x44
    &&& w[i + 2] == 0x33
    &&& id3v2_version_of(w[i + 3], w[i + 4]) == Id3v2Version::Invalid
    &&& w[i + 5] & 0x0F != 0x0F
    &&& w[i + 6] < 0x80
    &&& w[i + 7] < 0x80
    &&& w[i + 8] < 0x80
    &&& w[i + 9] < 0x80
}

/// The header decoded from the 10 bytes at `i`.
pub open spec fn id3v2_header_at(w: Seq<u8>, i: int) -> Id3v2 {
    Id3v2 {
        version: id3v2_version_of(w[i + 3], w[i + 4]),
        flags: id3v2_flags_of(w[i + 5]),
        size: syncsafe_value(w[i + 6], w[i + 7], w[i + 8], w[i + 9]) as usize,
    }
}

/// No accepted ID3v2 header starts before `k`.
pub open spec fn no_id3v2_before(w: Seq<u8>, k: int) -> bool {
    forall|j: int| 0 <= j < k ==> !is_id3v2_at(w, j)
}

/// Offset of the first sync word, where there is one.
pub open spec fn first_sync(w: Seq<u8>) -> int {
    choose|k: int| is_sync_at(w, k) && no_sync_before(w, k)
}

/// Offset of the first accepted ID3v2 header, where there is one.
pub open spec fn first_id3v2(w: Seq<u8>) -> int {
    choose|k: int| is_id3v2_at(w, k) && no_id3v2_before(w, k)
}

/// A sync word with none before it is the first one.
pub proof fn lemma_first_sync(w: Seq<u8>, k: int)
    requires
        is_sync_at(w, k),
        no_sync_before(w, k),
    ensures
        first_sync(w) == k,
{
    let c = first_sync(w);
    assert(is_sync_at(w, c) && no_sync_before(w, c));
    if c < k {
        assert(!is_sync_at(w, c));
    } else if c > k {
        assert(!is_sync_at(w, k));
    }
}

/// An accepted header with none before it is the first one.
pub proof fn lemma_first_id3v2(w: Seq<u8>, k: int)
    requires
        is_id3v2_at(w, k),
        no_id3v2_before(w, k),
    ensures
        first_id3v2(w) == k,
{
    let c = first_id3v2(w);
    assert(is_id3v2_at(w, c) && no_id3v2_before(w, c));
    if c < k {
        assert(!is_id3v2_at(w, c));
    } else if c > k {
        assert(!is_id3v2_at(w, k));
    }
}

/// The stateless scans over MP3 byte windows. Decoding itself is the engine's work and
/// is not done here.
pub struct Mp3 {}

impl Mp3 {
    /// Offset of the first frame sync word in `mp3buf`, or -1 where it holds none.
    pub fn find_sync_word(mp3buf: &[u8]) -> (r: i32)
        requires
            mp3buf@.len() <= i32::MAX,
        ensures
            -1 <= r,
            r == -1 <==> no_sync_before(mp3buf@, mp3buf@.len() as int),
            r >= 0 ==> is_sync_at(mp3buf@, r as int) && no_sync_before(mp3buf@, r as int),
            r >= 0 ==> r == first_sync(mp3buf@),
    {
        let n = mp3buf.len();
        let mut i: usize = 0;
        while i + 1 < n
            invariant
                n == mp3buf@.len(),
                n <= i32::MAX,
                i <= n,
                no_sync_before(mp3buf@, i as int),
            decreases n - i,
        {
            if mp3buf[i] == 0xFF && mp3buf[i + 1] & 0xF0 == 0xF0 {
                assert(is_sync_at(mp3buf@, i as int));
                assert(!no_sync_before(mp3buf@, n as int));
                proof {
                    lemma_first_sync(mp3buf@, i as int);
                }
                return i as i32;
            }
            i += 1;
        }
        -1
    }

    /// Finds the first ID3v2 tag header in `mp3buf`: its offset and the decoded header.
    ///
    /// Note the version test: a header is accepted only when its version bytes name no
    /// version of the `Id3v2Version` list, as `is_id3v2_at` states. The usual major byte
    /// of a tag is 3 or 4, which that list does not map, so common tags are found.
    pub fn find_id3v2(mp3buf: &[u8]) -> (r: Option<(usize, Id3v2)>)
        ensures
            r is None <==> no_id3v2_before(mp3buf@, mp3buf@.len() as int),
            r matches Some((off, tag)) ==> {
                &&& is_id3v2_at(mp3buf@, off as int)
                &&& no_id3v2_before(mp3buf@, off as int)
                &&& off == first_id3v2(mp3buf@)
                &&& tag == id3v2_header_at(mp3buf@, off as int)
            },
    {
        let n = mp3buf.len();
        if n < 10 {
            return None;
        }
        let mut offset: usize = 0;
        while offset <= n - 10
            invariant
                n == mp3buf@.len(),
                n >= 10,
                offset <= n - 9,
                no_id3v2_before(mp3buf@, offset as int),
            decreases n - offset,
        {
            let h = slice_subrange(mp3buf, offset, offset + 10);
            let version = if h[3] == 2 && h[4] == 2 {
                Id3v2Version::ID3v2_2
            } else if h[3] == 2 && h[4] == 3 {
                Id3v2Version::ID3v2_3
            } else if h[3] == 2 && h[4] == 4 {
                Id3v2Version::ID3v2_4
            } else {
                Id3v2Version::Invalid
            };
            let flags = h[5];
            let valid_flags = flags & 0x0F != 0x0F;
            let valid_syncsafe = h[6] < 0x80 && h[7] < 0x80 && h[8] < 0x80 && h[9] < 0x80;
            if h[0] == 0x49 && h[1] == 0x44 && h[2] == 0x33 && version == Id3v2Version::Invalid
                && valid_flags && valid_syncsafe {
                let size = h[6] as usize * 0x200000 + h[7] as usize * 0x4000 + h[8] as usize
                    * 0x80 + h[9] as usize;
                let tag = Id3v2 {
                    version,
                    flags: Id3v2Flags {
                        unsynchronisation: flags & 0x80 == 0x80,
                        extended_header: flags & 0x40 == 0x40,
                        experimental: flags & 0x20 == 0x20,
                        footer_present: flags & 0x10 == 0x10,
                    },
                    size,
                };
                assert(is_id3v2_at(mp3buf@, offset as int));
                assert(!no_id3v2_before(mp3buf@, n as int));
                proof {
                    lemma_first_id3v2(mp3buf@, offset as int);
                }
                return Some((offset, tag));
            }
            offset += 1;
        }
        None
    }
}

} // verus!
