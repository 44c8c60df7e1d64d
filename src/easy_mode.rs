//! The stream controller: owns the staging buffer, finds the start of the audio (past an
//! ID3v2 tag, then at a sync word) and decides, for each decode, what the decoding
//! engine is handed and what its outcome does to the stream.
//!
//! The engine itself is outside this crate. Where the controller needs it, the engine's
//! outcome is an argument: after a fresh sync the driver probes the next frame and hands
//! the result to `record_probe`; a decode runs as `check_decode`, the engine's decode,
//! then `finish_decode`.
use vstd::prelude::*;
use crate::contig_buffer::{BUFF_SZ, Buffer, BufferState};
use crate::mp3::{
    DecodeErr, MP3FrameInfo, Mp3, first_sync, no_sync_before, first_id3v2, no_id3v2_before,
    id3v2_header_at, is_id3v2_at, syncsafe_value,
};

verus! {

/// Errors of the stream controller: the engine's errors, and an output buffer too small
/// for the next frame.
#[derive(Clone, Copy, Debug, PartialEq, Eq, Structural, PartialOrd)]
pub enum EasyModeErr {
    Okay,
    InDataUnderflow,
    MaindataUnderfow,
    FreeBitrateSync,
    OutOfMemory,
    NullPointer,
    InvalidFrameheader,
    InvalidSideinfo,
    InvalidScalefact,
    InvalidHuffcodes,
    InvalidDequantize,
    InvalidImdct,
    InvalidSubband,
    Unknown,
    InvalidError,
    AudioBufferTooSmall,
}

/// The controller error that carries an engine error.
pub open spec fn easy_err_of(e: DecodeErr) -> EasyModeErr {
    match e {
        DecodeErr::Okay => EasyModeErr::Okay,
        DecodeErr::InDataUnderflow => EasyModeErr::InDataUnderflow,
        DecodeErr::MaindataUnderfow => EasyModeErr::MaindataUnderfow,
        DecodeErr::FreeBitrateSync => EasyModeErr::FreeBitrateSync,
        DecodeErr::OutOfMemory => EasyModeErr::OutOfMemory,
        DecodeErr::NullPointer => EasyModeErr::NullPointer,
        DecodeErr::InvalidFrameheader => EasyModeErr::InvalidFrameheader,
        DecodeErr::InvalidSideinfo => EasyModeErr::InvalidSideinfo,
        DecodeErr::InvalidScalefact => EasyModeErr::InvalidScalefact,
        DecodeErr::InvalidHuffcodes => EasyModeErr::InvalidHuffcodes,
        DecodeErr::InvalidDequantize => EasyModeErr::InvalidDequantize,
        DecodeErr::InvalidImdct => EasyModeErr::InvalidImdct,
        DecodeErr::InvalidSubband => EasyModeErr::InvalidSubband,
        DecodeErr::Unknown => EasyModeErr::Unknown,
        DecodeErr::InvalidError => EasyModeErr::InvalidError,
    }
}

impl From<DecodeErr> for EasyModeErr {
    fn from(value: DecodeErr) -> (r: Self) {
        match value {
            DecodeErr::Okay => EasyModeErr::Okay,
            DecodeErr::InDataUnderflow => EasyModeErr::InDataUnderflow,
            DecodeErr::MaindataUnderfow => EasyModeErr::MaindataUnderfow,
            DecodeErr::FreeBitrateSync => EasyModeErr::FreeBitrateSync,
            DecodeErr::OutOfMemory => EasyModeErr::OutOfMemory,
            DecodeErr::NullPointer => EasyModeErr::NullPointer,
            DecodeErr::InvalidFrameheader => EasyModeErr::InvalidFrameheader,
            DecodeErr::InvalidSideinfo => EasyModeErr::InvalidSideinfo,
            DecodeErr::InvalidScalefact => EasyModeErr::InvalidScalefact,
            DecodeErr::InvalidHuffcodes => EasyModeErr::InvalidHuffcodes,
            DecodeErr::InvalidDequantize => EasyModeErr::InvalidDequantize,
            DecodeErr::InvalidImdct => EasyModeErr::InvalidImdct,
            DecodeErr::InvalidSubband => EasyModeErr::InvalidSubband,
            DecodeErr::Unknown => EasyModeErr::Unknown,
            DecodeErr::InvalidError => EasyModeErr::InvalidError,
        }
    }
}

impl vstd::std_specs::convert::FromSpecImpl<DecodeErr> for EasyModeErr {
    open spec fn obeys_from_spec() -> bool {
        true
    }

    open spec fn from_spec(v: DecodeErr) -> EasyModeErr {
        easy_err_of(v)
    }
}

/// Abstract state of the stream controller.
pub ghost struct ControllerState {
    pub buffer: BufferState,
    /// A sync word has been found and the window starts at a frame.
    pub sync: bool,
    /// A frame has been decoded or probed successfully.
    pub have_decoded: bool,
    /// The search for an ID3v2 tag has been made.
    pub parsed_id3: bool,
    /// Bytes of the tag still to be skipped.
    pub bytes_to_skip: nat,
    /// Metadata of the last frame decoded or probed.
    pub frame_info: Option<MP3FrameInfo>,
    /// A fresh sync waits for the engine to describe the frame at the window's start.
    pub probe_pending: bool,
}

/// Bytes to skip for the ID3v2 tag at the front of `w`: from the window's start to the
/// end of the first accepted tag (offset, 10 header bytes, payload), or none.
#[verifier::opaque]
pub open spec fn id3v2_skip_len(w: Seq<u8>) -> nat {
    if no_id3v2_before(w, w.len() as int) {
        0
    } else {
        let off = first_id3v2(w);
        (off + 10 + id3v2_header_at(w, off).size) as nat
    }
}

/// Bytes discarded when the window holds no sync word: all but the last three, which
/// may hold the start of a sync word that the next bytes complete.
pub open spec fn unsynced_discard(used: nat) -> nat {
    if used < 3 {
        0
    } else {
        (used - 3) as nat
    }
}

/// The skip length of an accepted tag, which is under 2^28 plus the header and offset,
/// fits a `usize`.
proof fn lemma_tag_size_bound(w: Seq<u8>, off: int)
    requires
        is_id3v2_at(w, off),
        w.len() <= BUFF_SZ,
    ensures
        id3v2_header_at(w, off).size < 0x10000000,
        off + 10 + id3v2_header_at(w, off).size <= usize::MAX,
{
    assert(syncsafe_value(w[off + 6], w[off + 7], w[off + 8], w[off + 9]) < 0x10000000);
}

impl ControllerState {
    pub open spec fn initial() -> ControllerState {
        ControllerState {
            buffer: BufferState::empty(),
            sync: false,
            have_decoded: false,
            parsed_id3: false,
            bytes_to_skip: 0,
            frame_info: None,
            probe_pending: false,
        }
    }

    /// The state after a search for the next sync word.
    #[verifier::opaque]
    pub open spec fn sync_step(self) -> ControllerState {
        let w = self.buffer.window;
        if self.sync {
            self
        } else if !no_sync_before(w, w.len() as int) {
            ControllerState {
                buffer: self.buffer.advance(first_sync(w) as nat),
                sync: true,
                probe_pending: true,
                ..self
            }
        } else {
            ControllerState { buffer: self.buffer.advance(unsynced_discard(w.len())), ..self }
        }
    }

    /// The state after the first `n` buffered bytes are skipped, at most as many as are
    /// buffered, and how many were.
    pub open spec fn skip_step(self, n: nat) -> (ControllerState, nat) {
        let k = if n < self.buffer.used() {
            n
        } else {
            self.buffer.used()
        };
        (ControllerState { buffer: self.buffer.advance(k), ..self }, k)
    }

    /// The state after one step towards decode readiness, and whether the stream is ready.
    pub open spec fn ready_step(self) -> (ControllerState, bool) {
        if self.buffer.used() == 0 {
            (self, false)
        } else {
            let s1 = if !self.parsed_id3 {
                ControllerState {
                    parsed_id3: true,
                    bytes_to_skip: id3v2_skip_len(self.buffer.window),
                    ..self
                }
            } else {
                self
            };
            let s2 = if s1.bytes_to_skip > 0 {
                let (t, k) = s1.skip_step(s1.bytes_to_skip);
                ControllerState { bytes_to_skip: (s1.bytes_to_skip - k) as nat, ..t }
            } else {
                s1.sync_step()
            };
            (s2, s2.parsed_id3 && s2.bytes_to_skip == 0 && s2.sync)
        }
    }

    /// The state after the engine's probe outcome is handed over.
    pub open spec fn probe_step(self, probe: Result<MP3FrameInfo, DecodeErr>) -> ControllerState {
        if self.probe_pending {
            match probe {
                Ok(f) => ControllerState {
                    frame_info: Some(f),
                    have_decoded: true,
                    probe_pending: false,
                    ..self
                },
                Err(_) => ControllerState { probe_pending: false, ..self },
            }
        } else {
            self
        }
    }

    /// The state after the engine decoded the frame `frame` and reported `outcome` (the
    /// bytes left of the window on success), and the result of the decode.
    pub open spec fn finish_step(self, frame: MP3FrameInfo, outcome: Result<i32, DecodeErr>) -> (
        ControllerState,
        Result<nat, EasyModeErr>,
    ) {
        match outcome {
            Ok(left) => (
                ControllerState {
                    buffer: self.buffer.advance((self.buffer.used() - left) as nat),
                    have_decoded: true,
                    frame_info: Some(frame),
                    ..self
                },
                Ok(frame.samples()),
            ),
            Err(e) => (self, Err(easy_err_of(e))),
        }
    }
}

/// Whether to run the engine's decode, given its probe of the next frame and the length
/// of the output buffer: the frame's sample count if so, else the error to report.
pub open spec fn check_result(next_frame: Result<MP3FrameInfo, DecodeErr>, output_len: nat) -> Result<
    nat,
    EasyModeErr,
> {
    match next_frame {
        Err(e) => Err(easy_err_of(e)),
        Ok(f) => if output_len < f.samples() {
            Err(EasyModeErr::AudioBufferTooSmall)
        } else {
            Ok(f.samples())
        },
    }
}

/// The stream controller.
pub struct EasyMode {
    buffer: Buffer,
    sync: bool,
    have_decoded: bool,
    parsed_id3: bool,
    bytes_to_skip: usize,
    frame_info: Option<MP3FrameInfo>,
    probe_pending: bool,
}

impl View for EasyMode {
    type V = ControllerState;

    closed spec fn view(&self) -> ControllerState {
        ControllerState {
            buffer: self.buffer@,
            sync: self.sync,
            have_decoded: self.have_decoded,
            parsed_id3: self.parsed_id3,
            bytes_to_skip: self.bytes_to_skip as nat,
            frame_info: self.frame_info,
            probe_pending: self.probe_pending,
        }
    }
}

impl EasyMode {
    pub closed spec fn wf(&self) -> bool {
        self.buffer.wf()
    }

    /// A well-formed controller has a well-formed buffer state.
    pub proof fn lemma_state_wf(&self)
        requires
            self.wf(),
        ensures
            self@.buffer.wf(),
    {
        self.buffer.lemma_state_wf();
    }

    pub fn new() -> (r: Self)
        ensures
            r.wf(),
            r@ == ControllerState::initial(),
    {
        EasyMode {
            buffer: Buffer::new(),
            sync: false,
            have_decoded: false,
            parsed_id3: false,
            bytes_to_skip: 0,
            frame_info: None,
            probe_pending: false,
        }
    }

    /// Appends MP3 data to the stream buffer, as much as fits. Returns how much was taken.
    pub fn add_data(&mut self, data: &[u8]) -> (r: usize)
        requires
            old(self).wf(),
        ensures
            final(self).wf(),
            final(self)@ == (ControllerState { buffer: old(self)@.buffer.load(data@), ..old(self)@ }),
            r == old(self)@.buffer.load_count(data@.len()),
    {
        self.buffer.load_slice(data)
    }

    /// The buffered bytes, which the engine reads.
    pub fn borrow_data(&self) -> (r: &[u8])
        requires
            self.wf(),
        ensures
            r@ == self@.buffer.window,
    {
        self.buffer.borrow_slice()
    }

    /// Unless already synchronised, moves the window's start to the next sync word and
    /// marks the stream synchronised; where the window holds none, discards all of it but
    /// the last three bytes. Returns whether the stream is synchronised.
    pub fn skip_to_next_sync_word(&mut self) -> (r: bool)
        requires
            old(self).wf(),
        ensures
            final(self).wf(),
            final(self)@ == old(self)@.sync_step(),
            r == final(self)@.sync,
    {
        proof {
            self.lemma_state_wf();
            reveal(ControllerState::sync_step);
        }
        if !self.sync {
            let start = Mp3::find_sync_word(self.buffer.borrow_slice());
            if start >= 0 {
                self.buffer.increment_start(start as usize);
                self.sync = true;
                self.probe_pending = true;
            } else {
                let used = self.buffer.used();
                let discard = if used < 3 {
                    0
                } else {
                    used - 3
                };
                self.buffer.increment_start(discard);
            }
        }
        self.sync
    }

    /// Whether the engine is to describe the frame at the window's start: a sync has just
    /// been found and its probe not yet handed over.
    pub fn wants_probe(&self) -> (r: bool)
        ensures
            r == self@.probe_pending,
    {
        self.probe_pending
    }

    /// Takes the engine's description of the frame at the window's start, asked for by a
    /// fresh sync; on success it becomes the cached metadata.
    pub fn record_probe(&mut self, probe: Result<MP3FrameInfo, DecodeErr>)
        requires
            old(self).wf(),
        ensures
            final(self).wf(),
            final(self)@ == old(self)@.probe_step(probe),
    {
        if self.probe_pending {
            if let Ok(frame) = probe {
                self.frame_info = Some(frame);
                self.have_decoded = true;
            }
            self.probe_pending = false;
        }
    }

    /// Free space in the stream buffer.
    pub fn buffer_free(&self) -> (r: usize)
        requires
            self.wf(),
        ensures
            r == self@.buffer.available(),
    {
        self.buffer.available()
    }

    /// MP3 data held in the stream buffer.
    pub fn buffer_used(&self) -> (r: usize)
        requires
            self.wf(),
        ensures
            r == self@.buffer.used(),
    {
        self.buffer.used()
    }

    /// Discards up to `count` bytes from the front of the stream buffer without decoding
    /// them. Returns how many were discarded.
    pub fn buffer_skip(&mut self, count: usize) -> (r: usize)
        requires
            old(self).wf(),
        ensures
            final(self).wf(),
            (final(self)@, r as nat) == old(self)@.skip_step(count as nat),
    {
        let used = self.buffer.used();
        let to_remove = if used < count {
            used
        } else {
            count
        };
        self.buffer.increment_start(to_remove);
        to_remove
    }

    /// Marks the tag search as made and notes how many bytes its tag, if any, spans
    /// from the window's start.
    fn note_id3v2_skip(&mut self)
        requires
            old(self).wf(),
        ensures
            final(self).wf(),
            final(self)@ == (ControllerState {
                parsed_id3: true,
                bytes_to_skip: id3v2_skip_len(old(self)@.buffer.window),
                ..old(self)@
            }),
    {
        proof {
            self.lemma_state_wf();
            reveal(id3v2_skip_len);
        }
        self.parsed_id3 = true;
        let id3 = Mp3::find_id3v2(self.buffer.borrow_slice());
        self.bytes_to_skip = match id3 {
            Some((offset, tag)) => {
                proof {
                    lemma_tag_size_bound(old(self)@.buffer.window, offset as int);
                }
                offset + 10 + tag.size
            },
            None => 0,
        };
    }

    /// One step towards the first frame: on the first call with data, looks for an ID3v2
    /// tag and notes how much of it to skip; then skips what it can of the tag, and once
    /// the tag is behind, searches for a sync word. Returns true once the tag search was
    /// made, the tag is skipped, and the stream is synchronised.
    pub fn mp3_decode_ready(&mut self) -> (r: bool)
        requires
            old(self).wf(),
        ensures
            final(self).wf(),
            (final(self)@, r) == old(self)@.ready_step(),
    {
        proof {
            self.lemma_state_wf();
        }
        if self.buffer_used() == 0 {
            false
        } else {
            if !self.parsed_id3 {
                self.note_id3v2_skip();
            }
            if self.bytes_to_skip > 0 {
                let skipped = self.buffer_skip(self.bytes_to_skip);
                self.bytes_to_skip = self.bytes_to_skip - skipped;
            } else {
                self.skip_to_next_sync_word();
            }
            self.parsed_id3 && self.bytes_to_skip == 0 && self.sync
        }
    }

    /// Decides whether the engine may decode the next frame, given its probe of that
    /// frame and the length of the output buffer: returns the frame's sample count, the
    /// probe's error, or `AudioBufferTooSmall` where the output cannot hold the frame.
    /// Nothing is changed either way.
    pub fn check_decode(next_frame: Result<MP3FrameInfo, DecodeErr>, output_len: usize) -> (r:
        Result<usize, EasyModeErr>)
        ensures
            r matches Ok(n) ==> check_result(next_frame, output_len as nat) == Ok::<nat, EasyModeErr>(n as nat),
            r matches Err(e) ==> check_result(next_frame, output_len as nat) == Err::<nat, EasyModeErr>(e),
    {
        match next_frame {
            Err(e) => Err(EasyModeErr::from(e)),
            Ok(frame) => {
                let samples = frame.output_samples();
                if output_len < samples {
                    Err(EasyModeErr::AudioBufferTooSmall)
                } else {
                    Ok(samples)
                }
            },
        }
    }

    /// Takes the outcome of the engine's decode of the frame `frame`: on success, the
    /// number of window bytes the engine left, so that the bytes it consumed leave the
    /// buffer and `frame` becomes the cached metadata; returns the frame's sample count.
    /// An engine error is returned and changes nothing.
    pub fn finish_decode(&mut self, frame: MP3FrameInfo, outcome: Result<i32, DecodeErr>) -> (r:
        Result<usize, EasyModeErr>)
        requires
            old(self).wf(),
            outcome matches Ok(left) ==> 0 <= left <= old(self)@.buffer.used(),
        ensures
            final(self).wf(),
            final(self)@ == old(self)@.finish_step(frame, outcome).0,
            r matches Ok(n) ==> old(self)@.finish_step(frame, outcome).1 == Ok::<nat, EasyModeErr>(n as nat),
            r matches Err(e) ==> old(self)@.finish_step(frame, outcome).1 == Err::<nat, EasyModeErr>(e),
    {
        match outcome {
            Ok(left) => {
                let consumed = self.buffer.used() - left as usize;
                self.buffer.increment_start(consumed);
                self.have_decoded = true;
                self.frame_info = Some(frame);
                Ok(frame.output_samples())
            },
            Err(e) => Err(EasyModeErr::from(e)),
        }
    }

    /// Metadata of the last frame decoded or probed, if any; where there is none, the
    /// driver asks the engine to probe the window.
    pub fn mp3_info(&self) -> (r: Option<MP3FrameInfo>)
        ensures
            r == self@.frame_info,
    {
        self.frame_info
    }
}

/// One whole decode as the driver runs it: the engine's probe of the next frame is
/// checked against the output length; only if that passes does the engine decode, and
/// its outcome is then taken by `finish_step`.
pub open spec fn decode_step(
    s: ControllerState,
    next_frame: Result<MP3FrameInfo, DecodeErr>,
    output_len: nat,
    outcome: Result<i32, DecodeErr>,
) -> (ControllerState, Result<nat, EasyModeErr>) {
    match check_result(next_frame, output_len) {
        Err(e) => (s, Err(e)),
        Ok(_) => s.finish_step(next_frame->Ok_0, outcome),
    }
}

/// When the engine finds less than a whole frame in the window, at the probe or at the
/// decode, the decode fails with `InDataUnderflow` and leaves the controller, its staging
/// buffer included, exactly as it was: adding data and retrying is always possible.
pub proof fn lemma_underflow_recoverable(
    s: ControllerState,
    next_frame: Result<MP3FrameInfo, DecodeErr>,
    output_len: nat,
    outcome: Result<i32, DecodeErr>,
)
    requires
        next_frame == Err::<MP3FrameInfo, DecodeErr>(DecodeErr::InDataUnderflow) || (next_frame is Ok
            && output_len >= next_frame->Ok_0.samples() && outcome == Err::<i32, DecodeErr>(
            DecodeErr::InDataUnderflow)),
    ensures
        decode_step(s, next_frame, output_len, outcome) == (s, Err::<nat, EasyModeErr>(
            EasyModeErr::InDataUnderflow,
        )),
{
}

/// An output buffer shorter than the next frame's sample count is refused with
/// `AudioBufferTooSmall` before the engine decodes, whatever the engine would report,
/// and the controller's state (buffer position, sync flag, cached metadata) is unchanged.
pub proof fn lemma_output_buffer_guard(
    s: ControllerState,
    frame: MP3FrameInfo,
    output_len: nat,
    outcome: Result<i32, DecodeErr>,
)
    requires
        output_len < frame.samples(),
    ensures
        check_result(Ok(frame), output_len) == Err::<nat, EasyModeErr>(
            EasyModeErr::AudioBufferTooSmall,
        ),
        decode_step(s, Ok(frame), output_len, outcome) == (s, Err::<nat, EasyModeErr>(
            EasyModeErr::AudioBufferTooSmall,
        )),
{
}

} // verus!
