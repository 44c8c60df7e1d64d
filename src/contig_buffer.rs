//! A fixed-capacity staging buffer that accumulates chunks of input and exposes the
//! unconsumed bytes as one contiguous window.
use vstd::prelude::*;
use vstd::slice::slice_subrange;

verus! {

/// Capacity of the staging buffer, in bytes.
pub const BUFF_SZ: usize = 1024;

/// Size of the chunks that `Buffer::load_more` pulls from a source.
pub const CHUNK_SZ: usize = 512;

/// Abstract state of a staging buffer: the readable window and where it lies in the
/// backing storage.
pub ghost struct BufferState {
    pub window: Seq<u8>,
    pub start: nat,
    pub end: nat,
}

impl BufferState {
    pub open spec fn wf(self) -> bool {
        &&& self.start <= self.end <= BUFF_SZ
        &&& self.window.len() == self.end - self.start
    }

    pub open spec fn used(self) -> nat {
        self.window.len()
    }

    pub open spec fn available(self) -> nat {
        (BUFF_SZ - self.used()) as nat
    }

    pub open spec fn tail_free(self) -> nat {
        (BUFF_SZ - self.end) as nat
    }

    /// The window moved to the front of the storage.
    pub open spec fn compact(self) -> BufferState {
        if self.start == 0 {
            self
        } else {
            BufferState { window: self.window, start: 0, end: self.used() }
        }
    }

    /// Where an append of `len` bytes writes: compacted first if the tail is too short.
    pub open spec fn prepared_for(self, len: nat) -> BufferState {
        if self.tail_free() < len {
            self.compact()
        } else {
            self
        }
    }

    /// How many bytes of an append of `len` bytes fit.
    pub open spec fn load_count(self, len: nat) -> nat {
        let t = self.prepared_for(len).tail_free();
        if t < len {
            t
        } else {
            len
        }
    }

    /// The state after appending as much of `data` as fits.
    pub open spec fn load(self, data: Seq<u8>) -> BufferState {
        let base = self.prepared_for(data.len());
        let n = self.load_count(data.len());
        BufferState { window: base.window + data.subrange(0, n as int), start: base.start, end: base.end + n }
    }

    /// The state after the first `n` bytes of the window are consumed.
    pub open spec fn advance(self, n: nat) -> BufferState {
        BufferState {
            window: self.window.subrange(n as int, self.window.len() as int),
            start: self.start + n,
            end: self.end,
        }
    }

    /// The empty state at the front of the storage.
    pub open spec fn empty() -> BufferState {
        BufferState { window: Seq::empty(), start: 0, end: 0 }
    }
}

/// Every operation keeps the state well formed, and in every well-formed state the used
/// and available space add up to the capacity, with the window exactly as long as the
/// used space.
pub proof fn lemma_capacity_invariant(s: BufferState, data: Seq<u8>, n: nat)
    requires
        s.wf(),
        n <= s.used(),
    ensures
        s.used() + s.available() == BUFF_SZ,
        s.window.len() == s.used(),
        s.load(data).wf(),
        s.advance(n).wf(),
        s.compact().wf(),
        BufferState::empty().wf(),
{
}

/// Appending data that fits loses nothing and keeps order, whether or not the append
/// compacts.
pub proof fn lemma_load_fits(s: BufferState, data: Seq<u8>)
    requires
        s.wf(),
        data.len() <= s.available(),
    ensures
        s.load_count(data.len()) == data.len(),
        s.load(data).window == s.window + data,
{
    assert(data.subrange(0, data.len() as int) =~= data);
}

/// Two loads that fit, read back from the window (by taking prefixes or the whole
/// window), give back exactly the bytes pushed, in order, across any compaction.
pub proof fn lemma_round_trip(s: BufferState, d1: Seq<u8>, d2: Seq<u8>)
    requires
        s.wf(),
        d1.len() + d2.len() <= s.available(),
    ensures
        s.load(d1).load(d2).window == s.window + d1 + d2,
        s.load(d1).load(d2).advance(s.used()).window == d1 + d2,
        s.load(d1).load(d2).advance(s.used() + d1.len()).window == d2,
{
    lemma_load_fits(s, d1);
    let t = s.load(d1);
    lemma_load_fits(t, d2);
    let u = t.load(d2);
    assert(u.window.subrange(s.used() as int, u.window.len() as int) =~= d1 + d2);
    assert(u.window.subrange((s.used() + d1.len()) as int, u.window.len() as int) =~= d2);
}

/// Compacting twice is compacting once, and compaction keeps the window.
pub proof fn lemma_compact_idempotent(s: BufferState)
    requires
        s.wf(),
    ensures
        s.compact().compact() == s.compact(),
        s.compact().window == s.window,
        s.compact().used() == s.used(),
{
}

/// Abstract state of a chunk source: the whole input, the read position and the chunk
/// size.
pub ghost struct SourceState {
    pub data: Seq<u8>,
    pub pos: nat,
    pub chunk_size: nat,
}

impl SourceState {
    pub open spec fn wf(self) -> bool {
        &&& self.pos <= self.data.len()
        &&& self.chunk_size > 0
    }

    pub open spec fn exhausted(self) -> bool {
        self.pos >= self.data.len()
    }

    /// End of the next chunk: one chunk size further, or the end of the input.
    pub open spec fn next_end(self) -> nat {
        if self.data.len() - self.pos < self.chunk_size {
            self.data.len()
        } else {
            self.pos + self.chunk_size
        }
    }

    pub open spec fn next_chunk(self) -> Seq<u8> {
        self.data.subrange(self.pos as int, self.next_end() as int)
    }

    pub open spec fn after_next(self) -> SourceState {
        SourceState { pos: self.next_end(), ..self }
    }

    /// Number of chunks not yet handed out.
    pub open spec fn chunks_left(self) -> nat {
        let rem = (self.data.len() - self.pos) as nat;
        rem / self.chunk_size + if rem % self.chunk_size == 0 {
            0nat
        } else {
            1nat
        }
    }
}

/// Buffer and source after chunks are pulled for as long as the buffer has room for a
/// whole chunk and the source has any left.
pub open spec fn fill(b: BufferState, src: SourceState) -> (BufferState, SourceState)
    decreases src.data.len() - src.pos,
{
    if b.available() >= CHUNK_SZ && src.pos < src.data.len() && src.chunk_size > 0 {
        fill(b.load(src.next_chunk()), src.after_next())
    } else {
        (b, src)
    }
}

/// Consecutive chunks of a byte slice, each `chunk_size` long but the last, which may be
/// shorter.
pub struct ChunkSource<'a> {
    data: &'a [u8],
    pos: usize,
    chunk_size: usize,
}

impl<'a> View for ChunkSource<'a> {
    type V = SourceState;

    closed spec fn view(&self) -> SourceState {
        SourceState { data: self.data@, pos: self.pos as nat, chunk_size: self.chunk_size as nat }
    }
}

impl<'a> ChunkSource<'a> {
    pub closed spec fn wf(&self) -> bool {
        &&& self.pos <= self.data@.len()
        &&& self.chunk_size > 0
    }

    pub fn new(data: &'a [u8], chunk_size: usize) -> (r: Self)
        requires
            chunk_size > 0,
        ensures
            r.wf(),
            r@ == (SourceState { data: data@, pos: 0, chunk_size: chunk_size as nat }),
    {
        ChunkSource { data, pos: 0, chunk_size }
    }

    /// The next chunk, or `None` once the input is used up.
    pub fn next_chunk(&mut self) -> (r: Option<&'a [u8]>)
        requires
            old(self).wf(),
        ensures
            final(self).wf(),
            old(self)@.exhausted() ==> r is None && final(self)@ == old(self)@,
            !old(self)@.exhausted() ==> r is Some && r->Some_0@ == old(self)@.next_chunk()
                && final(self)@ == old(self)@.after_next(),
    {
        if self.pos < self.data.len() {
            let end = if self.data.len() - self.pos < self.chunk_size {
                self.data.len()
            } else {
                self.pos + self.chunk_size
            };
            let c = slice_subrange(self.data, self.pos, end);
            self.pos = end;
            Some(c)
        } else {
            None
        }
    }

    /// Number of chunks not yet handed out.
    pub fn chunks_left(&self) -> (r: usize)
        requires
            self.wf(),
        ensures
            r == self@.chunks_left(),
    {
        let rem = self.data.len() - self.pos;
        let cs = self.chunk_size;
        let q = rem / cs;
        if rem % cs == 0 {
            q
        } else {
            assert(q < rem) by (nonlinear_arith)
                requires
                    q == rem / cs,
                    rem % cs != 0,
                    cs > 0,
            ;
            q + 1
        }
    }
}

/// The staging buffer. Bytes `[start, end)` of `bytes` are the readable window.
pub struct Buffer {
    bytes: Vec<u8>,
    start: usize,
    end: usize,
}

impl View for Buffer {
    type V = BufferState;

    closed spec fn view(&self) -> BufferState {
        BufferState {
            window: self.bytes@.subrange(self.start as int, self.end as int),
            start: self.start as nat,
            end: self.end as nat,
        }
    }
}

impl Buffer {
    pub closed spec fn wf(&self) -> bool {
        &&& self.bytes@.len() == BUFF_SZ
        &&& self.start <= self.end <= BUFF_SZ
    }

    /// A well-formed buffer has a well-formed abstract state.
    pub proof fn lemma_state_wf(&self)
        requires
            self.wf(),
        ensures
            self@.wf(),
    {
    }

    pub fn new() -> (r: Self)
        ensures
            r.wf(),
            r@ == BufferState::empty(),
    {
        let r = Buffer { bytes: vec![0u8; BUFF_SZ], start: 0, end: 0 };
        assert(r@.window =~= Seq::<u8>::empty());
        r
    }

    /// How much data is stored in the buffer.
    pub fn used(&self) -> (r: usize)
        requires
            self.wf(),
        ensures
            r == self@.used(),
    {
        self.end - self.start
    }

    /// How much free space is in the buffer.
    pub fn available(&self) -> (r: usize)
        requires
            self.wf(),
        ensures
            r == self@.available(),
    {
        BUFF_SZ - self.used()
    }

    /// How much contiguous free space there is at the end of the buffer.
    pub fn tail_free(&self) -> (r: usize)
        requires
            self.wf(),
        ensures
            r == self@.tail_free(),
    {
        BUFF_SZ - self.end
    }

    /// Shuffles the window to the front of the storage, keeping its bytes and order.
    pub fn remove_unused(&mut self)
        requires
            old(self).wf(),
        ensures
            final(self).wf(),
            final(self)@ == old(self)@.compact(),
    {
        if self.start != 0 {
            let start = self.start;
            let used = self.end - self.start;
            let ghost orig = self.bytes@;
            let mut k: usize = 0;
            while k < used
                invariant
                    0 < start,
                    start + used <= BUFF_SZ,
                    k <= used,
                    self.bytes@.len() == BUFF_SZ,
                    forall|i: int| 0 <= i < k ==> self.bytes@[i] == orig[start + i],
                    forall|i: int| k <= i < BUFF_SZ ==> self.bytes@[i] == orig[i],
                decreases used - k,
            {
                let b = self.bytes[start + k];
                self.bytes.set(k, b);
                k += 1;
            }
            self.start = 0;
            self.end = used;
            assert(self@.window =~= old(self)@.window);
        }
    }

    /// Appends as much of `data` as fits, compacting first when the tail is too short.
    /// Returns the number of bytes taken.
    pub fn load_slice(&mut self, data: &[u8]) -> (r: usize)
        requires
            old(self).wf(),
        ensures
            final(self).wf(),
            final(self)@ == old(self)@.load(data@),
            r == old(self)@.load_count(data@.len()),
    {
        if self.tail_free() < data.len() {
            self.remove_unused();
        }
        let loadsize = if self.tail_free() < data.len() {
            self.tail_free()
        } else {
            data.len()
        };
        let base = self.end;
        let ghost orig = self.bytes@;
        let ghost mid = self@;
        assert(mid == old(self)@.prepared_for(data@.len()));
        let mut k: usize = 0;
        while k < loadsize
            invariant
                self.start <= base,
                self.end == base,
                orig.len() == BUFF_SZ,
                mid.window == orig.subrange(self.start as int, base as int),
                base + loadsize <= BUFF_SZ,
                loadsize <= data@.len(),
                k <= loadsize,
                self.bytes@.len() == BUFF_SZ,
                forall|i: int| 0 <= i < base ==> self.bytes@[i] == orig[i],
                forall|i: int| 0 <= i < k ==> self.bytes@[base + i] == data@[i],
            decreases loadsize - k,
        {
            self.bytes.set(base + k, data[k]);
            k += 1;
        }
        self.end = base + loadsize;
        assert(self@.window =~= old(self)@.load(data@).window);
        loadsize
    }

    /// Pulls chunks from `loader` while a whole chunk fits, appending each one. Returns
    /// whether anything was loaded.
    pub fn load_more(&mut self, loader: &mut ChunkSource) -> (r: bool)
        requires
            old(self).wf(),
            old(loader).wf(),
            old(loader)@.chunk_size <= CHUNK_SZ,
        ensures
            final(self).wf(),
            final(loader).wf(),
            (final(self)@, final(loader)@) == fill(old(self)@, old(loader)@),
            r == (old(self)@.available() >= CHUNK_SZ && !old(loader)@.exhausted()),
    {
        let mut loaded_some = false;
        while self.available() >= CHUNK_SZ
            invariant
                self.wf(),
                loader.wf(),
                loader@.chunk_size == old(loader)@.chunk_size,
                loader@.data == old(loader)@.data,
                fill(self@, loader@) == fill(old(self)@, old(loader)@),
                loaded_some ==> old(self)@.available() >= CHUNK_SZ && !old(loader)@.exhausted(),
                !loaded_some ==> self@ == old(self)@ && loader@ == old(loader)@,
            decreases loader@.data.len() - loader@.pos,
        {
            match loader.next_chunk() {
                Some(d) => {
                    self.load_slice(d);
                    loaded_some = true;
                },
                None => {
                    return loaded_some;
                },
            }
        }
        loaded_some
    }

    /// Consumes `increment` bytes from the front of the window.
    pub fn increment_start(&mut self, increment: usize)
        requires
            old(self).wf(),
            increment <= old(self)@.used(),
        ensures
            final(self).wf(),
            final(self)@ == old(self)@.advance(increment as nat),
    {
        self.start = self.start + increment;
        assert(self@.window =~= old(self)@.advance(increment as nat).window);
    }

    /// The readable window.
    pub fn borrow_slice(&self) -> (r: &[u8])
        requires
            self.wf(),
        ensures
            r@ == self@.window,
    {
        slice_subrange(self.bytes.as_slice(), self.start, self.end)
    }

    /// Hands out the whole window and empties the buffer.
    pub fn take_slice(&mut self) -> (r: &[u8])
        requires
            old(self).wf(),
        ensures
            final(self).wf(),
            final(self)@ == BufferState::empty(),
            r@ == old(self)@.window,
    {
        let start = self.start;
        let end = self.end;
        self.start = 0;
        self.end = 0;
        assert(self@.window =~= Seq::<u8>::empty());
        slice_subrange(self.bytes.as_slice(), start, end)
    }

    /// Hands out the first `slice_size` bytes of the window and consumes them, or fails
    /// without change when fewer are buffered.
    pub fn take_subslice(&mut self, slice_size: usize) -> (r: Result<&[u8], ()>)
        requires
            old(self).wf(),
        ensures
            final(self).wf(),
            slice_size <= old(self)@.used() ==> r is Ok
                && r->Ok_0@ == old(self)@.window.subrange(0, slice_size as int)
                && final(self)@ == old(self)@.advance(slice_size as nat),
            slice_size > old(self)@.used() ==> r is Err && final(self)@ == old(self)@,
    {
        if slice_size <= self.used() {
            let start = self.start;
            let end = start + slice_size;
            self.start = end;
            assert(self@.window =~= old(self)@.advance(slice_size as nat).window);
            let s = slice_subrange(self.bytes.as_slice(), start, end);
            assert(s@ =~= old(self)@.window.subrange(0, slice_size as int));
            Ok(s)
        } else {
            Err(())
        }
    }
}

} // verus!
