//! The WAV container, as bytes.
//!
//! A recording is a 44-byte header, then the samples as little-endian
//! 16-bit values. The header carries two sizes that are only known at the
//! end, so a file is written in three kinds of steps: the header with both
//! sizes zero, the sample data as it comes, and at last the two sizes in
//! their places. `WavFileWriter` hands out the bytes for each step and keeps
//! count; putting them into a file is the caller's part.

use vstd::prelude::*;
use crate::frame::AudioFrame;
use crate::frame::BITS_PER_SAMPLE;
use crate::frame::CHANNELS;
use crate::frame::FRAME_BYTES;
use crate::frame::FRAME_SAMPLES;
use crate::frame::FRAME_TICKS;
use crate::frame::SAMPLE_RATE;

verus! {

/// Bytes before the first sample.
pub const HEADER_LEN: usize = 44;

/// Where the RIFF size stands in the file.
pub const RIFF_SIZE_OFFSET: usize = 4;

/// Where the size of the data chunk stands in the file.
pub const DATA_SIZE_OFFSET: usize = 40;

/// Header bytes that the RIFF size counts: all but the first eight.
pub const RIFF_OVERHEAD: u32 = 36;

/// The most sample data, in bytes, whose RIFF size still fits in 32 bits.
pub const MAX_DATA_LEN: u32 = 4294967259;

/// Bytes of sample data per second.
pub const BYTE_RATE: u32 = 176400;

/// Bytes of one sample instant, all channels together.
pub const BLOCK_ALIGN: u16 = 4;

/// The two bytes of `x`, low byte first.
pub open spec fn le16(x: int) -> Seq<u8> {
    seq![(x % 256) as u8, (x / 256 % 256) as u8]
}

/// The four bytes of `x`, lowest byte first.
pub open spec fn le32(x: int) -> Seq<u8> {
    seq![
        (x % 256) as u8,
        (x / 256 % 256) as u8,
        (x / 65536 % 256) as u8,
        (x / 16777216 % 256) as u8,
    ]
}

/// The number that the two bytes at `at` hold, low byte first.
pub open spec fn read_le16(bytes: Seq<u8>, at: int) -> int {
    bytes[at] + 256 * bytes[at + 1]
}

/// The number that the four bytes at `at` hold, lowest byte first.
pub open spec fn read_le32(bytes: Seq<u8>, at: int) -> int {
    bytes[at] + 256 * bytes[at + 1] + 65536 * bytes[at + 2] + 16777216 * bytes[at + 3]
}

/// One sample in the file: its 16 bits in two's complement, low byte first.
pub open spec fn sample_bytes(s: i16) -> Seq<u8> {
    le16(if s >= 0 { s as int } else { s + 65536 })
}

/// The data chunk's content for `samples`: two bytes each, in order.
pub open spec fn data_image(samples: Seq<i16>) -> Seq<u8>
    decreases samples.len(),
{
    if samples.len() == 0 {
        Seq::empty()
    } else {
        data_image(samples.drop_last()) + sample_bytes(samples.last())
    }
}

/// The header of a stereo, 44.1 kHz, 16-bit PCM file whose size fields say
/// `riff_len` and `data_len`.
pub open spec fn header_image(riff_len: int, data_len: int) -> Seq<u8> {
    let r = le32(riff_len);
    let d = le32(data_len);
    seq![
        // "RIFF", then the bytes that follow this field
        0x52u8, 0x49, 0x46, 0x46, r[0], r[1], r[2], r[3],
        // "WAVE"
        0x57, 0x41, 0x56, 0x45,
        // "fmt ", 16 bytes of format follow
        0x66, 0x6d, 0x74, 0x20, 0x10, 0x00, 0x00, 0x00,
        // integer PCM, two channels
        0x01, 0x00, 0x02, 0x00,
        // 44100 sample instants and 176400 bytes per second
        0x44, 0xac, 0x00, 0x00, 0x10, 0xb1, 0x02, 0x00,
        // four bytes per sample instant, 16 bits per sample
        0x04, 0x00, 0x10, 0x00,
        // "data", then the bytes of sample data
        0x64, 0x61, 0x74, 0x61, d[0], d[1], d[2], d[3],
    ]
}

/// The file of a recording that was closed properly: both sizes in place.
pub open spec fn finished_image(samples: Seq<i16>) -> Seq<u8> {
    header_image(RIFF_OVERHEAD + 2 * samples.len(), 2 * samples.len() as int) + data_image(samples)
}

/// The file of a recording that never reached its end: the sizes still zero.
pub open spec fn unfinished_image(samples: Seq<i16>) -> Seq<u8> {
    header_image(0, 0) + data_image(samples)
}

/// `file` with the two size fields overwritten.
pub open spec fn patched(file: Seq<u8>, riff_len: int, data_len: int) -> Seq<u8> {
    let r = le32(riff_len);
    let d = le32(data_len);
    file.update(4, r[0]).update(5, r[1]).update(6, r[2]).update(7, r[3]).update(40, d[0]).update(
        41,
        d[1],
    ).update(42, d[2]).update(43, d[3])
}

/// Why a WAV operation was refused.
#[derive(Debug, Clone, Copy, PartialEq, Eq, Structural)]
pub enum WavError {
    /// Fewer bytes than a header has.
    TooShort,
    /// The RIFF, WAVE, fmt or data tag is not where it belongs.
    NotWave,
    /// A WAV header, but not of 16-bit integer PCM with a channel and a rate.
    Unsupported,
    /// The writer was finalized before.
    Finalized,
    /// The sample data would outgrow the 32-bit size fields.
    TooLarge,
}

/// What a header says of its file.
#[derive(Debug, Clone, Copy, PartialEq, Eq, Structural)]
pub struct WavInfo {
    pub channels: u16,
    pub sample_rate: u32,
    pub bits_per_sample: u16,
    /// Bytes of sample data, as the header declares them.
    pub data_len: u32,
}

impl WavInfo {
    /// Holds of every header that `parse_header` accepts.
    pub open spec fn valid(self) -> bool {
        self.channels >= 1 && self.sample_rate >= 1 && self.bits_per_sample == 16
    }

    /// Sample values in the file, all channels counted.
    pub open spec fn spec_sample_count(self) -> int {
        self.data_len as int / 2
    }

    /// Sample instants in the file: its length in time, in units of
    /// `1 / sample_rate` seconds.
    pub open spec fn spec_duration(self) -> int {
        self.spec_sample_count() / self.channels as int
    }

    /// Whole seconds of audio in the file.
    pub open spec fn spec_seconds(self) -> int {
        self.spec_duration() / self.sample_rate as int
    }

    pub fn sample_count(self) -> (n: u32)
        ensures
            n == self.spec_sample_count(),
    {
        self.data_len / 2
    }

    pub fn duration(self) -> (n: u32)
        requires
            self.channels >= 1,
        ensures
            n == self.spec_duration(),
    {
        self.data_len / 2 / (self.channels as u32)
    }

    pub fn seconds(self) -> (n: u32)
        requires
            self.channels >= 1,
            self.sample_rate >= 1,
        ensures
            n == self.spec_seconds(),
    {
        self.data_len / 2 / (self.channels as u32) / self.sample_rate
    }
}

/// The four bytes at `at` are `a`, `b`, `c`, `d`.
pub open spec fn tag_at(bytes: Seq<u8>, at: int, a: u8, b: u8, c: u8, d: u8) -> bool {
    bytes[at] == a && bytes[at + 1] == b && bytes[at + 2] == c && bytes[at + 3] == d
}

/// The four tags of a canonical header stand in their places.
pub open spec fn has_tags(bytes: Seq<u8>) -> bool {
    &&& tag_at(bytes, 0, 0x52, 0x49, 0x46, 0x46)
    &&& tag_at(bytes, 8, 0x57, 0x41, 0x56, 0x45)
    &&& tag_at(bytes, 12, 0x66, 0x6d, 0x74, 0x20)
    &&& tag_at(bytes, 36, 0x64, 0x61, 0x74, 0x61)
}

/// What the format fields of a header with its tags in place say.
pub open spec fn header_info(bytes: Seq<u8>) -> WavInfo {
    WavInfo {
        channels: read_le16(bytes, 22) as u16,
        sample_rate: read_le32(bytes, 24) as u32,
        bits_per_sample: read_le16(bytes, 34) as u16,
        data_len: read_le32(bytes, 40) as u32,
    }
}

/// The meaning of the first 44 bytes of a file.
pub open spec fn parse_spec(bytes: Seq<u8>) -> Result<WavInfo, WavError> {
    if bytes.len() < HEADER_LEN {
        Err(WavError::TooShort)
    } else if !has_tags(bytes) {
        Err(WavError::NotWave)
    } else if read_le32(bytes, 16) != 16 || read_le16(bytes, 20) != 1 || !header_info(bytes).valid() {
        Err(WavError::Unsupported)
    } else {
        Ok(header_info(bytes))
    }
}

fn get_le16(bytes: &Vec<u8>, at: usize) -> (x: u16)
    requires
        at + 2 <= bytes.len(),
    ensures
        x == read_le16(bytes@, at as int),
{
    (bytes[at] as u16) + 256 * (bytes[at + 1] as u16)
}

fn get_le32(bytes: &Vec<u8>, at: usize) -> (x: u32)
    requires
        at + 4 <= bytes.len(),
    ensures
        x == read_le32(bytes@, at as int),
{
    (bytes[at] as u32) + 256 * (bytes[at + 1] as u32) + 65536 * (bytes[at + 2] as u32) + 16777216 * (
    bytes[at + 3] as u32)
}

fn check_tag(bytes: &Vec<u8>, at: usize, a: u8, b: u8, c: u8, d: u8) -> (r: bool)
    requires
        at + 4 <= bytes.len(),
    ensures
        r == tag_at(bytes@, at as int, a, b, c, d),
{
    bytes[at] == a && bytes[at + 1] == b && bytes[at + 2] == c && bytes[at + 3] == d
}

/// Reads the header of a WAV file from the start of `bytes`.
pub fn parse_header(bytes: &Vec<u8>) -> (r: Result<WavInfo, WavError>)
    ensures
        r == parse_spec(bytes@),
        r matches Ok(info) ==> info.valid(),
{
    if bytes.len() < HEADER_LEN {
        return Err(WavError::TooShort);
    }
    let tags = check_tag(bytes, 0, 0x52, 0x49, 0x46, 0x46) && check_tag(bytes, 8, 0x57, 0x41, 0x56, 0x45)
        && check_tag(bytes, 12, 0x66, 0x6d, 0x74, 0x20) && check_tag(bytes, 36, 0x64, 0x61, 0x74, 0x61);
    if !tags {
        return Err(WavError::NotWave);
    }
    let info = WavInfo {
        channels: get_le16(bytes, 22),
        sample_rate: get_le32(bytes, 24),
        bits_per_sample: get_le16(bytes, 34),
        data_len: get_le32(bytes, 40),
    };
    if get_le32(bytes, 16) != 16 || get_le16(bytes, 20) != 1 || info.channels == 0 || info.sample_rate == 0
        || info.bits_per_sample != 16 {
        return Err(WavError::Unsupported);
    }
    Ok(info)
}

/// The four bytes of `x`, lowest byte first.
pub fn le32_bytes(x: u32) -> (r: Vec<u8>)
    ensures
        r@ == le32(x as int),
{
    let r = vec![
        (x % 256) as u8,
        (x / 256 % 256) as u8,
        (x / 65536 % 256) as u8,
        (x / 16777216 % 256) as u8,
    ];
    assert(r@ =~= le32(x as int));
    r
}

/// The header for the given size fields.
pub fn header_bytes(riff_len: u32, data_len: u32) -> (r: Vec<u8>)
    ensures
        r@ == header_image(riff_len as int, data_len as int),
        r@.len() == HEADER_LEN,
{
    let r0 = (riff_len % 256) as u8;
    let r1 = (riff_len / 256 % 256) as u8;
    let r2 = (riff_len / 65536 % 256) as u8;
    let r3 = (riff_len / 16777216 % 256) as u8;
    let d0 = (data_len % 256) as u8;
    let d1 = (data_len / 256 % 256) as u8;
    let d2 = (data_len / 65536 % 256) as u8;
    let d3 = (data_len / 16777216 % 256) as u8;
    let r = vec![
        0x52u8, 0x49, 0x46, 0x46, r0, r1, r2, r3,
        0x57, 0x41, 0x56, 0x45,
        0x66, 0x6d, 0x74, 0x20, 0x10, 0x00, 0x00, 0x00,
        0x01, 0x00, 0x02, 0x00,
        0x44, 0xac, 0x00, 0x00, 0x10, 0xb1, 0x02, 0x00,
        0x04, 0x00, 0x10, 0x00,
        0x64, 0x61, 0x74, 0x61, d0, d1, d2, d3,
    ];
    assert(r@ =~= header_image(riff_len as int, data_len as int));
    r
}

/// The bytes of `samples` as they stand in the data chunk.
pub fn encode_samples(samples: &Vec<i16>) -> (r: Vec<u8>)
    ensures
        r@ == data_image(samples@),
        r@.len() == 2 * samples@.len(),
{
    let mut out: Vec<u8> = Vec::new();
    let mut i: usize = 0;
    while i < samples.len()
        invariant
            i <= samples@.len(),
            out@ == data_image(samples@.take(i as int)),
            out@.len() == 2 * i,
        decreases samples@.len() - i,
    {
        let s = samples[i];
        let w: i32 = if s >= 0 {
            s as i32
        } else {
            s as i32 + 65536
        };
        proof {
            let next = samples@.take(i + 1);
            assert(next.drop_last() =~= samples@.take(i as int));
            assert(next.last() == s);
            assert(data_image(next) =~= out@ + sample_bytes(s));
        }
        out.push((w % 256) as u8);
        out.push((w / 256 % 256) as u8);
        i = i + 1;
        assert(out@ =~= data_image(samples@.take(i as int)));
    }
    assert(samples@.take(i as int) =~= samples@);
    out
}

/// The numbers that finalizing puts into the header.
#[derive(Debug, Clone, Copy, PartialEq, Eq, Structural)]
pub struct SizePatch {
    /// Goes to `RIFF_SIZE_OFFSET`: the bytes of the file after that field.
    pub riff_len: u32,
    /// Goes to `DATA_SIZE_OFFSET`: the bytes of sample data.
    pub data_len: u32,
}

impl SizePatch {
    /// The four bytes to write at `RIFF_SIZE_OFFSET`.
    pub fn riff_bytes(&self) -> (r: Vec<u8>)
        ensures
            r@ == le32(self.riff_len as int),
    {
        le32_bytes(self.riff_len)
    }

    /// The four bytes to write at `DATA_SIZE_OFFSET`.
    pub fn data_bytes(&self) -> (r: Vec<u8>)
        ensures
            r@ == le32(self.data_len as int),
    {
        le32_bytes(self.data_len)
    }

    /// Puts both sizes into a file that is held in memory.
    pub fn apply(&self, file: &mut Vec<u8>)
        requires
            old(file)@.len() >= HEADER_LEN,
        ensures
            final(file)@ == patched(old(file)@, self.riff_len as int, self.data_len as int),
    {
        let r = le32_bytes(self.riff_len);
        let d = le32_bytes(self.data_len);
        file.set(4, r[0]);
        file.set(5, r[1]);
        file.set(6, r[2]);
        file.set(7, r[3]);
        file.set(40, d[0]);
        file.set(41, d[1]);
        file.set(42, d[2]);
        file.set(43, d[3]);
    }
}

/// A writer as mathematics: the samples it has taken, and whether it was
/// finalized.
pub struct WriterState {
    pub samples: Seq<i16>,
    pub finalized: bool,
}

impl WriterState {
    /// The file, if every step that the writer handed out was carried out.
    pub open spec fn image(self) -> Seq<u8> {
        if self.finalized {
            finished_image(self.samples)
        } else {
            unfinished_image(self.samples)
        }
    }
}

/// Produces a WAV file step by step. Each method returns the bytes of its
/// step; the caller appends them to the file (or, for the sizes, overwrites
/// eight bytes of the header).
pub struct WavFileWriter {
    data_len: u32,
    finalized: bool,
    samples: Ghost<Seq<i16>>,
}

impl View for WavFileWriter {
    type V = WriterState;

    closed spec fn view(&self) -> WriterState {
        WriterState { samples: self.samples@, finalized: self.finalized }
    }
}

impl WavFileWriter {
    /// The writer's count is the count of the samples it has taken.
    pub closed spec fn counted(&self) -> bool {
        self.data_len == 2 * self.samples@.len()
    }

    /// A writer never holds more than the size fields can declare.
    pub open spec fn wf(&self) -> bool {
        self.counted() && 2 * self@.samples.len() <= MAX_DATA_LEN
    }

    /// Starts a file. The bytes that come back are a complete header with
    /// both sizes zero: written at once, they leave a file that a reader
    /// accepts whatever happens later.
    pub fn open() -> (r: (WavFileWriter, Vec<u8>))
        ensures
            r.0.wf(),
            r.0@ == (WriterState { samples: Seq::empty(), finalized: false }),
            r.1@ == header_image(0, 0),
            r.1@ == r.0@.image(),
    {
        let w = WavFileWriter { data_len: 0, finalized: false, samples: Ghost(Seq::empty()) };
        let header = header_bytes(0, 0);
        assert(w@.image() =~= header@);
        (w, header)
    }

    /// Takes one frame and returns its bytes, to be appended to the file.
    /// Refused after `finalize`, and when the file could not hold the frame
    /// within the 32-bit size fields; a refusal changes nothing.
    pub fn write_frame(&mut self, frame: &AudioFrame) -> (r: Result<Vec<u8>, WavError>)
        requires
            old(self).wf(),
            frame.wf(),
        ensures
            final(self).wf(),
            old(self)@.finalized ==> r == Err::<Vec<u8>, WavError>(WavError::Finalized),
            !old(self)@.finalized && 2 * old(self)@.samples.len() + FRAME_BYTES > MAX_DATA_LEN ==> r
                == Err::<Vec<u8>, WavError>(WavError::TooLarge),
            r is Err ==> final(self)@ == old(self)@,
            r is Ok <==> !old(self)@.finalized && 2 * old(self)@.samples.len() + FRAME_BYTES
                <= MAX_DATA_LEN,
            r matches Ok(bytes) ==> {
                &&& bytes@ == data_image(frame@)
                &&& final(self)@ == (WriterState {
                    samples: old(self)@.samples + frame@,
                    finalized: false,
                })
                &&& final(self)@.image() == old(self)@.image() + bytes@
            },
    {
        if self.finalized {
            return Err(WavError::Finalized);
        }
        if self.data_len > MAX_DATA_LEN - FRAME_BYTES {
            return Err(WavError::TooLarge);
        }
        let bytes = encode_samples(frame.samples());
        proof {
            lemma_data_image_concat(self.samples@, frame@);
        }
        self.data_len = self.data_len + FRAME_BYTES;
        self.samples = Ghost(self.samples@ + frame@);
        assert(self@.image() =~= old(self)@.image() + bytes@);
        Ok(bytes)
    }

    /// Ends the file. The sizes that come back go into the header; with them
    /// in place the header declares exactly the samples written. Refused if
    /// the writer was finalized before.
    pub fn finalize(&mut self) -> (r: Result<SizePatch, WavError>)
        requires
            old(self).wf(),
        ensures
            final(self).wf(),
            r is Err <==> old(self)@.finalized,
            r is Err ==> r == Err::<SizePatch, WavError>(WavError::Finalized) && final(self)@ == old(self)@,
            r matches Ok(patch) ==> {
                &&& patch.data_len == 2 * old(self)@.samples.len()
                &&& patch.riff_len == RIFF_OVERHEAD + 2 * old(self)@.samples.len()
                &&& final(self)@ == (WriterState { samples: old(self)@.samples, finalized: true })
                &&& final(self)@.image() == patched(
                    old(self)@.image(),
                    patch.riff_len as int,
                    patch.data_len as int,
                )
            },
    {
        if self.finalized {
            return Err(WavError::Finalized);
        }
        self.finalized = true;
        proof {
            lemma_patch_finishes(self.samples@);
        }
        Ok(SizePatch { riff_len: RIFF_OVERHEAD + self.data_len, data_len: self.data_len })
    }

    /// Bytes of sample data handed out so far.
    pub fn data_len(&self) -> (n: u32)
        requires
            self.wf(),
        ensures
            n == 2 * self@.samples.len(),
    {
        self.data_len
    }

    /// Sample values handed out so far.
    pub fn samples_written(&self) -> (n: u32)
        requires
            self.wf(),
        ensures
            n == self@.samples.len(),
    {
        self.data_len / 2
    }

    pub fn is_finalized(&self) -> (b: bool)
        ensures
            b == self@.finalized,
    {
        self.finalized
    }
}

/// Every sample takes two bytes.
pub proof fn lemma_data_image_len(samples: Seq<i16>)
    ensures
        data_image(samples).len() == 2 * samples.len(),
    decreases samples.len(),
{
    if samples.len() > 0 {
        lemma_data_image_len(samples.drop_last());
    }
}

/// The bytes of two runs of samples, one after the other, are the bytes of
/// the first followed by the bytes of the second.
pub proof fn lemma_data_image_concat(a: Seq<i16>, b: Seq<i16>)
    ensures
        data_image(a + b) == data_image(a) + data_image(b),
    decreases b.len(),
{
    if b.len() == 0 {
        assert(a + b =~= a);
        assert(data_image(a) + data_image(b) =~= data_image(a));
    } else {
        lemma_data_image_concat(a, b.drop_last());
        assert((a + b).drop_last() =~= a + b.drop_last());
        assert((a + b).last() == b.last());
        assert(data_image(a + b) =~= data_image(a) + data_image(b));
    }
}

/// Four bytes, lowest first, hold a 32-bit number exactly.
pub proof fn lemma_le32_reads_back(x: u32)
    ensures
        le32(x as int).len() == 4,
        read_le32(le32(x as int), 0) == x,
{
}

/// Writing the sizes into the file of an unfinished recording gives the
/// file of a finished one.
pub proof fn lemma_patch_finishes(samples: Seq<i16>)
    ensures
        patched(
            unfinished_image(samples),
            RIFF_OVERHEAD + 2 * samples.len(),
            2 * samples.len() as int,
        ) == finished_image(samples),
{
    assert(patched(
        unfinished_image(samples),
        RIFF_OVERHEAD + 2 * samples.len(),
        2 * samples.len() as int,
    ) =~= finished_image(samples));
}

/// The header states the recording format: each format field reads back as
/// the constant it stands for, whatever the sizes are.
pub proof fn lemma_header_states_format(riff_len: int, data_len: int)
    ensures
        has_tags(header_image(riff_len, data_len)),
        read_le32(header_image(riff_len, data_len), 16) == 16,
        read_le16(header_image(riff_len, data_len), 20) == 1,
        read_le16(header_image(riff_len, data_len), 22) == CHANNELS,
        read_le32(header_image(riff_len, data_len), 24) == SAMPLE_RATE,
        read_le32(header_image(riff_len, data_len), 28) == BYTE_RATE,
        read_le16(header_image(riff_len, data_len), 32) == BLOCK_ALIGN,
        read_le16(header_image(riff_len, data_len), 34) == BITS_PER_SAMPLE,
        BYTE_RATE == SAMPLE_RATE * BLOCK_ALIGN,
        BLOCK_ALIGN * 8 == CHANNELS * BITS_PER_SAMPLE,
{
}

/// The size fields of a header read back as the numbers they were made of.
pub proof fn lemma_header_states_sizes(riff_len: u32, data_len: u32)
    ensures
        header_image(riff_len as int, data_len as int).len() == HEADER_LEN,
        read_le32(header_image(riff_len as int, data_len as int), 4) == riff_len,
        read_le32(header_image(riff_len as int, data_len as int), 40) == data_len,
{
}

/// A header alone parses to the recording format and the data size it holds.
pub proof fn lemma_header_parses(riff_len: u32, data_len: u32)
    ensures
        parse_spec(header_image(riff_len as int, data_len as int)) == Ok::<WavInfo, WavError>(
            WavInfo {
                channels: CHANNELS,
                sample_rate: SAMPLE_RATE,
                bits_per_sample: BITS_PER_SAMPLE,
                data_len,
            },
        ),
{
    lemma_header_states_format(riff_len as int, data_len as int);
    lemma_header_states_sizes(riff_len, data_len);
}

/// Parsing looks at the first 44 bytes and at nothing else.
pub proof fn lemma_parse_reads_header_only(a: Seq<u8>, b: Seq<u8>)
    requires
        a.len() >= HEADER_LEN,
        b.len() >= HEADER_LEN,
        forall|i: int| 0 <= i < HEADER_LEN ==> a[i] == b[i],
    ensures
        parse_spec(a) == parse_spec(b),
{
}

/// Round trip of a finished recording. Parsed, its file reports the
/// recording format and exactly the samples that were written: their count,
/// and as duration one sample instant for every two of them.
pub proof fn lemma_finished_file_reads_back(samples: Seq<i16>)
    requires
        2 * samples.len() <= MAX_DATA_LEN,
    ensures
        parse_spec(finished_image(samples)) == Ok::<WavInfo, WavError>(
            WavInfo {
                channels: CHANNELS,
                sample_rate: SAMPLE_RATE,
                bits_per_sample: BITS_PER_SAMPLE,
                data_len: (2 * samples.len()) as u32,
            },
        ),
        parse_spec(finished_image(samples))->Ok_0.spec_sample_count() == samples.len(),
        parse_spec(finished_image(samples))->Ok_0.spec_duration() == samples.len() / 2,
        read_le32(finished_image(samples), 4) + 8 == finished_image(samples).len(),
{
    let d: u32 = (2 * samples.len()) as u32;
    let r: u32 = (RIFF_OVERHEAD + d) as u32;
    let header = header_image(r as int, d as int);
    let file = finished_image(samples);
    lemma_data_image_len(samples);
    lemma_header_states_sizes(r, d);
    lemma_header_parses(r, d);
    assert(file == header + data_image(samples));
    assert forall|i: int| 0 <= i < HEADER_LEN implies file[i] == header[i] by {}
    lemma_parse_reads_header_only(file, header);
}

/// A recording of whole frames lasts `FRAME_TICKS` sample instants per
/// frame. In seconds that is the count of its sample instants divided by the
/// sample rate, rounded down: off by less than one second, and so by less
/// than one frame where a frame is the unit.
pub proof fn lemma_duration_of_frames(samples: Seq<i16>, frames: nat)
    requires
        samples.len() == frames * FRAME_SAMPLES,
        2 * samples.len() <= MAX_DATA_LEN,
    ensures
        parse_spec(finished_image(samples)) is Ok,
        parse_spec(finished_image(samples))->Ok_0.spec_sample_count() == frames * FRAME_SAMPLES,
        parse_spec(finished_image(samples))->Ok_0.spec_duration() == frames * FRAME_TICKS,
        parse_spec(finished_image(samples))->Ok_0.spec_seconds() * SAMPLE_RATE <= frames
            * FRAME_TICKS < (parse_spec(finished_image(samples))->Ok_0.spec_seconds() + 1)
            * SAMPLE_RATE,
{
    lemma_finished_file_reads_back(samples);
}

/// The documented limit of an interrupted recording. Its file is still a
/// valid WAV file with every sample in place, but the header declares no
/// sample data: only `finalize` makes the sizes right.
pub proof fn lemma_unfinished_file_reads_as_empty(samples: Seq<i16>)
    ensures
        parse_spec(unfinished_image(samples)) == Ok::<WavInfo, WavError>(
            WavInfo {
                channels: CHANNELS,
                sample_rate: SAMPLE_RATE,
                bits_per_sample: BITS_PER_SAMPLE,
                data_len: 0,
            },
        ),
        unfinished_image(samples).skip(HEADER_LEN as int) == data_image(samples),
{
    let header = header_image(0, 0);
    let file = unfinished_image(samples);
    lemma_header_states_sizes(0, 0);
    lemma_header_parses(0, 0);
    assert forall|i: int| 0 <= i < HEADER_LEN implies file[i] == header[i] by {}
    lemma_parse_reads_header_only(file, header);
    assert(file.skip(HEADER_LEN as int) =~= data_image(samples));
}

} // verus!
