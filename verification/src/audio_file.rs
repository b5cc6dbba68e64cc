//! Decisions of audio-file decoding for transcription: which files are
//! accepted, how an Ogg Opus stream is recognised and trimmed, and when a
//! decoded stream is rejected. Reading files and decoding samples happen
//! around these decisions.
use vstd::prelude::*;
use crate::text::{ascii_lowercase, range_lowers_to};

verus! {

/// Sample rate that the speech-to-text engines take.
pub const TARGET_SAMPLE_RATE: u32 = 16_000;
/// Sample rate at which Opus is decoded.
pub const OPUS_SAMPLE_RATE: u32 = 48_000;
/// Largest Opus frame, in samples per channel (120 ms at 48 kHz).
pub const MAX_OPUS_FRAME_SAMPLES: usize = 5_760;
/// Largest accepted audio file: 1 GiB.
pub const MAX_FILE_BYTES: u64 = 1_073_741_824;

/// Why an audio file is not decoded.
#[derive(Clone, Copy, Debug, PartialEq, Eq, Structural)]
pub enum AudioDecodeError {
    /// The selected path is not a regular file.
    NotAFile,
    /// The file is larger than `MAX_FILE_BYTES`.
    FileTooLarge,
    /// The Ogg Opus identification header is too short or lacks its magic.
    InvalidOpusHeader,
    /// The Opus stream has neither one nor two channels.
    UnsupportedOpusChannels,
    /// The Opus stream uses this channel mapping family (only 0 is supported).
    UnsupportedOpusMapping(u8),
    /// The stream demands a decoder reset, which is not supported.
    DecoderResetRequired,
    /// Reading or decoding the stream failed.
    StreamFailed,
    /// The sample rate changes in the middle of the stream.
    SampleRateChanged,
    /// A decoded buffer has no channels.
    NoChannels,
    /// Nothing in the file could be decoded.
    NoDecodableSamples,
}

/// A file is taken when it is a regular file of at most 1 GiB.
pub open spec fn spec_check_audio_file(is_file: bool, len: u64) -> Result<(), AudioDecodeError> {
    if !is_file {
        Err(AudioDecodeError::NotAFile)
    } else if len > MAX_FILE_BYTES {
        Err(AudioDecodeError::FileTooLarge)
    } else {
        Ok(())
    }
}

/// Checks the file's metadata before decoding.
pub fn check_audio_file(is_file: bool, len: u64) -> (r: Result<(), AudioDecodeError>)
    ensures
        r == spec_check_audio_file(is_file, len),
{
    if !is_file {
        return Err(AudioDecodeError::NotAFile);
    }
    if len > MAX_FILE_BYTES {
        return Err(AudioDecodeError::FileTooLarge);
    }
    Ok(())
}

/// Whether the file's extension (case-insensitive) names an Ogg or Opus file,
/// which is first tried as Ogg Opus.
pub open spec fn spec_is_ogg_opus_extension(extension: Option<Seq<char>>) -> bool {
    match extension {
        Some(e) => ascii_lowercase(e) == "ogg"@ || ascii_lowercase(e) == "opus"@,
        None => false,
    }
}

/// Whether the extension, if any, is `ogg` or `opus` in any ASCII case.
pub fn is_ogg_opus_extension(extension: Option<&str>) -> (r: bool)
    ensures
        r == spec_is_ogg_opus_extension(
            match extension {
                Some(e) => Some(e@),
                None => None,
            },
        ),
{
    match extension {
        Some(e) => {
            let n = e.unicode_len();
            proof {
                assert(e@.subrange(0, n as int) =~= e@);
            }
            range_lowers_to(e, 0, n, "ogg") || range_lowers_to(e, 0, n, "opus")
        },
        None => false,
    }
}

/// `OpusHead`: the magic of the Opus identification header.
pub open spec fn opus_head_magic() -> Seq<u8> {
    seq![0x4Fu8, 0x70u8, 0x75u8, 0x73u8, 0x48u8, 0x65u8, 0x61u8, 0x64u8]
}

/// `OpusTags`: the magic of the Opus comment header.
pub open spec fn opus_tags_magic() -> Seq<u8> {
    seq![0x4Fu8, 0x70u8, 0x75u8, 0x73u8, 0x54u8, 0x61u8, 0x67u8, 0x73u8]
}

pub open spec fn starts_with(data: Seq<u8>, prefix: Seq<u8>) -> bool {
    prefix.len() <= data.len() && data.subrange(0, prefix.len() as int) == prefix
}

/// Whether `data` begins with the eight bytes `magic`.
fn starts_with_magic(data: &[u8], magic: [u8; 8]) -> (r: bool)
    ensures
        r == starts_with(data@, magic@),
{
    if data.len() < 8 {
        return false;
    }
    let mut i: usize = 0;
    while i < 8
        invariant
            data@.len() >= 8,
            magic@.len() == 8,
            i <= 8,
            forall|k: int| 0 <= k < i ==> data@[k] == magic@[k],
        decreases 8 - i,
    {
        if data[i] != magic[i] {
            assert(data@.subrange(0, 8)[i as int] != magic@[i as int]);
            return false;
        }
        i = i + 1;
    }
    assert(data@.subrange(0, 8) =~= magic@);
    true
}

/// Whether a packet begins with `OpusHead`.
pub fn starts_with_opus_head(data: &[u8]) -> (r: bool)
    ensures
        r == starts_with(data@, opus_head_magic()),
{
    let magic: [u8; 8] = [0x4F, 0x70, 0x75, 0x73, 0x48, 0x65, 0x61, 0x64];
    assert(magic@ =~= opus_head_magic());
    starts_with_magic(data, magic)
}

/// Whether a packet begins with `OpusTags`.
pub fn starts_with_opus_tags(data: &[u8]) -> (r: bool)
    ensures
        r == starts_with(data@, opus_tags_magic()),
{
    let magic: [u8; 8] = [0x4F, 0x70, 0x75, 0x73, 0x54, 0x61, 0x67, 0x73];
    assert(magic@ =~= opus_tags_magic());
    starts_with_magic(data, magic)
}

/// The Opus identification header read as `(channels, pre_skip)`: at least 19
/// bytes starting with `OpusHead`, one or two channels (byte 9), channel
/// mapping family 0 (byte 18); the pre-skip is the little-endian `u16` at
/// bytes 10 and 11.
pub open spec fn spec_parse_opus_header(h: Seq<u8>) -> Result<(usize, usize), AudioDecodeError> {
    if h.len() < 19 || !starts_with(h, opus_head_magic()) {
        Err(AudioDecodeError::InvalidOpusHeader)
    } else if !(1 <= h[9] <= 2) {
        Err(AudioDecodeError::UnsupportedOpusChannels)
    } else if h[18] != 0 {
        Err(AudioDecodeError::UnsupportedOpusMapping(h[18]))
    } else {
        Ok((h[9] as usize, (h[10] + 256 * h[11]) as usize))
    }
}

/// Parses the Opus identification header into `(channels, pre_skip)`.
pub fn parse_opus_header(header: &[u8]) -> (r: Result<(usize, usize), AudioDecodeError>)
    ensures
        r == spec_parse_opus_header(header@),
{
    if header.len() < 19 || !starts_with_opus_head(header) {
        return Err(AudioDecodeError::InvalidOpusHeader);
    }
    let channels = header[9] as usize;
    if !(1 <= channels && channels <= 2) {
        return Err(AudioDecodeError::UnsupportedOpusChannels);
    }
    if header[18] != 0 {
        return Err(AudioDecodeError::UnsupportedOpusMapping(header[18]));
    }
    let pre_skip = header[10] as usize + 256 * (header[11] as usize);
    Ok((channels, pre_skip))
}

/// An Ogg Opus stream being decoded: its serial number, channel count, and
/// how many leading decoded samples (per channel) are still to be dropped.
#[derive(Clone, Copy, Debug, PartialEq, Eq, Structural)]
pub struct OpusStream {
    pub stream_serial: u32,
    pub channels: usize,
    pub pre_skip: usize,
}

/// The stream started by an Ogg file's first packet: `None` when the packet
/// is not an Opus identification header (the file is decoded otherwise).
pub open spec fn spec_open_opus_stream(serial: u32, first_packet: Seq<u8>) -> Result<Option<OpusStream>, AudioDecodeError> {
    if !starts_with(first_packet, opus_head_magic()) {
        Ok(None)
    } else {
        match spec_parse_opus_header(first_packet) {
            Ok((channels, pre_skip)) => Ok(
                Some(OpusStream { stream_serial: serial, channels, pre_skip }),
            ),
            Err(e) => Err(e),
        }
    }
}

/// Recognises an Ogg Opus stream from the first packet of an Ogg file.
pub fn open_opus_stream(serial: u32, first_packet: &[u8]) -> (r: Result<Option<OpusStream>, AudioDecodeError>)
    ensures
        r == spec_open_opus_stream(serial, first_packet@),
{
    if !starts_with_opus_head(first_packet) {
        return Ok(None);
    }
    match parse_opus_header(first_packet) {
        Ok((channels, pre_skip)) => Ok(Some(OpusStream { stream_serial: serial, channels, pre_skip })),
        Err(e) => Err(e),
    }
}

/// Where the kept samples of a decoded packet start, and the pre-skip left
/// for later packets.
pub open spec fn spec_trim_pre_skip(pre_skip: nat, decoded_len: nat) -> (nat, nat) {
    if pre_skip >= decoded_len {
        (decoded_len, (pre_skip - decoded_len) as nat)
    } else {
        (pre_skip, 0)
    }
}

impl OpusStream {
    /// A packet carries audio of this stream: it has the stream's serial and
    /// is neither a comment nor an identification header.
    pub open spec fn spec_accepts(self, serial: u32, data: Seq<u8>) -> bool {
        serial == self.stream_serial && !starts_with(data, opus_tags_magic()) && !starts_with(
            data,
            opus_head_magic(),
        )
    }

    /// Whether a packet is decoded as audio of this stream.
    pub fn accepts_packet(&self, serial: u32, data: &[u8]) -> (r: bool)
        ensures
            r == self.spec_accepts(serial, data@),
    {
        !(serial != self.stream_serial || starts_with_opus_tags(data) || starts_with_opus_head(data))
    }

    /// Drops the pre-skip from the front of a decoded packet of
    /// `decoded_len` samples: returns the index of the first kept sample and
    /// lowers the pre-skip by what was dropped.
    pub fn trim_pre_skip(&mut self, decoded_len: usize) -> (start: usize)
        ensures
            (start as nat, final(self).pre_skip as nat) == spec_trim_pre_skip(
                old(self).pre_skip as nat,
                decoded_len as nat,
            ),
            final(self).stream_serial == old(self).stream_serial,
            final(self).channels == old(self).channels,
            start <= decoded_len,
    {
        if self.pre_skip >= decoded_len {
            self.pre_skip = self.pre_skip - decoded_len;
            decoded_len
        } else {
            let start = self.pre_skip;
            self.pre_skip = 0;
            start
        }
    }
}

/// The samples kept from a run of decoded packets when `pre_skip` leading
/// samples are dropped packet by packet.
pub open spec fn kept_after_pre_skip<T>(pre_skip: nat, packets: Seq<Seq<T>>) -> Seq<T>
    decreases packets.len(),
{
    if packets.len() == 0 {
        Seq::empty()
    } else {
        let (start, rest) = spec_trim_pre_skip(pre_skip, packets[0].len());
        packets[0].skip(start as int) + kept_after_pre_skip(rest, packets.drop_first())
    }
}

/// `s` without its first `n` elements; empty when `n` exceeds its length.
pub open spec fn drop_prefix<T>(s: Seq<T>, n: nat) -> Seq<T> {
    if n >= s.len() {
        Seq::empty()
    } else {
        s.skip(n as int)
    }
}

/// Dropping the pre-skip packet by packet drops exactly the first `pre_skip`
/// samples of the whole decoded stream and keeps all the rest, in order.
pub proof fn law_pre_skip_drops_exactly_the_stream_prefix<T>(pre_skip: nat, packets: Seq<Seq<T>>)
    ensures
        kept_after_pre_skip(pre_skip, packets) == drop_prefix(packets.flatten(), pre_skip),
    decreases packets.len(),
{
    if packets.len() > 0 {
        let first = packets[0];
        let rest = packets.drop_first();
        let (start, left) = spec_trim_pre_skip(pre_skip, first.len());
        law_pre_skip_drops_exactly_the_stream_prefix(left, rest);
        let all = packets.flatten();
        assert(all == first + rest.flatten());
        if pre_skip >= first.len() {
            assert(first.skip(start as int) =~= Seq::<T>::empty());
            if pre_skip >= all.len() {
                assert(drop_prefix(rest.flatten(), left) =~= Seq::<T>::empty());
            } else {
                assert(all.skip(pre_skip as int) =~= rest.flatten().skip(left as int));
            }
            assert(kept_after_pre_skip(pre_skip, packets) =~= drop_prefix(all, pre_skip));
        } else {
            assert(drop_prefix(rest.flatten(), 0) =~= rest.flatten());
            assert(all.skip(pre_skip as int) =~= first.skip(pre_skip as int) + rest.flatten());
            assert(kept_after_pre_skip(pre_skip, packets) =~= drop_prefix(all, pre_skip));
        }
    } else {
        assert(drop_prefix(packets.flatten(), pre_skip) =~= Seq::<T>::empty());
    }
}

/// The kind of error that the demuxer or decoder reported.
#[derive(Clone, Copy, Debug, PartialEq, Eq, Structural)]
pub enum StreamErrorKind {
    /// An I/O error; when reading packets it marks the end of the stream.
    Io,
    /// The decoder must be reset.
    ResetRequired,
    /// A packet could not be decoded.
    Decode,
    /// Any other error.
    Other,
}

/// What the decoding loop does next.
#[derive(Clone, Copy, Debug, PartialEq, Eq, Structural)]
pub enum StreamStep {
    /// Stop reading: the stream has ended.
    EndOfStream,
    /// Drop this packet and go on with the next.
    SkipPacket,
    /// Give up with this error.
    Fail(AudioDecodeError),
}

/// Reading the next packet failed: an I/O error ends the stream, a required
/// decoder reset is refused, anything else fails the decoding.
pub open spec fn spec_after_read_error(kind: StreamErrorKind) -> StreamStep {
    match kind {
        StreamErrorKind::Io => StreamStep::EndOfStream,
        StreamErrorKind::ResetRequired => StreamStep::Fail(AudioDecodeError::DecoderResetRequired),
        _ => StreamStep::Fail(AudioDecodeError::StreamFailed),
    }
}

/// The step after a failed packet read.
pub fn after_read_error(kind: StreamErrorKind) -> (r: StreamStep)
    ensures
        r == spec_after_read_error(kind),
{
    match kind {
        StreamErrorKind::Io => StreamStep::EndOfStream,
        StreamErrorKind::ResetRequired => StreamStep::Fail(AudioDecodeError::DecoderResetRequired),
        _ => StreamStep::Fail(AudioDecodeError::StreamFailed),
    }
}

/// Decoding a packet failed: a corrupt packet is skipped, anything else
/// fails the decoding.
pub open spec fn spec_after_decode_error(kind: StreamErrorKind) -> StreamStep {
    match kind {
        StreamErrorKind::Decode => StreamStep::SkipPacket,
        _ => StreamStep::Fail(AudioDecodeError::StreamFailed),
    }
}

/// The step after a failed packet decode.
pub fn after_decode_error(kind: StreamErrorKind) -> (r: StreamStep)
    ensures
        r == spec_after_decode_error(kind),
{
    match kind {
        StreamErrorKind::Decode => StreamStep::SkipPacket,
        _ => StreamStep::Fail(AudioDecodeError::StreamFailed),
    }
}

/// The sample rate of the decoded buffers seen so far, if any.
#[derive(Clone, Copy, Debug, PartialEq, Eq, Structural)]
pub struct DecodeProgress {
    pub source_sample_rate: Option<u32>,
}

/// Records a decoded buffer: its rate must equal that of the earlier buffers,
/// and it must have at least one channel.
pub open spec fn spec_record_buffer(
    progress: DecodeProgress,
    sample_rate: u32,
    channels: usize,
) -> (Result<(), AudioDecodeError>, DecodeProgress) {
    if progress.source_sample_rate matches Some(current) && current != sample_rate {
        (Err(AudioDecodeError::SampleRateChanged), progress)
    } else if channels == 0 {
        (Err(AudioDecodeError::NoChannels), DecodeProgress { source_sample_rate: Some(sample_rate) })
    } else {
        (Ok(()), DecodeProgress { source_sample_rate: Some(sample_rate) })
    }
}

impl DecodeProgress {
    /// Nothing decoded yet.
    pub fn new() -> (r: Self)
        ensures
            r.source_sample_rate is None,
    {
        DecodeProgress { source_sample_rate: None }
    }

    /// Checks and records the spec of a decoded buffer.
    pub fn record_buffer(&mut self, sample_rate: u32, channels: usize) -> (r: Result<(), AudioDecodeError>)
        ensures
            (r, *final(self)) == spec_record_buffer(*old(self), sample_rate, channels),
    {
        if let Some(current) = self.source_sample_rate {
            if current != sample_rate {
                return Err(AudioDecodeError::SampleRateChanged);
            }
        }
        self.source_sample_rate = Some(sample_rate);
        if channels == 0 {
            return Err(AudioDecodeError::NoChannels);
        }
        Ok(())
    }

    /// The stream's sample rate, once at least one buffer was decoded.
    pub fn finish(&self) -> (r: Result<u32, AudioDecodeError>)
        ensures
            r == match self.source_sample_rate {
                Some(rate) => Ok(rate),
                None => Err(AudioDecodeError::NoDecodableSamples),
            },
    {
        match self.source_sample_rate {
            Some(rate) => Ok(rate),
            None => Err(AudioDecodeError::NoDecodableSamples),
        }
    }
}

/// Feeds a run of buffer specs `(rate, channels)` through the checks, stopping
/// at the first error.
pub open spec fn record_all(progress: DecodeProgress, buffers: Seq<(u32, usize)>) -> (Result<(), AudioDecodeError>, DecodeProgress)
    decreases buffers.len(),
{
    if buffers.len() == 0 {
        (Ok(()), progress)
    } else {
        let (r, next) = spec_record_buffer(progress, buffers[0].0, buffers[0].1);
        if r is Err {
            (r, next)
        } else {
            record_all(next, buffers.drop_first())
        }
    }
}

/// A stream that is accepted has one sample rate throughout: when every
/// buffer passes the checks, each buffer has the rate that `finish` reports,
/// and `finish` succeeds exactly when there was a buffer.
pub proof fn law_accepted_stream_has_one_rate(buffers: Seq<(u32, usize)>)
    ensures
        ({
            let (r, end) = record_all(DecodeProgress { source_sample_rate: None }, buffers);
            r is Ok ==> {
                &&& (end.source_sample_rate is Some <==> buffers.len() > 0)
                &&& forall|i: int|
                    0 <= i < buffers.len() ==> end.source_sample_rate == Some(
                        #[trigger] buffers[i].0,
                    ) && buffers[i].1 > 0
            }
        }),
    decreases buffers.len(),
{
    if buffers.len() > 0 {
        let first = buffers[0];
        let p1 = DecodeProgress { source_sample_rate: Some(first.0) };
        lemma_record_all_keeps_rate(p1, buffers.drop_first());
        let (r, end) = record_all(DecodeProgress { source_sample_rate: None }, buffers);
        if r is Ok {
            assert forall|i: int| 0 <= i < buffers.len() implies end.source_sample_rate == Some(
                #[trigger] buffers[i].0,
            ) && buffers[i].1 > 0 by {
                if i > 0 {
                    assert(buffers[i] == buffers.drop_first()[i - 1]);
                }
            }
        }
    }
}

proof fn lemma_record_all_keeps_rate(progress: DecodeProgress, buffers: Seq<(u32, usize)>)
    requires
        progress.source_sample_rate is Some,
    ensures
        ({
            let (r, end) = record_all(progress, buffers);
            r is Ok ==> end == progress && forall|i: int|
                0 <= i < buffers.len() ==> progress.source_sample_rate == Some(
                    #[trigger] buffers[i].0,
                ) && buffers[i].1 > 0
        }),
    decreases buffers.len(),
{
    if buffers.len() > 0 {
        lemma_record_all_keeps_rate(
            spec_record_buffer(progress, buffers[0].0, buffers[0].1).1,
            buffers.drop_first(),
        );
        let (r, end) = record_all(progress, buffers);
        if r is Ok {
            assert forall|i: int| 0 <= i < buffers.len() implies progress.source_sample_rate
                == Some(#[trigger] buffers[i].0) && buffers[i].1 > 0 by {
                if i > 0 {
                    assert(buffers[i] == buffers.drop_first()[i - 1]);
                }
            }
        }
    }
}

/// Longest accepted recording: four hours.
pub const MAX_DURATION_SECONDS: u64 = 4 * 60 * 60;

/// Whether `len` samples at `source_rate` last longer than four hours, i.e.
/// `len / source_rate > 14400` (a stream of rate 0 with any sample counts as
/// too long).
pub fn exceeds_max_duration(len: usize, source_rate: u32) -> (r: bool)
    ensures
        r == (len > MAX_DURATION_SECONDS * source_rate),
{
    let limit: u64 = 14_400u64 * (source_rate as u64);
    (len as u128) > (limit as u128)
}

/// The number of samples after resampling `len` samples from `source_rate`
/// to 16 kHz, or `None` when the samples are kept as they are (already at
/// 16 kHz, or fewer than two samples).
pub open spec fn spec_resampled_len(len: nat, source_rate: nat) -> Option<nat> {
    if source_rate == TARGET_SAMPLE_RATE || len < 2 {
        None
    } else {
        let n = (len * TARGET_SAMPLE_RATE) as int / (source_rate as int);
        Some(if n < 1 { 1nat } else { n as nat })
    }
}

/// The resampled length, in terms of the inputs: the samples are kept as they
/// are exactly when the source is already at 16 kHz or has fewer than two
/// samples; otherwise the length `n` is `floor(len * 16000 / source_rate)`,
/// i.e. `n * source_rate <= len * 16000 < (n + 1) * source_rate`, and at
/// least one sample.
pub proof fn law_resampled_len_is_floor_of_ratio(len: nat, source_rate: nat)
    requires
        source_rate > 0,
    ensures
        (spec_resampled_len(len, source_rate) is None) == (source_rate == 16000 || len < 2),
        spec_resampled_len(len, source_rate) matches Some(n) ==> {
            &&& n >= 1
            &&& len * 16000 >= source_rate ==> n * source_rate <= len * 16000 < (n + 1)
                * source_rate
            &&& len * 16000 < source_rate ==> n == 1
        },
{
    let x = (len * TARGET_SAMPLE_RATE) as int;
    let q = x / (source_rate as int);
    assert(q * source_rate <= x < (q + 1) * source_rate) by (nonlinear_arith)
        requires
            source_rate > 0,
            q == x / (source_rate as int),
            x >= 0,
    ;
    assert(x >= source_rate ==> q >= 1) by (nonlinear_arith)
        requires
            source_rate > 0,
            q == x / (source_rate as int),
    ;
    assert(x < source_rate ==> q == 0) by (nonlinear_arith)
        requires
            source_rate > 0,
            q == x / (source_rate as int),
            x >= 0,
    ;
}

/// Length of the resampled signal: `max(len * 16000 / source_rate, 1)`.
pub fn resampled_len(len: usize, source_rate: u32) -> (r: Option<usize>)
    requires
        source_rate == TARGET_SAMPLE_RATE || len < 2 || source_rate > 0,
        len * TARGET_SAMPLE_RATE <= u64::MAX,
        source_rate > 0 ==> len * TARGET_SAMPLE_RATE / (source_rate as int) <= usize::MAX,
    ensures
        r == match spec_resampled_len(len as nat, source_rate as nat) {
            Some(n) => Some(n as usize),
            None => None::<usize>,
        },
{
    if source_rate == TARGET_SAMPLE_RATE || len < 2 {
        return None;
    }
    let n: u64 = (len as u64 * TARGET_SAMPLE_RATE as u64) / source_rate as u64;
    let n = if n < 1 { 1 } else { n };
    Some(n as usize)
}

} // verus!

verus! {

/// The bytes `O p u s H e a d`.
pub open spec fn opus_head_bytes(h: Seq<u8>) -> bool {
    h.len() >= 8 && h[0] == 0x4F && h[1] == 0x70 && h[2] == 0x75 && h[3] == 0x73 && h[4] == 0x48
        && h[5] == 0x65 && h[6] == 0x61 && h[7] == 0x64
}

/// The bytes `O p u s T a g s`.
pub open spec fn opus_tags_bytes(h: Seq<u8>) -> bool {
    h.len() >= 8 && h[0] == 0x4F && h[1] == 0x70 && h[2] == 0x75 && h[3] == 0x73 && h[4] == 0x54
        && h[5] == 0x61 && h[6] == 0x67 && h[7] == 0x73
}

proof fn lemma_magic_bytes(h: Seq<u8>)
    ensures
        starts_with(h, opus_head_magic()) == opus_head_bytes(h),
        starts_with(h, opus_tags_magic()) == opus_tags_bytes(h),
{
    if opus_head_bytes(h) {
        assert(h.subrange(0, 8) =~= opus_head_magic());
    }
    if h.len() >= 8 && h.subrange(0, 8) == opus_head_magic() {
        assert(h[0] == h.subrange(0, 8)[0]);
        assert(h[1] == h.subrange(0, 8)[1]);
        assert(h[2] == h.subrange(0, 8)[2]);
        assert(h[3] == h.subrange(0, 8)[3]);
        assert(h[4] == h.subrange(0, 8)[4]);
        assert(h[5] == h.subrange(0, 8)[5]);
        assert(h[6] == h.subrange(0, 8)[6]);
        assert(h[7] == h.subrange(0, 8)[7]);
    }
    if opus_tags_bytes(h) {
        assert(h.subrange(0, 8) =~= opus_tags_magic());
    }
    if h.len() >= 8 && h.subrange(0, 8) == opus_tags_magic() {
        assert(h[0] == h.subrange(0, 8)[0]);
        assert(h[1] == h.subrange(0, 8)[1]);
        assert(h[2] == h.subrange(0, 8)[2]);
        assert(h[3] == h.subrange(0, 8)[3]);
        assert(h[4] == h.subrange(0, 8)[4]);
        assert(h[5] == h.subrange(0, 8)[5]);
        assert(h[6] == h.subrange(0, 8)[6]);
        assert(h[7] == h.subrange(0, 8)[7]);
    }
}

/// The Opus identification header, in terms of its bytes: it is accepted
/// exactly when it has at least 19 bytes, begins with `OpusHead`, byte 9 (the
/// channel count) is 1 or 2 and byte 18 (the mapping family) is 0; then the
/// channels are byte 9 and the pre-skip is `byte 10 + 256 * byte 11`. A short
/// or unmarked header is invalid, a bad channel count is reported before a bad
/// mapping family, and the family is reported as read.
pub proof fn law_opus_header_fields(h: Seq<u8>)
    ensures
        (spec_parse_opus_header(h) is Ok) == (h.len() >= 19 && opus_head_bytes(h) && (h[9] == 1
            || h[9] == 2) && h[18] == 0),
        spec_parse_opus_header(h) matches Ok((channels, pre_skip)) ==> channels == h[9]
            && pre_skip == h[10] + 256 * h[11],
        (h.len() < 19 || !opus_head_bytes(h)) ==> spec_parse_opus_header(h) == Err::<
            (usize, usize),
            AudioDecodeError,
        >(AudioDecodeError::InvalidOpusHeader),
        (h.len() >= 19 && opus_head_bytes(h) && h[9] != 1 && h[9] != 2) ==> spec_parse_opus_header(
            h,
        ) == Err::<(usize, usize), AudioDecodeError>(AudioDecodeError::UnsupportedOpusChannels),
        (h.len() >= 19 && opus_head_bytes(h) && (h[9] == 1 || h[9] == 2) && h[18] != 0)
            ==> spec_parse_opus_header(h) == Err::<(usize, usize), AudioDecodeError>(
            AudioDecodeError::UnsupportedOpusMapping(h[18]),
        ),
{
    lemma_magic_bytes(h);
}

/// An Ogg file's first packet opens an Opus stream exactly when it begins with
/// `OpusHead`; the stream then carries the packet's serial and the header's
/// channels and pre-skip, and a bad header is an error.
pub proof fn law_opus_stream_from_first_packet(serial: u32, first: Seq<u8>)
    ensures
        !opus_head_bytes(first) ==> spec_open_opus_stream(serial, first) == Ok::<
            Option<OpusStream>,
            AudioDecodeError,
        >(None),
        opus_head_bytes(first) ==> match spec_parse_opus_header(first) {
            Ok((channels, pre_skip)) => spec_open_opus_stream(serial, first) == Ok::<
                Option<OpusStream>,
                AudioDecodeError,
            >(Some(OpusStream { stream_serial: serial, channels, pre_skip })),
            Err(e) => spec_open_opus_stream(serial, first) == Err::<
                Option<OpusStream>,
                AudioDecodeError,
            >(e),
        },
{
    lemma_magic_bytes(first);
}

/// A packet is decoded as audio exactly when it has the stream's serial and
/// begins with neither `OpusTags` nor `OpusHead`.
pub proof fn law_audio_packets(stream: OpusStream, serial: u32, data: Seq<u8>)
    ensures
        stream.spec_accepts(serial, data) == (serial == stream.stream_serial && !opus_tags_bytes(
            data,
        ) && !opus_head_bytes(data)),
{
    lemma_magic_bytes(data);
}

/// Pre-skip trimming of one packet: while the pre-skip covers the packet the
/// whole packet is dropped and the pre-skip shrinks by its length; otherwise
/// the first `pre_skip` samples are dropped and none are left to drop. The
/// number dropped is `min(pre_skip, len)` and dropped plus left-over always
/// equals the old pre-skip while it lasts.
pub proof fn law_trim_drops_min_of_pre_skip_and_packet(pre_skip: nat, len: nat)
    ensures
        ({
            let (start, left) = spec_trim_pre_skip(pre_skip, len);
            &&& start == (if pre_skip <= len { pre_skip } else { len })
            &&& left == (if pre_skip >= len { pre_skip - len } else { 0 })
            &&& start <= len
            &&& start + left >= (if pre_skip <= len { pre_skip } else { len })
        }),
{
}

/// A file is decoded exactly when it is a regular file of at most 1 GiB
/// (1,073,741,824 bytes); a non-file is refused as such before its size is
/// considered.
pub proof fn law_file_limits(is_file: bool, len: u64)
    ensures
        (spec_check_audio_file(is_file, len) is Ok) == (is_file && len <= 1_073_741_824),
        !is_file ==> spec_check_audio_file(is_file, len) == Err::<(), AudioDecodeError>(
            AudioDecodeError::NotAFile,
        ),
        (is_file && len > 1_073_741_824) ==> spec_check_audio_file(is_file, len) == Err::<
            (),
            AudioDecodeError,
        >(AudioDecodeError::FileTooLarge),
{
}

/// An I/O error while reading ends the stream, a required reset and every
/// other read error fail it; a corrupt packet is skipped when decoding, and
/// every other decode error fails the stream. Nothing but an I/O read error
/// ends the stream, and nothing but a decode error skips a packet.
pub proof fn law_stream_error_policy(kind: StreamErrorKind)
    ensures
        (spec_after_read_error(kind) == StreamStep::EndOfStream) == (kind == StreamErrorKind::Io),
        kind == StreamErrorKind::ResetRequired ==> spec_after_read_error(kind) == StreamStep::Fail(
            AudioDecodeError::DecoderResetRequired,
        ),
        (kind == StreamErrorKind::Decode || kind == StreamErrorKind::Other)
            ==> spec_after_read_error(kind) == StreamStep::Fail(AudioDecodeError::StreamFailed),
        (spec_after_decode_error(kind) == StreamStep::SkipPacket) == (kind
            == StreamErrorKind::Decode),
        kind != StreamErrorKind::Decode ==> spec_after_decode_error(kind) == StreamStep::Fail(
            AudioDecodeError::StreamFailed,
        ),
{
}

/// Recording a buffer: a rate different from the one already seen fails and
/// leaves the progress unchanged; otherwise the rate is remembered, and the
/// buffer is accepted exactly when it has a channel.
pub proof fn law_record_buffer(progress: DecodeProgress, sample_rate: u32, channels: usize)
    ensures
        ({
            let (r, next) = spec_record_buffer(progress, sample_rate, channels);
            &&& (progress.source_sample_rate matches Some(cur) && cur != sample_rate) ==> r == Err::<
                (),
                AudioDecodeError,
            >(AudioDecodeError::SampleRateChanged) && next == progress
            &&& !(progress.source_sample_rate matches Some(cur) && cur != sample_rate) ==> {
                &&& next.source_sample_rate == Some(sample_rate)
                &&& (r is Ok) == (channels > 0)
                &&& channels == 0 ==> r == Err::<(), AudioDecodeError>(AudioDecodeError::NoChannels)
            }
        }),
{
}

/// Ogg Opus is tried for the extensions `ogg` and `opus` in any ASCII case:
/// an extension qualifies exactly when each of its characters, folded to
/// lower case, spells one of them.
pub proof fn law_ogg_opus_extension(e: Seq<char>)
    ensures
        spec_is_ogg_opus_extension(Some(e)) == ((e.len() == 3 && (e[0] == 'o' || e[0] == 'O') && (
        e[1] == 'g' || e[1] == 'G') && (e[2] == 'g' || e[2] == 'G')) || (e.len() == 4 && (e[0]
            == 'o' || e[0] == 'O') && (e[1] == 'p' || e[1] == 'P') && (e[2] == 'u' || e[2] == 'U')
            && (e[3] == 's' || e[3] == 'S'))),
        !spec_is_ogg_opus_extension(None),
{
    reveal_strlit("ogg");
    reveal_strlit("opus");
    let l = ascii_lowercase(e);
    assert(l.len() == e.len());
    assert("ogg"@.len() == 3 && "opus"@.len() == 4);
    if e.len() == 3 {
        crate::text::lemma_ascii_lower_letter(e[0], 'o', 'O');
        crate::text::lemma_ascii_lower_letter(e[1], 'g', 'G');
        crate::text::lemma_ascii_lower_letter(e[2], 'g', 'G');
        if l == "ogg"@ {
            assert(l[0] == 'o' && l[1] == 'g' && l[2] == 'g');
        }
        if (e[0] == 'o' || e[0] == 'O') && (e[1] == 'g' || e[1] == 'G') && (e[2] == 'g' || e[2]
            == 'G') {
            assert(l =~= "ogg"@);
        }
    }
    if e.len() == 4 {
        crate::text::lemma_ascii_lower_letter(e[0], 'o', 'O');
        crate::text::lemma_ascii_lower_letter(e[1], 'p', 'P');
        crate::text::lemma_ascii_lower_letter(e[2], 'u', 'U');
        crate::text::lemma_ascii_lower_letter(e[3], 's', 'S');
        if l == "opus"@ {
            assert(l[0] == 'o' && l[1] == 'p' && l[2] == 'u' && l[3] == 's');
        }
        if (e[0] == 'o' || e[0] == 'O') && (e[1] == 'p' || e[1] == 'P') && (e[2] == 'u' || e[2]
            == 'U') && (e[3] == 's' || e[3] == 'S') {
            assert(l =~= "opus"@);
        }
    }
}

} // verus!
