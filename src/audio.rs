use crate::error::TranscribeError;
use vstd::prelude::*;

verus! {

/// What a WAV header says of its stream: rate, channel count, sample width and
/// whether the samples are floating point.
#[derive(Clone, Copy, Debug, PartialEq, Eq, Structural)]
pub struct WavHeader {
    pub sample_rate: u32,
    pub channels: u16,
    pub bits_per_sample: u16,
    pub is_float: bool,
}

/// The header that hound reads from a WAV byte stream, as
/// (sample rate, channels, bits per sample, is float); `None` where hound refuses it.
pub uninterp spec fn wav_header_of(bytes: Seq<u8>) -> Option<(u32, u16, u16, bool)>;

/// The samples that hound reads from a WAV byte stream as 16-bit integers,
/// interleaved; `None` where hound refuses the stream or a sample.
pub uninterp spec fn wav_pcm16_of(bytes: Seq<u8>) -> Option<Seq<i16>>;

/// Relies on hound::WavReader::new and hound::WavReader::spec: the header that
/// hound parses from the bytes, or `None` where it refuses them.
#[verifier::external_body]
fn read_wav_header(bytes: &Vec<u8>) -> (r: Option<WavHeader>)
    ensures
        match wav_header_of(bytes@) {
            None => r is None,
            Some(h) => r == Some(
                WavHeader { sample_rate: h.0, channels: h.1, bits_per_sample: h.2, is_float: h.3 },
            ),
        },
{
    match hound::WavReader::new(std::io::Cursor::new(bytes.clone())) {
        Ok(reader) => {
            let spec = reader.spec();
            let is_float = matches!(spec.sample_format, hound::SampleFormat::Float);
            Some(WavHeader {
                sample_rate: spec.sample_rate,
                channels: spec.channels,
                bits_per_sample: spec.bits_per_sample,
                is_float,
            })
        },
        Err(_) => None,
    }
}

/// Relies on hound::WavReader::samples with `i16`: every sample of the stream,
/// interleaved, or `None` where hound refuses the stream or any sample.
#[verifier::external_body]
fn read_wav_pcm16(bytes: &Vec<u8>) -> (r: Option<Vec<i16>>)
    ensures
        match wav_pcm16_of(bytes@) {
            None => r is None,
            Some(p) => r is Some && r->0@ == p,
        },
{
    match hound::WavReader::new(std::io::Cursor::new(bytes.clone())) {
        Ok(mut reader) => reader.samples::<i16>().collect::<Result<Vec<i16>, _>>().ok(),
        Err(_) => None,
    }
}

/// Denominator of a decoded 16-bit sample with the given channel count: each
/// integer sample is divided by 32768, and a stereo frame is the mean of two.
pub open spec fn scale_for(channels: u16) -> int {
    if channels == 2 {
        65536
    } else {
        32768
    }
}

/// One numerator per mono sample: a mono sample as it is, or the sum of the
/// two samples of a stereo frame (a trailing half frame is dropped).
pub open spec fn mono_numerators(pcm: Seq<i16>, channels: u16) -> Seq<int> {
    if channels == 2 {
        Seq::new(pcm.len() / 2, |i: int| pcm[2 * i] as int + pcm[2 * i + 1] as int)
    } else {
        Seq::new(pcm.len(), |i: int| pcm[i] as int)
    }
}

/// Mono samples, each the quotient of a numerator and a common scale.
pub enum MonoSamples {
    /// Integer samples: sample `i` is `values[i] / scale`.
    Fixed { values: Vec<i32>, scale: i32 },
    /// 32-bit floating-point samples, which the caller reads and mixes.
    Float,
}

/// A decoded WAV stream, reduced to one channel.
pub struct DecodedAudio {
    /// The input's rate, kept as it is: nothing is resampled.
    pub sample_rate: u32,
    /// The input's channel count.
    pub channels: u16,
    pub mono: MonoSamples,
}

/// Whether the engine accepts a stream with this many channels.
pub open spec fn channels_supported(channels: u16) -> bool {
    channels == 1 || channels == 2
}

/// Whether a byte stream decodes: hound reads its header, it has one or two
/// channels, and its samples are 32-bit floats or 16-bit integers that all
/// read, in whole frames.
pub open spec fn decodable(bytes: Seq<u8>) -> bool {
    match wav_header_of(bytes) {
        None => false,
        Some(h) => channels_supported(h.1) && if h.3 {
            h.2 == 32
        } else {
            h.2 == 16 && match wav_pcm16_of(bytes) {
                None => false,
                Some(p) => p.len() as int % (h.1 as int) == 0,
            }
        },
    }
}

/// Whether `a` is what the byte stream decodes to.
pub open spec fn decodes_to(bytes: Seq<u8>, a: DecodedAudio) -> bool {
    match wav_header_of(bytes) {
        None => false,
        Some(h) => {
            &&& a.sample_rate == h.0
            &&& a.channels == h.1
            &&& if h.3 {
                a.mono is Float
            } else {
                match (a.mono, wav_pcm16_of(bytes)) {
                    (MonoSamples::Fixed { values, scale }, Some(p)) => {
                        &&& scale as int == scale_for(h.1)
                        &&& values@.len() == mono_numerators(p, h.1).len()
                        &&& forall|i: int|
                            0 <= i < values@.len() ==> values@[i] as int == mono_numerators(
                                p,
                                h.1,
                            )[i]
                    },
                    _ => false,
                }
            }
        },
    }
}

/// Widens mono 16-bit samples, each to be read over 32768.
pub fn widen_mono(pcm: &Vec<i16>) -> (r: Vec<i32>)
    ensures
        r@.len() == pcm@.len(),
        forall|i: int| 0 <= i < r@.len() ==> r@[i] as int == mono_numerators(pcm@, 1)[i],
{
    let mut r: Vec<i32> = Vec::with_capacity(pcm.len());
    let mut i: usize = 0;
    while i < pcm.len()
        invariant
            i <= pcm@.len(),
            r@.len() == i,
            forall|k: int| 0 <= k < i ==> r@[k] as int == pcm@[k] as int,
        decreases pcm@.len() - i,
    {
        r.push(pcm[i] as i32);
        i = i + 1;
    }
    r
}

/// Mixes interleaved stereo 16-bit samples down to one channel: frame `i` gives
/// the sum of its two samples, to be read over 65536, which is the mean of the
/// two samples each read over 32768.
pub fn downmix_stereo(pcm: &Vec<i16>) -> (r: Vec<i32>)
    ensures
        r@.len() == pcm@.len() / 2,
        forall|i: int| 0 <= i < r@.len() ==> r@[i] as int == mono_numerators(pcm@, 2)[i],
{
    let n: usize = pcm.len();
    let frames: usize = n / 2;
    let mut r: Vec<i32> = Vec::with_capacity(frames);
    let mut i: usize = 0;
    while i < frames
        invariant
            n == pcm@.len(),
            frames == n / 2,
            i <= frames,
            r@.len() == i,
            forall|k: int| 0 <= k < i ==> r@[k] as int == pcm@[2 * k] as int + pcm@[2 * k + 1] as int,
        decreases frames - i,
    {
        assert(2 * i + 1 < pcm@.len());
        let left = pcm[2 * i] as i32;
        let right = pcm[2 * i + 1] as i32;
        r.push(left + right);
        i = i + 1;
    }
    r
}

/// Decodes a WAV byte stream into mono samples. Only 16-bit integer and 32-bit
/// float streams of one or two channels, in whole frames, are taken. Integer
/// samples are scaled into [-1, 1) by 32768 and two channels are mixed by
/// their mean; float samples are read and mixed by the caller.
/// Every failure is a `FormatError`.
pub fn decode_wav(bytes: &Vec<u8>) -> (r: Result<DecodedAudio, TranscribeError>)
    ensures
        r is Ok <==> decodable(bytes@),
        r is Ok ==> decodes_to(bytes@, r->Ok_0),
        r is Err ==> r->Err_0 == TranscribeError::FormatError,
{
    let header = match read_wav_header(bytes) {
        Some(h) => h,
        None => {
            return Err(TranscribeError::FormatError);
        },
    };
    if header.channels != 1 && header.channels != 2 {
        return Err(TranscribeError::FormatError);
    }
    if header.is_float {
        if header.bits_per_sample != 32 {
            return Err(TranscribeError::FormatError);
        }
        return Ok(
            DecodedAudio {
                sample_rate: header.sample_rate,
                channels: header.channels,
                mono: MonoSamples::Float,
            },
        );
    }
    if header.bits_per_sample != 16 {
        return Err(TranscribeError::FormatError);
    }
    let pcm = match read_wav_pcm16(bytes) {
        Some(p) => p,
        None => {
            return Err(TranscribeError::FormatError);
        },
    };
    if pcm.len() % (header.channels as usize) != 0 {
        return Err(TranscribeError::FormatError);
    }
    let (values, scale) = if header.channels == 2 {
        (downmix_stereo(&pcm), 65536i32)
    } else {
        (widen_mono(&pcm), 32768i32)
    };
    Ok(
        DecodedAudio {
            sample_rate: header.sample_rate,
            channels: header.channels,
            mono: MonoSamples::Fixed { values, scale },
        },
    )
}

} // verus!
