//! Decoding a compressed track, fully materialized before playback: the
//! frame loop that accumulates interleaved samples and the validation of the
//! decoder's output. The frame decoder itself is the minimp3 crate, called
//! through trusted wrappers over an in-memory byte reader; what it decodes
//! from given bytes is named by `mp3_frames`, and the decode's contract
//! states the accepted result exactly in terms of that name.
use vstd::prelude::*;
use crate::source::{DecodedSource, LoadError, MAX_TOTAL_SAMPLES};

verus! {

/// An in-memory byte reader of std, declared so it can appear in the
/// decoder's type below.
#[verifier::external_type_specification]
#[verifier::external_body]
#[verifier::reject_recursive_types(T)]
pub struct ExCursor<T>(std::io::Cursor<T>);

/// The minimp3 frame decoder over a byte reader.
#[verifier::external_type_specification]
#[verifier::external_body]
#[verifier::reject_recursive_types(R)]
pub struct ExMp3Decoder<R>(minimp3::Decoder<R>);

/// One decoded frame, as the contracts speak of it: its interleaved
/// samples, its sample rate, its channel count.
pub ghost struct FrameView {
    pub samples: Seq<i16>,
    pub sample_rate: int,
    pub channels: int,
}

/// The sequence of frames that the mp3 decoder produces from the given
/// bytes, in order. The decode is a function of the bytes alone; this name
/// stands for its result, and the wrapper below hands the frames out one by
/// one against it.
pub uninterp spec fn mp3_frames(bytes: Seq<u8>) -> Seq<FrameView>;

/// The in-order concatenation of the frames' interleaved samples.
pub open spec fn frames_pcm(frames: Seq<FrameView>) -> Seq<i16>
    decreases frames.len(),
{
    if frames.len() == 0 {
        Seq::empty()
    } else {
        frames_pcm(frames.drop_last()) + frames.last().samples
    }
}

/// The sample rate a decode reports: the last frame's, or the decoder's
/// default of 44100 when no frame was decoded.
pub open spec fn decoded_rate(bytes: Seq<u8>) -> int {
    if mp3_frames(bytes).len() == 0 {
        44100
    } else {
        mp3_frames(bytes).last().sample_rate
    }
}

/// The channel count a decode reports: the last frame's, or the default 2.
pub open spec fn decoded_channels(bytes: Seq<u8>) -> int {
    if mp3_frames(bytes).len() == 0 {
        2
    } else {
        mp3_frames(bytes).last().channels
    }
}

/// All samples a decode of the given bytes accumulates.
pub open spec fn decoded_pcm(bytes: Seq<u8>) -> Seq<i16> {
    frames_pcm(mp3_frames(bytes))
}

/// The decode of these bytes is accepted: some audio came out and the
/// buffer is short enough for the time bookkeeping. A decoded frame always
/// carries a positive rate and channel count, so nothing more can fail.
pub open spec fn decode_ok(bytes: Seq<u8>) -> bool {
    &&& decoded_pcm(bytes).len() > 0
    &&& decoded_pcm(bytes).len() <= MAX_TOTAL_SAMPLES
}

/// The error a rejected decode reports: no audio, or more of it than the
/// time bookkeeping can hold.
pub open spec fn decode_rejection(bytes: Seq<u8>) -> LoadError {
    if decoded_pcm(bytes).len() == 0 {
        LoadError::EmptyAudio
    } else {
        LoadError::TooLong
    }
}

/// A live decode: the minimp3 decoder over the loaded bytes, together with
/// the ghost record of those bytes, of how many frames it has handed out,
/// and of whether it has reported the end. Built only by `open_stream`, so
/// the ghost fields always describe the decoder's true position.
struct Mp3Stream {
    decoder: minimp3::Decoder<std::io::Cursor<Vec<u8>>>,
    loaded: Ghost<Seq<u8>>,
    served: Ghost<int>,
    finished: Ghost<bool>,
}

/// Relies on minimp3::Decoder::new: builds a decoder that will read the
/// given bytes from the start. Nothing is decoded yet.
#[verifier::external_body]
fn new_decoder(bytes: Vec<u8>) -> minimp3::Decoder<std::io::Cursor<Vec<u8>>> {
    minimp3::Decoder::new(std::io::Cursor::new(bytes))
}

/// A fresh decode over the given bytes, no frame handed out yet.
fn open_stream(bytes: Vec<u8>) -> (s: Mp3Stream)
    ensures
        s.loaded@ == bytes@,
        s.served@ == 0,
        !s.finished@,
{
    let ghost loaded = bytes@;
    let decoder = new_decoder(bytes);
    Mp3Stream { decoder, loaded: Ghost(loaded), served: Ghost(0), finished: Ghost(false) }
}

/// Relies on minimp3::Decoder::next_frame: decodes the next frame of the
/// stream, skipping undecodable data; `None` at the first decoder error,
/// where this player stops, as the original did. The decode is a function
/// of the loaded bytes alone: the frame handed out is the next entry of
/// `mp3_frames` of those bytes — always with samples (it only succeeds on a
/// decoded frame), a sample rate from the format's positive rate table, and
/// one or two channels — and `None` marks the stream finished. A finished
/// stream must not be asked again: a later call may decode past the data
/// the error skipped, which the player never does.
#[verifier::external_body]
fn next_stream_frame(s: &mut Mp3Stream) -> (r: Option<(Vec<i16>, i32, usize)>)
    requires
        !old(s).finished@,
    ensures
        final(s).loaded == old(s).loaded,
        match r {
            Some(f) => {
                &&& !final(s).finished@
                &&& old(s).served@ < mp3_frames(old(s).loaded@).len()
                &&& final(s).served@ == old(s).served@ + 1
                &&& f.0@ == mp3_frames(old(s).loaded@)[old(s).served@].samples
                &&& f.1 as int == mp3_frames(old(s).loaded@)[old(s).served@].sample_rate
                &&& f.2 as int == mp3_frames(old(s).loaded@)[old(s).served@].channels
                &&& f.0@.len() > 0
                &&& f.1 >= 1
                &&& 1 <= f.2 <= 2
            },
            None => {
                &&& final(s).finished@
                &&& final(s).served@ == old(s).served@
                &&& old(s).served@ >= mp3_frames(old(s).loaded@).len()
            },
        },
{
    match s.decoder.next_frame() {
        Ok(frame) => Some((frame.data, frame.sample_rate, frame.channels)),
        Err(_) => None,
    }
}

/// Decode a whole compressed track held in memory: concatenate the samples
/// of every decoded frame in order, take sample rate and channel count from
/// the last frame, and validate the result. Succeeds exactly when the
/// decoded output is acceptable, returning precisely those samples; a
/// rejected decode reports the error `decode_rejection` names.
pub fn decode_mp3(bytes: Vec<u8>) -> (r: Result<DecodedSource, LoadError>)
    ensures
        r is Ok <==> decode_ok(bytes@),
        r matches Ok(s) ==> {
            &&& s.wf()
            &&& s.samples@ == decoded_pcm(bytes@)
            &&& s.sample_rate as int == decoded_rate(bytes@)
            &&& s.channels as int == decoded_channels(bytes@)
        },
        r matches Err(e) ==> e == decode_rejection(bytes@),
{
    let ghost loaded = bytes@;
    let ghost frames = mp3_frames(loaded);
    let mut stream = open_stream(bytes);
    let mut sample_rate: i32 = 44100;
    let mut channels: usize = 2;
    let mut pcm: Vec<i16> = Vec::new();
    loop
        invariant_except_break
            !stream.finished@,
            stream.loaded@ == loaded,
            0 <= stream.served@ <= frames.len(),
            frames == mp3_frames(loaded),
            pcm@ == frames_pcm(frames.take(stream.served@)),
            pcm@.len() > 0 <==> stream.served@ > 0,
            stream.served@ == 0 ==> sample_rate == 44100 && channels == 2,
            stream.served@ > 0 ==> sample_rate as int == frames[stream.served@ - 1].sample_rate
                && channels as int == frames[stream.served@ - 1].channels,
            sample_rate >= 1,
            1 <= channels <= 2,
        ensures
            pcm@ == decoded_pcm(loaded),
            sample_rate as int == decoded_rate(loaded),
            channels as int == decoded_channels(loaded),
            sample_rate >= 1,
            1 <= channels <= 2,
            pcm@.len() > 0 <==> mp3_frames(loaded).len() > 0,
        decreases frames.len() - stream.served@,
    {
        let ghost k = stream.served@;
        match next_stream_frame(&mut stream) {
            Some((frame_data, frame_rate, frame_channels)) => {
                let mut data = frame_data;
                sample_rate = frame_rate;
                channels = frame_channels;
                pcm.append(&mut data);
                proof {
                    assert(frames.take(k + 1).drop_last() =~= frames.take(k));
                    assert(frames.take(k + 1).last() == frames[k]);
                    assert(pcm@ =~= frames_pcm(frames.take(k + 1)));
                }
            },
            None => {
                proof {
                    assert(stream.served@ == frames.len());
                    assert(frames.take(frames.len() as int) =~= frames);
                }
                break ;
            },
        }
    }
    DecodedSource::from_parts(sample_rate, channels, pcm)
}

} // verus!
