//! Decisions of the per-device session worker: the stream options it asks for,
//! how requested and granted video sub-streams pair up, and what its exit
//! result is once one of its three event sources fires.
use crate::session_manager::DeviceId;
use vstd::prelude::*;

verus! {

/// Video codecs the mirroring transport can stream.
#[derive(Debug, Clone, Copy, PartialEq, Eq, Structural)]
pub enum VideoCodec {
    H264,
    H265,
    AV1,
}

/// Codec identifiers of the decode library.
#[derive(Debug, Clone, Copy, PartialEq, Eq, Structural)]
pub enum CodecId {
    H264,
    H265,
    AV1,
}

/// The decode library's codec for a streamed codec.
pub open spec fn codec_id_of(c: VideoCodec) -> CodecId {
    match c {
        VideoCodec::H264 => CodecId::H264,
        VideoCodec::H265 => CodecId::H265,
        VideoCodec::AV1 => CodecId::AV1,
    }
}

impl VideoCodec {
    /// The decode library's codec for this streamed codec.
    pub fn codec_id(&self) -> (r: CodecId)
        ensures
            r == codec_id_of(*self),
    {
        match self {
            VideoCodec::H264 => CodecId::H264,
            VideoCodec::H265 => CodecId::H265,
            VideoCodec::AV1 => CodecId::AV1,
        }
    }
}

/// Commands a session worker accepts.
#[derive(Debug, Clone, Copy, PartialEq, Eq, Structural)]
pub enum SessionCommand {
    /// Signals the worker to end the session.
    Exit,
}

/// Marker: the session has a control stream.
#[derive(Debug, Clone, Copy)]
pub struct SessionControl;

/// Marker: the session has an audio stream.
#[derive(Debug, Clone, Copy)]
pub struct SessionAudio;

/// Marker: the session has a video stream.
#[derive(Debug, Clone, Copy)]
pub struct SessionVideo;

/// Video part of a session request.
#[derive(Debug, Clone, Copy, PartialEq, Eq, Structural)]
pub struct SessionVideoConfig {
    pub codec: VideoCodec,
    /// Cap on the larger frame dimension, `0` for none.
    pub width: i32,
    /// Bit rate in bits per second.
    pub bitrate: i32,
    /// Frame rate cap, `0` for none.
    pub max_fps: u32,
    /// Whether to decode on the hardware device.
    pub hw_decoder: bool,
}

/// A session request: which sub-streams to enable for which device.
#[derive(Debug)]
pub struct SessionConfig {
    pub device_id: DeviceId,
    pub control: Option<()>,
    pub audio: Option<()>,
    pub video: Option<SessionVideoConfig>,
}

/// The options the mirroring connection is launched with.
#[derive(Debug, Clone, Copy, PartialEq, Eq, Structural)]
pub struct StreamOptions {
    pub control: bool,
    pub audio: bool,
    pub video: bool,
    /// Set only when video is on.
    pub video_codec: Option<VideoCodec>,
    pub max_size: Option<i32>,
    pub video_bit_rate: Option<i32>,
    pub max_fps: Option<u32>,
}

/// The sub-stream markers a session handle carries.
#[derive(Debug, Clone, Copy)]
pub struct SessionStreams {
    pub control: Option<SessionControl>,
    pub audio: Option<SessionAudio>,
    pub video: Option<SessionVideo>,
}

impl SessionConfig {
    /// The stream options for this request: every sub-stream off unless asked
    /// for, and for video its codec, size cap, bit rate and frame rate cap.
    pub fn stream_options(&self) -> (r: StreamOptions)
        ensures
            r.control == self.control is Some,
            r.audio == self.audio is Some,
            r.video == self.video is Some,
            self.video matches Some(v) ==> {
                &&& r.video_codec == Some(v.codec)
                &&& r.max_size == Some(v.width)
                &&& r.video_bit_rate == Some(v.bitrate)
                &&& r.max_fps == Some(v.max_fps)
            },
            self.video is None ==> r.video_codec is None && r.max_size is None
                && r.video_bit_rate is None && r.max_fps is None,
    {
        let mut options = StreamOptions {
            control: false,
            audio: false,
            video: false,
            video_codec: None,
            max_size: None,
            video_bit_rate: None,
            max_fps: None,
        };
        if self.control.is_some() {
            options.control = true;
        }
        if self.audio.is_some() {
            options.audio = true;
        }
        if let Some(v) = &self.video {
            options.video = true;
            options.video_codec = Some(v.codec);
            options.max_size = Some(v.width);
            options.video_bit_rate = Some(v.bitrate);
            options.max_fps = Some(v.max_fps);
        }
        options
    }

    /// The markers of the sub-streams this request enables.
    pub fn streams(&self) -> (r: SessionStreams)
        ensures
            r.control is Some == self.control is Some,
            r.audio is Some == self.audio is Some,
            r.video is Some == self.video is Some,
    {
        SessionStreams {
            control: if self.control.is_some() {
                Some(SessionControl)
            } else {
                None
            },
            audio: if self.audio.is_some() {
                Some(SessionAudio)
            } else {
                None
            },
            video: if self.video.is_some() {
                Some(SessionVideo)
            } else {
                None
            },
        }
    }
}

/// What the session does with the video sub-stream the connection granted.
#[derive(Debug, Clone, Copy, PartialEq, Eq, Structural)]
pub struct VideoPlan {
    /// Codec the decoder is built for.
    pub codec: CodecId,
    /// Frame size in pixels, as the connection reported it.
    pub width: u32,
    pub height: u32,
    /// Whether to decode on the hardware device.
    pub hw_decoder: bool,
}

/// Pairs the requested video sub-stream with the granted one: none requested and
/// none granted gives no decoder, one of each gives the decoder's plan. Any other
/// pairing is a broken contract with the connection, and is excluded.
pub fn video_plan(requested: Option<SessionVideoConfig>, granted: Option<(u32, u32)>) -> (r: Option<VideoPlan>)
    requires
        requested is Some == granted is Some,
    ensures
        requested is None ==> r is None,
        requested matches Some(v) ==> granted matches Some(size) && r == Some(
            VideoPlan { codec: codec_id_of(v.codec), width: size.0, height: size.1, hw_decoder: v.hw_decoder },
        ),
{
    match (requested, granted) {
        (Some(v), Some(size)) => Some(
            VideoPlan { codec: v.codec.codec_id(), width: size.0, height: size.1, hw_decoder: v.hw_decoder },
        ),
        _ => None,
    }
}

/// Which of the session's three event sources fired first.
pub enum SessionEnd<E> {
    /// The consumer pipelines all ended, each with its result.
    ConsumersEnded(Vec<Result<(), E>>),
    /// The remote session ended, with the result of each of its streams.
    RemoteEnded(Vec<Result<(), E>>),
    /// A command arrived from the UI, or the command channel closed.
    Command(Option<SessionCommand>),
}

/// The first error among `results`, if any.
pub open spec fn first_error<E>(results: Seq<Result<(), E>>) -> Option<E>
    decreases results.len(),
{
    if results.len() == 0 {
        None
    } else if results[0] is Err {
        Some(results[0]->Err_0)
    } else {
        first_error(results.drop_first())
    }
}

/// The exit result of a session.
pub open spec fn exit_result<E>(end: SessionEnd<E>) -> Option<E> {
    match end {
        SessionEnd::ConsumersEnded(results) => first_error(results@),
        SessionEnd::RemoteEnded(results) => first_error(results@),
        SessionEnd::Command(_) => None,
    }
}

/// The session's exit result once its run loop ended: the first error of the
/// pipelines or of the remote session, none when all of them ended cleanly, and
/// none for a stop from the UI, which is graceful.
pub fn session_exit<E>(end: SessionEnd<E>) -> (r: Option<E>)
    ensures
        r == exit_result(end),
{
    match end {
        SessionEnd::ConsumersEnded(results) => take_first_error(results),
        SessionEnd::RemoteEnded(results) => take_first_error(results),
        SessionEnd::Command(_) => None,
    }
}

fn take_first_error<E>(results: Vec<Result<(), E>>) -> (r: Option<E>)
    ensures
        r == first_error(results@),
{
    let ghost all = results@;
    let mut rest = results;
    let mut found: Option<E> = None;
    while rest.len() > 0
        invariant
            rest@.len() <= all.len(),
            rest@ == all.subrange(0, rest@.len() as int),
            found == first_error(all.subrange(rest@.len() as int, all.len() as int)),
        decreases rest@.len(),
    {
        let ghost k = rest@.len() - 1;
        let ghost before = rest@;
        assert(before[k] == all[k]);
        let item = rest.pop().unwrap();
        proof {
            assert(item == all[k]);
            let suffix = all.subrange(k, all.len() as int);
            assert(suffix[0] == item);
            assert(suffix.drop_first() =~= all.subrange(k + 1, all.len() as int));
            assert(rest@ =~= all.subrange(0, rest@.len() as int));
        }
        if let Err(e) = item {
            found = Some(e);
        }
    }
    proof {
        assert(all.subrange(0, all.len() as int) =~= all);
    }
    found
}

} // verus!
