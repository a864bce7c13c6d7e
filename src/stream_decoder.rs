//! Decisions of the video stream decoder: how an inbound coded packet is tagged
//! before it is submitted, what happens after each submission, and how the
//! decoder is set up.
use vstd::prelude::*;

verus! {

/// Kind of an inbound coded packet.
#[derive(Debug, Clone, Copy, PartialEq, Eq, Structural)]
pub enum PacketType {
    /// Codec configuration; yields no frame.
    Config,
    /// Key frame with its presentation timestamp.
    KeyFrame(u64),
    /// Regular frame with its presentation timestamp.
    Regular(u64),
}

/// Metadata that precedes each coded packet on the stream.
#[derive(Debug, Clone, Copy, PartialEq, Eq, Structural)]
pub struct FrameMetadata {
    pub packet: PacketType,
    /// Length of the coded bytes that follow.
    pub size: u32,
}

/// How a packet is tagged for the decode library.
#[derive(Debug, Clone, Copy, PartialEq, Eq, Structural)]
pub struct PacketHeader {
    /// Whether the key-frame flag is set.
    pub key: bool,
    /// Presentation timestamp.
    pub pts: Option<u64>,
    /// Decoding timestamp, the same as the presentation one.
    pub dts: Option<u64>,
}

/// The header of a packet of the given kind.
pub open spec fn header_of(packet: PacketType) -> PacketHeader {
    match packet {
        PacketType::Config => PacketHeader { key: false, pts: None, dts: None },
        PacketType::KeyFrame(t) => PacketHeader { key: true, pts: Some(t), dts: Some(t) },
        PacketType::Regular(t) => PacketHeader { key: false, pts: Some(t), dts: Some(t) },
    }
}

/// Tags the packet that carries `data`: key frames get the key flag, and frames
/// get their timestamp as both presentation and decoding timestamp. The
/// metadata's size must be the length of the data.
pub fn new_packet(metadata: &FrameMetadata, data: &[u8]) -> (r: PacketHeader)
    requires
        metadata.size as int == data@.len(),
    ensures
        r == header_of(metadata.packet),
{
    match metadata.packet {
        PacketType::Config => PacketHeader { key: false, pts: None, dts: None },
        PacketType::KeyFrame(pts) => PacketHeader { key: true, pts: Some(pts), dts: Some(pts) },
        PacketType::Regular(pts) => PacketHeader { key: false, pts: Some(pts), dts: Some(pts) },
    }
}

/// What the decode loop does once a packet was submitted.
#[derive(Debug, Clone, Copy, PartialEq, Eq, Structural)]
pub enum PacketAction {
    /// The submission failed: log it and go on with the next packet.
    LogAndContinue,
    /// A configuration packet: no frame to pull.
    Continue,
    /// Pull the decoded frame and hand it to the frame callback.
    PullFrame,
}

/// The step after a submission.
pub open spec fn action_after(packet: PacketType, submitted: bool) -> PacketAction {
    if !submitted {
        PacketAction::LogAndContinue
    } else if packet is Config {
        PacketAction::Continue
    } else {
        PacketAction::PullFrame
    }
}

/// Decides the step after submitting a packet: a failed submission is a
/// transient decode error that is logged without ending the stream, a
/// configuration packet yields no frame, and any other packet has its frame pulled.
pub fn after_submit(packet: PacketType, submitted: bool) -> (r: PacketAction)
    ensures
        r == action_after(packet, submitted),
{
    if !submitted {
        PacketAction::LogAndContinue
    } else {
        match packet {
            PacketType::Config => PacketAction::Continue,
            _ => PacketAction::PullFrame,
        }
    }
}

/// What pulling a frame from the decoder gave.
#[derive(Debug, Clone, Copy, PartialEq, Eq, Structural)]
pub enum PullOutcome {
    /// A decoded frame.
    Frame,
    /// The decoder is drained: end of stream.
    EndOfStream,
    /// The decoder was asked to exit.
    Exit,
    /// A system error code, such as "try again" when more input is needed.
    Errno(i32),
    /// Any other decode error.
    Failure,
}

/// The step after a pull while draining the decoder's frames.
#[derive(Debug, Clone, Copy, PartialEq, Eq, Structural)]
pub enum DrainStep {
    /// Hand the frame on and pull again.
    Deliver,
    /// No frame is left for now: stop pulling.
    Stop,
    /// Stop and report the error.
    Fail,
}

/// Decides the step after a pull: frames are delivered, the end of the stream,
/// an exit request and a system error code end the drain quietly, and any other
/// error ends it with the error.
pub fn drain_step(outcome: PullOutcome) -> (r: DrainStep)
    ensures
        outcome is Frame ==> r == DrainStep::Deliver,
        (outcome is EndOfStream || outcome is Exit || outcome is Errno) ==> r == DrainStep::Stop,
        outcome is Failure ==> r == DrainStep::Fail,
{
    match outcome {
        PullOutcome::Frame => DrainStep::Deliver,
        PullOutcome::EndOfStream | PullOutcome::Exit | PullOutcome::Errno(_) => DrainStep::Stop,
        PullOutcome::Failure => DrainStep::Fail,
    }
}

/// How the decoder is built.
#[derive(Debug, Clone, Copy, PartialEq, Eq, Structural)]
pub enum DecoderSetup {
    /// Hardware decoding was asked for and no device is there: the stream does not
    /// start, which is reported once; no frame ever arrives.
    NoDevice,
    /// Decode in software.
    Software,
    /// Decode on the hardware device, bound to the frame size.
    Hardware,
}

/// Chooses the decoder: on the hardware device when asked for and one is there.
pub fn decoder_setup(hw_requested: bool, device_available: bool) -> (r: DecoderSetup)
    ensures
        !hw_requested ==> r == DecoderSetup::Software,
        hw_requested && device_available ==> r == DecoderSetup::Hardware,
        hw_requested && !device_available ==> r == DecoderSetup::NoDevice,
{
    if !hw_requested {
        DecoderSetup::Software
    } else if device_available {
        DecoderSetup::Hardware
    } else {
        DecoderSetup::NoDevice
    }
}

} // verus!
