//! Decoded frames tagged with where they live, and the latest-wins frame mailbox.
use vstd::prelude::*;

verus! {

/// Errors of the decode library's frame and device operations.
#[derive(Debug, Clone, Copy, PartialEq, Eq, Structural)]
pub enum FFmpegError {
    ConverterEmpty,
    DecoderNotFound,
    FormatNotSupported,
    FrameEmpty,
    FromHWTransferError(i32),
    ToHWTransferError(i32),
    HWDeviceCreateError(i32),
    HWDeviceConstraintsUnavailable,
    HWFramesContextCreationError,
    HWFramesContextMissing,
    /// An error code of the decode library.
    InternalError(i32),
}

/// A decoded video frame, tagged with where its data lives.
#[derive(Debug)]
pub enum FrameBuffer<F> {
    /// Frame resident on the hardware device.
    Hw(F),
    /// Frame resident in host memory.
    Sw(F),
}

/// What one transfer call did: `after` and `r` are what it made of `before`, and
/// `transferred` is the transfer primitive's answer, `None` when it was not called.
pub open spec fn transfer_step<F, E>(
    before: FrameBuffer<F>,
    after: FrameBuffer<F>,
    r: Result<(), E>,
    transferred: Option<Result<F, E>>,
) -> bool {
    match before {
        FrameBuffer::Sw(_) => after == before && r is Ok && transferred is None,
        FrameBuffer::Hw(_) => match transferred {
            Some(Ok(host)) => after == FrameBuffer::<F>::Sw(host) && r is Ok,
            Some(Err(e)) => after == before && r == Err::<(), E>(e),
            None => false,
        },
    }
}

impl<F> FrameBuffer<F> {
    /// The frame, wherever it lives.
    pub open spec fn frame_spec(&self) -> F {
        match self {
            FrameBuffer::Hw(f) => *f,
            FrameBuffer::Sw(f) => *f,
        }
    }

    /// The frame, wherever it lives.
    pub fn frame(&self) -> (r: &F)
        ensures
            *r == self.frame_spec(),
    {
        match self {
            FrameBuffer::Hw(f) => f,
            FrameBuffer::Sw(f) => f,
        }
    }

    /// Consumes the buffer, giving the frame back.
    pub fn into_frame(self) -> (r: F)
        ensures
            r == self.frame_spec(),
    {
        match self {
            FrameBuffer::Hw(f) => f,
            FrameBuffer::Sw(f) => f,
        }
    }

    /// Tags a frame the decoder handed out: it lives on the hardware device when
    /// decoding is bound to one and the frame carries a hardware frames context.
    pub fn tagged(frame: F, hw_decoding: bool, has_frames_context: bool) -> (r: Self)
        ensures
            hw_decoding && has_frames_context ==> r == FrameBuffer::Hw(frame),
            !(hw_decoding && has_frames_context) ==> r == FrameBuffer::Sw(frame),
    {
        if hw_decoding && has_frames_context {
            FrameBuffer::Hw(frame)
        } else {
            FrameBuffer::Sw(frame)
        }
    }

    /// Whether the frame lives on the hardware device.
    pub fn is_hardware(&self) -> (r: bool)
        ensures
            r == self is Hw,
    {
        match self {
            FrameBuffer::Hw(_) => true,
            FrameBuffer::Sw(_) => false,
        }
    }

    /// Brings a hardware frame to host memory with `transfer`, the decode library's
    /// device-to-host copy (which also carries the frame's metadata over), and tags
    /// the copy as a host frame. A host frame is left as it is and `transfer` is not
    /// called. When the transfer fails, the buffer is unchanged and its error is
    /// returned.
    pub fn download_to_cpu<E, T: FnOnce(&F) -> Result<F, E>>(&mut self, transfer: T) -> (r: Result<
        (),
        E,
    >)
        requires
            *old(self) matches FrameBuffer::Hw(f) ==> transfer.requires((&f,)),
        ensures
            exists|transferred: Option<Result<F, E>>|
                {
                    &&& transfer_step(*old(self), *final(self), r, transferred)
                    &&& (*old(self) matches FrameBuffer::Hw(f) ==> transferred matches Some(x)
                        && transfer.ensures((&f,), x))
                },
    {
        match self {
            FrameBuffer::Sw(_) => {
                let ghost none: Option<Result<F, E>> = None;
                assert(transfer_step(*old(self), *self, Ok::<(), E>(()), none));
                Ok(())
            },
            FrameBuffer::Hw(hw) => {
                let res = transfer(hw);
                match res {
                    Ok(host) => {
                        let ghost g = Some(Ok::<F, E>(host));
                        *self = FrameBuffer::Sw(host);
                        assert(transfer_step(*old(self), *self, Ok::<(), E>(()), g));
                        Ok(())
                    },
                    Err(e) => {
                        let ghost g = Some(Err::<F, E>(e));
                        assert(transfer_step(*old(self), *self, Err::<(), E>(e), g));
                        Err(e)
                    },
                }
            },
        }
    }

    /// Brings a host frame to the hardware device with `upload`, the decode
    /// library's buffer allocation and host-to-device copy on the encoder's frames
    /// context. Without such a context (`has_frames_context` false) this is the
    /// error `HWFramesContextMissing`, since it means the pipeline is misconfigured.
    /// A hardware frame is left as it is.
    pub fn download_to_gpu<T: FnOnce(&F) -> Result<F, FFmpegError>>(
        &mut self,
        has_frames_context: bool,
        upload: T,
    ) -> (r: Result<(), FFmpegError>)
        requires
            *old(self) matches FrameBuffer::Sw(f) ==> (has_frames_context ==> upload.requires((&f,))),
        ensures
            *old(self) is Hw ==> *final(self) == *old(self) && r is Ok,
            *old(self) is Sw && !has_frames_context ==> *final(self) == *old(self) && r == Err::<
                (),
                FFmpegError,
            >(FFmpegError::HWFramesContextMissing),
            *old(self) matches FrameBuffer::Sw(f) ==> (has_frames_context ==> exists|x: Result<
                F,
                FFmpegError,
            >|
                {
                    &&& upload.ensures((&f,), x)
                    &&& x matches Ok(dev) ==> *final(self) == FrameBuffer::<F>::Hw(dev) && r is Ok
                    &&& x matches Err(e) ==> *final(self) == *old(self) && r == Err::<(), FFmpegError>(e)
                }),
    {
        match self {
            FrameBuffer::Hw(_) => Ok(()),
            FrameBuffer::Sw(host) => {
                if !has_frames_context {
                    return Err(FFmpegError::HWFramesContextMissing);
                }
                let res = upload(host);
                match res {
                    Ok(dev) => {
                        *self = FrameBuffer::Hw(dev);
                        Ok(())
                    },
                    Err(e) => Err(e),
                }
            },
        }
    }
}

/// A second device-to-host transfer right after one that succeeded calls nothing
/// and leaves the same host frame as the first.
pub proof fn lemma_download_idempotent<F, E>(
    b0: FrameBuffer<F>,
    b1: FrameBuffer<F>,
    r1: Result<(), E>,
    x1: Option<Result<F, E>>,
    b2: FrameBuffer<F>,
    r2: Result<(), E>,
    x2: Option<Result<F, E>>,
)
    requires
        transfer_step(b0, b1, r1, x1),
        r1 is Ok,
        transfer_step(b1, b2, r2, x2),
    ensures
        b1 is Sw,
        b2 == b1,
        r2 is Ok,
        x2 is None,
{
}

/// What `publish(frame)` makes of the slot `before`, handing back `r`.
pub open spec fn publish_step<T>(before: Option<T>, after: Option<T>, frame: T, r: Option<T>) -> bool {
    after == Some(frame) && r == before
}

/// What `take` makes of the slot `before`, handing back `r`.
pub open spec fn take_step<T>(before: Option<T>, after: Option<T>, r: Option<T>) -> bool {
    after is None && r == before
}

/// Single-slot container for the latest decoded frame: every publish overwrites
/// the slot, and a take empties it. It never holds more than one frame, so a slow
/// reader sees only the most recent one.
pub struct Mailbox<T> {
    slot: Option<T>,
}

impl<T> Mailbox<T> {
    /// What the mailbox holds.
    pub closed spec fn view(&self) -> Option<T> {
        self.slot
    }

    /// An empty mailbox.
    pub fn new() -> (m: Self)
        ensures
            m.view() is None,
    {
        Mailbox { slot: None }
    }

    /// Puts `frame` in the slot; the frame it replaces, unread, is handed back.
    pub fn publish(&mut self, frame: T) -> (r: Option<T>)
        ensures
            publish_step(old(self).view(), final(self).view(), frame, r),
    {
        let mut slot = Some(frame);
        std::mem::swap(&mut slot, &mut self.slot);
        slot
    }

    /// Takes the frame out, leaving the slot empty.
    pub fn take(&mut self) -> (r: Option<T>)
        ensures
            take_step(old(self).view(), final(self).view(), r),
    {
        let mut slot = None;
        std::mem::swap(&mut slot, &mut self.slot);
        slot
    }

    /// The frame in the slot, left in place.
    pub fn peek(&self) -> (r: Option<&T>)
        ensures
            r matches Some(f) ==> self.view() == Some(*f),
            r is None ==> self.view() is None,
    {
        self.slot.as_ref()
    }

    /// Whether a frame waits in the slot.
    pub fn has_frame(&self) -> (r: bool)
        ensures
            r == self.view() is Some,
    {
        self.slot.is_some()
    }
}

/// Two frames published before a take leave only the second: the take returns it
/// and the mailbox is then empty; the first frame is handed back by the second publish.
pub proof fn lemma_mailbox_overwrite<T>(
    m0: Option<T>,
    f1: T,
    m1: Option<T>,
    r1: Option<T>,
    f2: T,
    m2: Option<T>,
    r2: Option<T>,
    m3: Option<T>,
    taken: Option<T>,
)
    requires
        publish_step(m0, m1, f1, r1),
        publish_step(m1, m2, f2, r2),
        take_step(m2, m3, taken),
    ensures
        taken == Some(f2),
        r2 == Some(f1),
        m3 is None,
{
}

/// A frame published alone is what the next take returns; the mailbox is then
/// empty, and a further take finds nothing.
pub proof fn lemma_mailbox_single<T>(
    m0: Option<T>,
    f1: T,
    m1: Option<T>,
    r1: Option<T>,
    m2: Option<T>,
    taken: Option<T>,
    m3: Option<T>,
    again: Option<T>,
)
    requires
        publish_step(m0, m1, f1, r1),
        take_step(m1, m2, taken),
        take_step(m2, m3, again),
    ensures
        taken == Some(f1),
        m2 is None,
        again is None,
{
}

} // verus!
