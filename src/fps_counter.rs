//! Frame timing: the times of the most recent frames, within a time window.
use std::collections::VecDeque;
use std::time::{Duration, Instant};
use vstd::prelude::*;

verus! {

/// Relies on `Duration::as_nanos`: the length in nanoseconds, cut to 64 bits.
/// Nothing is known of the value.
#[verifier::external_body]
fn duration_nanos(d: &Duration) -> u64 {
    d.as_nanos() as u64
}

/// `s` without its leading times older than `limit`.
pub open spec fn trim_older(s: Seq<u64>, limit: u64) -> Seq<u64>
    decreases s.len(),
{
    if s.len() > 0 && s[0] < limit {
        trim_older(s.drop_first(), limit)
    } else {
        s
    }
}

/// The times kept after a frame at `now` in a counter holding `before` with the
/// given capacity and window: when full the oldest goes, then every time older
/// than the window before `now`.
pub open spec fn ticked(before: Seq<u64>, capacity: usize, window: u64, now: u64) -> Seq<u64> {
    let kept = if before.len() == capacity {
        before.drop_first()
    } else {
        before
    };
    let limit = if now >= window {
        (now - window) as u64
    } else {
        0
    };
    trim_older(kept.push(now), limit)
}

/// Frame times, in nanoseconds since the counter was made, of the most recent
/// frames: at most `capacity` of them, none older than the window.
pub struct FpsCounter {
    frames: VecDeque<u64>,
    capacity: usize,
    window: u64,
    origin: Instant,
}

impl FpsCounter {
    #[verifier::type_invariant]
    spec fn inv(&self) -> bool {
        self.frames@.len() <= self.capacity && self.capacity > 0
    }

    /// The frame times kept, oldest first.
    pub closed spec fn view(&self) -> Seq<u64> {
        self.frames@
    }

    /// Most frame times kept.
    pub closed spec fn capacity_spec(&self) -> usize {
        self.capacity
    }

    /// The window, in nanoseconds.
    pub closed spec fn window_spec(&self) -> u64 {
        self.window
    }

    /// A counter that keeps at most `capacity` frame times, none older than
    /// `window_duration`. The capacity must not be zero.
    pub fn new(capacity: usize, window_duration: Duration) -> (s: Self)
        requires
            capacity > 0,
        ensures
            s.view().len() == 0,
            s.capacity_spec() == capacity,
    {
        let window = duration_nanos(&window_duration);
        FpsCounter {
            frames: VecDeque::with_capacity(capacity),
            capacity,
            window,
            origin: Instant::now(),
        }
    }

    /// Records a frame now and returns its time, in nanoseconds since the counter
    /// was made.
    pub fn tick(&mut self) -> (r: u64)
        ensures
            final(self).view() == ticked(old(self).view(), old(self).capacity_spec(), old(self).window_spec(), r),
            final(self).capacity_spec() == old(self).capacity_spec(),
            final(self).window_spec() == old(self).window_spec(),
    {
        let elapsed = self.origin.elapsed();
        let now = duration_nanos(&elapsed);
        self.tick_at(now);
        now
    }

    /// Records a frame at `now`, in nanoseconds since the counter was made.
    pub fn tick_at(&mut self, now: u64)
        ensures
            final(self).view() == ticked(old(self).view(), old(self).capacity_spec(), old(self).window_spec(), now),
            final(self).capacity_spec() == old(self).capacity_spec(),
            final(self).window_spec() == old(self).window_spec(),
    {
        proof {
            use_type_invariant(&*self);
        }
        let mut frames = VecDeque::new();
        std::mem::swap(&mut frames, &mut self.frames);
        let ghost before = frames@;
        if frames.len() == self.capacity {
            frames.pop_front();
        }
        frames.push_back(now);
        let limit = if now >= self.window {
            now - self.window
        } else {
            0
        };
        proof {
            let kept = if before.len() == self.capacity {
                before.drop_first()
            } else {
                before
            };
            assert(frames@ =~= kept.push(now));
        }
        while frames.len() > 1 && frames[0] < limit
            invariant
                trim_older(frames@, limit) == ticked(before, self.capacity, self.window, now),
                frames@.len() <= self.capacity,
                frames@.len() > 0,
                frames@.last() == now,
                limit <= now,
            decreases frames@.len(),
        {
            let ghost prev = frames@;
            frames.pop_front();
            assert(frames@ =~= prev.drop_first());
        }
        assert(frames@[0] >= limit) by {
            if frames@.len() == 1 {
                assert(frames@[0] == frames@.last());
            }
        }
        assert(trim_older(frames@, limit) == frames@);
        let origin = self.origin;
        *self = FpsCounter { frames, capacity: self.capacity, window: self.window, origin };
    }

    /// The frame times kept, oldest first.
    pub fn frames(&self) -> (r: &VecDeque<u64>)
        ensures
            r@ == self.view(),
    {
        &self.frames
    }
}

} // verus!
