//! Audio buffering. A sample is an opaque value of type `T`.

use crate::error::AppError;
use crate::perf;
use vstd::prelude::*;

verus! {

/// Sample rate that the speech engine takes (16 kHz).
pub const TARGET_SAMPLE_RATE: u32 = 16_000;

/// How often the level of the microphone is reported at most (milliseconds).
pub const LEVEL_EVENT_MS: u64 = 33;

/// Whether the level of the microphone is to be reported again, given the times of the last report
/// and of now in milliseconds.
pub fn level_due(last: u64, now: u64) -> (r: bool)
    ensures
        r == (last + LEVEL_EVENT_MS <= now),
{
    last <= now && now - last >= LEVEL_EVENT_MS
}

/// Ring buffer for audio samples with fixed capacity: the newest samples overwrite the oldest.
pub struct AudioRingBuffer<T> {
    buffer: Vec<T>,
    limit: usize,
    next: usize,
    written: usize,
}

impl<T: Copy> AudioRingBuffer<T> {
    /// The samples held, oldest first.
    pub closed spec fn samples(self) -> Seq<T> {
        Seq::new(
            self.buffer@.len(),
            |i: int|
                if self.next + i < self.buffer@.len() {
                    self.buffer@[self.next + i]
                } else {
                    self.buffer@[self.next + i - self.buffer@.len()]
                },
        )
    }

    /// How many samples the buffer holds at most.
    pub closed spec fn limit(self) -> nat {
        self.limit as nat
    }

    /// How many samples were written since the buffer was last empty.
    pub closed spec fn total(self) -> nat {
        self.written as nat
    }

    /// The buffer holds the latest samples up to its capacity.
    pub closed spec fn wf(self) -> bool {
        &&& self.buffer@.len() == (if self.written < self.limit {
            self.written
        } else {
            self.limit
        })
        &&& self.buffer@.len() < self.limit ==> self.next == 0
        &&& self.limit > 0 ==> self.next < self.limit
        &&& self.limit == 0 ==> self.next == 0
    }

    /// What the invariant says of the samples held.
    pub proof fn holds_what_fits(self)
        requires
            self.wf(),
        ensures
            self.samples().len() == (if self.total() < self.limit() {
                self.total()
            } else {
                self.limit()
            }),
    {
    }

    /// Create a new ring buffer with the given capacity (in samples).
    pub fn new(capacity: usize) -> (b: Self)
        ensures
            b.wf(),
            b.limit() == capacity,
            b.total() == 0,
            b.samples() == Seq::<T>::empty(),
    {
        let b = AudioRingBuffer { buffer: Vec::new(), limit: capacity, next: 0, written: 0 };
        assert(b.samples() =~= Seq::<T>::empty());
        b
    }

    /// Capacity in samples.
    pub fn capacity(&self) -> (n: usize)
        ensures
            n == self.limit(),
    {
        self.limit
    }

    fn push_one(&mut self, sample: T)
        requires
            old(self).wf(),
            old(self).limit() > 0,
            old(self).total() < usize::MAX,
        ensures
            final(self).wf(),
            final(self).limit() == old(self).limit(),
            final(self).total() == old(self).total() + 1,
            final(self).samples() == perf::last_of(
                old(self).samples().push(sample),
                old(self).limit(),
            ),
    {
        if self.buffer.len() < self.limit {
            self.buffer.push(sample);
        } else {
            let at: usize = self.next;
            self.buffer.set(at, sample);
            self.next = if at + 1 == self.limit {
                0
            } else {
                at + 1
            };
        }
        self.written = self.written + 1;
        assert(self.samples() =~= perf::last_of(
            old(self).samples().push(sample),
            old(self).limit(),
        ));
    }

    /// Push samples into the ring buffer. Overwrites the oldest ones when full.
    pub fn push(&mut self, samples: &[T])
        requires
            old(self).wf(),
            samples@.len() > 0 ==> old(self).limit() > 0,
            old(self).total() + samples@.len() <= usize::MAX,
        ensures
            final(self).wf(),
            final(self).limit() == old(self).limit(),
            final(self).total() == old(self).total() + samples@.len(),
            final(self).samples() == perf::last_of(
                old(self).samples() + samples@,
                old(self).limit(),
            ),
    {
        let mut i: usize = 0;
        proof {
            self.holds_what_fits();
            assert(perf::last_of(self.samples() + samples@.take(0), self.limit()) =~= self.samples());
        }
        while i < samples.len()
            invariant
                i <= samples@.len(),
                self.wf(),
                samples@.len() > 0 ==> self.limit() > 0,
                self.limit() == old(self).limit(),
                self.total() == old(self).total() + i,
                old(self).total() + samples@.len() <= usize::MAX,
                self.samples() == perf::last_of(
                    old(self).samples() + samples@.take(i as int),
                    self.limit(),
                ),
            decreases samples@.len() - i,
        {
            self.push_one(samples[i]);
            proof {
                let before = old(self).samples() + samples@.take(i as int);
                let after = old(self).samples() + samples@.take(i + 1);
                assert(after =~= before.push(samples@[i as int]));
                assert(perf::last_of(
                    perf::last_of(before, self.limit()).push(samples@[i as int]),
                    self.limit(),
                ) =~= perf::last_of(after, self.limit()));
            }
            i = i + 1;
        }
        assert(samples@.take(i as int) =~= samples@);
    }

    /// Total samples written since the buffer was last empty (may exceed the capacity).
    pub fn total_written(&self) -> (n: usize)
        ensures
            n == self.total(),
    {
        self.written
    }

    /// Current length (capped at the capacity).
    pub fn len(&self) -> (n: usize)
        ensures
            n == self.samples().len(),
    {
        self.buffer.len()
    }

    /// Whether nothing was written since the buffer was last empty.
    pub fn is_empty(&self) -> (r: bool)
        ensures
            r == (self.total() == 0),
    {
        self.written == 0
    }

    /// Clear all data.
    pub fn clear(&mut self)
        ensures
            final(self).wf(),
            final(self).limit() == old(self).limit(),
            final(self).total() == 0,
            final(self).samples() == Seq::<T>::empty(),
    {
        self.buffer.clear();
        self.next = 0;
        self.written = 0;
        assert(self.samples() =~= Seq::<T>::empty());
    }

    /// Copy the most recent `max_samples` into a new vector.
    pub fn snapshot_recent(&self, max_samples: usize) -> (v: Vec<T>)
        requires
            self.wf(),
        ensures
            v@ == perf::last_of(self.samples(), max_samples as nat),
    {
        let available: usize = self.buffer.len();
        let skipped: usize = if max_samples < available {
            available - max_samples
        } else {
            0
        };
        let mut v: Vec<T> = Vec::new();
        let mut i: usize = skipped;
        while i < available
            invariant
                skipped <= i <= available,
                available == self.buffer@.len(),
                self.wf(),
                v@ == self.samples().subrange(skipped as int, i as int),
            decreases available - i,
        {
            let room: usize = available - self.next;
            if i < room {
                v.push(self.buffer[self.next + i]);
            } else {
                v.push(self.buffer[i - room]);
            }
            i = i + 1;
            assert(v@ =~= self.samples().subrange(skipped as int, i as int));
        }
        assert(v@ =~= perf::last_of(self.samples(), max_samples as nat));
        v
    }

    /// Take all samples and clear the buffer.
    pub fn take_all(&mut self) -> (v: Vec<T>)
        requires
            old(self).wf(),
        ensures
            v@ == old(self).samples(),
            final(self).wf(),
            final(self).limit() == old(self).limit(),
            final(self).total() == 0,
            final(self).samples() == Seq::<T>::empty(),
    {
        let v = self.snapshot_recent(self.limit);
        proof {
            self.holds_what_fits();
        }
        self.clear();
        v
    }
}

/// The samples that a ring buffer of capacity `limit` holds after a series of writes.
pub open spec fn after_writes<T>(held: Seq<T>, writes: Seq<Seq<T>>, limit: nat) -> Seq<T>
    decreases writes.len(),
{
    if writes.len() == 0 {
        held
    } else {
        perf::last_of(after_writes(held, writes.drop_last(), limit) + writes.last(), limit)
    }
}

/// All the samples of a series of writes, in order.
pub open spec fn joined<T>(writes: Seq<Seq<T>>) -> Seq<T>
    decreases writes.len(),
{
    if writes.len() == 0 {
        seq![]
    } else {
        joined(writes.drop_last()) + writes.last()
    }
}

/// However the samples were split over writes, an initially empty buffer holds the latest ones up
/// to its capacity.
pub proof fn writes_can_be_split_anyhow<T>(writes: Seq<Seq<T>>, limit: nat)
    ensures
        after_writes(Seq::<T>::empty(), writes, limit) == perf::last_of(joined(writes), limit),
    decreases writes.len(),
{
    if writes.len() > 0 {
        let before = writes.drop_last();
        writes_can_be_split_anyhow(before, limit);
        assert(perf::last_of(perf::last_of(joined(before), limit) + writes.last(), limit)
            =~= perf::last_of(joined(before) + writes.last(), limit));
    } else {
        assert(perf::last_of(joined(writes), limit) =~= Seq::<T>::empty());
    }
}

/// Audio capture that only keeps track of being started.
pub struct MockAudioCapture {
    capturing: bool,
    sample_rate_val: Option<u32>,
}

impl MockAudioCapture {
    /// Whether it is capturing.
    pub closed spec fn active(self) -> bool {
        self.capturing
    }

    /// The sample rate it reports.
    pub closed spec fn rate(self) -> Option<u32> {
        self.sample_rate_val
    }

    pub fn new() -> (c: Self)
        ensures
            !c.active(),
            c.rate() is None,
    {
        MockAudioCapture { capturing: false, sample_rate_val: None }
    }

    /// Start capturing; the callback is not kept.
    pub fn start<F>(&mut self, _on_data: F) -> (r: Result<(), AppError>)
        ensures
            r is Ok,
            final(self).active(),
            final(self).rate() == Some(48_000u32),
    {
        self.capturing = true;
        self.sample_rate_val = Some(48_000);
        Ok(())
    }

    pub fn stop(&mut self)
        ensures
            !final(self).active(),
            final(self).rate() is None,
    {
        self.capturing = false;
        self.sample_rate_val = None;
    }

    pub fn is_capturing(&self) -> (r: bool)
        ensures
            r == self.active(),
    {
        self.capturing
    }

    pub fn sample_rate(&self) -> (r: Option<u32>)
        ensures
            r == self.rate(),
    {
        self.sample_rate_val
    }
}

impl Default for MockAudioCapture {
    fn default() -> (c: Self)
        ensures
            !c.active(),
            c.rate() is None,
    {
        Self::new()
    }
}

/// What was written last is what is read: a look at the latest samples after a write shows the end
/// of what was held and written, as much as is asked for and the buffer holds.
pub proof fn the_latest_samples_are_read<T: Copy>(
    buffer: &mut AudioRingBuffer<T>,
    data: &[T],
    done: (),
    n: usize,
    v: Vec<T>,
    len: usize,
    total: usize,
    j: int,
)
    requires
        old(buffer).wf(),
        call_ensures(AudioRingBuffer::<T>::push, (buffer, data), done),
        call_ensures(AudioRingBuffer::<T>::snapshot_recent, (&*final(buffer), n), v),
        call_ensures(AudioRingBuffer::<T>::len, (&*final(buffer),), len),
        call_ensures(AudioRingBuffer::<T>::total_written, (&*final(buffer),), total),
    ensures
        total == old(buffer).total() + data@.len(),
        ({
            let all = old(buffer).samples() + data@;
            &&& len == (if all.len() < old(buffer).limit() {
                all.len()
            } else {
                old(buffer).limit()
            })
            &&& v@.len() == (if n < len {
                n
            } else {
                len
            })
            &&& 0 <= j < v@.len() ==> v@[v@.len() - 1 - j] == all[all.len() - 1 - j]
        }),
{
}

/// A buffer that is emptied hands out all it held, oldest first, and holds nothing then.
pub proof fn an_emptied_buffer_holds_nothing<T: Copy>(
    capacity: usize,
    fresh: AudioRingBuffer<T>,
    buffer: &mut AudioRingBuffer<T>,
    v: Vec<T>,
    len: usize,
    empty: bool,
    cleared: &mut AudioRingBuffer<T>,
    done: (),
)
    requires
        call_ensures(AudioRingBuffer::<T>::new, (capacity,), fresh),
        old(buffer).wf(),
        call_ensures(AudioRingBuffer::<T>::take_all, (buffer,), v),
        call_ensures(AudioRingBuffer::<T>::len, (&*final(buffer),), len),
        call_ensures(AudioRingBuffer::<T>::is_empty, (&*final(buffer),), empty),
        call_ensures(AudioRingBuffer::<T>::clear, (cleared,), done),
    ensures
        fresh.samples().len() == 0 && fresh.limit() == capacity && fresh.total() == 0,
        v@ == old(buffer).samples(),
        len == 0 && empty,
        final(buffer).limit() == old(buffer).limit(),
        final(cleared).samples().len() == 0 && final(cleared).total() == 0,
        final(cleared).limit() == old(cleared).limit(),
{
}

/// The level is reported when 33 milliseconds have passed since the last report.
pub proof fn levels_are_reported_in_time(last: u64, now: u64, r: bool)
    requires
        call_ensures(level_due, (last, now), r),
    ensures
        r <==> now - last >= 33,
{
}

} // verus!
