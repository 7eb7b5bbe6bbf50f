//! The buffers between the microphone and the transcription.
//!
//! Samples are kept as they are; the type parameter `T` is their type.

use std::collections::VecDeque;

use vstd::prelude::*;
use vstd::slice::slice_subrange;

use crate::audio::TARGET_SAMPLE_RATE;

verus! {

/// The most samples that the recording holds, about two minutes.
pub const BUFFER_CAP: usize = TARGET_SAMPLE_RATE * 120;

/// The last `n` of `s`, or all of it where there are no more.
pub open spec fn newest<T>(s: Seq<T>, n: nat) -> Seq<T> {
    if s.len() <= n {
        s
    } else {
        s.skip(s.len() - n)
    }
}

/// The recorded samples. Where more than [`BUFFER_CAP`] come, the oldest go.
pub struct SharedBuffer<T> {
    samples: VecDeque<T>,
}

impl<T> View for SharedBuffer<T> {
    type V = Seq<T>;

    closed spec fn view(&self) -> Seq<T> {
        self.samples@
    }
}

impl<T> SharedBuffer<T> {
    #[verifier::type_invariant]
    spec fn valid(self) -> bool {
        self.samples@.len() <= BUFFER_CAP
    }

    /// An empty buffer.
    pub fn new() -> (r: Self)
        ensures
            r@ == Seq::<T>::empty(),
    {
        SharedBuffer { samples: VecDeque::with_capacity(BUFFER_CAP) }
    }

    /// How many samples there are.
    pub fn len(&self) -> (r: usize)
        ensures
            r == self@.len(),
            r <= BUFFER_CAP,
    {
        proof {
            use_type_invariant(self);
        }
        self.samples.len()
    }

    /// Takes everything out.
    pub fn take_all(&mut self) -> (r: Vec<T>)
        ensures
            r@ == old(self)@,
            final(self)@ == Seq::<T>::empty(),
    {
        let mut samples: VecDeque<T> = VecDeque::new();
        std::mem::swap(&mut samples, &mut self.samples);
        let ghost all = samples@;
        let mut out: Vec<T> = Vec::with_capacity(samples.len());
        while samples.len() > 0
            invariant
                out@ + samples@ == all,
            decreases samples@.len(),
        {
            if let Some(sample) = samples.pop_front() {
                out.push(sample);
                assert(out@ + samples@ =~= all);
            }
        }
        assert(out@ =~= all);
        self.samples = samples;
        out
    }
}

impl<T: Copy> SharedBuffer<T> {
    /// Appends samples; what no longer fits goes at the old end.
    pub fn append(&mut self, new: &[T])
        ensures
            final(self)@ == newest(old(self)@ + new@, BUFFER_CAP as nat),
    {
        proof {
            use_type_invariant(&*self);
        }
        let ghost before = self.samples@;
        let mut samples: VecDeque<T> = VecDeque::new();
        std::mem::swap(&mut samples, &mut self.samples);
        assert(before + new@.take(0) =~= before);
        for i in 0..new.len()
            invariant
                before.len() <= BUFFER_CAP,
                samples@ == newest(before + new@.take(i as int), BUFFER_CAP as nat),
        {
            let ghost had = before + new@.take(i as int);
            assert(before + new@.take(i + 1) =~= had.push(new@[i as int]));
            if samples.len() >= BUFFER_CAP {
                let _ = samples.pop_front();
            }
            samples.push_back(new[i]);
            assert(samples@ =~= newest(had.push(new@[i as int]), BUFFER_CAP as nat));
        }
        assert(new@.take(new@.len() as int) =~= new@);
        self.samples = samples;
    }
}

/// How many samples per channel there are in interleaved sound; what does not
/// fill all channels is dropped. Sound of one channel is taken as it is.
pub fn mono_len(interleaved: usize, channels: usize) -> (r: usize)
    ensures
        r == if channels > 1 {
            interleaved as int / channels as int
        } else {
            interleaved as int
        },
{
    if channels > 1 {
        interleaved / channels
    } else {
        interleaved
    }
}

/// The samples of all channels at one moment of interleaved sound.
pub fn moment<T>(interleaved: &[T], channels: usize, i: usize) -> (r: &[T])
    requires
        channels > 0,
        (i + 1) * channels <= interleaved@.len(),
    ensures
        r@ == interleaved@.subrange(i * channels, (i + 1) * channels),
{
    assert(0 <= i * channels && (i + 1) * channels == i * channels + channels)
        by (nonlinear_arith);
    assert(i * channels + channels <= interleaved.len());
    let start: usize = i * channels;
    slice_subrange(interleaved, start, start + channels)
}

/// The samples that wait until there are enough of them for the resampler.
pub struct ResamplerState<T> {
    input: Vec<T>,
}

impl<T> View for ResamplerState<T> {
    type V = Seq<T>;

    closed spec fn view(&self) -> Seq<T> {
        self.input@
    }
}

impl<T: Copy> ResamplerState<T> {
    /// Nothing waits.
    pub fn new() -> (r: Self)
        ensures
            r@ == Seq::<T>::empty(),
    {
        ResamplerState { input: Vec::new() }
    }

    /// Appends samples.
    pub fn feed(&mut self, mono: &[T])
        ensures
            final(self)@ == old(self)@ + mono@,
    {
        let ghost before = self.input@;
        assert(before + mono@.take(0) =~= before);
        for i in 0..mono.len()
            invariant
                self.input@ == before + mono@.take(i as int),
        {
            self.input.push(mono[i]);
            assert(before + mono@.take(i + 1) =~= (before + mono@.take(i as int)).push(
                mono@[i as int],
            ));
        }
        assert(mono@.take(mono@.len() as int) =~= mono@);
    }

    /// Takes the next portion of `chunk` samples, if there are that many.
    pub fn next_chunk(&mut self, chunk: usize) -> (r: Option<Vec<T>>)
        requires
            chunk > 0,
        ensures
            match r {
                Some(portion) => {
                    &&& old(self)@.len() >= chunk
                    &&& portion@ == old(self)@.take(chunk as int)
                    &&& final(self)@ == old(self)@.skip(chunk as int)
                    &&& chunks_of(old(self)@, chunk as nat) == seq![portion@] + chunks_of(
                        final(self)@,
                        chunk as nat,
                    )
                    &&& behind_chunks(old(self)@, chunk as nat) == behind_chunks(
                        final(self)@,
                        chunk as nat,
                    )
                },
                None => {
                    &&& old(self)@.len() < chunk
                    &&& final(self)@ == old(self)@
                    &&& chunks_of(old(self)@, chunk as nat) == Seq::<Seq<T>>::empty()
                    &&& behind_chunks(old(self)@, chunk as nat) == final(self)@
                },
            },
    {
        if self.input.len() < chunk {
            return None;
        }
        let mut portion = self.input.split_off(chunk);
        std::mem::swap(&mut portion, &mut self.input);
        Some(portion)
    }
}

/// The portions of `chunk` samples that are taken one after the other.
pub open spec fn chunks_of<T>(s: Seq<T>, chunk: nat) -> Seq<Seq<T>>
    decreases s.len(),
{
    if chunk == 0 || s.len() < chunk {
        seq![]
    } else {
        seq![s.take(chunk as int)] + chunks_of(s.skip(chunk as int), chunk)
    }
}

/// What waits behind the portions.
pub open spec fn behind_chunks<T>(s: Seq<T>, chunk: nat) -> Seq<T>
    decreases s.len(),
{
    if chunk == 0 || s.len() < chunk {
        s
    } else {
        behind_chunks(s.skip(chunk as int), chunk)
    }
}

/// Portion after portion, nothing is lost, doubled or moved: the portions
/// and what waits behind them are the samples, and what waits is less than a
/// portion.
pub proof fn law_chunks_keep_every_sample<T>(s: Seq<T>, chunk: nat)
    requires
        chunk > 0,
    ensures
        chunks_of(s, chunk).flatten() + behind_chunks(s, chunk) == s,
        forall|i: int|
            0 <= i < chunks_of(s, chunk).len() ==> (#[trigger] chunks_of(s, chunk)[i]).len()
                == chunk,
        behind_chunks(s, chunk).len() < chunk,
    decreases s.len(),
{
    if s.len() >= chunk {
        let head = s.take(chunk as int);
        let rest = s.skip(chunk as int);
        law_chunks_keep_every_sample(rest, chunk);
        let parts = chunks_of(s, chunk);
        assert(parts.drop_first() =~= chunks_of(rest, chunk));
        assert(parts.first() == head);
        assert forall|i: int| 0 <= i < parts.len() implies (#[trigger] parts[i]).len()
            == chunk by {
            if i > 0 {
                assert(parts[i] == chunks_of(rest, chunk)[i - 1]);
            }
        }
        assert(parts.flatten() == head + chunks_of(rest, chunk).flatten());
        assert(head + rest =~= s);
        assert(parts.flatten() + behind_chunks(s, chunk) =~= head + (chunks_of(
            rest,
            chunk,
        ).flatten() + behind_chunks(rest, chunk)));
    } else {
        assert(chunks_of(s, chunk).flatten() =~= Seq::<T>::empty());
        assert(chunks_of(s, chunk).flatten() + behind_chunks(s, chunk) =~= s);
    }
}

/// The recording keeps the newest samples however they arrive: two portions
/// one after the other leave it as both at once would.
pub proof fn law_newest_is_kept<T>(s: Seq<T>, a: Seq<T>, b: Seq<T>, cap: nat)
    ensures
        newest(newest(s + a, cap) + b, cap) == newest(s + (a + b), cap),
        newest(s, cap).len() <= cap,
{
    assert(newest(newest(s + a, cap) + b, cap) =~= newest(s + (a + b), cap));
}

/// The recording holds two minutes at 16 kHz.
pub proof fn law_recording_holds_two_minutes()
    ensures
        BUFFER_CAP == 1_920_000,
        BUFFER_CAP == 2 * 60 * TARGET_SAMPLE_RATE,
{
}

/// What is kept is the end of what came, in its order: all of it where it
/// fits, and the last `n` where it does not.
pub proof fn law_the_end_is_kept<T>(s: Seq<T>, n: nat)
    ensures
        newest(s, n).len() == if s.len() < n {
            s.len()
        } else {
            n
        },
        forall|i: int|
            0 <= i < newest(s, n).len() ==> #[trigger] newest(s, n)[i] == s[s.len() - newest(
                s,
                n,
            ).len() + i],
{
}

} // verus!
