//! Interleaved multichannel sample storage: frame after frame, and within a
//! frame channel after channel. A buffer either owns its samples or borrows
//! them from the caller for the length of one call.
use vstd::prelude::*;

verus! {

/// The invariant of every buffer: it holds one sample per channel and frame.
pub open spec fn interleaved(channels: nat, frames: nat, len: nat) -> bool {
    channels * frames == len
}

/// Why a copy between two buffers is refused, if it is.
pub open spec fn copy_refusal(
    src_channels: nat,
    src_frames: nat,
    dest_channels: nat,
    dest_frames: nat,
    from_src_frame: nat,
    to_dest_frame: nat,
    frame_count: nat,
) -> Option<&'static str> {
    if src_channels != dest_channels {
        Some("different channel counts")
    } else if from_src_frame >= src_frames {
        Some("from_src_frame out of source buffer bounds")
    } else if to_dest_frame >= dest_frames {
        Some("to_dest_frame out of destination buffer bounds")
    } else if from_src_frame + frame_count > src_frames {
        Some("end of copied range out of source buffer bounds")
    } else if to_dest_frame + frame_count > dest_frames {
        Some("end of copied range out of destination buffer bounds")
    } else {
        None
    }
}

/// The samples of `dest` after `count` samples of `src`, from `src_start` on,
/// have been written over those from `dest_start` on.
pub open spec fn with_copied_range<T>(
    dest: Seq<T>,
    src: Seq<T>,
    src_start: int,
    dest_start: int,
    count: int,
) -> Seq<T> {
    Seq::new(
        dest.len(),
        |i: int|
            if dest_start <= i < dest_start + count {
                src[i - dest_start + src_start]
            } else {
                dest[i]
            },
    )
}

proof fn lemma_frame_span(channels: nat, frames: nat, start: nat, count: nat)
    requires
        start + count <= frames,
    ensures
        channels * start + channels * count == channels * (start + count),
        channels * (start + count) <= channels * frames,
        channels * start <= channels * frames,
{
    assert(channels * start + channels * count == channels * (start + count))
        by (nonlinear_arith);
    assert(channels * (start + count) <= channels * frames) by (nonlinear_arith)
        requires
            start + count <= frames,
    ;
    assert(channels * start <= channels * frames) by (nonlinear_arith)
        requires
            start <= frames,
    ;
}

/// A buffer of interleaved samples of type `T`. Its well-formed buffers hold
/// one sample per channel and frame.
pub trait AudioBuffer<T: Copy>: Sized {
    /// The number of channels, as contracts speak of it.
    spec fn channels(&self) -> nat;

    /// The number of frames, as contracts speak of it.
    spec fn frames(&self) -> nat;

    /// The samples, frame after frame.
    spec fn samples(&self) -> Seq<T>;

    fn channel_count(&self) -> (count: usize)
        ensures
            count == self.channels(),
    ;

    fn frame_count(&self) -> (count: usize)
        ensures
            count == self.frames(),
    ;

    fn data_as_slice(&self) -> (data: &[T])
        ensures
            data@ == self.samples(),
    ;

    fn data_as_mut_slice(&mut self) -> (data: &mut [T])
        ensures
            data@ == old(self).samples(),
            final(self).samples() == final(data)@,
            final(self).channels() == old(self).channels(),
            final(self).frames() == old(self).frames(),
    ;

    /// The number of samples in the buffer.
    fn interleaved_length(&self) -> (length: usize)
        requires
            interleaved(self.channels(), self.frames(), self.samples().len()),
        ensures
            length == self.channels() * self.frames(),
    {
        self.data_as_slice().len()
    }

    /// A view of this buffer that starts `frame_offset` frames in. There is
    /// none where no frame would be left.
    fn offset_by_mut(&mut self, frame_offset: usize) -> (view: Result<
        BorrowedAudioBuffer<'_, T>,
        &'static str,
    >)
        requires
            interleaved(old(self).channels(), old(self).frames(), old(self).samples().len()),
        ensures
            frame_offset >= old(self).frames() ==> view == Err::<
                BorrowedAudioBuffer<'_, T>,
                &'static str,
            >("resulting audio buffer is empty") && final(self).samples() == old(self).samples(),
            frame_offset < old(self).frames() ==> view is Ok && view->Ok_0.well_formed()
                && view->Ok_0.shape() == (
                old(self).channels(),
                (old(self).frames() - frame_offset) as nat,
            ) && view->Ok_0.borrowed_samples() == old(self).samples().subrange(
                old(self).channels() * frame_offset,
                old(self).samples().len() as int,
            ) && final(self).samples() == old(self).samples().subrange(
                0,
                old(self).channels() * frame_offset,
            ) + final(view->Ok_0.data)@,
            final(self).channels() == old(self).channels(),
            final(self).frames() == old(self).frames(),
    {
        if frame_offset >= self.frame_count() {
            return Err("resulting audio buffer is empty");
        }
        let new_frame_count = self.frame_count() - frame_offset;
        let channel_count = self.channel_count();
        let length = self.interleaved_length();
        proof {
            lemma_frame_span(
                channel_count as nat,
                self.frames(),
                frame_offset as nat,
                new_frame_count as nat,
            );
        }
        let data_offset = channel_count * frame_offset;
        let whole = self.data_as_mut_slice();
        let (_, rest) = whole.split_at_mut(data_offset);
        Ok(BorrowedAudioBuffer { data: rest, frame_count: new_frame_count, channel_count })
    }
}

/// Says why a copy between buffers of these topologies is refused, if it is.
fn check_copy(
    src_channels: usize,
    src_frames: usize,
    dest_channels: usize,
    dest_frames: usize,
    from_src_frame: usize,
    to_dest_frame: usize,
    frame_count: usize,
) -> (refusal: Option<&'static str>)
    ensures
        refusal == copy_refusal(
            src_channels as nat,
            src_frames as nat,
            dest_channels as nat,
            dest_frames as nat,
            from_src_frame as nat,
            to_dest_frame as nat,
            frame_count as nat,
        ),
{
    if src_channels != dest_channels {
        Some("different channel counts")
    } else if from_src_frame >= src_frames {
        Some("from_src_frame out of source buffer bounds")
    } else if to_dest_frame >= dest_frames {
        Some("to_dest_frame out of destination buffer bounds")
    } else if frame_count > src_frames - from_src_frame {
        Some("end of copied range out of source buffer bounds")
    } else if frame_count > dest_frames - to_dest_frame {
        Some("end of copied range out of destination buffer bounds")
    } else {
        None
    }
}

/// Writes `count` samples of `source`, from `src_start` on, over those of
/// `target` from `dest_start` on.
fn copy_samples<T: Copy>(
    source: &[T],
    target: &mut [T],
    src_start: usize,
    dest_start: usize,
    count: usize,
)
    requires
        src_start + count <= source@.len(),
        dest_start + count <= old(target)@.len(),
    ensures
        final(target)@ == with_copied_range(
            old(target)@,
            source@,
            src_start as int,
            dest_start as int,
            count as int,
        ),
{
    let source_length = source.len();
    let target_length = target.len();
    let mut i: usize = 0;
    while i < count
        invariant
            i <= count,
            src_start + count <= source@.len(),
            dest_start + count <= target@.len(),
            target@.len() == old(target)@.len(),
            source@.len() == source_length,
            target@.len() == target_length,
            target@ == with_copied_range(
                old(target)@,
                source@,
                src_start as int,
                dest_start as int,
                i as int,
            ),
        decreases count - i,
    {
        target[dest_start + i] = source[src_start + i];
        i += 1;
    }
}

/// Copies `frame_count` frames, from frame `from_src_frame` of `src` on, to
/// `dest`, from its frame `to_dest_frame` on. Where the topologies differ or a
/// range leaves its buffer, nothing is written.
pub fn copy_to<T: Copy, S: AudioBuffer<T>, D: AudioBuffer<T>>(
    src: &S,
    dest: &mut D,
    from_src_frame: usize,
    to_dest_frame: usize,
    frame_count: usize,
) -> (outcome: Result<(), &'static str>)
    requires
        interleaved(src.channels(), src.frames(), src.samples().len()),
        interleaved(old(dest).channels(), old(dest).frames(), old(dest).samples().len()),
    ensures
        final(dest).channels() == old(dest).channels(),
        final(dest).frames() == old(dest).frames(),
        match copy_refusal(
            src.channels(),
            src.frames(),
            old(dest).channels(),
            old(dest).frames(),
            from_src_frame as nat,
            to_dest_frame as nat,
            frame_count as nat,
        ) {
            Some(reason) => outcome == Err::<(), &'static str>(reason)
                && final(dest).samples() == old(dest).samples(),
            None => outcome == Ok::<(), &'static str>(()) && final(dest).samples()
                == with_copied_range(
                old(dest).samples(),
                src.samples(),
                src.channels() * from_src_frame,
                src.channels() * to_dest_frame,
                src.channels() * frame_count,
            ),
        },
{
    let channel_count = src.channel_count();
    let src_frames = src.frame_count();
    let dest_frames = dest.frame_count();
    match check_copy(
        channel_count,
        src_frames,
        dest.channel_count(),
        dest_frames,
        from_src_frame,
        to_dest_frame,
        frame_count,
    ) {
        Some(reason) => {
            return Err(reason);
        },
        None => {},
    }
    let source = src.data_as_slice();
    let target = dest.data_as_mut_slice();
    let source_length = source.len();
    let target_length = target.len();
    proof {
        lemma_frame_span(
            channel_count as nat,
            src_frames as nat,
            from_src_frame as nat,
            frame_count as nat,
        );
        lemma_frame_span(
            channel_count as nat,
            dest_frames as nat,
            to_dest_frame as nat,
            frame_count as nat,
        );
    }
    copy_samples(
        source,
        target,
        channel_count * from_src_frame,
        channel_count * to_dest_frame,
        channel_count * frame_count,
    );
    Ok(())
}

/// A sample that was written by a copy reads back as the source's sample, and
/// every other sample of the destination is the one that was there before.
pub proof fn copy_reads_back<T>(
    dest: Seq<T>,
    src: Seq<T>,
    src_start: int,
    dest_start: int,
    count: int,
    index: int,
)
    requires
        0 <= index < dest.len(),
    ensures
        with_copied_range(dest, src, src_start, dest_start, count).len() == dest.len(),
        dest_start <= index < dest_start + count ==> with_copied_range(
            dest,
            src,
            src_start,
            dest_start,
            count,
        )[index] == src[index - dest_start + src_start],
        !(dest_start <= index < dest_start + count) ==> with_copied_range(
            dest,
            src,
            src_start,
            dest_start,
            count,
        )[index] == dest[index],
{
}

/// The samples of a vector that is reused for a buffer of `needed` samples:
/// those that it held, as far as they are needed, then silence.
pub open spec fn recycled_samples<T>(data: Seq<T>, needed: nat, silence: T) -> Seq<T> {
    Seq::new(
        needed,
        |i: int|
            if i < data.len() {
                data[i]
            } else {
                silence
            },
    )
}

/// `Vec::capacity`: how many elements the vector holds without allocating
/// again. All that is claimed of it is that it is no less than the length.
#[verifier::external_body]
fn capacity_of<T>(data: &Vec<T>) -> (capacity: usize)
    ensures
        capacity >= data@.len(),
{
    data.capacity()
}

/// A buffer that owns its samples.
#[derive(Debug)]
pub struct OwnedAudioBuffer<T> {
    data: Vec<T>,
    channel_count: usize,
    frame_count: usize,
}

impl<T: Copy> OwnedAudioBuffer<T> {
    /// The buffer holds one sample per channel and frame.
    pub closed spec fn well_formed(&self) -> bool {
        interleaved(self.channel_count as nat, self.frame_count as nat, self.data@.len())
    }

    /// What the buffer's contracts say of it follows from its topology.
    pub proof fn topology_holds(&self)
        requires
            self.well_formed(),
        ensures
            interleaved(self.channels(), self.frames(), self.samples().len()),
    {
    }

    /// Creates an owned audio buffer with the given topology, filled with
    /// `silence`.
    pub fn new(channel_count: usize, frame_count: usize, silence: T) -> (buffer: Self)
        requires
            channel_count * frame_count <= usize::MAX,
        ensures
            buffer.well_formed(),
            buffer.channels() == channel_count,
            buffer.frames() == frame_count,
            buffer.samples() == Seq::new(
                (channel_count * frame_count) as nat,
                |i: int| silence,
            ),
    {
        let length = channel_count * frame_count;
        let mut data: Vec<T> = Vec::with_capacity(length);
        while data.len() < length
            invariant
                data@.len() <= length,
                forall|i: int| 0 <= i < data@.len() ==> data@[i] == silence,
            decreases length - data@.len(),
        {
            data.push(silence);
        }
        Self { data, channel_count, frame_count }
    }

    /// Creates an owned audio buffer with the given topology in the given
    /// vector, if `capacity` elements are enough for it. What the vector held
    /// stays, as far as the buffer has room for it; the rest is `silence`.
    pub fn recycle_with_capacity(
        data: Vec<T>,
        capacity: usize,
        channel_count: usize,
        frame_count: usize,
        silence: T,
    ) -> (buffer: Result<Self, &'static str>)
        ensures
            channel_count * frame_count > capacity ==> buffer == Err::<Self, &'static str>(
                "given vector doesn't have enough capacity",
            ),
            channel_count * frame_count <= capacity ==> buffer is Ok
                && buffer->Ok_0.well_formed() && buffer->Ok_0.channels() == channel_count
                && buffer->Ok_0.frames() == frame_count && buffer->Ok_0.samples()
                == recycled_samples(data@, (channel_count * frame_count) as nat, silence),
    {
        let needed = match channel_count.checked_mul(frame_count) {
            Some(needed) => needed,
            None => {
                return Err("given vector doesn't have enough capacity");
            },
        };
        if capacity < needed {
            return Err("given vector doesn't have enough capacity");
        }
        let ghost given = data@;
        let mut data = data;
        if data.len() > needed {
            data.truncate(needed);
        }
        while data.len() < needed
            invariant
                data@.len() <= needed,
                given.len() <= data@.len() || needed <= data@.len(),
                forall|i: int|
                    0 <= i < data@.len() ==> data@[i] == recycled_samples(
                        given,
                        needed as nat,
                        silence,
                    )[i],
            decreases needed - data@.len(),
        {
            data.push(silence);
        }
        Ok(Self { data, channel_count, frame_count })
    }

    /// Attempts to create an owned audio buffer with the given topology by
    /// reusing the given vector. Whether a vector shorter than the buffer is
    /// large enough is for its allocation to say.
    pub fn try_recycle(data: Vec<T>, channel_count: usize, frame_count: usize, silence: T)
        -> (buffer:
        Result<Self, &'static str>)
        ensures
            channel_count * frame_count <= data@.len() ==> buffer is Ok,
            buffer is Ok ==> buffer->Ok_0.well_formed() && buffer->Ok_0.channels()
                == channel_count && buffer->Ok_0.frames() == frame_count
                && buffer->Ok_0.samples() == recycled_samples(
                data@,
                (channel_count * frame_count) as nat,
                silence,
            ),
            buffer is Err ==> buffer == Err::<Self, &'static str>(
                "given vector doesn't have enough capacity",
            ) && channel_count * frame_count > data@.len(),
    {
        let capacity = capacity_of(&data);
        Self::recycle_with_capacity(data, capacity, channel_count, frame_count, silence)
    }

    /// Gives back the samples.
    pub fn into_inner(self) -> (data: Vec<T>)
        ensures
            data@ == self.samples(),
    {
        self.data
    }
}

impl<T: Copy> AudioBuffer<T> for OwnedAudioBuffer<T> {
    closed spec fn channels(&self) -> nat {
        self.channel_count as nat
    }

    closed spec fn frames(&self) -> nat {
        self.frame_count as nat
    }

    closed spec fn samples(&self) -> Seq<T> {
        self.data@
    }

    fn channel_count(&self) -> (count: usize) {
        self.channel_count
    }

    fn frame_count(&self) -> (count: usize) {
        self.frame_count
    }

    fn data_as_slice(&self) -> (data: &[T]) {
        self.data.as_slice()
    }

    fn data_as_mut_slice(&mut self) -> (data: &mut [T]) {
        self.data.as_mut_slice()
    }
}

/// Material that can be copied into an audio buffer, such as material to be
/// stretched.
pub trait CopyToAudioBuffer<T: Copy> {
    /// Copies material from `start_frame` on into `dest_buffer` and says how
    /// many frames were written.
    fn copy_to_audio_buffer<D: AudioBuffer<T>>(
        &self,
        start_frame: usize,
        dest_buffer: &mut D,
    ) -> Result<usize, &'static str>;
}

/// A buffer over samples that belong to the caller: what is written to it is
/// written to them. A well-formed view holds one sample per channel and
/// frame; `from_raw` and `offset_by_mut` make such views.
#[non_exhaustive]
pub struct BorrowedAudioBuffer<'a, T> {
    pub data: &'a mut [T],
    pub frame_count: usize,
    pub channel_count: usize,
}

impl<'a, T> BorrowedAudioBuffer<'a, T> {
    /// The numbers of channels and of frames.
    pub open spec fn shape(&self) -> (nat, nat) {
        (self.channel_count as nat, self.frame_count as nat)
    }

    /// The samples that the view shows.
    pub open spec fn borrowed_samples(&self) -> Seq<T> {
        self.data@
    }

    /// The view holds one sample per channel and frame.
    pub open spec fn well_formed(&self) -> bool {
        interleaved(self.channel_count as nat, self.frame_count as nat, self.data@.len())
    }
}

impl<'a, T: Copy> BorrowedAudioBuffer<'a, T> {
    /// A buffer of the given topology over the caller's samples, if there is
    /// exactly one of them per channel and frame.
    pub fn from_raw(data: &'a mut [T], channel_count: usize, frame_count: usize) -> (buffer:
        Option<Self>)
        ensures
            interleaved(channel_count as nat, frame_count as nat, old(data)@.len()) <==> buffer
                is Some,
            buffer is Some ==> buffer->Some_0.well_formed() && buffer->Some_0.shape() == (
                channel_count as nat,
                frame_count as nat,
            ) && buffer->Some_0.borrowed_samples() == old(data)@,
    {
        let length = data.len();
        match channel_count.checked_mul(frame_count) {
            Some(needed) => {
                if needed == length {
                    Some(BorrowedAudioBuffer { data, frame_count, channel_count })
                } else {
                    None
                }
            },
            None => None,
        }
    }

    /// Copies `frame_count` frames, from frame `from_src_frame` of `src` on,
    /// to this view, from its frame `to_dest_frame` on, and so to the samples
    /// that the view shows. Where the topologies differ or a range leaves its
    /// buffer, nothing is written.
    pub fn copy_from<S: AudioBuffer<T>>(
        &mut self,
        src: &S,
        from_src_frame: usize,
        to_dest_frame: usize,
        frame_count: usize,
    ) -> (outcome: Result<(), &'static str>)
        requires
            interleaved(src.channels(), src.frames(), src.samples().len()),
            old(self).well_formed(),
        ensures
            final(self).well_formed(),
            final(self).shape() == old(self).shape(),
            final(final(self).data)@ == final(old(self).data)@,
            match copy_refusal(
                src.channels(),
                src.frames(),
                old(self).shape().0,
                old(self).shape().1,
                from_src_frame as nat,
                to_dest_frame as nat,
                frame_count as nat,
            ) {
                Some(reason) => outcome == Err::<(), &'static str>(reason)
                    && final(self).data@ == old(self).data@,
                None => outcome == Ok::<(), &'static str>(()) && final(self).data@
                    == with_copied_range(
                    old(self).data@,
                    src.samples(),
                    src.channels() * from_src_frame,
                    src.channels() * to_dest_frame,
                    src.channels() * frame_count,
                ),
            },
    {
        let channel_count = src.channel_count();
        let src_frames = src.frame_count();
        match check_copy(
            channel_count,
            src_frames,
            self.channel_count,
            self.frame_count,
            from_src_frame,
            to_dest_frame,
            frame_count,
        ) {
            Some(reason) => {
                return Err(reason);
            },
            None => {},
        }
        let source = src.data_as_slice();
        let source_length = source.len();
        let target_length = self.data.len();
        proof {
            lemma_frame_span(
                channel_count as nat,
                src_frames as nat,
                from_src_frame as nat,
                frame_count as nat,
            );
            lemma_frame_span(
                channel_count as nat,
                self.frame_count as nat,
                to_dest_frame as nat,
                frame_count as nat,
            );
        }
        copy_samples(
            source,
            self.data,
            channel_count * from_src_frame,
            channel_count * to_dest_frame,
            channel_count * frame_count,
        );
        Ok(())
    }
}

impl<'a, T: Copy> AudioBuffer<T> for BorrowedAudioBuffer<'a, T> {
    open spec fn channels(&self) -> nat {
        self.channel_count as nat
    }

    open spec fn frames(&self) -> nat {
        self.frame_count as nat
    }

    open spec fn samples(&self) -> Seq<T> {
        self.data@
    }

    fn channel_count(&self) -> (count: usize) {
        self.channel_count
    }

    fn frame_count(&self) -> (count: usize) {
        self.frame_count
    }

    fn data_as_slice(&self) -> (data: &[T]) {
        self.data
    }

    fn data_as_mut_slice(&mut self) -> (data: &mut [T])
        ensures
            final(final(self).data)@ == final(old(self).data)@,
    {
        self.data
    }
}

} // verus!
