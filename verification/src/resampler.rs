//! The resampling stage of a supplier chain. Where nothing is to convert it
//! hands a request on to the supplier below it. Else it runs the host's
//! conversion engine in rounds: the engine says how many source frames it
//! wants, the supplier below supplies them, the engine writes converted
//! frames to the destination. The engine is the host's to call, so a run is
//! a value that goes from step to step with the engine's and the supplier's
//! answers.
use crate::buffer::AudioBuffer;
use vstd::prelude::*;

verus! {

/// A frame rate in thousandths of a hertz.
#[derive(Copy, Clone, PartialEq, Eq, Debug)]
pub struct Hz {
    pub millihertz: u64,
}

/// A tempo factor in millionths: a million plays at the source's tempo.
#[derive(Copy, Clone, PartialEq, Eq, Debug)]
pub struct TempoFactor {
    pub millionths: u64,
}

/// The tempo factor that plays at the source's tempo.
pub const NEUTRAL_TEMPO_MILLIONTHS: u64 = 1_000_000;

/// How many destination frames the engine is asked to prepare a block for.
pub const RESAMPLE_BLOCK_FRAME_COUNT: usize = 128;

/// How the engine converts.
#[derive(Copy, Clone, PartialEq, Eq, Debug)]
pub enum VirtualResampleMode {
    ProjectDefault,
    ReaperMode { mode: u32 },
}

/// Who asks for material, and where in the audio block.
#[derive(Copy, Clone, PartialEq, Eq, Debug)]
pub struct SupplyRequestInfo {
    pub audio_block_frame_offset: usize,
    pub requester: &'static str,
    pub note: &'static str,
    pub is_realtime: bool,
}

/// A request for audio material from `start_frame` on.
#[derive(Copy, Clone, PartialEq, Eq, Debug)]
pub struct SupplyAudioRequest {
    pub start_frame: isize,
    pub dest_sample_rate: Hz,
    pub info: SupplyRequestInfo,
}

/// A request for MIDI material from `start_frame` on.
#[derive(Copy, Clone, PartialEq, Eq, Debug)]
pub struct SupplyMidiRequest {
    pub start_frame: isize,
    pub dest_frame_count: usize,
    pub dest_sample_rate: Hz,
    pub info: SupplyRequestInfo,
}

/// A request to fill the pre-buffer from `start_frame` on.
#[derive(Copy, Clone, PartialEq, Eq, Debug)]
pub struct PreBufferFillRequest {
    pub start_frame: isize,
    pub frame_rate: Hz,
}

/// Whether more material is to come.
#[derive(Copy, Clone, PartialEq, Eq, Debug)]
pub enum SupplyResponseStatus {
    /// The destination is served and the source goes on.
    PleaseContinue,
    /// The source has ended after so many written frames.
    ReachedEnd { num_frames_written: usize },
}

/// What a supplier did with a request. Frames consumed are source frames,
/// which under conversion are not as many as the frames written.
#[derive(Copy, Clone, PartialEq, Eq, Debug)]
pub struct SupplyResponse {
    pub num_frames_consumed: usize,
    pub status: SupplyResponseStatus,
}

/// A supplier that knows the frame rate of its material.
pub trait WithFrameRate {
    /// The frame rate of the material: none, unless the supplier says
    /// otherwise.
    open spec fn rate(&self) -> Option<Hz> {
        None
    }

    /// The frame rate of the material, if there is material.
    fn frame_rate(&self) -> (rate: Option<Hz>)
        ensures
            rate == self.rate(),
    ;
}

/// A supplier of audio material.
pub trait AudioSupplier<T: Copy>: Sized {
    /// Whether a call with `request` and a destination of the given topology
    /// and samples may leave the supplier as `next`, the destination with
    /// the samples `written`, and answer `response`. Everything may happen,
    /// unless the supplier says otherwise.
    open spec fn supplies(
        &self,
        request: SupplyAudioRequest,
        dest_channels: nat,
        dest_frames: nat,
        dest: Seq<T>,
        next: Self,
        written: Seq<T>,
        response: SupplyResponse,
    ) -> bool {
        true
    }

    /// The number of channels of the material: none, unless the supplier
    /// says otherwise.
    open spec fn channels(&self) -> nat {
        0
    }

    fn supply_audio<B: AudioBuffer<T>>(
        &mut self,
        request: &SupplyAudioRequest,
        dest_buffer: &mut B,
    ) -> (response: SupplyResponse)
        ensures
            old(self).supplies(
                *request,
                old(dest_buffer).channels(),
                old(dest_buffer).frames(),
                old(dest_buffer).samples(),
                *final(self),
                final(dest_buffer).samples(),
                response,
            ),
            final(dest_buffer).channels() == old(dest_buffer).channels(),
            final(dest_buffer).frames() == old(dest_buffer).frames(),
    ;

    fn channel_count(&self) -> (count: usize)
        ensures
            count == self.channels(),
    ;
}

/// A supplier of MIDI material, which it writes to an event list of type `L`.
pub trait MidiSupplier<L>: Sized {
    /// Whether a call with `request` and the event list `events` may leave
    /// the supplier as `next`, the list as `written`, and answer `response`.
    /// Everything may happen, unless the supplier says otherwise.
    open spec fn supplies_midi(
        &self,
        request: SupplyMidiRequest,
        events: L,
        next: Self,
        written: L,
        response: SupplyResponse,
    ) -> bool {
        true
    }

    fn supply_midi(&mut self, request: &SupplyMidiRequest, event_list: &mut L) -> (response:
        SupplyResponse)
        ensures
            old(self).supplies_midi(
                *request,
                *old(event_list),
                *final(self),
                *final(event_list),
                response,
            ),
    ;
}

/// A supplier that can fill a pre-buffer ahead of playing.
pub trait PreBufferSourceSkill: Sized {
    /// Whether a call with `request` may leave the supplier as `next`.
    /// Everything may happen, unless the supplier says otherwise.
    open spec fn pre_buffers(&self, request: PreBufferFillRequest, next: Self) -> bool {
        true
    }

    fn pre_buffer(&mut self, request: PreBufferFillRequest)
        ensures
            old(self).pre_buffers(request, *final(self)),
    ;
}

/// The rate to convert to when the tempo factor is taken into account: the
/// rate divided by the factor, rounded down, and the highest rate there is
/// where the factor is zero or the quotient too large.
pub open spec fn stretched_millihertz(rate: Hz, tempo_factor: TempoFactor) -> nat {
    if tempo_factor.millionths == 0 {
        u64::MAX as nat
    } else {
        let quotient = (rate.millihertz as int * NEUTRAL_TEMPO_MILLIONTHS as int) / (
        tempo_factor.millionths as int);
        if quotient > u64::MAX {
            u64::MAX as nat
        } else {
            quotient as nat
        }
    }
}

/// The number that stands for a mode in the engine's interface: -1 for the
/// project's default, else the mode's own number.
pub open spec fn raw_mode_of(mode: VirtualResampleMode) -> int {
    match mode {
        VirtualResampleMode::ProjectDefault => -1,
        VirtualResampleMode::ReaperMode { mode } => crate::units::reinterpret_as_signed(mode),
    }
}

/// The counters of one run of the engine.
#[derive(Copy, Clone, PartialEq, Eq, Debug)]
pub struct ResampleProgress {
    /// The request that the run serves.
    pub request: SupplyAudioRequest,
    pub source_frame_rate: Hz,
    pub dest_frame_rate: Hz,
    pub source_channel_count: usize,
    pub dest_channel_count: usize,
    /// How many frames the destination has room for.
    pub dest_frame_count: usize,
    pub total_num_frames_consumed: usize,
    pub total_num_frames_written: usize,
}

/// What the engine is asked before a round: how many source frames it wants
/// for a block of so many destination frames.
#[derive(Copy, Clone, PartialEq, Eq, Debug)]
pub struct PrepareRequest {
    pub block_frame_count: usize,
    pub channel_count: usize,
}

/// What the engine is asked at the end of a round: to write converted frames
/// to the destination from the given frame on.
#[derive(Copy, Clone, PartialEq, Eq, Debug)]
pub struct OutputRequest {
    pub dest_frame_offset: usize,
    pub source_frame_count: usize,
    pub max_frame_count: usize,
    pub channel_count: usize,
}

/// One round as the engine and the supplier below answered it: how many
/// source frames the engine wanted, how many the supplier consumed, and how
/// many frames the engine wrote.
pub struct Round {
    pub wanted: usize,
    pub consumed: usize,
    pub written: usize,
}

impl ResampleProgress {
    /// The counters at the start of a run.
    pub open spec fn begin(
        request: SupplyAudioRequest,
        source_frame_rate: Hz,
        dest_frame_rate: Hz,
        source_channel_count: usize,
        dest_channel_count: usize,
        dest_frame_count: usize,
    ) -> Self {
        ResampleProgress {
            request,
            source_frame_rate,
            dest_frame_rate,
            source_channel_count,
            dest_channel_count,
            dest_frame_count,
            total_num_frames_consumed: 0,
            total_num_frames_written: 0,
        }
    }

    /// No more frames are written than the destination has room for.
    pub open spec fn within_destination(self) -> bool {
        self.total_num_frames_written <= self.dest_frame_count
    }

    /// The answer of a run that ends here.
    pub open spec fn response(self, reached_end: bool) -> SupplyResponse {
        SupplyResponse {
            num_frames_consumed: self.total_num_frames_consumed,
            status: if reached_end {
                SupplyResponseStatus::ReachedEnd {
                    num_frames_written: self.total_num_frames_written,
                }
            } else {
                SupplyResponseStatus::PleaseContinue
            },
        }
    }

    /// The first frame that the supplier below has not supplied yet. The
    /// number stays at the highest there is rather than go beyond it.
    pub open spec fn next_source_frame(self) -> int {
        let next = self.request.start_frame + self.total_num_frames_consumed;
        if next > isize::MAX {
            isize::MAX as int
        } else {
            next
        }
    }

    /// The request to the supplier below for the next round: material at
    /// its own rate, from where the last round ended.
    pub open spec fn inner_request(self) -> SupplyAudioRequest {
        SupplyAudioRequest {
            start_frame: self.next_source_frame() as isize,
            dest_sample_rate: self.source_frame_rate,
            info: SupplyRequestInfo {
                audio_block_frame_offset: if self.request.info.audio_block_frame_offset
                    + self.total_num_frames_written > usize::MAX {
                    usize::MAX
                } else {
                    (self.request.info.audio_block_frame_offset
                        + self.total_num_frames_written) as usize
                },
                requester: "active-resampler",
                note: "",
                is_realtime: false,
            },
        }
    }

    /// The counters after the supplier below has consumed so many frames. A
    /// count stays at the highest there is rather than go beyond it.
    pub open spec fn consumed(self, num_frames: usize) -> Self {
        ResampleProgress {
            total_num_frames_consumed: if self.total_num_frames_consumed + num_frames
                > usize::MAX {
                usize::MAX
            } else {
                (self.total_num_frames_consumed + num_frames) as usize
            },
            ..self
        }
    }

    /// The counters after the engine has written so many frames. What an
    /// engine claims beyond the room that it was given does not count.
    pub open spec fn wrote(self, num_frames: usize) -> Self {
        ResampleProgress {
            total_num_frames_written: if self.total_num_frames_written + num_frames
                > self.dest_frame_count {
                self.dest_frame_count
            } else {
                (self.total_num_frames_written + num_frames) as usize
            },
            ..self
        }
    }

    /// Where one round leads: to the answer of the run, or to the counters
    /// for the next round. The run ends as at the source's end where the
    /// engine wants nothing or the supplier below consumes nothing, and
    /// without having reached the source's end where the destination is
    /// full.
    pub open spec fn after_round(self, round: Round) -> Result<ResampleProgress, SupplyResponse> {
        if round.wanted == 0 || round.consumed == 0 {
            Err(self.response(true))
        } else {
            let next = self.consumed(round.consumed).wrote(round.written);
            if next.total_num_frames_written >= next.dest_frame_count {
                Err(next.response(false))
            } else {
                Ok(next)
            }
        }
    }

    /// The answer of a run over the given rounds, if it ends within them, and
    /// the counters at its end.
    pub open spec fn after_rounds(self, rounds: Seq<Round>) -> (
        ResampleProgress,
        Option<SupplyResponse>,
    )
        decreases rounds.len(),
    {
        if rounds.len() == 0 {
            (self, None)
        } else {
            match self.after_round(rounds[0]) {
                Err(response) => (
                    if rounds[0].wanted == 0 || rounds[0].consumed == 0 {
                        self
                    } else {
                        self.consumed(rounds[0].consumed).wrote(rounds[0].written)
                    },
                    Some(response),
                ),
                Ok(next) => next.after_rounds(rounds.subrange(1, rounds.len() as int)),
            }
        }
    }
}

/// How many frames the supplier below consumed in all the rounds.
pub open spec fn frames_consumed_in(rounds: Seq<Round>) -> nat
    decreases rounds.len(),
{
    if rounds.len() == 0 {
        0
    } else {
        rounds[0].consumed as nat + frames_consumed_in(rounds.subrange(1, rounds.len() as int))
    }
}

/// A run before a round: the engine is to say how many source frames it
/// wants.
#[derive(Debug)]
pub struct Preparing {
    progress: ResampleProgress,
}

/// A run within a round: the supplier below is to supply the frames that the
/// engine wants.
#[derive(Debug)]
pub struct Supplying {
    progress: ResampleProgress,
    wanted: usize,
}

/// A run at the end of a round: the engine is to write converted frames.
#[derive(Debug)]
pub struct Writing {
    progress: ResampleProgress,
    wanted: usize,
}

/// A run that has ended, or its next step.
#[derive(Debug)]
pub enum AfterPrepare {
    Finished(SupplyResponse),
    Supply(Supplying),
}

/// A run that has ended, or its next step.
#[derive(Debug)]
pub enum AfterSupply {
    Finished(SupplyResponse),
    Write(Writing),
}

/// A run that has ended, or its next step.
#[derive(Debug)]
pub enum AfterWrite {
    Finished(SupplyResponse),
    Prepare(Preparing),
}

impl Preparing {
    #[verifier::type_invariant]
    spec fn within_destination(&self) -> bool {
        self.progress.within_destination()
    }

    pub closed spec fn progress(&self) -> ResampleProgress {
        self.progress
    }

    /// The run's counters, of which the frames written are never more than
    /// the destination has room for.
    pub fn counters(&self) -> (progress: ResampleProgress)
        ensures
            progress == self.progress(),
            progress.within_destination(),
    {
        proof {
            use_type_invariant(self);
        }
        self.progress
    }

    /// What to ask the engine.
    pub fn prepare_request(&self) -> (request: PrepareRequest)
        ensures
            request == (PrepareRequest {
                block_frame_count: RESAMPLE_BLOCK_FRAME_COUNT,
                channel_count: self.progress().source_channel_count,
            }),
    {
        PrepareRequest {
            block_frame_count: RESAMPLE_BLOCK_FRAME_COUNT,
            channel_count: self.progress.source_channel_count,
        }
    }

    /// Goes on with the number of source frames that the engine wants. Where
    /// it wants none, the run ends at once as at the source's end, with the
    /// frames written so far, and the supplier below is not asked.
    pub fn prepared(self, num_source_frames_to_write: usize) -> (next: AfterPrepare)
        ensures
            num_source_frames_to_write == 0 ==> (next matches AfterPrepare::Finished(response)
                && response == self.progress().response(true)),
            num_source_frames_to_write != 0 ==> (next matches AfterPrepare::Supply(supplying)
                && supplying.progress() == self.progress() && supplying.wanted()
                == num_source_frames_to_write),
    {
        proof {
            use_type_invariant(&self);
        }
        if num_source_frames_to_write == 0 {
            // The tempo may be so low that the engine has nothing to ask for.
            AfterPrepare::Finished(respond(&self.progress, true))
        } else {
            AfterPrepare::Supply(
                Supplying { progress: self.progress, wanted: num_source_frames_to_write },
            )
        }
    }
}

fn respond(progress: &ResampleProgress, reached_end: bool) -> (response: SupplyResponse)
    ensures
        response == progress.response(reached_end),
{
    SupplyResponse {
        num_frames_consumed: progress.total_num_frames_consumed,
        status: if reached_end {
            SupplyResponseStatus::ReachedEnd {
                num_frames_written: progress.total_num_frames_written,
            }
        } else {
            SupplyResponseStatus::PleaseContinue
        },
    }
}

impl Supplying {
    #[verifier::type_invariant]
    spec fn within_destination(&self) -> bool {
        self.progress.within_destination() && self.wanted > 0
    }

    pub closed spec fn progress(&self) -> ResampleProgress {
        self.progress
    }

    /// How many source frames the engine wants.
    pub closed spec fn wanted(&self) -> usize {
        self.wanted
    }

    /// The run's counters.
    pub fn counters(&self) -> (progress: ResampleProgress)
        ensures
            progress == self.progress(),
            progress.within_destination(),
    {
        proof {
            use_type_invariant(self);
        }
        self.progress
    }

    /// How many frames the engine's block holds, which is at least one.
    pub fn block_frame_count(&self) -> (count: usize)
        ensures
            count == self.wanted(),
            count > 0,
    {
        proof {
            use_type_invariant(self);
        }
        self.wanted
    }

    /// What to ask the supplier below, which writes to the engine's block.
    pub fn inner_request(&self) -> (request: SupplyAudioRequest)
        ensures
            request == self.progress().inner_request(),
    {
        let progress = &self.progress;
        let requested = &progress.request;
        let start_frame = match requested.start_frame.checked_add_unsigned(
            progress.total_num_frames_consumed,
        ) {
            Some(frame) => frame,
            None => isize::MAX,
        };
        SupplyAudioRequest {
            start_frame,
            dest_sample_rate: progress.source_frame_rate,
            info: SupplyRequestInfo {
                audio_block_frame_offset: requested.info.audio_block_frame_offset.saturating_add(
                    progress.total_num_frames_written,
                ),
                requester: "active-resampler",
                note: "",
                is_realtime: false,
            },
        }
    }

    /// Goes on with the number of frames that the supplier below consumed.
    /// Where it consumed none, the run ends at the source's end.
    pub fn supplied(self, num_frames_consumed: usize) -> (next: AfterSupply)
        ensures
            num_frames_consumed == 0 ==> (next matches AfterSupply::Finished(response)
                && response == self.progress().response(true)),
            num_frames_consumed != 0 ==> (next matches AfterSupply::Write(writing)
                && writing.progress() == self.progress().consumed(num_frames_consumed)
                && writing.wanted() == self.wanted()),
    {
        proof {
            use_type_invariant(&self);
        }
        if num_frames_consumed == 0 {
            AfterSupply::Finished(respond(&self.progress, true))
        } else {
            let mut progress = self.progress;
            progress.total_num_frames_consumed = progress.total_num_frames_consumed.saturating_add(
                num_frames_consumed,
            );
            AfterSupply::Write(Writing { progress, wanted: self.wanted })
        }
    }
}

impl Writing {
    #[verifier::type_invariant]
    spec fn within_destination(&self) -> bool {
        self.progress.within_destination()
    }

    pub closed spec fn progress(&self) -> ResampleProgress {
        self.progress
    }

    /// How many source frames the engine wanted.
    pub closed spec fn wanted(&self) -> usize {
        self.wanted
    }

    /// The run's counters.
    pub fn counters(&self) -> (progress: ResampleProgress)
        ensures
            progress == self.progress(),
            progress.within_destination(),
    {
        proof {
            use_type_invariant(self);
        }
        self.progress
    }

    /// What to ask the engine: to write behind the frames written so far, and
    /// no more than the destination has room for.
    pub fn output_request(&self) -> (request: OutputRequest)
        ensures
            request == (OutputRequest {
                dest_frame_offset: self.progress().total_num_frames_written,
                source_frame_count: self.wanted(),
                max_frame_count: (self.progress().dest_frame_count
                    - self.progress().total_num_frames_written) as usize,
                channel_count: self.progress().dest_channel_count,
            }),
            request.dest_frame_offset + request.max_frame_count
                == self.progress().dest_frame_count,
    {
        proof {
            use_type_invariant(self);
        }
        OutputRequest {
            dest_frame_offset: self.progress.total_num_frames_written,
            source_frame_count: self.wanted,
            max_frame_count: self.progress.dest_frame_count
                - self.progress.total_num_frames_written,
            channel_count: self.progress.dest_channel_count,
        }
    }

    /// Goes on with the number of frames that the engine wrote. Where the
    /// destination is full, the run ends without having reached the source's
    /// end.
    pub fn written(self, num_frames_written: usize) -> (next: AfterWrite)
        ensures
            ({
                let progress = self.progress().wrote(num_frames_written);
                if progress.total_num_frames_written >= progress.dest_frame_count {
                    next matches AfterWrite::Finished(response) && response == progress.response(
                        false,
                    )
                } else {
                    next matches AfterWrite::Prepare(preparing) && preparing.progress()
                        == progress
                }
            }),
    {
        proof {
            use_type_invariant(&self);
        }
        let mut progress = self.progress;
        let room = progress.dest_frame_count - progress.total_num_frames_written;
        if num_frames_written >= room {
            progress.total_num_frames_written = progress.dest_frame_count;
            // There is enough converted material.
            AfterWrite::Finished(respond(&progress, false))
        } else {
            progress.total_num_frames_written = progress.total_num_frames_written
                + num_frames_written;
            AfterWrite::Prepare(Preparing { progress })
        }
    }
}

/// What became of a request for audio: the answer of the supplier below, or
/// a run of the engine that the host has to drive.
#[derive(Debug)]
pub enum SupplyStep {
    Done(SupplyResponse),
    Resample(Preparing),
}

/// A supplier stage that converts the frame rate of the supplier below it.
#[derive(Debug)]
pub struct Resampler<S> {
    enabled: bool,
    responsible_for_audio_time_stretching: bool,
    mode: VirtualResampleMode,
    supplier: S,
    tempo_factor: TempoFactor,
}

/// What a resampler is set to.
pub struct ResamplerSettings {
    pub enabled: bool,
    pub responsible_for_audio_time_stretching: bool,
    pub mode: VirtualResampleMode,
    pub tempo_factor: TempoFactor,
}

impl<S> Resampler<S> {
    /// What the resampler is set to, as contracts speak of it.
    pub closed spec fn settings(&self) -> ResamplerSettings {
        ResamplerSettings {
            enabled: self.enabled,
            responsible_for_audio_time_stretching: self.responsible_for_audio_time_stretching,
            mode: self.mode,
            tempo_factor: self.tempo_factor,
        }
    }

    /// The supplier below, as contracts speak of it.
    pub closed spec fn inner(&self) -> S {
        self.supplier
    }

    /// A resampler over `supplier` that is switched off.
    pub fn new(supplier: S) -> (resampler: Self)
        ensures
            resampler.inner() == supplier,
            resampler.settings() == (ResamplerSettings {
                enabled: false,
                responsible_for_audio_time_stretching: false,
                mode: VirtualResampleMode::ProjectDefault,
                tempo_factor: TempoFactor { millionths: NEUTRAL_TEMPO_MILLIONTHS },
            }),
    {
        Resampler {
            enabled: false,
            responsible_for_audio_time_stretching: false,
            mode: VirtualResampleMode::ProjectDefault,
            supplier,
            tempo_factor: TempoFactor { millionths: NEUTRAL_TEMPO_MILLIONTHS },
        }
    }

    pub fn supplier(&self) -> (supplier: &S)
        ensures
            *supplier == self.inner(),
    {
        &self.supplier
    }

    pub fn supplier_mut(&mut self) -> (supplier: &mut S)
        ensures
            *supplier == old(self).inner(),
            final(self).inner() == *final(supplier),
            final(self).settings() == old(self).settings(),
    {
        &mut self.supplier
    }

    pub fn set_enabled(&mut self, enabled: bool)
        ensures
            final(self).inner() == old(self).inner(),
            final(self).settings() == (ResamplerSettings { enabled, ..old(self).settings() }),
    {
        self.enabled = enabled;
    }

    /// Sets how the engine converts, and gives the number that stands for
    /// the mode in the engine's interface.
    pub fn set_mode(&mut self, mode: VirtualResampleMode) -> (raw_mode: i32)
        ensures
            final(self).inner() == old(self).inner(),
            final(self).settings() == (ResamplerSettings { mode, ..old(self).settings() }),
            raw_mode == raw_mode_of(mode),
    {
        self.mode = mode;
        match mode {
            VirtualResampleMode::ProjectDefault => -1,
            VirtualResampleMode::ReaperMode { mode } => crate::units::signed_bits(mode),
        }
    }

    /// Decides whether the resampler also takes the tempo factor into
    /// account for audio, which plays it faster or slower.
    pub fn set_responsible_for_audio_time_stretching(&mut self, responsible: bool)
        ensures
            final(self).inner() == old(self).inner(),
            final(self).settings() == (ResamplerSettings {
                responsible_for_audio_time_stretching: responsible,
                ..old(self).settings()
            }),
    {
        self.responsible_for_audio_time_stretching = responsible;
    }

    /// Only has an effect where the resampler is responsible for audio time
    /// stretching.
    pub fn set_tempo_factor(&mut self, tempo_factor: TempoFactor)
        ensures
            final(self).inner() == old(self).inner(),
            final(self).settings() == (ResamplerSettings { tempo_factor, ..old(self).settings() }),
    {
        self.tempo_factor = tempo_factor;
    }

    /// The rate that a request for `dest_sample_rate` is converted to.
    pub open spec fn effective_dest_rate(&self, dest_sample_rate: Hz) -> Hz {
        if self.settings().responsible_for_audio_time_stretching {
            Hz {
                millihertz: stretched_millihertz(dest_sample_rate,
                    self.settings().tempo_factor) as u64,
            }
        } else {
            dest_sample_rate
        }
    }

    /// The rate that a request for `dest_sample_rate` is converted to: the
    /// rate itself, or the rate divided by the tempo factor where the
    /// resampler is responsible for audio time stretching.
    pub fn dest_frame_rate(&self, dest_sample_rate: Hz) -> (rate: Hz)
        ensures
            rate == self.effective_dest_rate(dest_sample_rate),
    {
        if self.responsible_for_audio_time_stretching {
            if self.tempo_factor.millionths == 0 {
                Hz { millihertz: 0xffff_ffff_ffff_ffff }
            } else {
                proof {
                    assert(dest_sample_rate.millihertz * NEUTRAL_TEMPO_MILLIONTHS
                        < 0x1_0000_0000_0000_0000 * 0x1_0000_0000) by (nonlinear_arith)
                        requires
                            0 <= dest_sample_rate.millihertz < 0x1_0000_0000_0000_0000,
                            NEUTRAL_TEMPO_MILLIONTHS < 0x1_0000_0000,
                    ;
                }
                let scaled: u128 = dest_sample_rate.millihertz as u128
                    * NEUTRAL_TEMPO_MILLIONTHS as u128;
                let quotient: u128 = scaled / self.tempo_factor.millionths as u128;
                if quotient > 0xffff_ffff_ffff_ffff {
                    Hz { millihertz: 0xffff_ffff_ffff_ffff }
                } else {
                    Hz { millihertz: quotient as u64 }
                }
            }
        } else {
            dest_sample_rate
        }
    }
}

impl<S: WithFrameRate> Resampler<S> {
    /// The rates that a request for `dest_sample_rate` is converted between,
    /// or none where the request goes to the supplier below as it is: where
    /// the resampler is switched off, where there is no material, and where
    /// the two rates are the same.
    pub open spec fn conversion(&self, dest_sample_rate: Hz) -> Option<(Hz, Hz)> {
        if !self.settings().enabled {
            None
        } else {
            match self.inner().rate() {
                None => None,
                Some(source_frame_rate) => if source_frame_rate == self.effective_dest_rate(
                    dest_sample_rate,
                ) {
                    None
                } else {
                    Some((source_frame_rate, self.effective_dest_rate(dest_sample_rate)))
                },
            }
        }
    }

    /// The rates to convert between, if there is anything to convert.
    pub fn plan(&self, dest_sample_rate: Hz) -> (rates: Option<(Hz, Hz)>)
        ensures
            rates == self.conversion(dest_sample_rate),
    {
        if !self.enabled {
            return None;
        }
        let source_frame_rate = match self.supplier.frame_rate() {
            // Nothing to resample at the moment.
            None => {
                return None;
            },
            Some(rate) => rate,
        };
        let dest_frame_rate = self.dest_frame_rate(dest_sample_rate);
        if source_frame_rate.millihertz == dest_frame_rate.millihertz {
            None
        } else {
            Some((source_frame_rate, dest_frame_rate))
        }
    }

    /// The frame rate of the material, which is that of the supplier below.
    pub fn frame_rate(&self) -> (rate: Option<Hz>)
        ensures
            rate == self.inner().rate(),
    {
        self.supplier.frame_rate()
    }

    /// The request that a pre-buffer request goes to the supplier below as:
    /// with the material's own frame rate where the resampler is switched on
    /// and there is material, since pre-buffering happens before conversion.
    pub open spec fn inner_pre_buffer_request(
        &self,
        request: PreBufferFillRequest,
    ) -> PreBufferFillRequest {
        if !self.settings().enabled {
            request
        } else {
            match self.inner().rate() {
                None => request,
                Some(frame_rate) => PreBufferFillRequest { frame_rate, ..request },
            }
        }
    }
}

impl<S: PreBufferSourceSkill + WithFrameRate> Resampler<S> {
    /// Hands a pre-buffer request on to the supplier below.
    pub fn pre_buffer(&mut self, request: PreBufferFillRequest)
        ensures
            final(self).settings() == old(self).settings(),
            old(self).inner().pre_buffers(
                old(self).inner_pre_buffer_request(request),
                final(self).inner(),
            ),
    {
        if !self.enabled {
            self.supplier.pre_buffer(request);
            return ;
        }
        let source_frame_rate = match self.supplier.frame_rate() {
            None => {
                self.supplier.pre_buffer(request);
                return ;
            },
            Some(rate) => rate,
        };
        let inner_request = PreBufferFillRequest {
            start_frame: request.start_frame,
            frame_rate: source_frame_rate,
        };
        self.supplier.pre_buffer(inner_request);
    }
}

impl<S> Resampler<S> {
    /// Hands a request for MIDI material on to the supplier below, as it is.
    pub fn supply_midi<L>(&mut self, request: &SupplyMidiRequest, event_list: &mut L) -> (response:
        SupplyResponse) where S: MidiSupplier<L>
        ensures
            final(self).settings() == old(self).settings(),
            old(self).inner().supplies_midi(
                *request,
                *old(event_list),
                final(self).inner(),
                *final(event_list),
                response,
            ),
    {
        self.supplier.supply_midi(request, event_list)
    }

    /// The number of channels of the material, which is that of the supplier
    /// below.
    pub fn channel_count<T: Copy>(&self) -> (count: usize) where S: AudioSupplier<T>
        ensures
            count == self.inner().channels(),
    {
        self.supplier.channel_count()
    }

    /// Serves a request for audio material. Where nothing is to convert, the
    /// request goes to the supplier below as it is, and what comes back is
    /// that supplier's work and answer. Else nothing is touched, and the run
    /// that serves the request comes back.
    pub fn supply_audio<T: Copy, B: AudioBuffer<T>>(
        &mut self,
        request: &SupplyAudioRequest,
        dest_buffer: &mut B,
    ) -> (step: SupplyStep) where S: AudioSupplier<T> + WithFrameRate
        ensures
            final(self).settings() == old(self).settings(),
            final(dest_buffer).channels() == old(dest_buffer).channels(),
            final(dest_buffer).frames() == old(dest_buffer).frames(),
            match old(self).conversion(request.dest_sample_rate) {
                None => step matches SupplyStep::Done(response) && old(self).inner().supplies(
                    *request,
                    old(dest_buffer).channels(),
                    old(dest_buffer).frames(),
                    old(dest_buffer).samples(),
                    final(self).inner(),
                    final(dest_buffer).samples(),
                    response,
                ),
                Some((source_frame_rate, dest_frame_rate)) => step matches SupplyStep::Resample(
                    run,
                ) && run.progress() == ResampleProgress::begin(
                    *request,
                    source_frame_rate,
                    dest_frame_rate,
                    old(self).inner().channels() as usize,
                    old(dest_buffer).channels() as usize,
                    old(dest_buffer).frames() as usize,
                ) && final(self).inner() == old(self).inner() && final(dest_buffer).samples()
                    == old(dest_buffer).samples(),
            },
    {
        match self.plan(request.dest_sample_rate) {
            None => SupplyStep::Done(self.supplier.supply_audio(request, dest_buffer)),
            Some((source_frame_rate, dest_frame_rate)) => {
                let progress = ResampleProgress {
                    request: *request,
                    source_frame_rate,
                    dest_frame_rate,
                    source_channel_count: self.supplier.channel_count(),
                    dest_channel_count: dest_buffer.channel_count(),
                    dest_frame_count: dest_buffer.frame_count(),
                    total_num_frames_consumed: 0,
                    total_num_frames_written: 0,
                };
                SupplyStep::Resample(Preparing { progress })
            },
        }
    }
}

/// However the engine and the supplier below answer, a run never counts
/// more frames as written than the destination has room for, never counts
/// more frames as consumed than the supplier below said it consumed, and
/// says at its end what it counted.
pub proof fn run_is_conservative(progress: ResampleProgress, rounds: Seq<Round>)
    requires
        progress.within_destination(),
    ensures
        ({
            let (end, response) = progress.after_rounds(rounds);
            &&& end.within_destination()
            &&& end.dest_frame_count == progress.dest_frame_count
            &&& end.total_num_frames_consumed <= progress.total_num_frames_consumed
                + frames_consumed_in(rounds)
            &&& response matches Some(response) ==> response.num_frames_consumed
                == end.total_num_frames_consumed && (response.status
                matches SupplyResponseStatus::ReachedEnd { num_frames_written }
                ==> num_frames_written == end.total_num_frames_written && num_frames_written
                <= progress.dest_frame_count)
        }),
    decreases rounds.len(),
{
    if rounds.len() > 0 {
        let rest = rounds.subrange(1, rounds.len() as int);
        match progress.after_round(rounds[0]) {
            Err(_) => {},
            Ok(next) => {
                run_is_conservative(next, rest);
            },
        }
    }
}

} // verus!
