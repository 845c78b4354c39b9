//! A clip slot: its persistent descriptor, its preview register and its
//! transport state. Every operation leaves the slot in one of the states
//! empty, suspended or playing, also where it fails.
use crate::preview::{
    ClipSource, PreviewHandle, PreviewRegister, StartPreview, StopPreview, TrackId, TransportState,
    Volume, ZERO_DB_MICRO_GAIN,
};
use crate::slot_state::{
    calculate_proportional_position, register_proportion, state_after, ClipChangedEvent,
        ClipPlayArgs,
    ClipPlayState, PendingPlay, SlotPlayOptions, State, Step, SuspendedState, TransitionResult,
};
use crate::unit_value::{scaled_part, UnitValue};
use vstd::prelude::*;

verus! {

/// What a slot holds.
#[derive(Clone, PartialEq, Eq, Debug)]
pub enum SlotContent {
    File { file: String },
}

impl SlotContent {
    /// Returns the path to the file, if the slot content is file-based.
    pub fn file(&self) -> (file: Option<&str>)
        ensures
            file is Some,
            file->Some_0@ == self->file@,
    {
        match self {
            SlotContent::File { file } => Some(file.as_str()),
        }
    }
}

impl SlotContent {
    /// A copy.
    pub fn duplicate(&self) -> (copy: Self)
        ensures
            copy == *self,
    {
        match self {
            SlotContent::File { file } => SlotContent::File { file: file.clone() },
        }
    }
}

/// The persistent settings of a slot.
#[derive(Clone, PartialEq, Eq, Debug)]
pub struct SlotDescriptor {
    pub volume: Volume,
    pub repeat: bool,
    pub content: Option<SlotContent>,
}

impl SlotDescriptor {
    /// The descriptor of a slot that nobody has touched: zero decibels, no
    /// repeat, no content.
    pub open spec fn initial() -> Self {
        SlotDescriptor {
            volume: Volume { micro_gain: ZERO_DB_MICRO_GAIN },
            repeat: false,
            content: None,
        }
    }

    pub fn is_filled(&self) -> (filled: bool)
        ensures
            filled == (self.content is Some),
    {
        self.content.is_some()
    }

    /// A copy.
    pub fn duplicate(&self) -> (copy: Self)
        ensures
            copy == *self,
    {
        SlotDescriptor {
            volume: self.volume,
            repeat: self.repeat,
            content: match &self.content {
                Some(content) => Some(content.duplicate()),
                None => None,
            },
        }
    }
}

impl Default for SlotDescriptor {
    fn default() -> (descriptor: Self)
        ensures
            descriptor == SlotDescriptor::initial(),
    {
        SlotDescriptor { volume: Volume::zero_db(), repeat: false, content: None }
    }
}

/// What is known of the clip in a slot.
#[derive(Clone, PartialEq, Eq, Debug)]
pub struct ClipInfo {
    /// The kind of source, such as "WAVE" or "MIDI".
    pub kind: String,
    pub file_name: Option<String>,
    pub length_micros: Option<u64>,
}

/// How an operation ended, and the preview that the host has to stop for it.
#[derive(Debug, PartialEq, Eq)]
pub struct Outcome<T> {
    pub result: Result<T, &'static str>,
    pub stop: Option<StopPreview>,
}

/// What the host has to do before a slot plays: stop one preview, if any,
/// and start another.
#[derive(Copy, Clone, Debug, PartialEq, Eq)]
pub struct PlayRequest {
    pub stop: Option<StopPreview>,
    pub start: StartPreview,
    /// With what the slot plays once the host has started the preview.
    pub args: ClipPlayArgs,
}

/// An operation that has ended, or one that ends with `complete_play` when
/// the host has answered the request.
#[derive(Debug, PartialEq, Eq)]
pub enum SlotStep<T> {
    Done(Outcome<T>),
    Start(PlayRequest),
}

/// What polling found, and the preview that the host has to stop for it.
#[derive(Copy, Clone, Debug, PartialEq, Eq)]
pub struct Polled {
    pub event: Option<ClipChangedEvent>,
    pub stop: Option<StopPreview>,
}

/// What an operation reports of a transition: the play state that it left, or
/// why it failed.
pub open spec fn play_state_report(result: TransitionResult) -> Result<
    ClipChangedEvent,
    &'static str,
> {
    match result {
        Ok(state) => Ok(ClipChangedEvent::PlayStateChanged(state.play_state_of())),
        Err((_, reason)) => Err(reason),
    }
}

/// The position in microseconds that a unit value stands for in a source of
/// the given length.
pub open spec fn sought_position(position: UnitValue, length_micros: u64) -> int {
    let part = scaled_part(position.billionths(), length_micros as nat);
    if part > i64::MAX {
        i64::MAX as int
    } else {
        part as int
    }
}

/// A clip slot.
#[derive(Debug)]
pub struct ClipSlot {
    descriptor: SlotDescriptor,
    register: PreviewRegister,
    state: State,
}

impl Default for ClipSlot {
    fn default() -> (slot: Self)
        ensures
            slot.well_formed(),
            slot.descriptor_value() == SlotDescriptor::initial(),
            slot.register_value() == PreviewRegister::fresh(SlotDescriptor::initial().volume),
            slot.state_value() == State::Empty,
    {
        let descriptor = SlotDescriptor::default();
        let register = PreviewRegister::new(descriptor.volume);
        ClipSlot { descriptor, register, state: State::Empty }
    }
}

impl ClipSlot {
    /// The slot's descriptor, as contracts speak of it.
    pub closed spec fn descriptor_value(&self) -> SlotDescriptor {
        self.descriptor
    }

    /// The slot's register, as contracts speak of it.
    pub closed spec fn register_value(&self) -> PreviewRegister {
        self.register
    }

    /// The slot's state, as contracts speak of it.
    pub closed spec fn state_value(&self) -> State {
        self.state
    }

    /// No transition is under way.
    pub closed spec fn well_formed(&self) -> bool {
        !(self.state is Transitioning)
    }

    /// With what the slot plays on `track` with `options`.
    pub open spec fn play_args(&self, track: Option<TrackId>, options: SlotPlayOptions)
        -> ClipPlayArgs {
        ClipPlayArgs { options, track, repeat: self.descriptor_value().repeat }
    }

    /// A slot is well-formed as long as its state is one that can be seen.
    pub proof fn well_formed_by_state(&self)
        ensures
            self.well_formed() == !(self.state_value() is Transitioning),
    {
    }

    pub fn descriptor(&self) -> (descriptor: &SlotDescriptor)
        ensures
            *descriptor == self.descriptor_value(),
    {
        &self.descriptor
    }

    /// The register, for the host to play from.
    pub fn register(&self) -> (register: &PreviewRegister)
        ensures
            *register == self.register_value(),
    {
        &self.register
    }

    /// Takes over the play position that the host has reached.
    pub fn sync_position(&mut self, position_micros: i64)
        ensures
            final(self).register_value() == (PreviewRegister {
                position_micros,
                ..old(self).register_value()
            }),
            final(self).descriptor_value() == old(self).descriptor_value(),
            final(self).state_value() == old(self).state_value(),
            final(self).well_formed() == old(self).well_formed(),
    {
        self.register.position_micros = position_micros;
    }

    fn start_transition(&mut self) -> (state: State)
        ensures
            state == old(self).state,
            final(self).state == State::Transitioning,
            final(self).descriptor == old(self).descriptor,
            final(self).register == old(self).register,
    {
        let mut state = State::Transitioning;
        core::mem::swap(&mut self.state, &mut state);
        state
    }

    fn finish_transition(&mut self, result: TransitionResult) -> (outcome: Result<
        (),
        &'static str,
    >)
        ensures
            final(self).state == state_after(result),
            final(self).descriptor == old(self).descriptor,
            final(self).register == old(self).register,
            outcome == match result {
                Ok(_) => Ok::<(), &'static str>(()),
                Err((_, reason)) => Err::<(), &'static str>(reason),
            },
    {
        match result {
            Ok(state) => {
                self.state = state;
                Ok(())
            },
            Err((state, reason)) => {
                self.state = state;
                Err(reason)
            },
        }
    }

    /// Resets all slot data to the defaults, volume and repeat included.
    pub fn reset(&mut self) -> (outcome: Outcome<Vec<ClipChangedEvent>>)
        requires
            old(self).well_formed(),
        ensures
            final(self).well_formed(),
            final(self).descriptor_value() == SlotDescriptor::initial(),
            final(self).register_value()
                == PreviewRegister::fresh(SlotDescriptor::initial().volume),
            final(self).state_value() == State::Empty,
            outcome.stop == old(self).state_value().after_clear(old(self).register_value()).0.stop,
            outcome.result is Ok,
            outcome.result->Ok_0@ == seq![
                ClipChangedEvent::PlayStateChanged(ClipPlayState::Stopped),
                ClipChangedEvent::ClipVolumeChanged(SlotDescriptor::initial().volume),
                ClipChangedEvent::ClipRepeatChanged(false),
            ],
    {
        self.load(SlotDescriptor::default(), None)
    }

    /// The state and the register of a slot that was loaded with `source`.
    pub open spec fn loaded_with(volume: Volume, source: Option<ClipSource>) -> (
        State,
        PreviewRegister,
    ) {
        match source {
            Some(source) => (
                State::Suspended(SuspendedState::loaded()),
                PreviewRegister { source: Some(source), ..PreviewRegister::fresh(volume) },
            ),
            None => (State::Empty, PreviewRegister::fresh(volume)),
        }
    }

    /// Stops playing if necessary and loads all slot settings from the given
    /// descriptor, with a new register. `source` is the source of the
    /// descriptor's content, where it could be had: without it the slot stays
    /// empty and keeps the descriptor.
    pub fn load(&mut self, descriptor: SlotDescriptor, source: Option<ClipSource>) -> (outcome:
        Outcome<Vec<ClipChangedEvent>>)
        requires
            old(self).well_formed(),
        ensures
            final(self).well_formed(),
            final(self).descriptor_value() == descriptor,
            (final(self).state_value(), final(self).register_value()) == Self::loaded_with(
                descriptor.volume,
                source,
            ),
            outcome.stop == old(self).state_value().after_clear(old(self).register_value()).0.stop,
            outcome.result is Ok,
            outcome.result->Ok_0@ == seq![
                ClipChangedEvent::PlayStateChanged(ClipPlayState::Stopped),
                ClipChangedEvent::ClipVolumeChanged(descriptor.volume),
                ClipChangedEvent::ClipRepeatChanged(descriptor.repeat),
            ],
    {
        let cleared = self.clear();
        // A new register saves the cleaning of the old one.
        self.register = PreviewRegister::new(descriptor.volume);
        self.descriptor = descriptor;
        match source {
            Some(source) => {
                let _ = self.fill_with_source(source);
            },
            None => {},
        }
        let mut events: Vec<ClipChangedEvent> = Vec::new();
        events.push(self.play_state_changed_event());
        events.push(self.volume_changed_event());
        events.push(self.repeat_changed_event());
        Outcome { result: Ok(events), stop: cleared.stop }
    }

    /// Loads the source of content that a user chose, and notes the content
    /// in the descriptor.
    pub fn fill_by_user(&mut self, content: SlotContent, source: ClipSource) -> (outcome: Result<
        (),
        &'static str,
    >)
        requires
            old(self).well_formed(),
        ensures
            final(self).well_formed(),
            outcome == Ok::<(), &'static str>(()),
            (Ok::<State, (State, &'static str)>(final(self).state_value()),
                final(self).register_value())
                == old(self).state_value().after_fill_with_source(
                source,
                old(self).register_value(),
            ),
            final(self).descriptor_value() == (SlotDescriptor {
                content: Some(content),
                ..old(self).descriptor_value()
            }),
    {
        match self.fill_with_source(source) {
            Ok(()) => {
                // The descriptor changes only once the source is loaded.
                self.descriptor.content = Some(content);
                Ok(())
            },
            Err(reason) => Err(reason),
        }
    }

    /// Loads a source. A playing slot plays on with it; every other slot is
    /// stopped at the start of it.
    pub fn fill_with_source(&mut self, source: ClipSource) -> (outcome: Result<(), &'static str>)
        requires
            old(self).well_formed(),
        ensures
            final(self).well_formed(),
            outcome == Ok::<(), &'static str>(()),
            (Ok::<State, (State, &'static str)>(final(self).state_value()),
                final(self).register_value())
                == old(self).state_value().after_fill_with_source(
                source,
                old(self).register_value(),
            ),
            final(self).descriptor_value() == old(self).descriptor_value(),
    {
        let state = self.start_transition();
        let result = state.fill_with_source(source, &mut self.register);
        self.finish_transition(result)
    }

    /// What is known of the loaded source, if one is loaded.
    pub fn clip_info(&self) -> (info: Option<ClipInfo>)
        ensures
            match self.register_value().source {
                Some(source) => info is Some && info->Some_0.kind@ == source.kind@
                    && info->Some_0.length_micros == source.length_micros
                        && match source.file_name {
                    Some(name) => info->Some_0.file_name is Some
                        && info->Some_0.file_name->Some_0@ == name@,
                    None => info->Some_0.file_name is None,
                },
                None => info is None,
            },
    {
        match &self.register.source {
            Some(source) => {
                let file_name = match &source.file_name {
                    Some(name) => Some(name.clone()),
                    None => None,
                };
                Some(
                    ClipInfo {
                        kind: source.kind.clone(),
                        file_name,
                        length_micros: source.length_micros,
                    },
                )
            },
            None => None,
        }
    }

    /// Looks for what the host has done since the last call. Should be
    /// called regularly, after `sync_position`.
    pub fn poll(&mut self) -> (polled: Polled)
        requires
            old(self).well_formed(),
        ensures
            final(self).well_formed(),
            final(self).descriptor_value() == old(self).descriptor_value(),
            ({
                let (transition, event, register) = old(self).state_value().after_poll(
                    old(self).register_value(),
                );
                &&& final(self).state_value() == state_after(transition.result)
                &&& final(self).register_value() == register
                &&& polled == (Polled { event, stop: transition.stop })
            }),
    {
        let state = self.start_transition();
        let (transition, event) = state.poll(&mut self.register);
        let _ = self.finish_transition(transition.result);
        Polled { event, stop: transition.stop }
    }

    pub fn is_filled(&self) -> (filled: bool)
        ensures
            filled == (self.descriptor_value().content is Some),
    {
        self.descriptor.is_filled()
    }

    pub fn source_is_loaded(&self) -> (loaded: bool)
        ensures
            loaded == !(self.state_value() is Empty),
    {
        match self.state {
            State::Empty => false,
            _ => true,
        }
    }

    /// What a user sees of the slot's state.
    pub fn play_state(&self) -> (play_state: ClipPlayState)
        requires
            self.well_formed(),
        ensures
            play_state == self.state_value().play_state_of(),
    {
        self.state.play_state()
    }

    pub fn play_state_changed_event(&self) -> (event: ClipChangedEvent)
        requires
            self.well_formed(),
        ensures
            event == ClipChangedEvent::PlayStateChanged(self.state_value().play_state_of()),
    {
        ClipChangedEvent::PlayStateChanged(self.play_state())
    }

    /// Plays the slot on `track`. Where the host has to start a preview for
    /// it, the slot is suspended until `complete_play` brings the host's
    /// answer.
    pub fn play(&mut self, track: Option<TrackId>, options: SlotPlayOptions) -> (step: SlotStep<
        ClipChangedEvent,
    >)
        requires
            old(self).well_formed(),
        ensures
            final(self).well_formed(),
            final(self).descriptor_value() == old(self).descriptor_value(),
            ({
                let args = old(self).play_args(track, options);
                let (planned, register) = old(self).state_value().after_play(
                    old(self).register_value(),
                    args,
                );
                &&& final(self).register_value() == register
                &&& match planned {
                    Step::Done(transition) => final(self).state_value() == state_after(
                        transition.result,
                    ) && step == SlotStep::Done(
                        Outcome {
                            result: play_state_report(transition.result),
                            stop: transition.stop,
                        },
                    ),
                    Step::Start(pending) => final(self).state_value() == State::Suspended(
                        pending.suspended,
                    ) && step == SlotStep::<ClipChangedEvent>::Start(
                        PlayRequest { stop: pending.stop, start: pending.start, args },
                    ),
                }
            }),
    {
        let args = ClipPlayArgs { options, track, repeat: self.descriptor.repeat };
        let state = self.start_transition();
        match state.play(&mut self.register, args) {
            Step::Done(transition) => {
                let stop = transition.stop;
                match self.finish_transition(transition.result) {
                    Ok(()) => SlotStep::Done(
                        Outcome { result: Ok(self.play_state_changed_event()), stop },
                    ),
                    Err(reason) => SlotStep::Done(Outcome { result: Err(reason), stop }),
                }
            },
            Step::Start(pending) => {
                let request = PlayRequest {
                    stop: pending.stop,
                    start: pending.start,
                    args: pending.args,
                };
                self.state = State::Suspended(pending.suspended);
                SlotStep::Start(request)
            },
        }
    }

    /// How a play that waited for the host ends.
    pub open spec fn after_complete_play(
        state: State,
        args: ClipPlayArgs,
        answer: Option<PreviewHandle>,
    ) -> TransitionResult {
        match state {
            State::Suspended(suspended) => (PendingPlay {
                stop: None,
                start: crate::slot_state::start_request(args),
                suspended,
                args,
            }).completed(answer),
            other => Err((other, "slot is not suspended")),
        }
    }

    /// Ends a play with the host's answer to the request: with the handle of
    /// the preview the slot plays, without one it stays suspended. A slot
    /// that is not suspended stays as it is.
    pub fn complete_play(&mut self, args: ClipPlayArgs, answer: Option<PreviewHandle>) -> (outcome:
        Result<ClipChangedEvent, &'static str>)
        requires
            old(self).well_formed(),
        ensures
            final(self).well_formed(),
            final(self).descriptor_value() == old(self).descriptor_value(),
            final(self).register_value() == old(self).register_value(),
            final(self).state_value() == state_after(
                Self::after_complete_play(old(self).state_value(), args, answer),
            ),
            outcome == play_state_report(
                Self::after_complete_play(old(self).state_value(), args, answer),
            ),
    {
        let state = self.start_transition();
        let result = match state {
            State::Suspended(suspended) => {
                let pending = PendingPlay {
                    stop: None,
                    start: StartPreview {
                        track: args.track,
                        buffered: args.options.is_effectively_buffered(),
                        align_with_measure_start: args.options.next_bar,
                    },
                    suspended,
                    args,
                };
                pending.complete(answer)
            },
            other => Err((other, "slot is not suspended")),
        };
        match self.finish_transition(result) {
            Ok(()) => Ok(self.play_state_changed_event()),
            Err(reason) => Err(reason),
        }
    }

    /// Stops playing if necessary, drops the source and rewinds.
    pub fn clear(&mut self) -> (outcome: Outcome<()>)
        requires
            old(self).well_formed(),
        ensures
            final(self).well_formed(),
            final(self).descriptor_value() == old(self).descriptor_value(),
            final(self).state_value() == State::Empty,
            final(self).register_value() == old(self).state_value().after_clear(
                old(self).register_value(),
            ).1,
            outcome == (Outcome {
                result: Ok::<(), &'static str>(()),
                stop: old(self).state_value().after_clear(old(self).register_value()).0.stop,
            }),
    {
        let state = self.start_transition();
        let transition = state.clear(&mut self.register);
        let stop = transition.stop;
        let result = self.finish_transition(transition.result);
        Outcome { result, stop }
    }

    /// The preview that the host has to stop when the slot goes away, if the
    /// slot is playing.
    pub fn playing_preview(&self) -> (stop: Option<StopPreview>)
        ensures
            stop == self.state_value().after_clear(self.register_value()).0.stop,
    {
        match &self.state {
            State::Playing(playing) => Some(
                StopPreview { handle: playing.handle, track: playing.args.track },
            ),
            _ => None,
        }
    }

    /// Stops playing if necessary, drops the source and forgets the content.
    pub fn clear_content(&mut self) -> (outcome: Outcome<()>)
        requires
            old(self).well_formed(),
        ensures
            final(self).well_formed(),
            final(self).descriptor_value() == (SlotDescriptor {
                content: None,
                ..old(self).descriptor_value()
            }),
            final(self).state_value() == State::Empty,
            final(self).register_value() == old(self).state_value().after_clear(
                old(self).register_value(),
            ).1,
            outcome == (Outcome {
                result: Ok::<(), &'static str>(()),
                stop: old(self).state_value().after_clear(old(self).register_value()).0.stop,
            }),
    {
        let outcome = self.clear();
        self.descriptor.content = None;
        outcome
    }

    /// Takes over what the real-time side has found out about the length of
    /// the loaded source.
    pub fn update_material_info(&mut self, length_micros: Option<u64>) -> (outcome: Result<
        (),
        &'static str,
    >)
        ensures
            final(self).descriptor_value() == old(self).descriptor_value(),
            final(self).state_value() == old(self).state_value(),
            final(self).well_formed() == old(self).well_formed(),
            match old(self).register_value().source {
                Some(source) => outcome == Ok::<(), &'static str>(())
                    && final(self).register_value() == (PreviewRegister {
                    source: Some(ClipSource { length_micros, ..source }),
                    ..old(self).register_value()
                }),
                None => outcome == Err::<(), &'static str>("no source loaded")
                    && final(self).register_value() == old(self).register_value(),
            },
    {
        match &mut self.register.source {
            Some(source) => {
                source.length_micros = length_micros;
                Ok(())
            },
            None => Err("no source loaded"),
        }
    }

    /// Follows the host's transport. A slot that does not repeat is a
    /// one-shot and stays as it is.
    pub fn process_transport_change(&mut self, new_play_state: TransportState) -> (step: SlotStep<
        Option<ClipChangedEvent>,
    >)
        requires
            old(self).well_formed(),
        ensures
            final(self).well_formed(),
            final(self).descriptor_value() == old(self).descriptor_value(),
            !old(self).descriptor_value().repeat
                ==> final(self).state_value() == old(self).state_value()
                    && final(self).register_value() == old(self).register_value() && step
                == SlotStep::Done(
                Outcome { result: Ok::<Option<ClipChangedEvent>, &'static str>(None), stop: None },
            ),
            old(self).descriptor_value().repeat ==> ({
                let (planned, register) = old(self).state_value().after_process_transport_change(
                    old(self).register_value(),
                    new_play_state,
                );
                &&& final(self).register_value() == register
                &&& match planned {
                    Step::Done(transition) => final(self).state_value() == state_after(
                        transition.result,
                    ) && step == SlotStep::Done(
                        Outcome {
                            result: Ok::<Option<ClipChangedEvent>, &'static str>(
                                Some(
                                    ClipChangedEvent::PlayStateChanged(
                                        state_after(transition.result).play_state_of(),
                                    ),
                                ),
                            ),
                            stop: transition.stop,
                        },
                    ),
                    Step::Start(pending) => final(self).state_value() == State::Suspended(
                        pending.suspended,
                    ) && step == SlotStep::<Option<ClipChangedEvent>>::Start(
                        PlayRequest { stop: pending.stop, start: pending.start,
                            args: pending.args },
                    ),
                }
            }),
    {
        if !self.descriptor.repeat {
            // One-shots are not synchronized with the timeline.
            return SlotStep::Done(Outcome { result: Ok(None), stop: None });
        }
        let state = self.start_transition();
        match state.process_transport_change(&mut self.register, new_play_state) {
            Step::Done(transition) => {
                let stop = transition.stop;
                match self.finish_transition(transition.result) {
                    Ok(()) => SlotStep::Done(
                        Outcome { result: Ok(Some(self.play_state_changed_event())), stop },
                    ),
                    Err(reason) => SlotStep::Done(Outcome { result: Err(reason), stop }),
                }
            },
            Step::Start(pending) => {
                let request = PlayRequest {
                    stop: pending.stop,
                    start: pending.start,
                    args: pending.args,
                };
                self.state = State::Suspended(pending.suspended);
                SlotStep::Start(request)
            },
        }
    }

    /// Stops the slot, at once or at the end of the source.
    pub fn stop(&mut self, immediately: bool) -> (outcome: Outcome<ClipChangedEvent>)
        requires
            old(self).well_formed(),
        ensures
            final(self).well_formed(),
            final(self).descriptor_value() == old(self).descriptor_value(),
            ({
                let (transition, register) = old(self).state_value().after_stop(
                    old(self).register_value(),
                    immediately,
                );
                &&& final(self).state_value() == state_after(transition.result)
                &&& final(self).register_value() == register
                &&& outcome == (Outcome {
                    result: play_state_report(transition.result),
                    stop: transition.stop,
                })
            }),
    {
        let state = self.start_transition();
        let transition = state.stop(&mut self.register, immediately);
        let stop = transition.stop;
        match self.finish_transition(transition.result) {
            Ok(()) => Outcome { result: Ok(self.play_state_changed_event()), stop },
            Err(reason) => Outcome { result: Err(reason), stop },
        }
    }

    /// Pauses a playing slot.
    pub fn pause(&mut self) -> (outcome: Outcome<ClipChangedEvent>)
        requires
            old(self).well_formed(),
        ensures
            final(self).well_formed(),
            final(self).descriptor_value() == old(self).descriptor_value(),
            final(self).register_value() == old(self).register_value(),
            ({
                let transition = old(self).state_value().after_pause();
                &&& final(self).state_value() == state_after(transition.result)
                &&& outcome == (Outcome {
                    result: play_state_report(transition.result),
                    stop: transition.stop,
                })
            }),
    {
        let state = self.start_transition();
        let transition = state.pause();
        let stop = transition.stop;
        match self.finish_transition(transition.result) {
            Ok(()) => Outcome { result: Ok(self.play_state_changed_event()), stop },
            Err(reason) => Outcome { result: Err(reason), stop },
        }
    }

    pub fn repeat_is_enabled(&self) -> (enabled: bool)
        ensures
            enabled == self.descriptor_value().repeat,
    {
        self.descriptor.repeat
    }

    pub fn repeat_changed_event(&self) -> (event: ClipChangedEvent)
        ensures
            event == ClipChangedEvent::ClipRepeatChanged(self.descriptor_value().repeat),
    {
        ClipChangedEvent::ClipRepeatChanged(self.descriptor.repeat)
    }

    /// Turns repeating on or off, in the descriptor and in the register.
    pub fn toggle_repeat(&mut self) -> (event: ClipChangedEvent)
        ensures
            event == ClipChangedEvent::ClipRepeatChanged(!old(self).descriptor_value().repeat),
            final(self).descriptor_value() == (SlotDescriptor {
                repeat: !old(self).descriptor_value().repeat,
                ..old(self).descriptor_value()
            }),
            final(self).register_value() == (PreviewRegister {
                looped: !old(self).descriptor_value().repeat,
                ..old(self).register_value()
            }),
            final(self).state_value() == old(self).state_value(),
            final(self).well_formed() == old(self).well_formed(),
    {
        let new_value = !self.descriptor.repeat;
        self.descriptor.repeat = new_value;
        self.register.looped = new_value;
        self.repeat_changed_event()
    }

    pub fn volume(&self) -> (volume: Volume)
        ensures
            volume == self.descriptor_value().volume,
    {
        self.descriptor.volume
    }

    pub fn volume_changed_event(&self) -> (event: ClipChangedEvent)
        ensures
            event == ClipChangedEvent::ClipVolumeChanged(self.descriptor_value().volume),
    {
        ClipChangedEvent::ClipVolumeChanged(self.descriptor.volume)
    }

    /// Sets the volume, in the descriptor and in the register.
    pub fn set_volume(&mut self, volume: Volume) -> (event: ClipChangedEvent)
        ensures
            event == ClipChangedEvent::ClipVolumeChanged(volume),
            final(self).descriptor_value() == (SlotDescriptor {
                volume,
                ..old(self).descriptor_value()
            }),
            final(self).register_value() == (PreviewRegister {
                volume,
                ..old(self).register_value()
            }),
            final(self).state_value() == old(self).state_value(),
            final(self).well_formed() == old(self).well_formed(),
    {
        self.descriptor.volume = volume;
        self.register.volume = volume;
        self.volume_changed_event()
    }

    /// Which part of the source has been played.
    pub fn position(&self) -> (position: Result<UnitValue, &'static str>)
        ensures
            position == match self.register_value().source {
                Some(_) => Ok::<UnitValue, &'static str>(
                    UnitValue::of_billionths(register_proportion(self.register_value())),
                ),
                None => Err::<UnitValue, &'static str>("no source loaded"),
            },
            position matches Ok(value) ==> value.billionths() == register_proportion(
                self.register_value(),
            ),
    {
        match &self.register.source {
            Some(source) => Ok(
                calculate_proportional_position(
                    self.register.position_micros,
                    source.length_micros,
                ),
            ),
            None => Err("no source loaded"),
        }
    }

    /// Moves the play position to the given part of the source.
    pub fn set_position(&mut self, position: UnitValue) -> (outcome: Result<
        ClipChangedEvent,
        &'static str,
    >)
        ensures
            final(self).descriptor_value() == old(self).descriptor_value(),
            final(self).state_value() == old(self).state_value(),
            final(self).well_formed() == old(self).well_formed(),
            match old(self).register_value().source {
                None => outcome == Err::<ClipChangedEvent, &'static str>("no source loaded")
                    && final(self).register_value() == old(self).register_value(),
                Some(source) => match source.length_micros {
                    None => outcome == Err::<ClipChangedEvent, &'static str>(
                        "source has no length",
                    ) && final(self).register_value() == old(self).register_value(),
                    Some(length) => outcome == Ok::<ClipChangedEvent, &'static str>(
                        ClipChangedEvent::ClipPositionChanged(position),
                    ) && final(self).register_value().position_micros == sought_position(
                        position,
                        length,
                    ) && final(self).register_value() == (PreviewRegister {
                        position_micros: final(self).register_value().position_micros,
                        ..old(self).register_value()
                    }),
                },
            },
    {
        let length = match &self.register.source {
            Some(source) => match source.length_micros {
                Some(length) => length,
                None => {
                    return Err("source has no length");
                },
            },
            None => {
                return Err("no source loaded");
            },
        };
        let part = position.of(length);
        let real_pos: i64 = if part > 0x7fff_ffff_ffff_ffff {
            0x7fff_ffff_ffff_ffff
        } else {
            part as i64
        };
        self.register.position_micros = real_pos;
        Ok(ClipChangedEvent::ClipPositionChanged(position))
    }
}

} // verus!
