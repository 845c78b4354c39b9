//! A slot of a column: a clip slot, its place in the column, whether a
//! recording has been requested for it, and its play state as the column
//! mirrors it. The play state is what the real-time twin reported last, or
//! what the slot's own state has shown since: where an operation changes what
//! the slot's own state shows, the play state follows.
use crate::clip_slot::{
    play_state_report, sought_position, ClipSlot, Outcome, PlayRequest, Polled, SlotContent,
    SlotDescriptor, SlotStep,
};
use crate::preview::{
    ClipSource, PreviewHandle, PreviewRegister, StopPreview, TrackId, Volume,
};
use crate::slot_state::{
    register_proportion, state_after, ClipChangedEvent, ClipPlayArgs, ClipPlayState,
    SlotPlayOptions, State, Step,
};
use crate::unit_value::UnitValue;
use vstd::prelude::*;

verus! {

/// What has changed about a slot of a column.
#[derive(Copy, Clone, PartialEq, Eq, Debug)]
pub enum SlotChangeEvent {
    /// Something about the slot's clip has changed.
    Clip(ClipChangedEvent),
    /// The slot has got or lost its clip.
    Clips(&'static str),
}

/// How a clip comes into a slot.
#[derive(Copy, Clone, PartialEq, Eq, Debug)]
pub enum FillClipMode {
    /// Only into a slot that is empty.
    Add,
    /// In place of what the slot holds.
    Replace,
}

/// Whether a slot records.
#[derive(Copy, Clone, PartialEq, Eq, Debug)]
pub enum SlotRecordState {
    Idle,
    /// A recording was requested and the real-time side has not answered
    /// yet.
    Requested,
    Recording,
}

/// A slot of a column.
#[derive(Debug)]
pub struct Slot {
    index: usize,
    clip_slot: ClipSlot,
    recording: SlotRecordState,
    play_state: ClipPlayState,
}

/// What a slot is, as contracts speak of it.
pub struct SlotView {
    /// The slot's place in its column.
    pub index: usize,
    pub descriptor: SlotDescriptor,
    pub register: PreviewRegister,
    pub state: State,
    pub recording: SlotRecordState,
    /// The play state as the column mirrors it.
    pub play_state: ClipPlayState,
}

impl SlotView {
    /// The slot that is made at place `index`: empty, with nothing requested.
    pub open spec fn initial(index: usize) -> Self {
        SlotView {
            index,
            descriptor: SlotDescriptor::initial(),
            register: PreviewRegister::fresh(SlotDescriptor::initial().volume),
            state: State::Empty,
            recording: SlotRecordState::Idle,
            play_state: ClipPlayState::Stopped,
        }
    }

    /// The slot with another state of its own. Where that shows another
    /// play state than the state before, the mirrored play state follows;
    /// else it stays what it was.
    pub open spec fn with_state(self, state: State) -> Self {
        SlotView {
            state,
            play_state: if state.play_state_of() == self.state.play_state_of() {
                self.play_state
            } else {
                state.play_state_of()
            },
            ..self
        }
    }

    /// The slot with the play state that the real-time twin has reported.
    pub open spec fn after_play_state_reported(self, play_state: ClipPlayState) -> Self {
        SlotView { play_state, ..self }
    }

    /// The state is one that can be seen.
    pub open spec fn well_formed(self) -> bool {
        !(self.state is Transitioning)
    }

    /// Whether the slot holds no source and awaits none.
    pub open spec fn empty(self) -> bool {
        self.state is Empty && self.recording is Idle
    }

    /// Whether the slot's clip is playing or about to, or a recording is
    /// requested or under way.
    pub open spec fn stoppable(self) -> bool {
        self.play_state.as_good_as_playing() || !(self.recording is Idle)
    }

    /// The slot once the real-time side has answered the request for a
    /// recording.
    pub open spec fn after_recording_acknowledged(self, successful: bool) -> Self {
        SlotView {
            recording: if successful {
                SlotRecordState::Recording
            } else {
                SlotRecordState::Idle
            },
            ..self
        }
    }

    /// The slot with the source that a recording or an overdub has made. A
    /// playing slot plays on with it.
    pub open spec fn after_recording_finished(self, source: ClipSource) -> Self {
        let (result, register) = self.state.after_fill_with_source(source, self.register);
        SlotView {
            register,
            recording: SlotRecordState::Idle,
            ..self.with_state(state_after(result))
        }
    }

    /// The slot once it is emptied, the preview that the host has to stop
    /// for it, and whether there was anything to empty.
    pub open spec fn after_cleared(self) -> (Self, Option<SlotChangeEvent>, Option<StopPreview>) {
        if self.empty() {
            (self, None, None)
        } else {
            let (transition, register) = self.state.after_clear(self.register);
            (
                SlotView {
                    state: State::Empty,
                    register,
                    recording: SlotRecordState::Idle,
                    descriptor: SlotDescriptor { content: None, ..self.descriptor },
                    play_state: ClipPlayState::Stopped,
                    ..self
                },
                Some(SlotChangeEvent::Clips("slot cleared")),
                transition.stop,
            )
        }
    }

    /// The slot with a clip put into it.
    pub open spec fn after_fill(self, content: SlotContent, source: ClipSource) -> Self {
        let (result, register) = self.state.after_fill_with_source(source, self.register);
        SlotView {
            register,
            descriptor: SlotDescriptor { content: Some(content), ..self.descriptor },
            ..self.with_state(state_after(result))
        }
    }

    /// The slot with what is known of the length of its source, if it has
    /// one.
    pub open spec fn after_material_info(self, length_micros: Option<u64>) -> Self {
        match self.register.source {
            Some(source) => SlotView {
                register: PreviewRegister {
                    source: Some(ClipSource { length_micros, ..source }),
                    ..self.register
                },
                ..self
            },
            None => self,
        }
    }

    /// The slot after a look at what the host has done, what was found, and
    /// the preview that the host has to stop for it. A slot that the host
    /// plays for the slot's own state reports what that state finds. Another
    /// slot reports its position where its play state says that the position
    /// moves on, and nothing else.
    pub open spec fn after_poll(self) -> (Self, Option<ClipChangedEvent>, Option<StopPreview>) {
        let (transition, event, register) = self.state.after_poll(self.register);
        (
            SlotView { register, ..self.with_state(state_after(transition.result)) },
            if !(self.state is Playing) && self.play_state.advancing() {
                Some(
                    ClipChangedEvent::ClipPositionChanged(
                        UnitValue::of_billionths(register_proportion(self.register)),
                    ),
                )
            } else {
                event
            },
            transition.stop,
        )
    }

    /// The slot after a request to play it, and what comes of the request:
    /// its end, or what the host has to do first.
    pub open spec fn after_play(self, track: Option<TrackId>, options: SlotPlayOptions) -> (
        Self,
        SlotStep<ClipChangedEvent>,
    ) {
        let args = ClipPlayArgs { options, track, repeat: self.descriptor.repeat };
        let (planned, register) = self.state.after_play(self.register, args);
        match planned {
            Step::Done(transition) => (
                SlotView { register, ..self.with_state(state_after(transition.result)) },
                SlotStep::Done(
                    Outcome { result: play_state_report(transition.result), stop: transition.stop },
                ),
            ),
            Step::Start(pending) => (
                SlotView { register, ..self.with_state(State::Suspended(pending.suspended)) },
                SlotStep::Start(PlayRequest { stop: pending.stop, start: pending.start, args }),
            ),
        }
    }

    /// The slot after the host's answer to a request to start a preview.
    pub open spec fn after_complete_play(
        self,
        args: ClipPlayArgs,
        answer: Option<PreviewHandle>,
    ) -> (Self, Result<ClipChangedEvent, &'static str>) {
        let result = ClipSlot::after_complete_play(self.state, args, answer);
        (self.with_state(state_after(result)), play_state_report(result))
    }

    /// The slot after a request to stop it.
    pub open spec fn after_stop(self, immediately: bool) -> (Self, Outcome<ClipChangedEvent>) {
        let (transition, register) = self.state.after_stop(self.register, immediately);
        (
            SlotView { register, ..self.with_state(state_after(transition.result)) },
            Outcome { result: play_state_report(transition.result), stop: transition.stop },
        )
    }

    /// The slot after a request to pause it.
    pub open spec fn after_pause(self) -> (Self, Outcome<ClipChangedEvent>) {
        let transition = self.state.after_pause();
        (
            self.with_state(state_after(transition.result)),
            Outcome { result: play_state_report(transition.result), stop: transition.stop },
        )
    }

    /// The slot with repeating turned on or off.
    pub open spec fn after_toggle_repeat(self) -> Self {
        SlotView {
            descriptor: SlotDescriptor { repeat: !self.descriptor.repeat, ..self.descriptor },
            register: PreviewRegister { looped: !self.descriptor.repeat, ..self.register },
            ..self
        }
    }

    /// The slot with another volume.
    pub open spec fn after_set_volume(self, volume: Volume) -> Self {
        SlotView {
            descriptor: SlotDescriptor { volume, ..self.descriptor },
            register: PreviewRegister { volume, ..self.register },
            ..self
        }
    }

    /// The slot with the play position that the host has reached.
    pub open spec fn after_sync_position(self, position_micros: i64) -> Self {
        SlotView { register: PreviewRegister { position_micros, ..self.register }, ..self }
    }

    /// The slot after a request to move the play position to a part of the
    /// source, which needs a source that has a length.
    pub open spec fn after_seek(self, position: UnitValue) -> (
        Self,
        Result<ClipChangedEvent, &'static str>,
    ) {
        match self.register.source {
            None => (self, Err("no source loaded")),
            Some(source) => match source.length_micros {
                None => (self, Err("source has no length")),
                Some(length) => (
                    SlotView {
                        register: PreviewRegister {
                            position_micros: sought_position(position, length) as i64,
                            ..self.register
                        },
                        ..self
                    },
                    Ok(ClipChangedEvent::ClipPositionChanged(position)),
                ),
            },
        }
    }

    /// The slot with the settings of `descriptor` and, where there is one,
    /// its source, stopped at the start.
    pub open spec fn after_load(self, descriptor: SlotDescriptor, source: Option<ClipSource>)
        -> Self {
        let (state, register) = ClipSlot::loaded_with(descriptor.volume, source);
        SlotView {
            descriptor,
            register,
            state,
            recording: SlotRecordState::Idle,
            play_state: ClipPlayState::Stopped,
            ..self
        }
    }

    /// Which part of the source has been played, which needs a source.
    pub open spec fn proportional_position(self) -> Result<UnitValue, &'static str> {
        match self.register.source {
            Some(_) => Ok(UnitValue::of_billionths(register_proportion(self.register))),
            None => Err("no source loaded"),
        }
    }
}

impl View for Slot {
    type V = SlotView;

    closed spec fn view(&self) -> SlotView {
        SlotView {
            index: self.index,
            descriptor: self.clip_slot.descriptor_value(),
            register: self.clip_slot.register_value(),
            state: self.clip_slot.state_value(),
            recording: self.recording,
            play_state: self.play_state,
        }
    }
}

impl Slot {
    /// The clip slot, as contracts speak of it.
    pub closed spec fn clip(&self) -> ClipSlot {
        self.clip_slot
    }

    /// The clip slot is in a state that can be seen.
    pub open spec fn well_formed(&self) -> bool {
        self@.well_formed()
    }

    /// What a slot is follows from its clip slot, and the one is well-formed
    /// when the other is.
    pub proof fn view_of_clip(&self)
        ensures
            self@.descriptor == self.clip().descriptor_value(),
            self@.register == self.clip().register_value(),
            self@.state == self.clip().state_value(),
            self.well_formed() == self.clip().well_formed(),
    {
        self.clip_slot.well_formed_by_state();
    }

    pub fn new(index: usize) -> (slot: Self)
        ensures
            slot@ == SlotView::initial(index),
    {
        Slot {
            index,
            clip_slot: ClipSlot::default(),
            recording: SlotRecordState::Idle,
            play_state: ClipPlayState::Stopped,
        }
    }

    pub fn index(&self) -> (index: usize)
        ensures
            index == self@.index,
    {
        self.index
    }

    pub fn clip_slot(&self) -> (clip_slot: &ClipSlot)
        ensures
            *clip_slot == self.clip(),
    {
        &self.clip_slot
    }

    /// Lets the mirrored play state follow the slot's own state, where that
    /// shows another play state than `before`.
    fn follow(&mut self, before: ClipPlayState)
        requires
            old(self).clip_slot.well_formed(),
        ensures
            final(self).clip_slot == old(self).clip_slot,
            final(self).index == old(self).index,
            final(self).recording == old(self).recording,
            final(self).play_state == if old(self).clip_slot.state_value().play_state_of()
                == before {
                old(self).play_state
            } else {
                old(self).clip_slot.state_value().play_state_of()
            },
    {
        let after = self.clip_slot.play_state();
        if !(after == before) {
            self.play_state = after;
        }
    }

    /// Takes over the play state that the real-time twin has reported.
    pub fn update_play_state(&mut self, play_state: ClipPlayState)
        ensures
            final(self)@ == old(self)@.after_play_state_reported(play_state),
    {
        self.play_state = play_state;
    }

    /// Returns whether the slot holds no source and awaits none.
    pub fn is_empty(&self) -> (empty: bool)
        ensures
            empty == self@.empty(),
    {
        !self.clip_slot.source_is_loaded() && self.idle()
    }

    /// Returns whether the slot is playing or recording.
    pub fn is_stoppable(&self) -> (stoppable: bool)
        ensures
            stoppable == self@.stoppable(),
    {
        self.play_state.is_as_good_as_playing() || !self.idle()
    }

    fn idle(&self) -> (idle: bool)
        ensures
            idle == (self.recording is Idle),
            idle == (self@.recording is Idle),
    {
        match self.recording {
            SlotRecordState::Idle => true,
            _ => false,
        }
    }

    /// Returns whether a recording is requested or under way.
    pub fn is_recording(&self) -> (recording: bool)
        ensures
            recording == !(self@.recording is Idle),
    {
        !self.idle()
    }

    /// Notes that a recording has been requested, unless one is requested
    /// or under way already.
    pub fn notify_recording_requested(&mut self) -> (outcome: Result<(), &'static str>)
        ensures
            old(self)@.recording is Idle ==> outcome == Ok::<(), &'static str>(()) && final(self)@
                == (SlotView { recording: SlotRecordState::Requested, ..old(self)@ }),
            !(old(self)@.recording is Idle) ==> outcome == Err::<(), &'static str>(
                "recording has already been requested",
            ) && final(self)@ == old(self)@,
    {
        if !self.idle() {
            return Err("recording has already been requested");
        }
        self.recording = SlotRecordState::Requested;
        Ok(())
    }

    /// Notes that the real-time side has answered the request for a
    /// recording: the slot records, or it does not after all.
    pub fn notify_recording_request_acknowledged(&mut self, successful: bool)
        ensures
            final(self)@ == old(self)@.after_recording_acknowledged(successful),
    {
        if successful {
            self.recording = SlotRecordState::Recording;
        } else {
            self.recording = SlotRecordState::Idle;
        }
    }

    /// Notes that the recording was called off.
    pub fn notify_recording_canceled(&mut self)
        ensures
            final(self)@ == (SlotView { recording: SlotRecordState::Idle, ..old(self)@ }),
    {
        // It may not have been acknowledged yet.
        self.recording = SlotRecordState::Idle;
    }

    /// Takes the source that a recording or an overdub has made. A playing
    /// slot plays on with it.
    pub fn notify_recording_finished(&mut self, source: ClipSource, reason: &'static str) -> (event:
        SlotChangeEvent)
        requires
            old(self).well_formed(),
        ensures
            final(self).well_formed(),
            final(self)@ == old(self)@.after_recording_finished(source),
            event == SlotChangeEvent::Clips(reason),
    {
        proof {
            self.clip_slot.well_formed_by_state();
        }
        self.recording = SlotRecordState::Idle;
        let before = self.clip_slot.play_state();
        let _ = self.clip_slot.fill_with_source(source);
        proof {
            self.clip_slot.well_formed_by_state();
        }
        self.follow(before);
        SlotChangeEvent::Clips(reason)
    }

    /// Takes over what the real-time side has found out about the length of
    /// the slot's source. Without a source there is nothing to take over.
    pub fn update_material_info(&mut self, length_micros: Option<u64>)
        ensures
            final(self)@ == old(self)@.after_material_info(length_micros),
    {
        let _ = self.clip_slot.update_material_info(length_micros);
    }

    /// Empties the slot, as the real-time side has done with its own. An
    /// empty slot stays as it is and has nothing to report.
    pub fn slot_cleared(&mut self) -> (cleared: (Option<SlotChangeEvent>, Option<StopPreview>))
        requires
            old(self).well_formed(),
        ensures
            final(self).well_formed(),
            (final(self)@, cleared.0, cleared.1) == old(self)@.after_cleared(),
    {
        proof {
            self.clip_slot.well_formed_by_state();
        }
        if self.is_empty() {
            return (None, None);
        }
        self.recording = SlotRecordState::Idle;
        self.play_state = ClipPlayState::Stopped;
        let outcome = self.clip_slot.clear_content();
        proof {
            self.clip_slot.well_formed_by_state();
        }
        (Some(SlotChangeEvent::Clips("slot cleared")), outcome.stop)
    }

    /// Puts a clip into the slot: the content and its source.
    pub fn fill(&mut self, content: SlotContent, source: ClipSource) -> (event: SlotChangeEvent)
        requires
            old(self).well_formed(),
        ensures
            final(self).well_formed(),
            final(self)@ == old(self)@.after_fill(content, source),
            event == SlotChangeEvent::Clips("filled slot"),
    {
        proof {
            self.clip_slot.well_formed_by_state();
        }
        let before = self.clip_slot.play_state();
        let _ = self.clip_slot.fill_by_user(content, source);
        proof {
            self.clip_slot.well_formed_by_state();
        }
        self.follow(before);
        SlotChangeEvent::Clips("filled slot")
    }

    /// Looks for what the host has done since the last call: see
    /// `SlotView::after_poll`.
    pub fn poll(&mut self) -> (polled: Polled)
        requires
            old(self).well_formed(),
        ensures
            final(self).well_formed(),
            (final(self)@, polled.event, polled.stop) == old(self)@.after_poll(),
    {
        proof {
            self.clip_slot.well_formed_by_state();
        }
        let before = self.clip_slot.play_state();
        let reports_position = !before.is_as_good_as_playing() && self.play_state.is_advancing();
        let polled = self.clip_slot.poll();
        proof {
            self.clip_slot.well_formed_by_state();
        }
        self.follow(before);
        if reports_position {
            let position = match self.clip_slot.position() {
                Ok(position) => position,
                Err(_) => UnitValue::min_value(),
            };
            Polled {
                event: Some(ClipChangedEvent::ClipPositionChanged(position)),
                stop: polled.stop,
            }
        } else {
            polled
        }
    }

    /// Stops playing if necessary and loads the slot from the descriptor
    /// and its source, and gives the preview that the host has to stop.
    pub fn load(&mut self, descriptor: SlotDescriptor, source: Option<ClipSource>) -> (stop: Option<
        StopPreview,
    >)
        requires
            old(self).well_formed(),
        ensures
            final(self).well_formed(),
            final(self)@ == old(self)@.after_load(descriptor, source),
            stop == old(self)@.state.after_clear(old(self)@.register).0.stop,
    {
        proof {
            self.clip_slot.well_formed_by_state();
        }
        self.recording = SlotRecordState::Idle;
        self.play_state = ClipPlayState::Stopped;
        let outcome = self.clip_slot.load(descriptor, source);
        proof {
            self.clip_slot.well_formed_by_state();
        }
        outcome.stop
    }

    /// The source that is loaded, if one is.
    pub fn loaded_source(&self) -> (source: Option<ClipSource>)
        ensures
            source == self@.register.source,
    {
        match &self.clip_slot.register().source {
            Some(source) => Some(source.duplicate()),
            None => None,
        }
    }

    /// Plays the slot on `track`: see `ClipSlot::play`.
    pub fn play(&mut self, track: Option<TrackId>, options: SlotPlayOptions) -> (step: SlotStep<
        ClipChangedEvent,
    >)
        requires
            old(self).well_formed(),
        ensures
            final(self).well_formed(),
            (final(self)@, step) == old(self)@.after_play(track, options),
    {
        proof {
            self.clip_slot.well_formed_by_state();
        }
        let before = self.clip_slot.play_state();
        let step = self.clip_slot.play(track, options);
        proof {
            self.clip_slot.well_formed_by_state();
        }
        self.follow(before);
        step
    }

    /// Ends a play with the host's answer: see `ClipSlot::complete_play`.
    pub fn complete_play(&mut self, args: ClipPlayArgs, answer: Option<PreviewHandle>) -> (outcome:
        Result<ClipChangedEvent, &'static str>)
        requires
            old(self).well_formed(),
        ensures
            final(self).well_formed(),
            (final(self)@, outcome) == old(self)@.after_complete_play(args, answer),
    {
        proof {
            self.clip_slot.well_formed_by_state();
        }
        let before = self.clip_slot.play_state();
        let outcome = self.clip_slot.complete_play(args, answer);
        proof {
            self.clip_slot.well_formed_by_state();
        }
        self.follow(before);
        outcome
    }

    /// Stops the slot, at once or at the end of the source.
    pub fn stop(&mut self, immediately: bool) -> (outcome: Outcome<ClipChangedEvent>)
        requires
            old(self).well_formed(),
        ensures
            final(self).well_formed(),
            (final(self)@, outcome) == old(self)@.after_stop(immediately),
    {
        proof {
            self.clip_slot.well_formed_by_state();
        }
        let before = self.clip_slot.play_state();
        let outcome = self.clip_slot.stop(immediately);
        proof {
            self.clip_slot.well_formed_by_state();
        }
        self.follow(before);
        outcome
    }

    /// Pauses a playing slot.
    pub fn pause(&mut self) -> (outcome: Outcome<ClipChangedEvent>)
        requires
            old(self).well_formed(),
        ensures
            final(self).well_formed(),
            (final(self)@, outcome) == old(self)@.after_pause(),
    {
        proof {
            self.clip_slot.well_formed_by_state();
        }
        let before = self.clip_slot.play_state();
        let outcome = self.clip_slot.pause();
        proof {
            self.clip_slot.well_formed_by_state();
        }
        self.follow(before);
        outcome
    }

    /// Turns repeating on or off.
    pub fn toggle_repeat(&mut self) -> (event: ClipChangedEvent)
        ensures
            final(self)@ == old(self)@.after_toggle_repeat(),
            event == ClipChangedEvent::ClipRepeatChanged(!old(self)@.descriptor.repeat),
    {
        self.clip_slot.toggle_repeat()
    }

    /// Sets the volume.
    pub fn set_volume(&mut self, volume: Volume) -> (event: ClipChangedEvent)
        ensures
            final(self)@ == old(self)@.after_set_volume(volume),
            event == ClipChangedEvent::ClipVolumeChanged(volume),
    {
        self.clip_slot.set_volume(volume)
    }

    /// Takes over the play position that the host has reached.
    pub fn sync_position(&mut self, position_micros: i64)
        ensures
            final(self)@ == old(self)@.after_sync_position(position_micros),
    {
        self.clip_slot.sync_position(position_micros)
    }

    /// Moves the play position to the given part of the source.
    pub fn seek(&mut self, position: UnitValue) -> (outcome: Result<ClipChangedEvent, &'static str>)
        ensures
            (final(self)@, outcome) == old(self)@.after_seek(position),
    {
        self.clip_slot.set_position(position)
    }

    /// Which part of the source has been played.
    pub fn proportional_position(&self) -> (position: Result<UnitValue, &'static str>)
        ensures
            position == self@.proportional_position(),
            position matches Ok(value) ==> value.billionths() == register_proportion(
                self@.register,
            ),
    {
        self.clip_slot.position()
    }

    /// The play position in microseconds.
    pub fn position_micros(&self) -> (position: i64)
        ensures
            position == self@.register.position_micros,
    {
        self.clip_slot.register().position_micros
    }

    /// The play state of the slot: what the real-time twin reported last,
    /// or what the slot's own state has shown since.
    pub fn play_state(&self) -> (play_state: ClipPlayState)
        ensures
            play_state == self@.play_state,
    {
        self.play_state
    }

    pub fn repeat_is_enabled(&self) -> (enabled: bool)
        ensures
            enabled == self@.descriptor.repeat,
    {
        self.clip_slot.repeat_is_enabled()
    }

    pub fn volume(&self) -> (volume: Volume)
        ensures
            volume == self@.descriptor.volume,
    {
        self.clip_slot.volume()
    }

    /// The slot's settings, for saving.
    pub fn descriptor(&self) -> (descriptor: &SlotDescriptor)
        ensures
            *descriptor == self@.descriptor,
    {
        self.clip_slot.descriptor()
    }

    /// The preview that the host has to stop when the slot goes away, if the
    /// slot is playing.
    pub fn playing_preview(&self) -> (stop: Option<StopPreview>)
        ensures
            stop == self@.state.after_clear(self@.register).0.stop,
    {
        self.clip_slot.playing_preview()
    }
}

/// A slot that is filled, cleared and filled again with the same clip is
/// the slot that was filled once: stopped at the start of the source, with
/// the same settings.
pub proof fn refilled_slot_is_filled_slot(index: usize, content: SlotContent, source: ClipSource)
    ensures
        ({
            let filled = SlotView::initial(index).after_fill(content, source);
            let cleared = filled.after_cleared().0;
            let refilled = cleared.after_fill(content, source);
            &&& cleared == SlotView::initial(index)
            &&& refilled == filled
            &&& refilled.register.position_micros == 0
            &&& refilled.descriptor == (SlotDescriptor {
                content: Some(content),
                ..SlotDescriptor::initial()
            })
        }),
{
}

/// As long as the real-time twin reports nothing else, the mirrored play
/// state is what the slot's own state shows, whatever is done with the slot.
pub proof fn play_state_follows_the_slot(slot: SlotView, state: State)
    requires
        slot.play_state == slot.state.play_state_of(),
    ensures
        slot.with_state(state).play_state == state.play_state_of(),
        slot.with_state(state).state == state,
{
}

/// After the real-time twin has reported a play state, that is the slot's
/// play state, and nothing else about the slot has changed.
pub proof fn reported_play_state_is_mirrored(slot: SlotView, play_state: ClipPlayState)
    ensures
        slot.after_play_state_reported(play_state).play_state == play_state,
        slot.after_play_state_reported(play_state).stoppable() == (
        play_state.as_good_as_playing() || !(slot.recording is Idle)),
        slot.after_play_state_reported(play_state).state == slot.state,
        slot.after_play_state_reported(play_state).register == slot.register,
{
}

} // verus!
