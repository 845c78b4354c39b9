//! The transport state machine of a clip slot. A transition takes the state
//! by value together with the slot's preview register and gives the next
//! state, or the state as it was with the reason why nothing changed. What the
//! host has to do for it, stopping a preview or starting one, comes back as a
//! request; the host's answer to a start completes the transition.
use crate::preview::{
    same_track, ClipSource, PreviewHandle, PreviewRegister, StartPreview, StopPreview, TrackId,
    TransportState, Volume,
};
use crate::unit_value::{length_in_nat, proportional_billionths, UnitValue, UNIT_VALUE_SCALE};
use vstd::prelude::*;

verus! {

/// What a slot is doing, as far as a user cares.
#[derive(Copy, Clone, PartialEq, Eq, Structural, Debug)]
pub enum ClipPlayState {
    Stopped,
    ScheduledForPlay,
    Playing,
    Paused,
    ScheduledForStop,
}

impl ClipPlayState {
    /// Whether the play position moves on.
    pub open spec fn advancing(self) -> bool {
        self is Playing || self is ScheduledForStop
    }

    /// Whether the clip is playing or about to: it is not stopped and not
    /// paused.
    pub open spec fn as_good_as_playing(self) -> bool {
        !(self is Stopped) && !(self is Paused)
    }

    /// Returns whether the play position moves on.
    pub fn is_advancing(self) -> (advancing: bool)
        ensures
            advancing == self.advancing(),
    {
        match self {
            ClipPlayState::Playing => true,
            ClipPlayState::ScheduledForStop => true,
            _ => false,
        }
    }

    /// Returns whether the clip is playing or about to.
    pub fn is_as_good_as_playing(self) -> (playing: bool)
        ensures
            playing == self.as_good_as_playing(),
    {
        match self {
            ClipPlayState::Stopped => false,
            ClipPlayState::Paused => false,
            _ => true,
        }
    }

    /// The play state as billionths of one: a quarter more for each step from
    /// stopped over scheduled for play, paused and scheduled for stop to
    /// playing.
    pub open spec fn feedback_billionths(self) -> nat {
        match self {
            ClipPlayState::Stopped => 0,
            ClipPlayState::ScheduledForPlay => 250_000_000,
            ClipPlayState::Playing => UNIT_VALUE_SCALE as nat,
            ClipPlayState::Paused => 500_000_000,
            ClipPlayState::ScheduledForStop => 750_000_000,
        }
    }

    /// The play state as a unit value, for feedback.
    pub fn feedback_value(self) -> (value: UnitValue)
        ensures
            value.billionths() == self.feedback_billionths(),
    {
        match self {
            ClipPlayState::Stopped => UnitValue::min_value(),
            ClipPlayState::ScheduledForPlay => UnitValue::new(250_000_000),
            ClipPlayState::Playing => UnitValue::max_value(),
            ClipPlayState::Paused => UnitValue::new(500_000_000),
            ClipPlayState::ScheduledForStop => UnitValue::new(750_000_000),
        }
    }
}

/// What has changed about a clip.
#[derive(Copy, Clone, PartialEq, Eq, Debug)]
pub enum ClipChangedEvent {
    PlayStateChanged(ClipPlayState),
    ClipVolumeChanged(Volume),
    ClipRepeatChanged(bool),
    ClipPositionChanged(UnitValue),
}

/// How to play a slot.
#[derive(Copy, Clone, PartialEq, Eq, Debug)]
pub struct SlotPlayOptions {
    /// Syncs with the timeline: playing starts with the next bar.
    pub next_bar: bool,
    pub buffered: bool,
}

impl Default for SlotPlayOptions {
    /// At once and without buffering.
    fn default() -> (options: Self)
        ensures
            options == (SlotPlayOptions { next_bar: false, buffered: false }),
    {
        SlotPlayOptions { next_bar: false, buffered: false }
    }
}

impl SlotPlayOptions {
    /// Whether the host is to buffer the source: it must whenever playing
    /// starts with the next bar.
    pub fn is_effectively_buffered(&self) -> (buffered: bool)
        ensures
            buffered == (self.buffered || self.next_bar),
    {
        self.buffered || self.next_bar
    }
}

/// With what a slot was asked to play.
#[derive(Copy, Clone, PartialEq, Eq, Debug)]
pub struct ClipPlayArgs {
    pub options: SlotPlayOptions,
    pub track: Option<TrackId>,
    pub repeat: bool,
}

/// What a playing slot is waiting for.
#[derive(Copy, Clone, PartialEq, Eq, Debug)]
pub enum ScheduledFor {
    /// Not yet playing but will soon. Polling finds out when.
    Play,
    /// Still playing but will stop soon. Polling finds out when.
    Stop,
}

/// A source is loaded and the host is not playing it.
#[derive(Debug, PartialEq, Eq)]
pub struct SuspendedState {
    pub is_paused: bool,
    pub last_play_args: Option<ClipPlayArgs>,
    pub was_caused_by_transport_change: bool,
}

/// The host is playing the slot's register.
#[derive(Debug, PartialEq, Eq)]
pub struct PlayingState {
    pub handle: PreviewHandle,
    pub args: ClipPlayArgs,
    pub scheduled_for: Option<ScheduledFor>,
}

/// The state of a slot.
#[derive(Debug, PartialEq, Eq)]
pub enum State {
    /// No source is loaded.
    Empty,
    Suspended(SuspendedState),
    Playing(PlayingState),
    /// Stands in a slot while a transition holds the slot's state.
    Transitioning,
}

/// The next state, or the state as it was and why it is.
pub type TransitionResult = Result<State, (State, &'static str)>;

/// How a transition ended, and the preview that the host has to stop for it.
#[derive(Debug, PartialEq, Eq)]
pub struct Transition {
    pub result: TransitionResult,
    pub stop: Option<StopPreview>,
}

/// A transition that goes on when the host has started a preview.
#[derive(Debug, PartialEq, Eq)]
pub struct PendingPlay {
    /// The preview that the host has to stop first.
    pub stop: Option<StopPreview>,
    /// The preview that the host has to start.
    pub start: StartPreview,
    /// The state that stays if the host cannot start it.
    pub suspended: SuspendedState,
    pub args: ClipPlayArgs,
}

/// A transition that has ended, or one that the host's answer completes.
#[derive(Debug, PartialEq, Eq)]
pub enum Step {
    Done(Transition),
    Start(PendingPlay),
}

/// The state that a transition leaves.
pub open spec fn state_after(result: TransitionResult) -> State {
    match result {
        Ok(state) => state,
        Err((state, _)) => state,
    }
}

/// A transition that ended in `state` without work for the host.
pub open spec fn settled(state: State) -> Transition {
    Transition { result: Ok(state), stop: None }
}

/// The request to start the preview that `args` ask for.
pub open spec fn start_request(args: ClipPlayArgs) -> StartPreview {
    StartPreview {
        track: args.track,
        buffered: args.options.buffered || args.options.next_bar,
        align_with_measure_start: args.options.next_bar,
    }
}

/// Which part of the source's length the position is, where a source is
/// loaded.
pub open spec fn register_proportion(register: PreviewRegister) -> nat {
    match register.source {
        Some(source) => proportional_billionths(
            register.position_micros as int,
            length_in_nat(source.length_micros),
        ),
        None => 0,
    }
}

/// The proportion of a register is never more than one, so that the unit
/// value of it has as many billionths.
pub proof fn register_proportion_within_unit(register: PreviewRegister)
    ensures
        register_proportion(register) <= UNIT_VALUE_SCALE,
        UnitValue::of_billionths(register_proportion(register)).billionths()
            == register_proportion(register),
{
    match register.source {
        Some(source) => {
            crate::unit_value::proportion_within_unit(
                register.position_micros as int,
                length_in_nat(source.length_micros),
            );
        },
        None => {},
    }
    UnitValue::billionths_of_billionths(register_proportion(register));
}

/// Whether a source with this length has been played to its end.
pub open spec fn reached_end(position_micros: i64, length_micros: Option<u64>) -> bool {
    match length_micros {
        Some(length) => position_micros >= length,
        None => false,
    }
}

/// Which part of `length` the position `position` is, both in microseconds.
pub fn calculate_proportional_position(position: i64, length: Option<u64>) -> (value: UnitValue)
    ensures
        value == UnitValue::of_billionths(
            proportional_billionths(position as int, length_in_nat(length)),
        ),
        value.billionths() == proportional_billionths(position as int, length_in_nat(length)),
{
    UnitValue::proportion(position, length)
}

impl PendingPlay {
    /// The transition's end, given the host's answer: playing with the handle
    /// that the host gave, or suspended as before where it gave none.
    pub open spec fn completed(self, answer: Option<PreviewHandle>) -> TransitionResult {
        match answer {
            Some(handle) => Ok(
                State::Playing(
                    PlayingState {
                        handle,
                        args: self.args,
                        scheduled_for: if self.args.options.next_bar {
                            Some(ScheduledFor::Play)
                        } else {
                            None
                        },
                    },
                ),
            ),
            None => Err((State::Suspended(self.suspended), "couldn't play preview")),
        }
    }

    /// Completes the transition with the host's answer to the start request:
    /// the handle of the preview, or none if the host could not start it.
    pub fn complete(self, answer: Option<PreviewHandle>) -> (result: TransitionResult)
        ensures
            result == self.completed(answer),
    {
        match answer {
            Some(handle) => {
                let scheduled_for = if self.args.options.next_bar {
                    Some(ScheduledFor::Play)
                } else {
                    None
                };
                Ok(State::Playing(PlayingState { handle, args: self.args, scheduled_for }))
            },
            None => Err((State::Suspended(self.suspended), "couldn't play preview")),
        }
    }
}

impl SuspendedState {
    /// The state of a slot whose source has just been loaded.
    pub open spec fn loaded() -> Self {
        SuspendedState {
            is_paused: false,
            last_play_args: None,
            was_caused_by_transport_change: false,
        }
    }

    pub open spec fn after_play(self, register: PreviewRegister, args: ClipPlayArgs) -> (
        PendingPlay,
        PreviewRegister,
    ) {
        (
            PendingPlay { stop: None, start: start_request(args), suspended: self, args },
            PreviewRegister { preview_track: args.track, looped: args.repeat, ..register },
        )
    }

    /// Routes the register to the track of `args`, sets its loop flag and
    /// asks the host to start the preview.
    pub fn play(self, reg: &mut PreviewRegister, args: ClipPlayArgs) -> (pending: PendingPlay)
        ensures
            (pending, *final(reg)) == self.after_play(*old(reg), args),
    {
        reg.preview_track = args.track;
        // The loop flag may have been reset by a stop at the end of the loop.
        reg.looped = args.repeat;
        let start = StartPreview {
            track: args.track,
            buffered: args.options.is_effectively_buffered(),
            align_with_measure_start: args.options.next_bar,
        };
        PendingPlay { stop: None, start, suspended: self, args }
    }

    pub open spec fn after_stop(self, register: PreviewRegister) -> (
        TransitionResult,
        PreviewRegister,
    ) {
        (Ok(State::Suspended(self)), PreviewRegister { position_micros: 0, ..register })
    }

    /// Stays suspended and rewinds.
    pub fn stop(self, reg: &mut PreviewRegister) -> (result: TransitionResult)
        ensures
            (result, *final(reg)) == self.after_stop(*old(reg)),
    {
        reg.position_micros = 0;
        Ok(State::Suspended(self))
    }

    pub open spec fn after_clear(self, register: PreviewRegister) -> (
        TransitionResult,
        PreviewRegister,
    ) {
        (Ok(State::Empty), PreviewRegister { source: None, position_micros: 0, ..register })
    }

    /// Drops the source and rewinds.
    pub fn clear(self, reg: &mut PreviewRegister) -> (result: TransitionResult)
        ensures
            (result, *final(reg)) == self.after_clear(*old(reg)),
    {
        reg.source = None;
        reg.position_micros = 0;
        Ok(State::Empty)
    }
}

impl PlayingState {
    /// The suspended state that follows this one, and the request to stop the
    /// preview.
    pub open spec fn suspended(self, pause: bool, caused_by_transport_change: bool) -> (
        SuspendedState,
        StopPreview,
    ) {
        (
            SuspendedState {
                is_paused: pause,
                last_play_args: Some(self.args),
                was_caused_by_transport_change: caused_by_transport_change,
            },
            StopPreview { handle: self.handle, track: self.args.track },
        )
    }

    fn suspend(self, pause: bool, caused_by_transport_change: bool) -> (suspension: (
        SuspendedState,
        StopPreview,
    ))
        ensures
            suspension == self.suspended(pause, caused_by_transport_change),
    {
        (
            SuspendedState {
                is_paused: pause,
                last_play_args: Some(self.args),
                was_caused_by_transport_change: caused_by_transport_change,
            },
            StopPreview { handle: self.handle, track: self.args.track },
        )
    }

    pub open spec fn after_play(self, register: PreviewRegister, args: ClipPlayArgs) -> (
        Step,
        PreviewRegister,
    ) {
        if self.args.track != args.track {
            let (suspended, stop) = self.suspended(true, false);
            let (pending, next_register) = suspended.after_play(register, args);
            (Step::Start(PendingPlay { stop: Some(stop), ..pending }), next_register)
        } else {
            (
                Step::Done(settled(State::Playing(self))),
                PreviewRegister { position_micros: 0, ..register },
            )
        }
    }

    /// On another track: stops the preview and asks for a new one. On the
    /// same track: rewinds, and the preview plays on.
    pub fn play(self, reg: &mut PreviewRegister, args: ClipPlayArgs) -> (step: Step)
        ensures
            (step, *final(reg)) == self.after_play(*old(reg), args),
    {
        if !same_track(self.args.track, args.track) {
            let (suspended, stop) = self.suspend(true, false);
            let pending = suspended.play(reg, args);
            Step::Start(
                PendingPlay {
                    stop: Some(stop),
                    start: pending.start,
                    suspended: pending.suspended,
                    args: pending.args,
                },
            )
        } else {
            reg.position_micros = 0;
            Step::Done(Transition { result: Ok(State::Playing(self)), stop: None })
        }
    }

    pub open spec fn after_fill_with_source(
        self,
        source: ClipSource,
        register: PreviewRegister,
    ) -> (TransitionResult, PreviewRegister) {
        (Ok(State::Playing(self)), PreviewRegister { source: Some(source), ..register })
    }

    /// Swaps the source; the preview plays on.
    pub fn fill_with_source(self, source: ClipSource, reg: &mut PreviewRegister) -> (result:
        TransitionResult)
        ensures
            (result, *final(reg)) == self.after_fill_with_source(source, *old(reg)),
    {
        reg.source = Some(source);
        Ok(State::Playing(self))
    }

    pub open spec fn after_stop(
        self,
        register: PreviewRegister,
        immediately: bool,
        caused_by_transport_change: bool,
    ) -> (Transition, PreviewRegister) {
        if immediately {
            let (suspended, stop) = self.suspended(false, caused_by_transport_change);
            (
                Transition { result: Ok(State::Suspended(suspended)), stop: Some(stop) },
                PreviewRegister { position_micros: 0, ..register },
            )
        } else {
            (
                settled(
                    State::Playing(
                        PlayingState { scheduled_for: Some(ScheduledFor::Stop), ..self },
                    ),
                ),
                PreviewRegister { looped: false, ..register },
            )
        }
    }

    /// At once: stops the preview and rewinds. Else: lets the source play to
    /// its end without looping, where polling finds the stop.
    pub fn stop(
        self,
        reg: &mut PreviewRegister,
        immediately: bool,
        caused_by_transport_change: bool,
    ) -> (transition: Transition)
        ensures
            (transition, *final(reg)) == self.after_stop(
                *old(reg),
                immediately,
                caused_by_transport_change,
            ),
    {
        if immediately {
            let (suspended, stop) = self.suspend(false, caused_by_transport_change);
            reg.position_micros = 0;
            Transition { result: Ok(State::Suspended(suspended)), stop: Some(stop) }
        } else {
            reg.looped = false;
            let next = PlayingState {
                handle: self.handle,
                args: self.args,
                scheduled_for: Some(ScheduledFor::Stop),
            };
            Transition { result: Ok(State::Playing(next)), stop: None }
        }
    }

    pub open spec fn after_clear(self, register: PreviewRegister) -> (
        Transition,
        PreviewRegister,
    ) {
        let (suspended, stop) = self.suspended(false, false);
        let (result, next_register) = suspended.after_clear(register);
        (Transition { result, stop: Some(stop) }, next_register)
    }

    /// Stops the preview, drops the source and rewinds.
    pub fn clear(self, reg: &mut PreviewRegister) -> (transition: Transition)
        ensures
            (transition, *final(reg)) == self.after_clear(*old(reg)),
    {
        let (suspended, stop) = self.suspend(false, false);
        let result = suspended.clear(reg);
        Transition { result, stop: Some(stop) }
    }

    pub open spec fn after_pause(self, caused_by_transport_change: bool) -> Transition {
        let (suspended, stop) = self.suspended(true, caused_by_transport_change);
        Transition { result: Ok(State::Suspended(suspended)), stop: Some(stop) }
    }

    /// Stops the preview where it is.
    pub fn pause(self, caused_by_transport_change: bool) -> (transition: Transition)
        ensures
            transition == self.after_pause(caused_by_transport_change),
    {
        let (suspended, stop) = self.suspend(true, caused_by_transport_change);
        Transition { result: Ok(State::Suspended(suspended)), stop: Some(stop) }
    }

    /// What polling finds of a playing slot: the stop at the end of a source
    /// that does not loop, the start of a scheduled play once the position
    /// has moved, and else only the position. Without a source it finds
    /// nothing.
    pub open spec fn after_poll(self, register: PreviewRegister) -> (
        Transition,
        Option<ClipChangedEvent>,
        PreviewRegister,
    ) {
        match register.source {
            None => (settled(State::Playing(self)), None, register),
            Some(source) => {
                let position = Some(
                    ClipChangedEvent::ClipPositionChanged(
                        UnitValue::of_billionths(register_proportion(register)),
                    ),
                );
                if !(self.scheduled_for == Some(ScheduledFor::Play)) && !register.looped {
                    if reached_end(register.position_micros, source.length_micros) {
                        let (transition, next_register) = self.after_stop(register, true, false);
                        (
                            transition,
                            Some(ClipChangedEvent::PlayStateChanged(ClipPlayState::Stopped)),
                            next_register,
                        )
                    } else {
                        (settled(State::Playing(self)), position, register)
                    }
                } else if self.scheduled_for == Some(ScheduledFor::Play)
                    && register.position_micros > 0 {
                    (
                        settled(State::Playing(PlayingState { scheduled_for: None, ..self })),
                        Some(ClipChangedEvent::PlayStateChanged(ClipPlayState::Playing)),
                        register,
                    )
                } else {
                    (settled(State::Playing(self)), position, register)
                }
            },
        }
    }

    fn poll(self, reg: &mut PreviewRegister) -> (found: (Transition, Option<ClipChangedEvent>))
        ensures
            (found.0, found.1, *final(reg)) == self.after_poll(*old(reg)),
    {
        let (current_pos, length, is_looped) = match &reg.source {
            None => {
                return (Transition { result: Ok(State::Playing(self)), stop: None }, None);
            },
            Some(source) => (reg.position_micros, source.length_micros, reg.looped),
        };
        let scheduled_for_play = match self.scheduled_for {
            Some(ScheduledFor::Play) => true,
            _ => false,
        };
        if !scheduled_for_play && !is_looped {
            let at_end = match length {
                Some(l) => current_pos >= 0 && current_pos as u64 >= l,
                None => false,
            };
            if at_end {
                // Stop detected. Make it official.
                let transition = self.stop(reg, true, false);
                return (
                    transition,
                    Some(ClipChangedEvent::PlayStateChanged(ClipPlayState::Stopped)),
                );
            }
        } else if scheduled_for_play && current_pos > 0 {
            // Actual play detected. Make it official.
            let next = PlayingState { handle: self.handle, args: self.args, scheduled_for: None };
            return (
                Transition { result: Ok(State::Playing(next)), stop: None },
                Some(ClipChangedEvent::PlayStateChanged(ClipPlayState::Playing)),
            );
        }
        let position = calculate_proportional_position(current_pos, length);
        (
            Transition { result: Ok(State::Playing(self)), stop: None },
            Some(ClipChangedEvent::ClipPositionChanged(position)),
        )
    }
}

impl State {
    /// What a user sees of the state.
    pub open spec fn play_state_of(self) -> ClipPlayState {
        match self {
            State::Empty => ClipPlayState::Stopped,
            State::Suspended(s) => if s.is_paused {
                ClipPlayState::Paused
            } else {
                ClipPlayState::Stopped
            },
            State::Playing(s) => match s.scheduled_for {
                None => ClipPlayState::Playing,
                Some(ScheduledFor::Play) => ClipPlayState::ScheduledForPlay,
                Some(ScheduledFor::Stop) => ClipPlayState::ScheduledForStop,
            },
            State::Transitioning => ClipPlayState::Stopped,
        }
    }

    /// What a user sees of the state. It follows from the state's shape
    /// alone.
    pub fn play_state(&self) -> (play_state: ClipPlayState)
        requires
            !(self is Transitioning),
        ensures
            play_state == self.play_state_of(),
    {
        match self {
            State::Empty => ClipPlayState::Stopped,
            State::Suspended(s) => {
                if s.is_paused {
                    ClipPlayState::Paused
                } else {
                    ClipPlayState::Stopped
                }
            },
            State::Playing(s) => match s.scheduled_for {
                None => ClipPlayState::Playing,
                Some(ScheduledFor::Play) => ClipPlayState::ScheduledForPlay,
                Some(ScheduledFor::Stop) => ClipPlayState::ScheduledForStop,
            },
            State::Transitioning => ClipPlayState::Stopped,
        }
    }

    pub open spec fn after_process_transport_change(
        self,
        register: PreviewRegister,
        new_play_state: TransportState,
    ) -> (Step, PreviewRegister) {
        match self {
            State::Suspended(s) => {
                if s.was_caused_by_transport_change && new_play_state.is_playing
                    && !new_play_state.is_paused && s.last_play_args is Some
                    && s.last_play_args->Some_0.options.next_bar {
                    let (pending, next_register) = s.after_play(
                        register,
                        s.last_play_args->Some_0,
                    );
                    (Step::Start(pending), next_register)
                } else {
                    (Step::Done(settled(State::Suspended(s))), register)
                }
            },
            State::Playing(s) => {
                if !s.args.options.next_bar || new_play_state.is_playing {
                    (Step::Done(settled(State::Playing(s))), register)
                } else if new_play_state.is_paused {
                    (Step::Done(s.after_pause(true)), register)
                } else {
                    let (transition, next_register) = s.after_stop(register, true, true);
                    (Step::Done(transition), next_register)
                }
            },
            other => (Step::Done(settled(other)), register),
        }
    }

    /// Follows the host's transport with a slot that is synced to it: a slot
    /// that a transport change suspended plays again, with the next bar,
    /// when the transport plays; a slot that plays with the bars pauses and
    /// stops with the transport. Every other slot stays as it is.
    pub fn process_transport_change(
        self,
        reg: &mut PreviewRegister,
        new_play_state: TransportState,
    ) -> (step: Step)
        ensures
            (step, *final(reg)) == self.after_process_transport_change(*old(reg), new_play_state),
    {
        match self {
            State::Suspended(s) => {
                if s.was_caused_by_transport_change && new_play_state.is_playing
                    && !new_play_state.is_paused {
                    match s.last_play_args {
                        Some(play_args) => {
                            if play_args.options.next_bar {
                                return Step::Start(s.play(reg, play_args));
                            }
                        },
                        None => {},
                    }
                }
                Step::Done(Transition { result: Ok(State::Suspended(s)), stop: None })
            },
            State::Playing(s) => {
                if !s.args.options.next_bar || new_play_state.is_playing {
                    Step::Done(Transition { result: Ok(State::Playing(s)), stop: None })
                } else if new_play_state.is_paused {
                    Step::Done(s.pause(true))
                } else {
                    Step::Done(s.stop(reg, true, true))
                }
            },
            other => Step::Done(Transition { result: Ok(other), stop: None }),
        }
    }

    pub open spec fn after_play(self, register: PreviewRegister, args: ClipPlayArgs) -> (
        Step,
        PreviewRegister,
    ) {
        match self {
            State::Suspended(s) => {
                let (pending, next_register) = s.after_play(register, args);
                (Step::Start(pending), next_register)
            },
            State::Playing(s) => s.after_play(register, args),
            other => (
                Step::Done(Transition { result: Err((other, "slot is empty")), stop: None }),
                register,
            ),
        }
    }

    /// Plays the slot. An empty slot has nothing to play.
    pub fn play(self, reg: &mut PreviewRegister, args: ClipPlayArgs) -> (step: Step)
        requires
            !(self is Transitioning),
        ensures
            (step, *final(reg)) == self.after_play(*old(reg), args),
    {
        match self {
            State::Suspended(s) => Step::Start(s.play(reg, args)),
            State::Playing(s) => s.play(reg, args),
            other => Step::Done(Transition { result: Err((other, "slot is empty")), stop: None }),
        }
    }

    pub open spec fn after_stop(self, register: PreviewRegister, immediately: bool) -> (
        Transition,
        PreviewRegister,
    ) {
        match self {
            State::Suspended(s) => {
                let (result, next_register) = s.after_stop(register);
                (Transition { result, stop: None }, next_register)
            },
            State::Playing(s) => s.after_stop(register, immediately, false),
            other => (settled(other), register),
        }
    }

    /// Stops the slot, at once or at the end of the source. An empty slot
    /// stays empty.
    pub fn stop(self, reg: &mut PreviewRegister, immediately: bool) -> (transition: Transition)
        requires
            !(self is Transitioning),
        ensures
            (transition, *final(reg)) == self.after_stop(*old(reg), immediately),
    {
        match self {
            State::Suspended(s) => Transition { result: s.stop(reg), stop: None },
            State::Playing(s) => s.stop(reg, immediately, false),
            other => Transition { result: Ok(other), stop: None },
        }
    }

    pub open spec fn after_pause(self) -> Transition {
        match self {
            State::Playing(s) => s.after_pause(false),
            other => settled(other),
        }
    }

    /// Pauses a playing slot. Every other slot stays as it is.
    pub fn pause(self) -> (transition: Transition)
        requires
            !(self is Transitioning),
        ensures
            transition == self.after_pause(),
    {
        match self {
            State::Playing(s) => s.pause(false),
            other => Transition { result: Ok(other), stop: None },
        }
    }

    pub open spec fn after_clear(self, register: PreviewRegister) -> (
        Transition,
        PreviewRegister,
    ) {
        match self {
            State::Suspended(s) => {
                let (result, next_register) = s.after_clear(register);
                (Transition { result, stop: None }, next_register)
            },
            State::Playing(s) => s.after_clear(register),
            other => (settled(State::Empty), register),
        }
    }

    /// Stops playing if necessary, drops the source and rewinds.
    pub fn clear(self, reg: &mut PreviewRegister) -> (transition: Transition)
        requires
            !(self is Transitioning),
        ensures
            (transition, *final(reg)) == self.after_clear(*old(reg)),
    {
        match self {
            State::Suspended(s) => Transition { result: s.clear(reg), stop: None },
            State::Playing(s) => s.clear(reg),
            _ => Transition { result: Ok(State::Empty), stop: None },
        }
    }

    pub open spec fn after_poll(self, register: PreviewRegister) -> (
        Transition,
        Option<ClipChangedEvent>,
        PreviewRegister,
    ) {
        match self {
            State::Playing(s) => s.after_poll(register),
            other => (settled(other), None, register),
        }
    }

    /// Looks at the register of a playing slot for what the host has done
    /// since: see `PlayingState::after_poll`. Of a slot that is not playing
    /// there is nothing to find.
    pub fn poll(self, reg: &mut PreviewRegister) -> (found: (Transition, Option<ClipChangedEvent>))
        ensures
            (found.0, found.1, *final(reg)) == self.after_poll(*old(reg)),
    {
        match self {
            State::Playing(s) => s.poll(reg),
            other => (Transition { result: Ok(other), stop: None }, None),
        }
    }

    pub open spec fn after_fill_with_source(
        self,
        source: ClipSource,
        register: PreviewRegister,
    ) -> (TransitionResult, PreviewRegister) {
        match self {
            State::Playing(s) => s.after_fill_with_source(source, register),
            other => (
                Ok(State::Suspended(SuspendedState::loaded())),
                PreviewRegister { source: Some(source), position_micros: 0, ..register },
            ),
        }
    }

    /// Loads a source. A playing slot plays on with it; every other slot is
    /// stopped at the start of it.
    pub fn fill_with_source(self, source: ClipSource, reg: &mut PreviewRegister) -> (result:
        TransitionResult)
        requires
            !(self is Transitioning),
        ensures
            (result, *final(reg)) == self.after_fill_with_source(source, *old(reg)),
    {
        match self {
            State::Playing(s) => s.fill_with_source(source, reg),
            _ => {
                reg.source = Some(source);
                reg.position_micros = 0;
                Ok(
                    State::Suspended(
                        SuspendedState {
                            is_paused: false,
                            last_play_args: None,
                            was_caused_by_transport_change: false,
                        },
                    ),
                )
            },
        }
    }
}

/// The state and the register after `times` requests to play with `args`,
/// where the host is never asked for a preview.
pub open spec fn replayed(
    state: State,
    register: PreviewRegister,
    args: ClipPlayArgs,
    times: nat,
) -> (State, PreviewRegister)
    decreases times,
{
    if times == 0 {
        (state, register)
    } else {
        let (step, next_register) = state.after_play(register, args);
        match step {
            Step::Done(transition) => replayed(
                state_after(transition.result),
                next_register,
                args,
                (times - 1) as nat,
            ),
            Step::Start(pending) => (State::Suspended(pending.suspended), next_register),
        }
    }
}

/// What a run of polls finds: one entry per poll, each poll after the host
/// has moved the position to the next of `positions`.
pub open spec fn poll_run(state: State, register: PreviewRegister, positions: Seq<i64>) -> Seq<
    Option<ClipChangedEvent>,
>
    decreases positions.len(),
{
    if positions.len() == 0 {
        Seq::empty()
    } else {
        let (transition, event, next_register) = state.after_poll(
            PreviewRegister { position_micros: positions[0], ..register },
        );
        seq![event] + poll_run(
            state_after(transition.result),
            next_register,
            positions.subrange(1, positions.len() as int),
        )
    }
}

/// How many of the events say that the slot has stopped.
pub open spec fn stop_events(events: Seq<Option<ClipChangedEvent>>) -> nat
    decreases events.len(),
{
    if events.len() == 0 {
        0
    } else {
        let rest = stop_events(events.subrange(1, events.len() as int));
        if events[0] == Some(ClipChangedEvent::PlayStateChanged(ClipPlayState::Stopped)) {
            rest + 1
        } else {
            rest
        }
    }
}

/// Whether one of the positions is at or behind the end of a source of this
/// length.
pub open spec fn some_position_reaches(positions: Seq<i64>, length_micros: Option<u64>) -> bool {
    exists|i: int| 0 <= i < positions.len() && reached_end(#[trigger] positions[i], length_micros)
}

/// Every operation on a state that can be seen leaves such a state, whatever
/// the register holds and whatever the host answers.
pub proof fn every_transition_leaves_a_state(
    state: State,
    register: PreviewRegister,
    source: ClipSource,
    args: ClipPlayArgs,
    answer: Option<PreviewHandle>,
    immediately: bool,
    transport: TransportState,
)
    requires
        !(state is Transitioning),
    ensures
        !(state_after(state.after_fill_with_source(source, register).0) is Transitioning),
        match state.after_play(register, args).0 {
            Step::Done(transition) => !(state_after(transition.result) is Transitioning),
            Step::Start(pending) => !(state_after(pending.completed(answer)) is Transitioning),
        },
        match state.after_process_transport_change(register, transport).0 {
            Step::Done(transition) => !(state_after(transition.result) is Transitioning),
            Step::Start(pending) => !(state_after(pending.completed(answer)) is Transitioning),
        },
        !(state_after(state.after_stop(register, immediately).0.result) is Transitioning),
        !(state_after(state.after_pause().result) is Transitioning),
        !(state_after(state.after_clear(register).0.result) is Transitioning),
        !(state_after(state.after_poll(register).0.result) is Transitioning),
{
}

/// Only playing an empty slot and a start that the host refuses fail, and a
/// failed operation leaves the state as it was.
pub proof fn failures_keep_the_state(
    state: State,
    register: PreviewRegister,
    source: ClipSource,
    args: ClipPlayArgs,
    immediately: bool,
    transport: TransportState,
)
    requires
        !(state is Transitioning),
    ensures
        state.after_fill_with_source(source, register).0 is Ok,
        state.after_stop(register, immediately).0.result is Ok,
        state.after_pause().result is Ok,
        state.after_clear(register).0.result is Ok,
        state.after_poll(register).0.result is Ok,
        state.after_process_transport_change(register, transport).0 matches Step::Done(transition)
            ==> transition.result is Ok,
        state.after_play(register, args).0 matches Step::Done(transition) ==> (
        transition.result is Err <==> state is Empty),
        state is Empty ==> state.after_play(register, args) == (
            Step::Done(
                Transition { result: Err((State::Empty, "slot is empty")), stop: None },
            ),
            register,
        ),
        forall|pending: PendingPlay|
            pending.completed(None) == Err::<State, (State, &'static str)>(
                (State::Suspended(pending.suspended), "couldn't play preview"),
            ),
{
}

/// Playing a slot that already plays on the same track rewinds it and
/// changes nothing else: the host is asked neither to stop the preview nor to
/// start another, so the slot keeps its handle.
pub proof fn retrigger_keeps_the_preview(
    playing: PlayingState,
    register: PreviewRegister,
    args: ClipPlayArgs,
    times: nat,
)
    requires
        playing.args.track == args.track,
        times > 0,
    ensures
        State::Playing(playing).after_play(register, args) == (
            Step::Done(settled(State::Playing(playing))),
            PreviewRegister { position_micros: 0, ..register },
        ),
        replayed(State::Playing(playing), register, args, times) == (
            State::Playing(playing),
            PreviewRegister { position_micros: 0, ..register },
        ),
    decreases times,
{
    let rewound = PreviewRegister { position_micros: 0, ..register };
    if times > 1 {
        retrigger_keeps_the_preview(playing, rewound, args, (times - 1) as nat);
        assert(PreviewRegister { position_micros: 0, ..rewound } == rewound);
    } else {
        assert(replayed(State::Playing(playing), rewound, args, 0) == (
            State::Playing(playing),
            rewound,
        ));
    }
}

/// Filling a slot, clearing it and filling it again with the same source
/// gives what filling an empty slot gives: a slot that is stopped at the
/// start of the source.
pub proof fn fill_clear_fill_is_fill(state: State, register: PreviewRegister, source: ClipSource)
    requires
        !(state is Transitioning),
    ensures
        ({
            let (filled, first_register) = state.after_fill_with_source(source, register);
            let (cleared, second_register) = state_after(filled).after_clear(first_register);
            let (again, third_register) = state_after(cleared.result).after_fill_with_source(
                source,
                second_register,
            );
            let (fresh, fresh_register) = State::Empty.after_fill_with_source(source, register);
            &&& state_after(cleared.result) == State::Empty
            &&& second_register.source is None
            &&& again == fresh
            &&& again == Ok::<State, (State, &'static str)>(
                State::Suspended(SuspendedState::loaded()),
            )
            &&& third_register == fresh_register
            &&& third_register.position_micros == 0
            &&& third_register.source == Some(source)
        }),
{
}

/// Stopping a playing slot at the end of its source keeps the preview,
/// turns looping off and leaves the stop to polling.
pub proof fn stop_at_end_is_scheduled(playing: PlayingState, register: PreviewRegister)
    ensures
        State::Playing(playing).after_stop(register, false) == (
            settled(
                State::Playing(
                    PlayingState { scheduled_for: Some(ScheduledFor::Stop), ..playing },
                ),
            ),
            PreviewRegister { looped: false, ..register },
        ),
{
}

/// A slot that is not playing gives no event, however often it is polled.
pub proof fn idle_polls_find_nothing(
    state: State,
    register: PreviewRegister,
    positions: Seq<i64>,
)
    requires
        !(state is Playing),
    ensures
        stop_events(poll_run(state, register, positions)) == 0,
        forall|i: int|
            0 <= i < positions.len() ==> (#[trigger] poll_run(state, register, positions)[i])
                is None,
        poll_run(state, register, positions).len() == positions.len(),
    decreases positions.len(),
{
    if positions.len() > 0 {
        let moved = PreviewRegister { position_micros: positions[0], ..register };
        let rest = positions.subrange(1, positions.len() as int);
        idle_polls_find_nothing(state, moved, rest);
        let run = poll_run(state, register, positions);
        let tail = poll_run(state, moved, rest);
        assert(run == seq![None::<ClipChangedEvent>] + tail);
        assert(run.subrange(1, run.len() as int) == tail);
        assert forall|i: int| 0 <= i < positions.len() implies (#[trigger] run[i]) is None by {
            if i > 0 {
                assert(run[i] == tail[i - 1]);
            }
        }
    }
}

/// A slot that is to stop at the end of its source, polled while the host
/// moves the position, reports the stop once if a position reaches the end,
/// and never else: after the stop it is suspended and has nothing to report.
pub proof fn scheduled_stop_is_reported_once(
    playing: PlayingState,
    register: PreviewRegister,
    positions: Seq<i64>,
)
    requires
        playing.scheduled_for == Some(ScheduledFor::Stop),
        !register.looped,
        register.source is Some,
    ensures
        stop_events(poll_run(State::Playing(playing), register, positions))
            == if some_position_reaches(
            positions,
            register.source->Some_0.length_micros,
        ) {
            1nat
        } else {
            0nat
        },
    decreases positions.len(),
{
    let state = State::Playing(playing);
    let length = register.source->Some_0.length_micros;
    if positions.len() > 0 {
        let moved = PreviewRegister { position_micros: positions[0], ..register };
        let rest = positions.subrange(1, positions.len() as int);
        let (transition, event, next_register) = state.after_poll(moved);
        let run = poll_run(state, register, positions);
        let tail = poll_run(state_after(transition.result), next_register, rest);
        assert(run == seq![event] + tail);
        assert(run.subrange(1, run.len() as int) == tail);
        if reached_end(positions[0], length) {
            idle_polls_find_nothing(state_after(transition.result), next_register, rest);
        } else {
            scheduled_stop_is_reported_once(playing, moved, rest);
            assert(next_register == moved);
            if some_position_reaches(rest, length) {
                let i = choose|i: int| 0 <= i < rest.len()
                    && reached_end(#[trigger] rest[i], length);
                assert(positions[i + 1] == rest[i]);
            }
            if some_position_reaches(positions, length) {
                let i = choose|i: int|
                    0 <= i < positions.len() && reached_end(#[trigger] positions[i], length);
                assert(rest[i - 1] == positions[i]);
            }
        }
    }
}

/// A playing slot that is asked to stop at the end of its source, and is
/// then polled while the host moves the position, reports the stop once if
/// a position reaches the end of the source, and never else.
pub proof fn stop_at_end_is_reported_once(
    playing: PlayingState,
    register: PreviewRegister,
    positions: Seq<i64>,
)
    requires
        register.source is Some,
    ensures
        ({
            let (transition, stopping) = State::Playing(playing).after_stop(register, false);
            stop_events(poll_run(state_after(transition.result), stopping, positions))
                == if some_position_reaches(positions, register.source->Some_0.length_micros) {
                1nat
            } else {
                0nat
            }
        }),
{
    scheduled_stop_is_reported_once(
        PlayingState { scheduled_for: Some(ScheduledFor::Stop), ..playing },
        PreviewRegister { looped: false, ..register },
        positions,
    );
}

} // verus!
