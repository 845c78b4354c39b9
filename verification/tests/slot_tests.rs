use clip_engine::clip_slot::{ClipSlot, Outcome, PlayRequest, SlotContent, SlotDescriptor, SlotStep};
use clip_engine::preview::{
    same_track, ClipSource, PreviewHandle, PreviewRegister, StartPreview, StopPreview, TrackId,
    TransportState, Volume,
};
use clip_engine::slot_state::{
    calculate_proportional_position, ClipChangedEvent, ClipPlayArgs, ClipPlayState, PendingPlay,
    PlayingState, ScheduledFor, SlotPlayOptions, State, Step, SuspendedState, Transition,
};
use clip_engine::unit_value::UnitValue;

fn two_second_source() -> ClipSource {
    ClipSource {
        kind: String::from("WAVE"),
        file_name: Some(String::from("loop.wav")),
        length_micros: Some(2_000_000),
    }
}

fn immediately() -> SlotPlayOptions {
    SlotPlayOptions { next_bar: false, buffered: false }
}

fn next_bar() -> SlotPlayOptions {
    SlotPlayOptions { next_bar: true, buffered: false }
}

fn filled_slot() -> ClipSlot {
    let mut slot = ClipSlot::default();
    assert_eq!(slot.fill_with_source(two_second_source()), Ok(()));
    slot
}

fn playing_slot(track: Option<TrackId>, options: SlotPlayOptions, handle: u64) -> ClipSlot {
    let mut slot = filled_slot();
    match slot.play(track, options) {
        SlotStep::Start(request) => {
            assert_eq!(request.stop, None);
            let event = slot.complete_play(request.args, Some(PreviewHandle(handle)));
            assert!(event.is_ok());
        }
        SlotStep::Done(_) => panic!("a suspended slot needs the host to play"),
    }
    slot
}

#[test]
fn a_new_slot_is_empty_and_stopped() {
    let slot = ClipSlot::default();
    assert!(!slot.is_filled());
    assert!(!slot.source_is_loaded());
    assert_eq!(slot.play_state(), ClipPlayState::Stopped);
    assert_eq!(slot.volume(), Volume::zero_db());
    assert!(!slot.repeat_is_enabled());
    assert_eq!(slot.register(), &PreviewRegister::new(Volume::zero_db()));
    assert_eq!(slot.register().out_chan, -1);
    assert!(slot.clip_info().is_none());
}

#[test]
fn stop_on_an_empty_slot_is_ok_and_changes_nothing() {
    let mut slot = ClipSlot::default();
    let outcome = slot.stop(true);
    assert_eq!(
        outcome,
        Outcome {
            result: Ok(ClipChangedEvent::PlayStateChanged(ClipPlayState::Stopped)),
            stop: None
        }
    );
    assert!(!slot.source_is_loaded());
    let outcome = slot.stop(false);
    assert_eq!(outcome.result, Ok(ClipChangedEvent::PlayStateChanged(ClipPlayState::Stopped)));
}

#[test]
fn play_on_an_empty_slot_fails() {
    let mut slot = ClipSlot::default();
    assert_eq!(
        slot.play(None, immediately()),
        SlotStep::Done(Outcome { result: Err("slot is empty"), stop: None })
    );
    assert!(!slot.source_is_loaded());
}

#[test]
fn pause_and_clear_on_an_empty_slot_are_no_ops() {
    let mut slot = ClipSlot::default();
    assert_eq!(
        slot.pause(),
        Outcome {
            result: Ok(ClipChangedEvent::PlayStateChanged(ClipPlayState::Stopped)),
            stop: None
        }
    );
    assert_eq!(slot.clear(), Outcome { result: Ok(()), stop: None });
    assert_eq!(slot.poll().event, None);
}

#[test]
fn fill_suspends_at_the_start() {
    let mut slot = ClipSlot::default();
    slot.sync_position(77);
    assert_eq!(slot.fill_with_source(two_second_source()), Ok(()));
    assert!(slot.source_is_loaded());
    assert_eq!(slot.play_state(), ClipPlayState::Stopped);
    assert_eq!(slot.register().position_micros, 0);
    assert_eq!(slot.register().source, Some(two_second_source()));
    let info = slot.clip_info().unwrap();
    assert_eq!(info.kind, "WAVE");
    assert_eq!(info.file_name.as_deref(), Some("loop.wav"));
    assert_eq!(info.length_micros, Some(2_000_000));
}

#[test]
fn play_asks_the_host_and_then_plays() {
    let mut slot = filled_slot();
    let step = slot.play(None, immediately());
    let args = ClipPlayArgs { options: immediately(), track: None, repeat: false };
    assert_eq!(
        step,
        SlotStep::Start(PlayRequest {
            stop: None,
            start: StartPreview { track: None, buffered: false, align_with_measure_start: false },
            args,
        })
    );
    assert_eq!(slot.play_state(), ClipPlayState::Stopped);
    let event = slot.complete_play(args, Some(PreviewHandle(1)));
    assert_eq!(event, Ok(ClipChangedEvent::PlayStateChanged(ClipPlayState::Playing)));
    assert_eq!(slot.play_state(), ClipPlayState::Playing);
    let polled = slot.poll();
    assert_eq!(
        polled.event,
        Some(ClipChangedEvent::ClipPositionChanged(UnitValue::min_value()))
    );
    assert_eq!(polled.stop, None);
}

#[test]
fn a_refused_preview_leaves_the_slot_suspended() {
    let mut slot = filled_slot();
    let request = match slot.play(None, immediately()) {
        SlotStep::Start(request) => request,
        SlotStep::Done(_) => panic!("expected a request"),
    };
    assert_eq!(slot.complete_play(request.args, None), Err("couldn't play preview"));
    assert_eq!(slot.play_state(), ClipPlayState::Stopped);
    assert!(slot.source_is_loaded());
}

#[test]
fn complete_play_needs_a_suspended_slot() {
    let mut slot = ClipSlot::default();
    let args = ClipPlayArgs { options: immediately(), track: None, repeat: false };
    assert_eq!(slot.complete_play(args, Some(PreviewHandle(3))), Err("slot is not suspended"));
    assert!(!slot.source_is_loaded());
}

#[test]
fn play_with_next_bar_is_scheduled_and_buffered() {
    let mut slot = filled_slot();
    let request = match slot.play(Some(TrackId(4)), next_bar()) {
        SlotStep::Start(request) => request,
        SlotStep::Done(_) => panic!("expected a request"),
    };
    assert_eq!(
        request.start,
        StartPreview { track: Some(TrackId(4)), buffered: true, align_with_measure_start: true }
    );
    assert_eq!(slot.register().preview_track, Some(TrackId(4)));
    assert_eq!(
        slot.complete_play(request.args, Some(PreviewHandle(9))),
        Ok(ClipChangedEvent::PlayStateChanged(ClipPlayState::ScheduledForPlay))
    );
    // Position has not moved yet.
    assert_eq!(
        slot.poll().event,
        Some(ClipChangedEvent::ClipPositionChanged(UnitValue::min_value()))
    );
    assert_eq!(slot.play_state(), ClipPlayState::ScheduledForPlay);
    slot.sync_position(1);
    assert_eq!(
        slot.poll().event,
        Some(ClipChangedEvent::PlayStateChanged(ClipPlayState::Playing))
    );
    assert_eq!(slot.play_state(), ClipPlayState::Playing);
}

#[test]
fn retrigger_keeps_the_handle_and_rewinds() {
    let mut slot = playing_slot(Some(TrackId(1)), immediately(), 42);
    for _ in 0..5 {
        slot.sync_position(500_000);
        let step = slot.play(Some(TrackId(1)), immediately());
        assert_eq!(
            step,
            SlotStep::Done(Outcome {
                result: Ok(ClipChangedEvent::PlayStateChanged(ClipPlayState::Playing)),
                stop: None
            })
        );
        assert_eq!(slot.register().position_micros, 0);
    }
    // The preview that is stopped in the end is the one that was started.
    assert_eq!(
        slot.stop(true).stop,
        Some(StopPreview { handle: PreviewHandle(42), track: Some(TrackId(1)) })
    );
}

#[test]
fn playing_on_another_track_stops_and_starts() {
    let mut slot = playing_slot(Some(TrackId(1)), immediately(), 42);
    let request = match slot.play(Some(TrackId(2)), immediately()) {
        SlotStep::Start(request) => request,
        SlotStep::Done(_) => panic!("expected a request"),
    };
    assert_eq!(
        request.stop,
        Some(StopPreview { handle: PreviewHandle(42), track: Some(TrackId(1)) })
    );
    assert_eq!(request.start.track, Some(TrackId(2)));
    // Until the host answers, the slot is paused.
    assert_eq!(slot.play_state(), ClipPlayState::Paused);
    assert_eq!(
        slot.complete_play(request.args, Some(PreviewHandle(43))),
        Ok(ClipChangedEvent::PlayStateChanged(ClipPlayState::Playing))
    );
    assert_eq!(
        slot.stop(true).stop,
        Some(StopPreview { handle: PreviewHandle(43), track: Some(TrackId(2)) })
    );
}

#[test]
fn immediate_stop_suspends_and_rewinds() {
    let mut slot = playing_slot(None, immediately(), 7);
    slot.sync_position(1_000_000);
    let outcome = slot.stop(true);
    assert_eq!(
        outcome,
        Outcome {
            result: Ok(ClipChangedEvent::PlayStateChanged(ClipPlayState::Stopped)),
            stop: Some(StopPreview { handle: PreviewHandle(7), track: None })
        }
    );
    assert_eq!(slot.register().position_micros, 0);
    assert_eq!(slot.poll().event, None);
}

#[test]
fn one_shot_stops_at_its_end_exactly_once() {
    let mut slot = playing_slot(None, immediately(), 7);
    slot.sync_position(1_999_999);
    assert_eq!(
        slot.poll().event.unwrap(),
        ClipChangedEvent::ClipPositionChanged(UnitValue::new(999_999_500))
    );
    slot.sync_position(2_000_001);
    let polled = slot.poll();
    assert_eq!(polled.event, Some(ClipChangedEvent::PlayStateChanged(ClipPlayState::Stopped)));
    assert_eq!(polled.stop, Some(StopPreview { handle: PreviewHandle(7), track: None }));
    assert_eq!(slot.register().position_micros, 0);
    let polled = slot.poll();
    assert_eq!(polled.event, None);
    assert_eq!(polled.stop, None);
    assert_eq!(slot.play_state(), ClipPlayState::Stopped);
}

#[test]
fn looped_slot_stops_at_loop_end_once() {
    let mut slot = filled_slot();
    assert_eq!(slot.toggle_repeat(), ClipChangedEvent::ClipRepeatChanged(true));
    let request = match slot.play(None, immediately()) {
        SlotStep::Start(request) => request,
        SlotStep::Done(_) => panic!("expected a request"),
    };
    assert!(request.args.repeat);
    assert!(slot.register().looped);
    slot.complete_play(request.args, Some(PreviewHandle(5))).unwrap();
    // While it loops, the end of the source is no stop.
    slot.sync_position(2_000_000);
    assert_eq!(
        slot.poll().event,
        Some(ClipChangedEvent::ClipPositionChanged(UnitValue::max_value()))
    );
    slot.sync_position(100);
    let outcome = slot.stop(false);
    assert_eq!(
        outcome,
        Outcome {
            result: Ok(ClipChangedEvent::PlayStateChanged(ClipPlayState::ScheduledForStop)),
            stop: None
        }
    );
    assert!(!slot.register().looped);
    let mut stops = 0;
    for position in [500_000i64, 1_500_000, 2_000_000, 2_100_000, 0, 2_500_000] {
        slot.sync_position(position);
        if slot.poll().event == Some(ClipChangedEvent::PlayStateChanged(ClipPlayState::Stopped)) {
            stops += 1;
        }
    }
    assert_eq!(stops, 1);
    assert_eq!(slot.play_state(), ClipPlayState::Stopped);
}

#[test]
fn pause_keeps_the_position() {
    let mut slot = playing_slot(None, immediately(), 7);
    slot.sync_position(300_000);
    let outcome = slot.pause();
    assert_eq!(
        outcome,
        Outcome {
            result: Ok(ClipChangedEvent::PlayStateChanged(ClipPlayState::Paused)),
            stop: Some(StopPreview { handle: PreviewHandle(7), track: None })
        }
    );
    assert_eq!(slot.register().position_micros, 300_000);
    // Pausing a paused slot changes nothing.
    assert_eq!(
        slot.pause(),
        Outcome {
            result: Ok(ClipChangedEvent::PlayStateChanged(ClipPlayState::Paused)),
            stop: None
        }
    );
    // Stopping a suspended slot only rewinds it: a paused slot stays paused.
    assert_eq!(
        slot.stop(true).result,
        Ok(ClipChangedEvent::PlayStateChanged(ClipPlayState::Paused))
    );
    assert_eq!(slot.register().position_micros, 0);
}

#[test]
fn clear_stops_the_preview_and_empties_the_slot() {
    let mut slot = playing_slot(Some(TrackId(3)), immediately(), 8);
    let outcome = slot.clear();
    assert_eq!(
        outcome,
        Outcome {
            result: Ok(()),
            stop: Some(StopPreview { handle: PreviewHandle(8), track: Some(TrackId(3)) })
        }
    );
    assert!(!slot.source_is_loaded());
    assert_eq!(slot.register().source, None);
    assert_eq!(slot.register().position_micros, 0);
}

#[test]
fn fill_clear_fill_equals_fill() {
    let mut fresh = ClipSlot::default();
    fresh.fill_by_user(SlotContent::File { file: String::from("a.wav") },
        two_second_source()).unwrap();

    let mut slot = ClipSlot::default();
    slot.fill_by_user(SlotContent::File { file: String::from("a.wav") },
        two_second_source()).unwrap();
    slot.sync_position(12345);
    assert_eq!(slot.clear().result, Ok(()));
    slot.fill_by_user(SlotContent::File { file: String::from("a.wav") },
        two_second_source()).unwrap();

    assert_eq!(slot.descriptor(), fresh.descriptor());
    assert_eq!(slot.register(), fresh.register());
    assert_eq!(slot.play_state(), fresh.play_state());
    assert_eq!(slot.position(), Ok(UnitValue::min_value()));
    assert!(slot.is_filled());
}

#[test]
fn fill_while_playing_swaps_the_source() {
    let mut slot = playing_slot(None, immediately(), 7);
    slot.sync_position(400_000);
    let other = ClipSource { kind: String::from("MIDI"), file_name: None, length_micros: None };
    assert_eq!(slot.fill_with_source(other.clone()), Ok(()));
    assert_eq!(slot.play_state(), ClipPlayState::Playing);
    assert_eq!(slot.register().position_micros, 400_000);
    assert_eq!(slot.register().source, Some(other));
    // A source without length never ends on its own.
    slot.sync_position(i64::MAX);
    assert_eq!(
        slot.poll().event,
        Some(ClipChangedEvent::ClipPositionChanged(UnitValue::min_value()))
    );
}

#[test]
fn load_replaces_everything() {
    let mut slot = playing_slot(None, immediately(), 7);
    let descriptor = SlotDescriptor {
        volume: Volume { micro_gain: 500_000 },
        repeat: true,
        content: Some(SlotContent::File { file: String::from("b.wav") }),
    };
    let outcome = slot.load(descriptor.clone(), Some(two_second_source()));
    assert_eq!(outcome.stop, Some(StopPreview { handle: PreviewHandle(7), track: None }));
    assert_eq!(
        outcome.result,
        Ok(vec![
            ClipChangedEvent::PlayStateChanged(ClipPlayState::Stopped),
            ClipChangedEvent::ClipVolumeChanged(Volume { micro_gain: 500_000 }),
            ClipChangedEvent::ClipRepeatChanged(true),
        ])
    );
    assert_eq!(slot.descriptor(), &descriptor);
    assert_eq!(slot.register().volume, Volume { micro_gain: 500_000 });
    assert!(slot.source_is_loaded());
    // Where the source could not be had, the slot is empty and keeps the descriptor.
    let outcome = slot.load(descriptor.clone(), None);
    assert_eq!(outcome.stop, None);
    assert!(!slot.source_is_loaded());
    assert!(slot.is_filled());
    let outcome = slot.reset();
    assert!(outcome.result.is_ok());
    assert!(!slot.is_filled());
    assert_eq!(slot.volume(), Volume::zero_db());
}

#[test]
fn one_shots_ignore_the_transport() {
    let mut slot = playing_slot(None, next_bar(), 7);
    let stopped = TransportState { is_playing: false, is_paused: false, is_recording: false };
    assert_eq!(
        slot.process_transport_change(stopped),
        SlotStep::Done(Outcome { result: Ok(None), stop: None })
    );
    assert_eq!(slot.play_state(), ClipPlayState::ScheduledForPlay);
}

#[test]
fn synced_loops_follow_the_transport() {
    let mut slot = filled_slot();
    slot.toggle_repeat();
    let request = match slot.play(None, next_bar()) {
        SlotStep::Start(request) => request,
        SlotStep::Done(_) => panic!("expected a request"),
    };
    slot.complete_play(request.args, Some(PreviewHandle(11))).unwrap();
    let playing = TransportState { is_playing: true, is_paused: false, is_recording: false };
    let paused = TransportState { is_playing: false, is_paused: true, is_recording: false };
    let stopped = TransportState { is_playing: false, is_paused: false, is_recording: false };
    assert_eq!(
        slot.process_transport_change(playing),
        SlotStep::Done(Outcome {
            result: Ok(Some(ClipChangedEvent::PlayStateChanged(ClipPlayState::ScheduledForPlay))),
            stop: None
        })
    );
    assert_eq!(
        slot.process_transport_change(stopped),
        SlotStep::Done(Outcome {
            result: Ok(Some(ClipChangedEvent::PlayStateChanged(ClipPlayState::Stopped))),
            stop: Some(StopPreview { handle: PreviewHandle(11), track: None })
        })
    );
    // The transport plays again: the slot asks for a preview with the last arguments.
    let request = match slot.process_transport_change(playing) {
        SlotStep::Start(request) => request,
        SlotStep::Done(_) => panic!("expected a request"),
    };
    assert_eq!(request.args.options, next_bar());
    assert!(request.start.align_with_measure_start);
    slot.complete_play(request.args, Some(PreviewHandle(12))).unwrap();
    assert_eq!(
        slot.process_transport_change(paused),
        SlotStep::Done(Outcome {
            result: Ok(Some(ClipChangedEvent::PlayStateChanged(ClipPlayState::Paused))),
            stop: Some(StopPreview { handle: PreviewHandle(12), track: None })
        })
    );
}

#[test]
fn volume_and_repeat_reach_the_register() {
    let mut slot = ClipSlot::default();
    let volume = Volume { micro_gain: 250_000 };
    assert_eq!(slot.set_volume(volume), ClipChangedEvent::ClipVolumeChanged(volume));
    assert_eq!(slot.volume(), volume);
    assert_eq!(slot.register().volume, volume);
    assert_eq!(slot.volume_changed_event(), ClipChangedEvent::ClipVolumeChanged(volume));
    assert_eq!(slot.toggle_repeat(), ClipChangedEvent::ClipRepeatChanged(true));
    assert!(slot.register().looped);
    assert_eq!(slot.repeat_changed_event(), ClipChangedEvent::ClipRepeatChanged(true));
    assert_eq!(slot.toggle_repeat(), ClipChangedEvent::ClipRepeatChanged(false));
    assert!(!slot.register().looped);
}

#[test]
fn positions_are_proportional_and_clamped() {
    assert_eq!(calculate_proportional_position(500_000, Some(2_000_000)).get(), 250_000_000);
    assert_eq!(calculate_proportional_position(-5, Some(2_000_000)).get(), 0);
    assert_eq!(calculate_proportional_position(3_000_000, Some(2_000_000)).get(), 1_000_000_000);
    assert_eq!(calculate_proportional_position(2_000_000, Some(2_000_000)).get(), 1_000_000_000);
    assert_eq!(calculate_proportional_position(1, Some(3)).get(), 333_333_333);
    assert_eq!(calculate_proportional_position(10, Some(0)).get(), 0);
    assert_eq!(calculate_proportional_position(10, None).get(), 0);
    assert_eq!(calculate_proportional_position(i64::MAX, Some(u64::MAX)).get(), 499_999_999);
}

#[test]
fn seeking_needs_a_source_with_a_length() {
    let mut slot = ClipSlot::default();
    let half = UnitValue::new(500_000_000);
    assert_eq!(slot.position(), Err("no source loaded"));
    assert_eq!(slot.set_position(half), Err("no source loaded"));
    slot.fill_with_source(ClipSource {
        kind: String::from("MIDI"),
        file_name: None,
        length_micros: None,
    })
    .unwrap();
    assert_eq!(slot.set_position(half), Err("source has no length"));
    slot.fill_with_source(two_second_source()).unwrap();
    assert_eq!(slot.set_position(half), Ok(ClipChangedEvent::ClipPositionChanged(half)));
    assert_eq!(slot.register().position_micros, 1_000_000);
    assert_eq!(slot.position(), Ok(half));
}

#[test]
fn feedback_values_follow_the_play_state() {
    assert_eq!(ClipPlayState::Stopped.feedback_value().get(), 0);
    assert_eq!(ClipPlayState::ScheduledForPlay.feedback_value().get(), 250_000_000);
    assert_eq!(ClipPlayState::Paused.feedback_value().get(), 500_000_000);
    assert_eq!(ClipPlayState::ScheduledForStop.feedback_value().get(), 750_000_000);
    assert_eq!(ClipPlayState::Playing.feedback_value().get(), 1_000_000_000);
}

#[test]
fn buffering_follows_next_bar() {
    assert!(!SlotPlayOptions { next_bar: false, buffered: false }.is_effectively_buffered());
    assert!(SlotPlayOptions { next_bar: true, buffered: false }.is_effectively_buffered());
    assert!(SlotPlayOptions { next_bar: false, buffered: true }.is_effectively_buffered());
    assert_eq!(SlotPlayOptions::default(), SlotPlayOptions { next_bar: false, buffered: false });
}

#[test]
fn states_transition_by_value() {
    let mut register = PreviewRegister::new(Volume::zero_db());
    let state = State::Empty.fill_with_source(two_second_source(), &mut register).unwrap();
    assert_eq!(
        state,
        State::Suspended(SuspendedState {
            is_paused: false,
            last_play_args: None,
            was_caused_by_transport_change: false
        })
    );
    let args = ClipPlayArgs { options: next_bar(), track: Some(TrackId(1)), repeat: true };
    let pending = match state.play(&mut register, args) {
        Step::Start(pending) => pending,
        Step::Done(_) => panic!("expected a pending play"),
    };
    assert!(register.looped);
    let state = pending.complete(Some(PreviewHandle(1))).unwrap();
    assert_eq!(
        state,
        State::Playing(PlayingState {
            handle: PreviewHandle(1),
            args,
            scheduled_for: Some(ScheduledFor::Play)
        })
    );
    let transition = state.stop(&mut register, false);
    assert_eq!(transition.stop, None);
    assert!(!register.looped);
    let state = transition.result.unwrap();
    assert_eq!(state.play_state(), ClipPlayState::ScheduledForStop);
    let transition = state.pause();
    assert_eq!(
        transition,
        Transition {
            result: Ok(State::Suspended(SuspendedState {
                is_paused: true,
                last_play_args: Some(args),
                was_caused_by_transport_change: false
            })),
            stop: Some(StopPreview { handle: PreviewHandle(1), track: Some(TrackId(1)) })
        }
    );
    let transition = transition.result.unwrap().clear(&mut register);
    assert_eq!(transition, Transition { result: Ok(State::Empty), stop: None });
    match State::Empty.play(&mut register, args) {
        Step::Done(transition) => {
            assert_eq!(transition.result, Err((State::Empty, "slot is empty")))
        }
        Step::Start(_) => panic!("an empty slot cannot play"),
    }
    let pending = PendingPlay {
        stop: None,
        start: StartPreview { track: None, buffered: false, align_with_measure_start: false },
        suspended: SuspendedState {
            is_paused: true,
            last_play_args: None,
            was_caused_by_transport_change: true,
        },
        args,
    };
    assert_eq!(
        pending.complete(None),
        Err((
            State::Suspended(SuspendedState {
                is_paused: true,
                last_play_args: None,
                was_caused_by_transport_change: true
            }),
            "couldn't play preview"
        ))
    );
}

#[test]
fn tracks_compare_by_number() {
    assert!(same_track(None, None));
    assert!(same_track(Some(TrackId(1)), Some(TrackId(1))));
    assert!(!same_track(Some(TrackId(1)), Some(TrackId(2))));
    assert!(!same_track(None, Some(TrackId(2))));
    assert!(!same_track(Some(TrackId(1)), None));
}

#[test]
fn play_options_default_to_an_immediate_unbuffered_start() {
    let options = SlotPlayOptions::default();
    assert_eq!(options, SlotPlayOptions { next_bar: false, buffered: false });
    assert!(!options.is_effectively_buffered());
}
