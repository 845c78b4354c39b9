use clip_engine::clip_slot::{Outcome, SlotContent, SlotDescriptor, SlotStep};
use clip_engine::column::{
    failure_message, get_slot_mut, get_slot_mut_insert, upsize_if_necessary, Column, ColumnCommand,
    ColumnDescriptor, ColumnEvent, ColumnPoll, SlotRecord, ProjectId,
};
use clip_engine::preview::{ClipSource, PreviewHandle, StopPreview, TrackId, Volume};
use clip_engine::settings::{
    ColumnClipRecordSettings, ColumnPlayMode, ColumnSettings, MatrixSettings, RtColumnSettings,
};
use clip_engine::slot::{FillClipMode, Slot, SlotChangeEvent};
use clip_engine::slot_state::{ClipChangedEvent, ClipPlayState, SlotPlayOptions};
use clip_engine::unit_value::UnitValue;

fn two_second_source() -> ClipSource {
    ClipSource { kind: String::from("WAVE"), file_name: None, length_micros: Some(2_000_000) }
}

fn wav(name: &str) -> SlotContent {
    SlotContent::File { file: String::from(name) }
}

fn immediately() -> SlotPlayOptions {
    SlotPlayOptions { next_bar: false, buffered: false }
}

fn play(column: &mut Column, slot_index: usize, handle: u64) -> ClipChangedEvent {
    match column.play_clip(slot_index, None, immediately()).unwrap() {
        SlotStep::Start(request) => {
            column.complete_play(slot_index, request.args, Some(PreviewHandle(handle))).unwrap()
        }
        SlotStep::Done(outcome) => outcome.result.unwrap(),
    }
}

#[test]
fn column_plays_a_filled_slot_and_reports_its_position() {
    let (mut column, _twin) = Column::new(None);
    assert_eq!(
        column.fill_slot_with_clip(0, wav("a.wav"), two_second_source(), FillClipMode::Add),
        Ok(SlotChangeEvent::Clips("filled slot"))
    );
    assert_eq!(column.slot_count(), 1);
    assert_eq!(play(&mut column, 0, 1), ClipChangedEvent::PlayStateChanged(ClipPlayState::Playing));
    let found = column.poll();
    assert_eq!(
        found.events,
        vec![(0, SlotChangeEvent::Clip(ClipChangedEvent::ClipPositionChanged(UnitValue::min_value())))]
    );
    assert!(found.stops.is_empty());
    assert!(column.is_stoppable());
    assert_eq!(column.playing_clips(), vec![0]);
}

#[test]
fn column_reports_the_stop_at_the_end_once() {
    let (mut column, _twin) = Column::new(None);
    column.fill_slot_with_clip(0, wav("a.wav"), two_second_source(), FillClipMode::Add).unwrap();
    play(&mut column, 0, 1);
    assert_eq!(column.sync_slot_position(0, 2_000_500), Ok(()));
    let found = column.poll();
    assert_eq!(
        found.events,
        vec![(0, SlotChangeEvent::Clip(ClipChangedEvent::PlayStateChanged(ClipPlayState::Stopped)))]
    );
    assert_eq!(found.stops, vec![StopPreview { handle: PreviewHandle(1), track: None }]);
    let found = column.poll();
    assert!(found.events.is_empty());
    assert!(found.stops.is_empty());
    assert!(!column.is_stoppable());
    assert!(column.playing_clips().is_empty());
}

#[test]
fn operations_on_a_missing_slot_fail() {
    let (mut column, _twin) = Column::new(None);
    assert_eq!(column.play_clip(0, None, immediately()), Err("slot doesn't exist"));
    assert_eq!(
        column.stop_clip(3, true),
        Outcome { result: Err("slot doesn't exist"), stop: None }
    );
    assert_eq!(column.pause_clip(3).result, Err("slot doesn't exist"));
    assert_eq!(column.toggle_clip_looped(0), Err("slot doesn't exist"));
    assert_eq!(column.set_clip_volume(0, Volume::zero_db()), Err("slot doesn't exist"));
    assert_eq!(column.seek_clip(0, UnitValue::max_value()), Err("slot doesn't exist"));
    assert_eq!(column.sync_slot_position(0, 1), Err("slot doesn't exist"));
    assert_eq!(column.clip_play_state(0), Err("slot doesn't exist"));
    assert_eq!(column.clip_repeated(0), Err("slot doesn't exist"));
    assert_eq!(column.clip_volume(0), Err("slot doesn't exist"));
    assert_eq!(column.clip_position_micros(0), Err("slot doesn't exist"));
    assert_eq!(column.proportional_clip_position(0), Err("slot doesn't exist"));
    assert!(column.get_slot(0).is_err());
    assert_eq!(column.get_slot(0).err(), Some("slot doesn't exist"));
    assert!(column.find_slot(0).is_none());
    assert!(column.slot_is_empty(0));
    assert_eq!(column.slot_count(), 0);
}

#[test]
fn filling_grows_the_column_and_respects_the_mode() {
    let (mut column, twin) = Column::new(Some(ProjectId(1)));
    column.fill_slot_with_clip(2, wav("a.wav"), two_second_source(), FillClipMode::Add).unwrap();
    assert_eq!(column.slot_count(), 3);
    assert!(column.slot_is_empty(0));
    assert!(column.slot_is_empty(1));
    assert!(!column.slot_is_empty(2));
    for (i, slot) in column.slots().iter().enumerate() {
        assert_eq!(slot.index(), i);
    }
    assert_eq!(
        column.fill_slot_with_clip(2, wav("b.wav"), two_second_source(), FillClipMode::Add),
        Err("slot is not empty")
    );
    assert_eq!(column.get_slot(2).unwrap().descriptor().content, Some(wav("a.wav")));
    assert_eq!(
        column.fill_slot_with_clip(2, wav("b.wav"), two_second_source(), FillClipMode::Replace),
        Ok(SlotChangeEvent::Clips("filled slot"))
    );
    assert_eq!(column.get_slot(2).unwrap().descriptor().content, Some(wav("b.wav")));
    // The twin was told of both clips.
    let mut fills = 0;
    while let Some(command) = twin.next_command() {
        match command {
            ColumnCommand::FillSlot { slot_index, .. } => {
                assert_eq!(slot_index, 2);
                fills += 1;
            }
            other => panic!("unexpected command {:?}", other),
        }
    }
    assert_eq!(fills, 2);
}

#[test]
fn slot_helpers_grow_and_find() {
    let mut slots: Vec<Slot> = Vec::new();
    assert_eq!(get_slot_mut(&mut slots, 0).err(), Some("slot doesn't exist"));
    upsize_if_necessary(&mut slots, 2);
    assert_eq!(slots.len(), 2);
    upsize_if_necessary(&mut slots, 1);
    assert_eq!(slots.len(), 2);
    assert_eq!(get_slot_mut_insert(&mut slots, 4).index(), 4);
    assert_eq!(slots.len(), 5);
    assert_eq!(get_slot_mut(&mut slots, 3).unwrap().index(), 3);
    assert!(slots.iter().all(|slot| slot.is_empty()));
}

#[test]
fn poll_applies_the_events_of_the_twin_in_order() {
    let (mut column, twin) = Column::new(None);
    column.fill_slot_with_clip(1, wav("a.wav"), two_second_source(), FillClipMode::Add).unwrap();
    play(&mut column, 1, 9);
    assert_eq!(twin.emit(ColumnEvent::SlotPlayStateChanged {
        slot_index: 5,
        play_state: ClipPlayState::ScheduledForPlay
    }), Ok(()));
    assert_eq!(twin.emit(ColumnEvent::ClipMaterialInfoChanged {
        slot_index: 1,
        clip_index: 0,
        length_micros: Some(4_000_000)
    }), Ok(()));
    assert_eq!(twin.emit(ColumnEvent::Dispose), Ok(()));
    assert_eq!(twin.emit(ColumnEvent::InteractionFailed { message: String::from("no track") }),
        Ok(()));
    assert_eq!(twin.emit(ColumnEvent::MidiOverdubFinished {
        slot_index: 0,
        mirror_source: ClipSource { kind: String::from("MIDI"), file_name: None,
            length_micros: None }
    }), Ok(()));
    assert_eq!(twin.emit(ColumnEvent::NormalRecordingFinished { slot_index: 7,
        source: two_second_source() }), Ok(()));
    column.sync_slot_position(1, 1_000_000).unwrap();
    let found = column.poll();
    assert_eq!(
        found.events,
        vec![
            (5, SlotChangeEvent::Clip(ClipChangedEvent::PlayStateChanged(ClipPlayState::ScheduledForPlay))),
            (0, SlotChangeEvent::Clips("MIDI overdub finished")),
            // The source is four seconds long now.
            (1, SlotChangeEvent::Clip(ClipChangedEvent::ClipPositionChanged(UnitValue::new(250_000_000)))),
        ]
    );
    assert_eq!(found.failures, vec![String::from("Playtime: Interaction failed (no track)")]);
    assert!(!column.slot_is_empty(0));
    assert_eq!(column.slot_count(), 2);
}

#[test]
fn a_cleared_slot_stops_its_preview() {
    let (mut column, twin) = Column::new(None);
    column.fill_slot_with_clip(0, wav("a.wav"), two_second_source(), FillClipMode::Add).unwrap();
    play(&mut column, 0, 3);
    assert_eq!(twin.emit(ColumnEvent::SlotCleared { slot_index: 0 }), Ok(()));
    assert_eq!(twin.emit(ColumnEvent::SlotCleared { slot_index: 0 }), Ok(()));
    assert_eq!(twin.emit(ColumnEvent::SlotCleared { slot_index: 4 }), Ok(()));
    let found = column.poll();
    assert_eq!(found.events, vec![(0, SlotChangeEvent::Clips("slot cleared"))]);
    assert_eq!(found.stops, vec![StopPreview { handle: PreviewHandle(3), track: None }]);
    assert!(column.slot_is_empty(0));
    assert!(!column.get_slot(0).unwrap().descriptor().is_filled());
}

#[test]
fn events_can_be_applied_one_by_one() {
    let (mut column, _twin) = Column::new(None);
    column.fill_slot_with_clip(0, wav("a.wav"), two_second_source(), FillClipMode::Add).unwrap();
    let mut found = ColumnPoll::new();
    column.apply_event(ColumnEvent::InteractionFailed { message: String::new() }, &mut found);
    column.apply_event(
        ColumnEvent::RecordRequestAcknowledged { slot_index: 0, successful: true },
        &mut found,
    );
    assert!(column.is_recording());
    assert!(column.is_stoppable());
    column.apply_event(
        ColumnEvent::NormalRecordingFinished { slot_index: 0, source: two_second_source() },
        &mut found,
    );
    assert!(!column.is_recording());
    column.poll_slots(&mut found);
    assert_eq!(found.events, vec![(0, SlotChangeEvent::Clips("clip recorded"))]);
    assert_eq!(found.failures, vec![String::from("Playtime: Interaction failed ()")]);
    assert_eq!(failure_message("x"), "Playtime: Interaction failed (x)");
}

#[test]
fn recording_needs_a_playback_track() {
    let (mut column, _twin) = Column::new(None);
    assert_eq!(column.playback_track(), Err("column inactive"));
    assert_eq!(column.record_slot(0), Err("column inactive"));
    assert_eq!(column.effective_recording_track(true), Err("column inactive"));
    column.init_preview_register(None);
    assert_eq!(column.playback_track(), Err("no playback track set"));
    assert_eq!(column.record_slot(0), Err("no playback track set"));
    assert_eq!(column.slot_count(), 0);
    column.init_preview_register(Some(TrackId(5)));
    assert_eq!(column.playback_track(), Ok(TrackId(5)));
    assert_eq!(column.effective_recording_track(false), Ok(TrackId(5)));
    column.set_settings(ColumnSettings {
        clip_record_settings: ColumnClipRecordSettings { track: Some(TrackId(6)) },
    });
    assert_eq!(column.effective_recording_track(true), Ok(TrackId(6)));
    assert_eq!(column.effective_recording_track(false), Err("track not available"));
    assert_eq!(column.record_slot(1), Ok(()));
    assert_eq!(column.slot_count(), 2);
    assert!(column.is_recording());
    assert!(!column.slot_is_empty(1));
    assert_eq!(column.record_slot(1), Err("recording has already been requested"));
}

#[test]
fn settings_go_to_the_twin() {
    let (mut column, twin) = Column::new(None);
    assert!(column.follows_scene());
    column.set_play_mode(ColumnPlayMode::NonExclusiveIgnoringScene);
    assert!(!column.follows_scene());
    assert_eq!(column.sync_settings_to_rt(&MatrixSettings::default()), (Ok(()), Ok(())));
    assert_eq!(column.clear_slot(2), Ok(()));
    assert_eq!(column.play_scene(1), Ok(()));
    assert_eq!(column.play_slot(1, immediately()), Ok(()));
    assert_eq!(column.stop_slot(1, true), Ok(()));
    assert_eq!(column.stop(false), Ok(()));
    assert_eq!(column.pause_slot(3), Ok(()));
    assert_eq!(column.seek_slot(3, UnitValue::max_value()), Ok(()));
    let mut commands = vec![];
    while let Some(command) = twin.next_command() {
        commands.push(command);
    }
    assert_eq!(
        commands,
        vec![
            ColumnCommand::UpdateSettings(RtColumnSettings {
                play_mode: ColumnPlayMode::NonExclusiveIgnoringScene,
                ..RtColumnSettings::default()
            }),
            ColumnCommand::UpdateMatrixSettings(MatrixSettings::default().overridable),
            ColumnCommand::ClearSlot(2),
            ColumnCommand::PlayRow { slot_index: 1 },
            ColumnCommand::PlaySlot { slot_index: 1, options: immediately() },
            ColumnCommand::StopSlot { slot_index: 1, immediately: true },
            ColumnCommand::Stop { immediately: false },
            ColumnCommand::PauseSlot(3),
            ColumnCommand::SeekSlot(3, UnitValue::max_value()),
        ]
    );
}

#[test]
fn commands_are_lost_when_the_channel_is_full() {
    let (column, _twin) = Column::new(None);
    let mut sent = 0;
    for i in 0..600 {
        if column.clear_slot(i).is_ok() {
            sent += 1;
        }
    }
    assert_eq!(sent, 500);
}

#[test]
fn a_poll_takes_no_more_events_than_the_channel_holds() {
    let (mut column, twin) = Column::new(None);
    for _ in 0..500 {
        assert_eq!(twin.emit(ColumnEvent::InteractionFailed { message: String::from("x") }),
            Ok(()));
    }
    // An event that does not go out comes back.
    assert_eq!(twin.emit(ColumnEvent::Dispose), Err(ColumnEvent::Dispose));
    assert_eq!(
        twin.emit(ColumnEvent::SlotCleared { slot_index: 3 }),
        Err(ColumnEvent::SlotCleared { slot_index: 3 })
    );
    let found = column.poll();
    assert_eq!(found.failures.len(), 500);
    assert!(column.poll().failures.is_empty());
}

#[test]
fn clearing_the_slots_gives_the_previews_to_stop() {
    let (mut column, twin) = Column::new(None);
    for i in 0..3 {
        column.fill_slot_with_clip(i, wav("a.wav"), two_second_source(),
            FillClipMode::Add).unwrap();
    }
    play(&mut column, 0, 10);
    play(&mut column, 2, 12);
    while twin.next_command().is_some() {}
    let stops = column.clear_slots();
    assert_eq!(
        stops,
        vec![
            StopPreview { handle: PreviewHandle(10), track: None },
            StopPreview { handle: PreviewHandle(12), track: None }
        ]
    );
    assert_eq!(column.slot_count(), 0);
    assert_eq!(twin.next_command(), Some(ColumnCommand::ClearSlots));
}

#[test]
fn clip_settings_can_be_read_and_changed() {
    let (mut column, twin) = Column::new(None);
    column.fill_slot_with_clip(0, wav("a.wav"), two_second_source(), FillClipMode::Add).unwrap();
    while twin.next_command().is_some() {}
    let volume = Volume { micro_gain: 2_000_000 };
    assert_eq!(column.set_clip_volume(0, volume), Ok(ClipChangedEvent::ClipVolumeChanged(volume)));
    assert_eq!(twin.next_command(), Some(ColumnCommand::SetClipVolume(0, volume)));
    assert_eq!(column.clip_volume(0), Ok(volume));
    assert_eq!(column.toggle_clip_looped(0), Ok(ClipChangedEvent::ClipRepeatChanged(true)));
    assert_eq!(column.clip_repeated(0), Ok(true));
    let quarter = UnitValue::new(250_000_000);
    assert_eq!(column.seek_clip(0, quarter), Ok(ClipChangedEvent::ClipPositionChanged(quarter)));
    assert_eq!(column.clip_position_micros(0), Ok(500_000));
    assert_eq!(column.proportional_clip_position(0), Ok(quarter));
    assert_eq!(column.clip_play_state(0), Ok(ClipPlayState::Stopped));
    play(&mut column, 0, 1);
    assert_eq!(
        column.pause_clip(0),
        Outcome {
            result: Ok(ClipChangedEvent::PlayStateChanged(ClipPlayState::Paused)),
            stop: Some(StopPreview { handle: PreviewHandle(1), track: None })
        }
    );
    assert_eq!(column.clip_play_state(0), Ok(ClipPlayState::Paused));
    play(&mut column, 0, 2);
    assert_eq!(
        column.stop_clip(0, true).stop,
        Some(StopPreview { handle: PreviewHandle(2), track: None })
    );
}

#[test]
fn save_and_load_keep_the_filled_slots() {
    let (mut column, _twin) = Column::new(Some(ProjectId(3)));
    column.init_preview_register(Some(TrackId(8)));
    column.set_play_mode(ColumnPlayMode::NonExclusiveFollowingScene);
    column.fill_slot_with_clip(1, wav("a.wav"), two_second_source(), FillClipMode::Add).unwrap();
    column.fill_slot_with_clip(3, wav("b.wav"), two_second_source(), FillClipMode::Add).unwrap();
    column.toggle_clip_looped(3).unwrap();
    let saved = column.save();
    assert_eq!(saved.track, Some(TrackId(8)));
    assert_eq!(saved.rt_settings.play_mode, ColumnPlayMode::NonExclusiveFollowingScene);
    assert_eq!(saved.slots.len(), 2);
    assert_eq!(saved.slots[0].row, 1);
    assert_eq!(saved.slots[1].row, 3);
    assert!(saved.slots[1].descriptor.repeat);
    assert_eq!(saved.slots[1].source, Some(two_second_source()));

    let (mut other, _other_twin) = Column::new(None);
    other.fill_slot_with_clip(0, wav("c.wav"), two_second_source(), FillClipMode::Add).unwrap();
    play(&mut other, 0, 77);
    let stops = other.load(&saved);
    assert_eq!(stops, vec![StopPreview { handle: PreviewHandle(77), track: None }]);
    assert_eq!(other.slot_count(), 4);
    assert!(other.slot_is_empty(0));
    assert!(!other.slot_is_empty(1));
    assert!(other.slot_is_empty(2));
    assert_eq!(other.get_slot(3).unwrap().descriptor().content, Some(wav("b.wav")));
    assert_eq!(other.clip_repeated(3), Ok(true));
    assert_eq!(other.playback_track(), Ok(TrackId(8)));
    assert!(other.follows_scene());

    // A slot whose source could not be had stays empty and keeps its settings.
    let descriptor = ColumnDescriptor {
        track: None,
        settings: ColumnSettings::default(),
        rt_settings: RtColumnSettings::default(),
        slots: vec![SlotRecord {
            row: 0,
            descriptor: SlotDescriptor {
                volume: Volume::zero_db(),
                repeat: false,
                content: Some(wav("gone.wav")),
            },
            source: None,
        }],
    };
    other.load(&descriptor);
    assert_eq!(other.slot_count(), 1);
    assert!(other.slot_is_empty(0));
    assert!(other.get_slot(0).unwrap().descriptor().is_filled());
    assert_eq!(other.save().slots.len(), 1);
}

#[test]
fn a_duplicate_has_the_settings_and_no_slots() {
    let (mut column, _twin) = Column::new(Some(ProjectId(3)));
    column.init_preview_register(Some(TrackId(8)));
    column.set_play_mode(ColumnPlayMode::ExclusiveIgnoringScene);
    column.fill_slot_with_clip(0, wav("a.wav"), two_second_source(), FillClipMode::Add).unwrap();
    let (duplicate, _duplicate_twin) = column.duplicate_without_contents();
    assert_eq!(duplicate.slot_count(), 0);
    assert_eq!(duplicate.playback_track(), Ok(TrackId(8)));
    assert_eq!(duplicate.rt_settings().play_mode, ColumnPlayMode::ExclusiveIgnoringScene);
    assert_eq!(duplicate.settings(), column.settings());
    assert!(ColumnPlayMode::ExclusiveIgnoringScene.is_exclusive());
    assert!(!ColumnPlayMode::NonExclusiveFollowingScene.is_exclusive());
    assert_eq!(ColumnPlayMode::default(), ColumnPlayMode::ExclusiveFollowingScene);
}

#[test]
fn the_selected_item_replaces_what_a_slot_holds() {
    let (mut column, twin) = Column::new(None);
    column.fill_slot_with_clip(0, wav("a.wav"), two_second_source(), FillClipMode::Add).unwrap();
    play(&mut column, 0, 21);
    while twin.next_command().is_some() {}
    let (event, stop) =
        column.replace_slot_contents_with_selected_item(0, wav("item.wav"), two_second_source());
    assert_eq!(event, SlotChangeEvent::Clips("filled slot"));
    assert_eq!(stop, Some(StopPreview { handle: PreviewHandle(21), track: None }));
    let slot = column.get_slot(0).unwrap();
    assert_eq!(slot.descriptor().content, Some(wav("item.wav")));
    assert!(slot.descriptor().repeat);
    assert_eq!(slot.descriptor().volume, Volume::zero_db());
    assert_eq!(column.clip_play_state(0), Ok(ClipPlayState::Stopped));
    assert!(matches!(
        twin.next_command(),
        Some(ColumnCommand::FillSlot { slot_index: 0, mode: FillClipMode::Replace, .. })
    ));
    let (_, stop) = column.replace_slot_contents_with_selected_item(3, wav("b.wav"),
        two_second_source());
    assert_eq!(stop, None);
    assert_eq!(column.slot_count(), 4);
}

#[test]
fn a_command_that_does_not_go_out_comes_back() {
    let (column, twin) = Column::new(None);
    for i in 0..500 {
        assert_eq!(column.clear_slot(i), Ok(()));
    }
    let half = UnitValue::new(500_000_000);
    assert_eq!(column.clear_slot(7), Err(ColumnCommand::ClearSlot(7)));
    assert_eq!(column.play_scene(8), Err(ColumnCommand::PlayRow { slot_index: 8 }));
    assert_eq!(
        column.play_slot(9, immediately()),
        Err(ColumnCommand::PlaySlot { slot_index: 9, options: immediately() })
    );
    assert_eq!(
        column.stop_slot(10, true),
        Err(ColumnCommand::StopSlot { slot_index: 10, immediately: true })
    );
    assert_eq!(column.stop(false), Err(ColumnCommand::Stop { immediately: false }));
    assert_eq!(column.pause_slot(11), Err(ColumnCommand::PauseSlot(11)));
    assert_eq!(column.seek_slot(12, half), Err(ColumnCommand::SeekSlot(12, half)));
    assert_eq!(
        column.rt_command_sender().send_command(ColumnCommand::ClearSlots),
        Err(ColumnCommand::ClearSlots)
    );
    assert_eq!(
        column.sync_settings_to_rt(&MatrixSettings::default()),
        (
            Err(ColumnCommand::UpdateSettings(RtColumnSettings::default())),
            Err(ColumnCommand::UpdateMatrixSettings(MatrixSettings::default().overridable))
        )
    );
    // With room for one command, the first of the two goes out.
    assert_eq!(twin.next_command(), Some(ColumnCommand::ClearSlot(0)));
    assert_eq!(
        column.sync_settings_to_rt(&MatrixSettings::default()),
        (Ok(()), Err(ColumnCommand::UpdateMatrixSettings(MatrixSettings::default().overridable)))
    );
    // The twin is gone: nothing goes out any more.
    while twin.next_command().is_some() {}
    drop(twin);
    assert_eq!(column.clear_slot(1), Err(ColumnCommand::ClearSlot(1)));
}

#[test]
fn the_sender_of_a_column_sends_to_its_twin() {
    let (column, twin) = Column::new(None);
    assert_eq!(column.rt_command_sender().send_command(ColumnCommand::PauseSlot(4)), Ok(()));
    assert_eq!(twin.next_command(), Some(ColumnCommand::PauseSlot(4)));
    assert_eq!(twin.next_command(), None);
    let (sender, receiver) = crossbeam_channel::bounded(1);
    let command_sender = clip_engine::column::ColumnCommandSender::new(sender);
    assert_eq!(command_sender.send_command(ColumnCommand::ClearSlots), Ok(()));
    assert_eq!(
        command_sender.send_command(ColumnCommand::ClearSlot(2)),
        Err(ColumnCommand::ClearSlot(2))
    );
    assert_eq!(receiver.try_recv(), Ok(ColumnCommand::ClearSlots));
}

#[test]
fn a_play_state_that_the_twin_reports_becomes_the_play_state_of_the_slot() {
    let (mut column, twin) = Column::new(None);
    column.fill_slot_with_clip(0, wav("a.wav"), two_second_source(), FillClipMode::Add).unwrap();
    column.fill_slot_with_clip(1, wav("b.wav"), two_second_source(), FillClipMode::Add).unwrap();
    assert_eq!(column.clip_play_state(0), Ok(ClipPlayState::Stopped));
    assert!(!column.is_stoppable());
    assert!(column.playing_clips().is_empty());
    assert_eq!(
        twin.emit(ColumnEvent::SlotPlayStateChanged {
            slot_index: 1,
            play_state: ClipPlayState::Playing
        }),
        Ok(())
    );
    let found = column.poll();
    // The report first, then the position of the slot that moves on.
    assert_eq!(
        found.events,
        vec![
            (1, SlotChangeEvent::Clip(ClipChangedEvent::PlayStateChanged(ClipPlayState::Playing))),
            (1, SlotChangeEvent::Clip(ClipChangedEvent::ClipPositionChanged(UnitValue::min_value()))),
        ]
    );
    assert!(found.stops.is_empty());
    assert_eq!(column.clip_play_state(0), Ok(ClipPlayState::Stopped));
    assert_eq!(column.clip_play_state(1), Ok(ClipPlayState::Playing));
    assert_eq!(column.clip_play_state(2), Err("slot doesn't exist"));
    assert!(column.get_slot(1).unwrap().is_stoppable());
    assert!(!column.get_slot(0).unwrap().is_stoppable());
    assert!(column.is_stoppable());
    assert_eq!(column.playing_clips(), vec![1]);
    // Without a new report the slot keeps its play state and goes on to
    // report its position.
    column.sync_slot_position(1, 500_000).unwrap();
    let found = column.poll();
    assert_eq!(
        found.events,
        vec![(
            1,
            SlotChangeEvent::Clip(ClipChangedEvent::ClipPositionChanged(UnitValue::new(250_000_000)))
        )]
    );
    assert_eq!(column.clip_play_state(1), Ok(ClipPlayState::Playing));
}

#[test]
fn the_last_report_of_the_twin_counts() {
    let (mut column, twin) = Column::new(None);
    column.fill_slot_with_clip(0, wav("a.wav"), two_second_source(), FillClipMode::Add).unwrap();
    for play_state in [
        ClipPlayState::ScheduledForPlay,
        ClipPlayState::Playing,
        ClipPlayState::ScheduledForStop,
        ClipPlayState::Stopped,
    ] {
        assert_eq!(twin.emit(ColumnEvent::SlotPlayStateChanged { slot_index: 0, play_state }), Ok(()));
    }
    let found = column.poll();
    assert_eq!(
        found.events,
        vec![
            (0, SlotChangeEvent::Clip(ClipChangedEvent::PlayStateChanged(ClipPlayState::ScheduledForPlay))),
            (0, SlotChangeEvent::Clip(ClipChangedEvent::PlayStateChanged(ClipPlayState::Playing))),
            (0, SlotChangeEvent::Clip(ClipChangedEvent::PlayStateChanged(ClipPlayState::ScheduledForStop))),
            (0, SlotChangeEvent::Clip(ClipChangedEvent::PlayStateChanged(ClipPlayState::Stopped))),
        ]
    );
    assert_eq!(column.clip_play_state(0), Ok(ClipPlayState::Stopped));
    assert!(!column.is_stoppable());
    assert!(column.playing_clips().is_empty());
}

#[test]
fn each_reported_play_state_is_mirrored_when_applied() {
    let (mut column, _twin) = Column::new(None);
    column.fill_slot_with_clip(0, wav("a.wav"), two_second_source(), FillClipMode::Add).unwrap();
    let mut found = ColumnPoll::new();
    let expected = [
        (ClipPlayState::ScheduledForPlay, true, false),
        (ClipPlayState::Playing, true, true),
        (ClipPlayState::ScheduledForStop, true, true),
        (ClipPlayState::Paused, false, false),
        (ClipPlayState::Stopped, false, false),
    ];
    for (play_state, as_good_as_playing, advancing) in expected {
        assert_eq!(play_state.is_as_good_as_playing(), as_good_as_playing);
        assert_eq!(play_state.is_advancing(), advancing);
        column.apply_event(ColumnEvent::SlotPlayStateChanged { slot_index: 0, play_state }, &mut found);
        assert_eq!(column.clip_play_state(0), Ok(play_state));
        assert_eq!(column.get_slot(0).unwrap().play_state(), play_state);
        assert_eq!(column.is_stoppable(), as_good_as_playing);
        assert_eq!(column.playing_clips(), if as_good_as_playing { vec![0] } else { vec![] });
        let mut polled = ColumnPoll::new();
        column.poll_slots(&mut polled);
        assert_eq!(polled.events.len(), if advancing { 1 } else { 0 });
    }
    assert_eq!(found.events.len(), 5);
    // A report for a slot that is not there is passed on and changes nothing.
    column.apply_event(
        ColumnEvent::SlotPlayStateChanged { slot_index: 3, play_state: ClipPlayState::Playing },
        &mut found,
    );
    assert_eq!(found.events.len(), 6);
    assert_eq!(column.slot_count(), 1);
    assert_eq!(column.clip_play_state(0), Ok(ClipPlayState::Stopped));
}

#[test]
fn the_play_state_follows_what_is_done_with_the_slot() {
    let (mut column, twin) = Column::new(None);
    column.fill_slot_with_clip(0, wav("a.wav"), two_second_source(), FillClipMode::Add).unwrap();
    assert_eq!(play(&mut column, 0, 1), ClipChangedEvent::PlayStateChanged(ClipPlayState::Playing));
    assert_eq!(column.clip_play_state(0), Ok(ClipPlayState::Playing));
    assert_eq!(
        twin.emit(ColumnEvent::SlotPlayStateChanged {
            slot_index: 0,
            play_state: ClipPlayState::ScheduledForStop
        }),
        Ok(())
    );
    column.poll();
    assert_eq!(column.clip_play_state(0), Ok(ClipPlayState::ScheduledForStop));
    // The end of the source stops the slot, and the play state with it.
    column.sync_slot_position(0, 2_000_000).unwrap();
    let found = column.poll();
    assert_eq!(
        found.events,
        vec![(0, SlotChangeEvent::Clip(ClipChangedEvent::PlayStateChanged(ClipPlayState::Stopped)))]
    );
    assert_eq!(column.clip_play_state(0), Ok(ClipPlayState::Stopped));
    assert!(!column.is_stoppable());
    // A cleared slot is stopped, whatever was reported of it.
    assert_eq!(
        twin.emit(ColumnEvent::SlotPlayStateChanged { slot_index: 0, play_state: ClipPlayState::Playing }),
        Ok(())
    );
    assert_eq!(twin.emit(ColumnEvent::SlotCleared { slot_index: 0 }), Ok(()));
    let found = column.poll();
    assert_eq!(found.events.len(), 2);
    assert_eq!(column.clip_play_state(0), Ok(ClipPlayState::Stopped));
}

#[test]
fn a_slot_mirrors_the_play_state_it_is_told() {
    let mut slot = Slot::new(2);
    assert_eq!(slot.play_state(), ClipPlayState::Stopped);
    assert!(!slot.is_stoppable());
    slot.update_play_state(ClipPlayState::ScheduledForPlay);
    assert_eq!(slot.play_state(), ClipPlayState::ScheduledForPlay);
    assert!(slot.is_stoppable());
    // Not moving on yet: nothing to report.
    assert_eq!(slot.poll().event, None);
    slot.update_play_state(ClipPlayState::Playing);
    assert_eq!(
        slot.poll().event,
        Some(ClipChangedEvent::ClipPositionChanged(UnitValue::min_value()))
    );
    assert_eq!(slot.play_state(), ClipPlayState::Playing);
    assert_eq!(slot.index(), 2);
    slot.update_play_state(ClipPlayState::Paused);
    assert_eq!(slot.play_state(), ClipPlayState::Paused);
    assert!(!slot.is_stoppable());
    assert_eq!(slot.poll().event, None);
}
