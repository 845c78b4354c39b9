//! A column: the slots that share one track, the column's settings, and the
//! ends of the channels to its real-time twin. Commands go to the twin and
//! are not waited for; what the twin reports comes back as events, which
//! polling applies to the slots.
use crate::channel::{bounded, try_receive, try_send};
use crate::clip_slot::{Outcome, SlotContent, SlotDescriptor, SlotStep};
use crate::preview::{ClipSource, PreviewHandle, StopPreview, TrackId, Volume};
use crate::settings::{
    ColumnPlayMode, ColumnSettings, MatrixSettings, OverridableMatrixSettings, RtColumnSettings,
};
use crate::slot::{FillClipMode, Slot, SlotChangeEvent, SlotView};
use crate::slot_state::{ClipChangedEvent, ClipPlayArgs, ClipPlayState, SlotPlayOptions};
use crate::unit_value::UnitValue;
use vstd::prelude::*;

verus! {

/// How many messages the channels between a column and its twin hold, and
/// how many events one poll takes at most.
pub const COLUMN_CHANNEL_CAPACITY: usize = 500;

pub const SLOT_DOESNT_EXIST: &'static str = "slot doesn't exist";

/// A project of the host.
#[derive(Copy, Clone, PartialEq, Eq, Debug)]
pub struct ProjectId(pub u64);

/// What a column asks of its real-time twin.
#[derive(Clone, PartialEq, Eq, Debug)]
pub enum ColumnCommand {
    ClearSlots,
    ClearSlot(usize),
    UpdateSettings(RtColumnSettings),
    UpdateMatrixSettings(OverridableMatrixSettings),
    FillSlot { slot_index: usize, source: ClipSource, mode: FillClipMode },
    PlaySlot { slot_index: usize, options: SlotPlayOptions },
    PlayRow { slot_index: usize },
    StopSlot { slot_index: usize, immediately: bool },
    Stop { immediately: bool },
    PauseSlot(usize),
    SeekSlot(usize, UnitValue),
    SetClipVolume(usize, Volume),
}

/// What the real-time twin of a column reports.
#[derive(Clone, PartialEq, Eq, Debug)]
pub enum ColumnEvent {
    SlotPlayStateChanged { slot_index: usize, play_state: ClipPlayState },
    ClipMaterialInfoChanged { slot_index: usize, clip_index: usize, length_micros: Option<u64> },
    /// Something that the twin no longer needs and must not free itself.
    Dispose,
    RecordRequestAcknowledged { slot_index: usize, successful: bool },
    MidiOverdubFinished { slot_index: usize, mirror_source: ClipSource },
    NormalRecordingFinished { slot_index: usize, source: ClipSource },
    InteractionFailed { message: String },
    SlotCleared { slot_index: usize },
}

/// The sending end of the channel for commands to a column's twin.
pub struct ColumnCommandSender {
    command_sender: crossbeam_channel::Sender<ColumnCommand>,
}

impl ColumnCommandSender {
    /// A sender that sends into the given channel.
    pub fn new(command_sender: crossbeam_channel::Sender<ColumnCommand>) -> (sender: Self)
        ensures
            sender.channel() == command_sender,
    {
        ColumnCommandSender { command_sender }
    }

    /// Sends the command without waiting. Where the channel is full or the
    /// twin is gone, the command does not go out and comes back.
    pub fn send_command(&self, command: ColumnCommand) -> (outcome: Result<(), ColumnCommand>)
        ensures
            outcome matches Err(returned) ==> returned == command,
    {
        try_send(&self.command_sender, command)
    }

    /// The channel that the sender sends into.
    pub closed spec fn channel(&self) -> crossbeam_channel::Sender<ColumnCommand> {
        self.command_sender
    }
}

/// The ends of a column's channels that its real-time twin holds.
pub struct ColumnTwin {
    command_receiver: crossbeam_channel::Receiver<ColumnCommand>,
    event_sender: crossbeam_channel::Sender<ColumnEvent>,
}

impl ColumnTwin {
    /// The next command of the column, if one has come.
    pub fn next_command(&self) -> (command: Option<ColumnCommand>) {
        try_receive(&self.command_receiver)
    }

    /// Reports an event to the column. Where the channel is full or the
    /// column is gone, the event does not go out and comes back.
    pub fn emit(&self, event: ColumnEvent) -> (outcome: Result<(), ColumnEvent>)
        ensures
            outcome matches Err(returned) ==> returned == event,
    {
        try_send(&self.event_sender, event)
    }
}

/// What the slots are, as contracts speak of them.
pub open spec fn slot_views(slots: Seq<Slot>) -> Seq<SlotView> {
    Seq::new(slots.len(), |i: int| slots[i]@)
}

/// Every slot is in a state that can be seen and knows its place.
pub open spec fn slots_in_order(slots: Seq<SlotView>) -> bool {
    forall|i: int| 0 <= i < slots.len()
        ==> (#[trigger] slots[i]).well_formed() && slots[i].index == i
}

/// The slots with as many empty ones behind them as it takes to make
/// `row_count`.
pub open spec fn upsized(slots: Seq<SlotView>, row_count: nat) -> Seq<SlotView> {
    if slots.len() < row_count {
        Seq::new(
            row_count,
            |i: int|
                if i < slots.len() {
                    slots[i]
                } else {
                    SlotView::initial(i as usize)
                },
        )
    } else {
        slots
    }
}

/// The slot at `index`, if there is one.
pub fn get_slot_mut(slots: &mut Vec<Slot>, index: usize) -> (slot: Result<&mut Slot, &'static str>)
    ensures
        index >= old(slots)@.len()
            ==> slot is Err && slot->Err_0 == SLOT_DOESNT_EXIST && final(slots)@ == old(slots)@,
        index < old(slots)@.len() ==> slot is Ok && *slot->Ok_0 == old(slots)@[index as int]
            && final(slots)@ == old(slots)@.update(index as int, *final(slot->Ok_0)),
{
    if index < slots.len() {
        Ok(&mut slots[index])
    } else {
        Err(SLOT_DOESNT_EXIST)
    }
}

/// Adds empty slots until there are `row_count` of them.
pub fn upsize_if_necessary(slots: &mut Vec<Slot>, row_count: usize)
    ensures
        slot_views(final(slots)@) == upsized(slot_views(old(slots)@), row_count as nat),
        final(slots)@.len() >= row_count,
        final(slots)@.len() >= old(slots)@.len(),
        forall|i: int| 0 <= i < old(slots)@.len() ==> final(slots)@[i] == old(slots)@[i],
{
    let mut current_row_count = slots.len();
    while current_row_count < row_count
        invariant
            current_row_count == slots@.len(),
            old(slots)@.len() <= slots@.len(),
            slots@.len() <= row_count || slots@.len() == old(slots)@.len(),
            forall|i: int| 0 <= i < old(slots)@.len() ==> slots@[i] == old(slots)@[i],
            forall|i: int|
                old(slots)@.len() <= i < slots@.len() ==> (#[trigger] slots@[i])@
                    == SlotView::initial(i as usize),
        decreases row_count - current_row_count,
    {
        slots.push(Slot::new(current_row_count));
        current_row_count += 1;
    }
    assert(slot_views(slots@) =~= upsized(slot_views(old(slots)@), row_count as nat));
}

/// The slot at `slot_index`, after empty slots have been added as far as it
/// takes to have one there.
pub fn get_slot_mut_insert(slots: &mut Vec<Slot>, slot_index: usize) -> (slot: &mut Slot)
    requires
        slot_index < usize::MAX,
    ensures
        slot@ == upsized(slot_views(old(slots)@), (slot_index + 1) as nat)[slot_index as int],
        final(slots)@.len() == upsized(slot_views(old(slots)@), (slot_index + 1) as nat).len(),
        forall|i: int|
            0 <= i < final(slots)@.len() && i != slot_index ==> (#[trigger] final(slots)@[i])@
                == upsized(slot_views(old(slots)@), (slot_index + 1) as nat)[i],
        final(slots)@[slot_index as int] == *final(slot),
{
    upsize_if_necessary(slots, slot_index + 1);
    let ghost grown = slots@;
    assert(slot_views(grown)[slot_index as int] == grown[slot_index as int]@);
    assert forall|i: int| 0 <= i < grown.len() implies (#[trigger] grown[i])@ == slot_views(
        grown,
    )[i] by {}
    &mut slots[slot_index]
}

/// The message that tells a user of an interaction that failed.
pub open spec fn failure_text(message: Seq<char>) -> Seq<char> {
    "Playtime: Interaction failed ("@ + message + ")"@
}

/// The message that tells a user of an interaction that failed.
pub fn failure_message(message: &str) -> (text: String)
    ensures
        text@ == failure_text(message@),
{
    String::from_str("Playtime: Interaction failed (").concat(message).concat(")")
}

/// What the strings say.
pub open spec fn texts(strings: Seq<String>) -> Seq<Seq<char>> {
    Seq::new(strings.len(), |i: int| strings[i]@)
}

/// What a poll has found so far, and the slots as it leaves them.
pub struct Drained {
    pub slots: Seq<SlotView>,
    /// What has changed, each change with the place of its slot.
    pub events: Seq<(usize, SlotChangeEvent)>,
    /// The previews that the host has to stop.
    pub stops: Seq<StopPreview>,
    /// The messages for the user about interactions that failed.
    pub failures: Seq<Seq<char>>,
}

/// A sequence with one more element, if there is one.
pub open spec fn with<T>(items: Seq<T>, item: Option<T>) -> Seq<T> {
    match item {
        Some(item) => items.push(item),
        None => items,
    }
}

impl Drained {
    /// Nothing found yet.
    pub open spec fn start(slots: Seq<SlotView>) -> Self {
        Drained { slots, events: Seq::empty(), stops: Seq::empty(), failures: Seq::empty() }
    }

    /// What one event of the real-time twin does. An event for a slot that
    /// is not there changes no slot. A play state that the twin reports
    /// becomes the play state of its slot, and is passed on in any case.
    pub open spec fn after_event(self, event: ColumnEvent) -> Self {
        match event {
            ColumnEvent::SlotPlayStateChanged { slot_index, play_state } => Drained {
                slots: if slot_index < self.slots.len() {
                    self.slots.update(
                        slot_index as int,
                        self.slots[slot_index as int].after_play_state_reported(play_state),
                    )
                } else {
                    self.slots
                },
                events: self.events.push(
                    (
                        slot_index,
                        SlotChangeEvent::Clip(ClipChangedEvent::PlayStateChanged(play_state)),
                    ),
                ),
                ..self
            },
            ColumnEvent::ClipMaterialInfoChanged { slot_index, clip_index, length_micros } => {
                if slot_index < self.slots.len() {
                    Drained {
                        slots: self.slots.update(
                            slot_index as int,
                            self.slots[slot_index as int].after_material_info(length_micros),
                        ),
                        ..self
                    }
                } else {
                    self
                }
            },
            ColumnEvent::Dispose => self,
            ColumnEvent::RecordRequestAcknowledged { slot_index, successful } => {
                if slot_index < self.slots.len() {
                    Drained {
                        slots: self.slots.update(
                            slot_index as int,
                            self.slots[slot_index as int].after_recording_acknowledged(successful),
                        ),
                        ..self
                    }
                } else {
                    self
                }
            },
            ColumnEvent::MidiOverdubFinished { slot_index, mirror_source } => {
                if slot_index < self.slots.len() {
                    Drained {
                        slots: self.slots.update(
                            slot_index as int,
                            self.slots[slot_index as int].after_recording_finished(mirror_source),
                        ),
                        events: self.events.push(
                            (slot_index, SlotChangeEvent::Clips("MIDI overdub finished")),
                        ),
                        ..self
                    }
                } else {
                    self
                }
            },
            ColumnEvent::NormalRecordingFinished { slot_index, source } => {
                if slot_index < self.slots.len() {
                    Drained {
                        slots: self.slots.update(
                            slot_index as int,
                            self.slots[slot_index as int].after_recording_finished(source),
                        ),
                        events: self.events.push(
                            (slot_index, SlotChangeEvent::Clips("clip recorded")),
                        ),
                        ..self
                    }
                } else {
                    self
                }
            },
            ColumnEvent::InteractionFailed { message } => Drained {
                failures: self.failures.push(failure_text(message@)),
                ..self
            },
            ColumnEvent::SlotCleared { slot_index } => {
                if slot_index < self.slots.len() {
                    let (slot, event, stop) = self.slots[slot_index as int].after_cleared();
                    Drained {
                        slots: self.slots.update(slot_index as int, slot),
                        events: match event {
                            Some(event) => self.events.push((slot_index, event)),
                            None => self.events,
                        },
                        stops: with(self.stops, stop),
                        ..self
                    }
                } else {
                    self
                }
            },
        }
    }

    /// What the events do, one after the other.
    pub open spec fn after_events(self, events: Seq<ColumnEvent>) -> Self
        decreases events.len(),
    {
        if events.len() == 0 {
            self
        } else {
            self.after_events(events.drop_last()).after_event(events.last())
        }
    }

    /// What a look at the slot at `index` does: a slot that the host plays
    /// reports its position, or that it has started or stopped.
    pub open spec fn after_slot_poll(self, index: int) -> Self {
        let (slot, event, stop) = self.slots[index].after_poll();
        Drained {
            slots: self.slots.update(index, slot),
            events: match event {
                Some(event) => self.events.push((index as usize, SlotChangeEvent::Clip(event))),
                None => self.events,
            },
            stops: with(self.stops, stop),
            ..self
        }
    }

    /// What a look at the first `count` slots does, one after the other.
    pub open spec fn after_slot_polls(self, count: nat) -> Self
        decreases count,
    {
        if count == 0 {
            self
        } else {
            self.after_slot_polls((count - 1) as nat).after_slot_poll(count - 1)
        }
    }
}

/// Whether a poll of a column may have found this: it has, where the
/// real-time twin had reported some events, no more of them than the channel
/// holds.
pub open spec fn polled(before: ColumnView, drained: Drained) -> bool {
    exists|received: Seq<ColumnEvent>|
        received.len() <= COLUMN_CHANNEL_CAPACITY && drained == #[trigger] Drained::start(
            before.slots,
        ).after_events(received).after_slot_polls(before.slots.len())
}

/// What a poll has found.
#[derive(Debug)]
pub struct ColumnPoll {
    /// What has changed, each change with the place of its slot.
    pub events: Vec<(usize, SlotChangeEvent)>,
    /// The previews that the host has to stop.
    pub stops: Vec<StopPreview>,
    /// The messages for the user about interactions that failed.
    pub failures: Vec<String>,
}

impl ColumnPoll {
    /// What was found, together with the slots as they were left.
    pub open spec fn with_slots(&self, slots: Seq<SlotView>) -> Drained {
        Drained {
            slots,
            events: self.events@,
            stops: self.stops@,
            failures: texts(self.failures@),
        }
    }

    pub fn new() -> (poll: Self)
        ensures
            forall|slots: Seq<SlotView>| #[trigger] poll.with_slots(slots) == Drained::start(slots),
    {
        let poll = ColumnPoll { events: Vec::new(), stops: Vec::new(), failures: Vec::new() };
        assert(texts(poll.failures@) =~= Seq::empty());
        assert(poll.events@ =~= Seq::empty());
        assert(poll.stops@ =~= Seq::empty());
        poll
    }

    fn note_event(&mut self, slot_index: usize, event: Option<SlotChangeEvent>)
        ensures
            final(self).stops == old(self).stops,
            final(self).failures == old(self).failures,
            final(self).events@ == match event {
                Some(event) => old(self).events@.push((slot_index, event)),
                None => old(self).events@,
            },
    {
        match event {
            Some(event) => {
                self.events.push((slot_index, event));
            },
            None => {},
        }
    }

    fn note_stop(&mut self, stop: Option<StopPreview>)
        ensures
            final(self).events == old(self).events,
            final(self).failures == old(self).failures,
            final(self).stops@ == with(old(self).stops@, stop),
    {
        match stop {
            Some(stop) => {
                self.stops.push(stop);
            },
            None => {},
        }
    }
}

/// A column.
pub struct Column {
    settings: ColumnSettings,
    rt_settings: RtColumnSettings,
    rt_command_sender: ColumnCommandSender,
    /// Whether the column is active, and the track that it plays through.
    playback: Option<Option<TrackId>>,
    slots: Vec<Slot>,
    event_receiver: crossbeam_channel::Receiver<ColumnEvent>,
    project: Option<ProjectId>,
}

/// What a column is, as contracts speak of it.
pub struct ColumnView {
    pub settings: ColumnSettings,
    pub rt_settings: RtColumnSettings,
    pub playback: Option<Option<TrackId>>,
    pub slots: Seq<SlotView>,
    pub project: Option<ProjectId>,
}

impl ColumnView {
    /// The column as it is made: inactive, with no slots.
    pub open spec fn initial(project: Option<ProjectId>) -> Self {
        ColumnView {
            settings: ColumnSettings::initial(),
            rt_settings: RtColumnSettings::initial(),
            playback: None,
            slots: Seq::empty(),
            project,
        }
    }

    pub open spec fn well_formed(self) -> bool {
        slots_in_order(self.slots)
    }

    /// The track that the column plays through, which an active column with
    /// a track has.
    pub open spec fn playback_track(self) -> Result<TrackId, &'static str> {
        match self.playback {
            None => Err("column inactive"),
            Some(None) => Err("no playback track set"),
            Some(Some(track)) => Ok(track),
        }
    }

    /// Whether one of the slots plays or records.
    pub open spec fn stoppable(self) -> bool {
        exists|i: int| 0 <= i < self.slots.len() && (#[trigger] self.slots[i]).stoppable()
    }

    /// Whether one of the slots records.
    pub open spec fn recording(self) -> bool {
        exists|i: int| 0 <= i < self.slots.len() && !((#[trigger] self.slots[i]).recording is Idle)
    }

    /// The previews of the first `count` slots that the host plays.
    pub open spec fn playing_previews(self, count: nat) -> Seq<StopPreview>
        decreases count,
    {
        if count == 0 {
            Seq::empty()
        } else {
            with(
                self.playing_previews((count - 1) as nat),
                self.slots[count - 1].state.after_clear(self.slots[count - 1].register).0.stop,
            )
        }
    }

    /// The column with the slot at `index` replaced.
    pub open spec fn with_slot(self, index: int, slot: SlotView) -> Self {
        ColumnView { slots: self.slots.update(index, slot), ..self }
    }

    /// The column after the slot at `slot_index` has got the content of an
    /// item of the host in place of what it held: a clip that repeats, at zero
    /// decibels. Slots are added as far as it takes to have one there.
    pub open spec fn after_replace(self, slot_index: usize, content: SlotContent,
        source: ClipSource) -> Self {
        let slots = upsized(self.slots, (slot_index + 1) as nat);
        ColumnView {
            slots: slots.update(
                slot_index as int,
                slots[slot_index as int].after_load(
                    SlotDescriptor {
                        volume: Volume { micro_gain: crate::preview::ZERO_DB_MICRO_GAIN },
                        repeat: true,
                        content: Some(content),
                    },
                    Some(source),
                ),
            ),
            ..self
        }
    }

    /// The column after a recording into the slot at `slot_index` was to be
    /// requested, and whether it was: it is where the column has a track to
    /// play through and the slot does not record yet. Slots are added as far
    /// as it takes to have one there.
    pub open spec fn after_record(self, slot_index: usize) -> (Self, Result<(), &'static str>) {
        match self.playback_track() {
            Err(reason) => (self, Err(reason)),
            Ok(_) => {
                let grown = upsized(self.slots, (slot_index + 1) as nat);
                if grown[slot_index as int].recording is Idle {
                    (
                        ColumnView {
                            slots: grown.update(
                                slot_index as int,
                                SlotView {
                                    recording: crate::slot::SlotRecordState::Requested,
                                    ..grown[slot_index as int]
                                },
                            ),
                            ..self
                        },
                        Ok(()),
                    )
                } else {
                    (
                        ColumnView { slots: grown, ..self },
                        Err("recording has already been requested"),
                    )
                }
            },
        }
    }

    /// The column after a clip was to be put into the slot at `slot_index`,
    /// and whether it was. Slots are added as far as it takes to have one
    /// there. A slot that is not empty takes a clip only in place of its own.
    pub open spec fn after_fill(
        self,
        slot_index: usize,
        content: SlotContent,
        source: ClipSource,
        mode: FillClipMode,
    ) -> (Self, Result<SlotChangeEvent, &'static str>) {
        let slots = upsized(self.slots, (slot_index + 1) as nat);
        if !slots[slot_index as int].empty() && mode == FillClipMode::Add {
            (ColumnView { slots, ..self }, Err("slot is not empty"))
        } else {
            (
                ColumnView {
                    slots: slots.update(
                        slot_index as int,
                        slots[slot_index as int].after_fill(content, source),
                    ),
                    ..self
                },
                Ok(SlotChangeEvent::Clips("filled slot")),
            )
        }
    }
}

impl View for Column {
    type V = ColumnView;

    closed spec fn view(&self) -> ColumnView {
        ColumnView {
            settings: self.settings,
            rt_settings: self.rt_settings,
            playback: self.playback,
            slots: slot_views(self.slots@),
            project: self.project,
        }
    }
}

impl Column {
    /// Every slot is in a state that can be seen and knows its place.
    pub open spec fn well_formed(&self) -> bool {
        self@.well_formed()
    }

    /// A column without slots, and the ends of its channels for its
    /// real-time twin.
    pub fn new(permanent_project: Option<ProjectId>) -> (made: (Column, ColumnTwin))
        ensures
            made.0@ == ColumnView::initial(permanent_project),
            made.0.well_formed(),
    {
        let (command_sender, command_receiver) = bounded::<ColumnCommand>(COLUMN_CHANNEL_CAPACITY);
        let (event_sender, event_receiver) = bounded::<ColumnEvent>(COLUMN_CHANNEL_CAPACITY);
        let column = Column {
            settings: ColumnSettings::default(),
            rt_settings: RtColumnSettings::default(),
            rt_command_sender: ColumnCommandSender::new(command_sender),
            playback: None,
            slots: Vec::new(),
            event_receiver,
            project: permanent_project,
        };
        assert(column@.slots =~= Seq::empty());
        (column, ColumnTwin { command_receiver, event_sender })
    }

    pub fn set_play_mode(&mut self, play_mode: ColumnPlayMode)
        ensures
            final(self)@ == (ColumnView {
                rt_settings: RtColumnSettings { play_mode, ..old(self)@.rt_settings },
                ..old(self)@
            }),
    {
        self.rt_settings.play_mode = play_mode;
    }

    /// Sets what the column's real-time twin plays by.
    pub fn set_rt_settings(&mut self, rt_settings: RtColumnSettings)
        ensures
            final(self)@ == (ColumnView { rt_settings, ..old(self)@ }),
    {
        self.rt_settings = rt_settings;
    }

    /// Sets what stays on the main thread.
    pub fn set_settings(&mut self, settings: ColumnSettings)
        ensures
            final(self)@ == (ColumnView { settings, ..old(self)@ }),
    {
        self.settings = settings;
    }

    pub fn settings(&self) -> (settings: ColumnSettings)
        ensures
            settings == self@.settings,
    {
        self.settings
    }

    pub fn rt_settings(&self) -> (settings: RtColumnSettings)
        ensures
            settings == self@.rt_settings,
    {
        self.rt_settings
    }

    /// A column with the settings and the track of this one, without its
    /// slots, and the ends of its channels for its real-time twin.
    pub fn duplicate_without_contents(&self) -> (made: (Column, ColumnTwin))
        ensures
            made.0@ == (ColumnView { slots: Seq::empty(), ..self@ }),
            made.0.well_formed(),
    {
        let (mut duplicate, twin) = Column::new(self.project);
        duplicate.settings = self.settings;
        duplicate.rt_settings = self.rt_settings;
        duplicate.playback = self.playback;
        assert(duplicate@.slots =~= Seq::empty());
        (duplicate, twin)
    }

    /// Returns the sender for commands to the real-time twin.
    pub fn rt_command_sender(&self) -> (sender: &ColumnCommandSender)
        ensures
            *sender == self.command_sender(),
    {
        &self.rt_command_sender
    }

    /// The column's sender for commands to the real-time twin, as contracts
    /// speak of it.
    pub closed spec fn command_sender(&self) -> ColumnCommandSender {
        self.rt_command_sender
    }

    /// Makes the column active, with the track that it plays through.
    pub fn init_preview_register(&mut self, track: Option<TrackId>)
        ensures
            final(self)@ == (ColumnView { playback: Some(track), ..old(self)@ }),
    {
        self.playback = Some(track);
    }

    /// Sends the column's settings and then those of the matrix that a
    /// column can set for itself to the real-time twin. A command that does
    /// not go out comes back: first that for the column's settings, second
    /// that for the matrix's.
    pub fn sync_settings_to_rt(&self, matrix_settings: &MatrixSettings) -> (outcome: (
        Result<(), ColumnCommand>,
        Result<(), ColumnCommand>,
    ))
        ensures
            outcome.0 matches Err(returned) ==> returned == ColumnCommand::UpdateSettings(
                self@.rt_settings,
            ),
            outcome.1 matches Err(returned) ==> returned == ColumnCommand::UpdateMatrixSettings(
                matrix_settings.overridable,
            ),
    {
        let first = self.rt_command_sender.send_command(
            ColumnCommand::UpdateSettings(self.rt_settings),
        );
        let second = self.rt_command_sender.send_command(
            ColumnCommand::UpdateMatrixSettings(matrix_settings.overridable),
        );
        (first, second)
    }

    /// The places of the slots whose clips play or are about to, by their
    /// play states, in rising order.
    pub fn playing_clips(&self) -> (places: Vec<usize>)
        ensures
            forall|i: int|
                0 <= i < places@.len() ==> places@[i] < self@.slots.len() && (
                #[trigger] self@.slots[places@[i] as int]).play_state.as_good_as_playing(),
            forall|j: int|
                0 <= j < self@.slots.len() && (
                #[trigger] self@.slots[j]).play_state.as_good_as_playing() ==> places@.contains(
                    j as usize,
                ),
            forall|a: int, b: int|
                0 <= a < b < places@.len() ==> (#[trigger] places@[a]) < (#[trigger] places@[b]),
    {
        let mut places: Vec<usize> = Vec::new();
        let mut i: usize = 0;
        while i < self.slots.len()
            invariant
                i <= self.slots@.len(),
                forall|k: int| 0 <= k < places@.len() ==> (#[trigger] places@[k]) < i,
                forall|k: int|
                    0 <= k < places@.len() ==> (
                    #[trigger] self@.slots[places@[k] as int]).play_state.as_good_as_playing(),
                forall|j: int|
                    0 <= j < i && (#[trigger] self@.slots[j]).play_state.as_good_as_playing()
                        ==> places@.contains(j as usize),
                forall|a: int, b: int|
                    0 <= a < b < places@.len() ==> (#[trigger] places@[a]) < (
                    #[trigger] places@[b]),
            decreases self.slots@.len() - i,
        {
            let slot = &self.slots[i];
            assert(self@.slots[i as int] == slot@);
            if slot.play_state().is_as_good_as_playing() {
                let ghost before = places@;
                places.push(i);
                assert(places@[before.len() as int] == i);
                assert forall|a: int, b: int| 0 <= a < b < places@.len() implies (
                #[trigger] places@[a]) < (#[trigger] places@[b]) by {
                    if b < before.len() {
                        assert(places@[a] == before[a] && places@[b] == before[b]);
                    } else {
                        assert(places@[a] == before[a]);
                    }
                }
                assert forall|j: int|
                    0 <= j < i + 1 && (
                    #[trigger] self@.slots[j]).play_state.as_good_as_playing()
                implies places@.contains(j as usize) by {
                    if j < i {
                        let k = choose|k: int| 0 <= k < before.len() && before[k] == j as usize;
                        assert(places@[k] == j as usize);
                    }
                }
            }
            i += 1;
        }
        places
    }

    /// Removes all slots, tells the real-time twin to do the same, and gives
    /// the previews that the host has to stop.
    pub fn clear_slots(&mut self) -> (stops: Vec<StopPreview>)
        ensures
            final(self)@ == (ColumnView { slots: Seq::empty(), ..old(self)@ }),
            stops@ == old(self)@.playing_previews(old(self)@.slots.len()),
    {
        let mut stops: Vec<StopPreview> = Vec::new();
        let mut i: usize = 0;
        while i < self.slots.len()
            invariant
                i <= self.slots@.len(),
                *self == *old(self),
                stops@ == self@.playing_previews(i as nat),
            decreases self.slots@.len() - i,
        {
            assert(self@.slots[i as int] == self.slots@[i as int]@);
            match self.slots[i].playing_preview() {
                Some(stop) => {
                    stops.push(stop);
                },
                None => {},
            }
            i += 1;
        }
        self.slots.clear();
        let _ = self.rt_command_sender.send_command(ColumnCommand::ClearSlots);
        assert(self@.slots =~= Seq::empty());
        stops
    }

    pub fn find_slot(&self, index: usize) -> (slot: Option<&Slot>)
        ensures
            index < self@.slots.len()
                ==> slot is Some && slot->Some_0@ == self@.slots[index as int],
            index >= self@.slots.len() ==> slot is None,
    {
        if index < self.slots.len() {
            Some(&self.slots[index])
        } else {
            None
        }
    }

    pub fn get_slot(&self, index: usize) -> (slot: Result<&Slot, &'static str>)
        ensures
            index < self@.slots.len() ==> slot is Ok && slot->Ok_0@ == self@.slots[index as int],
            index >= self@.slots.len() ==> slot is Err && slot->Err_0 == SLOT_DOESNT_EXIST,
    {
        if index < self.slots.len() {
            Ok(&self.slots[index])
        } else {
            Err(SLOT_DOESNT_EXIST)
        }
    }

    /// Returns whether the slot at the given index is empty. A slot that is
    /// not there is.
    pub fn slot_is_empty(&self, index: usize) -> (empty: bool)
        ensures
            empty == (index >= self@.slots.len() || self@.slots[index as int].empty()),
    {
        if index < self.slots.len() {
            self.slots[index].is_empty()
        } else {
            true
        }
    }

    /// Returns the actual number of slots in this column.
    pub fn slot_count(&self) -> (count: usize)
        ensures
            count == self@.slots.len(),
    {
        self.slots.len()
    }

    pub fn slots(&self) -> (slots: &Vec<Slot>)
        ensures
            slot_views(slots@) == self@.slots,
    {
        &self.slots
    }

    /// Returns whether some slots in this column are playing or recording.
    pub fn is_stoppable(&self) -> (stoppable: bool)
        ensures
            stoppable == self@.stoppable(),
    {
        let mut i: usize = 0;
        while i < self.slots.len()
            invariant
                i <= self.slots@.len(),
                forall|k: int| 0 <= k < i ==> !(#[trigger] self@.slots[k]).stoppable(),
            decreases self.slots@.len() - i,
        {
            assert(self@.slots[i as int] == self.slots@[i as int]@);
            if self.slots[i].is_stoppable() {
                return true;
            }
            i += 1;
        }
        false
    }

    /// Returns whether some slots in this column are recording.
    pub fn is_recording(&self) -> (recording: bool)
        ensures
            recording == self@.recording(),
    {
        let mut i: usize = 0;
        while i < self.slots.len()
            invariant
                i <= self.slots@.len(),
                forall|k: int| 0 <= k < i ==> (#[trigger] self@.slots[k]).recording is Idle,
            decreases self.slots@.len() - i,
        {
            assert(self@.slots[i as int] == self.slots@[i as int]@);
            if self.slots[i].is_recording() {
                return true;
            }
            i += 1;
        }
        false
    }

    /// The track that the column records from: the track of its record
    /// settings where they name one, which has to be available, and else
    /// the track that it plays through.
    pub open spec fn recording_track(view: ColumnView, available: bool) -> Result<
        TrackId,
        &'static str,
    > {
        match view.playback_track() {
            Err(reason) => Err(reason),
            Ok(playback_track) => match view.settings.clip_record_settings.track {
                Some(track) => if available {
                    Ok(track)
                } else {
                    Err("track not available")
                },
                None => Ok(playback_track),
            },
        }
    }

    /// Returns the track that the column records from. `available` says
    /// whether the host has the track that the record settings name.
    pub fn effective_recording_track(&self, available: bool) -> (track: Result<
        TrackId,
        &'static str,
    >)
        ensures
            track == Self::recording_track(self@, available),
    {
        let playback_track = match self.playback_track() {
            Ok(track) => track,
            Err(reason) => {
                return Err(reason);
            },
        };
        match self.settings.clip_record_settings.track {
            Some(track) => {
                if available {
                    Ok(track)
                } else {
                    Err("track not available")
                }
            },
            None => Ok(playback_track),
        }
    }

    /// Returns the playback track of this column.
    pub fn playback_track(&self) -> (track: Result<TrackId, &'static str>)
        ensures
            track == self@.playback_track(),
    {
        match self.playback {
            None => Err("column inactive"),
            Some(None) => Err("no playback track set"),
            Some(Some(track)) => Ok(track),
        }
    }

    pub fn follows_scene(&self) -> (follows: bool)
        ensures
            follows == self@.rt_settings.play_mode.follows(),
    {
        self.rt_settings.play_mode.follows_scene()
    }

    /// Asks the real-time twin to clear the given slot. The request comes
    /// back where it does not go out.
    pub fn clear_slot(&self, slot_index: usize) -> (outcome: Result<(), ColumnCommand>)
        ensures
            outcome matches Err(returned) ==> returned == ColumnCommand::ClearSlot(slot_index),
    {
        self.rt_command_sender.send_command(ColumnCommand::ClearSlot(slot_index))
    }

    /// Asks the real-time twin to play the row of a scene. The request comes
    /// back where it does not go out.
    pub fn play_scene(&self, slot_index: usize) -> (outcome: Result<(), ColumnCommand>)
        ensures
            outcome matches Err(returned) ==> returned == (ColumnCommand::PlayRow { slot_index }),
    {
        self.rt_command_sender.send_command(ColumnCommand::PlayRow { slot_index })
    }

    /// Asks the real-time twin to play a slot. The request comes back where
    /// it does not go out.
    pub fn play_slot(&self, slot_index: usize, options: SlotPlayOptions) -> (outcome: Result<
        (),
        ColumnCommand,
    >)
        ensures
            outcome matches Err(returned) ==> returned == (ColumnCommand::PlaySlot {
                slot_index,
                options,
            }),
    {
        self.rt_command_sender.send_command(ColumnCommand::PlaySlot { slot_index, options })
    }

    /// Asks the real-time twin to stop a slot. The request comes back where
    /// it does not go out.
    pub fn stop_slot(&self, slot_index: usize, immediately: bool) -> (outcome: Result<
        (),
        ColumnCommand,
    >)
        ensures
            outcome matches Err(returned) ==> returned == (ColumnCommand::StopSlot {
                slot_index,
                immediately,
            }),
    {
        self.rt_command_sender.send_command(ColumnCommand::StopSlot { slot_index, immediately })
    }

    /// Asks the real-time twin to stop all slots. The request comes back
    /// where it does not go out.
    pub fn stop(&self, immediately: bool) -> (outcome: Result<(), ColumnCommand>)
        ensures
            outcome matches Err(returned) ==> returned == (ColumnCommand::Stop { immediately }),
    {
        self.rt_command_sender.send_command(ColumnCommand::Stop { immediately })
    }

    /// Asks the real-time twin to pause a slot. The request comes back where
    /// it does not go out.
    pub fn pause_slot(&self, slot_index: usize) -> (outcome: Result<(), ColumnCommand>)
        ensures
            outcome matches Err(returned) ==> returned == ColumnCommand::PauseSlot(slot_index),
    {
        self.rt_command_sender.send_command(ColumnCommand::PauseSlot(slot_index))
    }

    /// Asks the real-time twin to move the play position of a slot. The
    /// request comes back where it does not go out.
    pub fn seek_slot(&self, slot_index: usize, desired_pos: UnitValue) -> (outcome: Result<
        (),
        ColumnCommand,
    >)
        ensures
            outcome matches Err(returned) ==> returned == ColumnCommand::SeekSlot(
                slot_index,
                desired_pos,
            ),
    {
        self.rt_command_sender.send_command(ColumnCommand::SeekSlot(slot_index, desired_pos))
    }
}

/// Replacing a slot replaces what it is and leaves the others as they are.
pub proof fn replaced_slot_view(slots: Seq<Slot>, index: int, slot: Slot)
    requires
        0 <= index < slots.len(),
    ensures
        slot_views(slots.update(index, slot)) == slot_views(slots).update(index, slot@),
        slots_in_order(slot_views(slots)) && slot@.well_formed() && slot@.index == index
            ==> slots_in_order(slot_views(slots.update(index, slot))),
{
    assert(slot_views(slots.update(index, slot)) =~= slot_views(slots).update(index, slot@));
}

impl Column {
    /// Adds the given clip to the slot, or puts it in the place of what the
    /// slot holds where `mode` says so, and tells the real-time twin.
    pub fn fill_slot_with_clip(
        &mut self,
        slot_index: usize,
        content: SlotContent,
        source: ClipSource,
        mode: FillClipMode,
    ) -> (outcome: Result<SlotChangeEvent, &'static str>)
        requires
            old(self).well_formed(),
            slot_index < usize::MAX,
        ensures
            final(self).well_formed(),
            (final(self)@, outcome) == old(self)@.after_fill(slot_index, content, source, mode),
    {
        let ghost before = self.slots@;
        let to_twin = source.clone();
        let slot = get_slot_mut_insert(&mut self.slots, slot_index);
        let ghost grown = upsized(slot_views(before), (slot_index + 1) as nat);
        let occupied = !slot.is_empty();
        let adding = match mode {
            FillClipMode::Add => true,
            FillClipMode::Replace => false,
        };
        if occupied && adding {
            assert(slot_views(self.slots@) =~= grown);
            return Err("slot is not empty");
        }
        let event = slot.fill(content, source);
        assert(slot_views(self.slots@) =~= grown.update(
            slot_index as int,
            grown[slot_index as int].after_fill(content, source),
        ));
        let _ = self.rt_command_sender.send_command(
            ColumnCommand::FillSlot { slot_index, source: to_twin, mode },
        );
        Ok(event)
    }

    /// Puts the content of the item that is selected in the host, and its
    /// source, in the place of what the slot holds, tells the real-time twin,
    /// and gives the preview that the host has to stop.
    pub fn replace_slot_contents_with_selected_item(
        &mut self,
        slot_index: usize,
        content: SlotContent,
        source: ClipSource,
    ) -> (replaced: (SlotChangeEvent, Option<StopPreview>))
        requires
            old(self).well_formed(),
            slot_index < usize::MAX,
        ensures
            final(self).well_formed(),
            final(self)@ == old(self)@.after_replace(slot_index, content, source),
            replaced.0 == SlotChangeEvent::Clips("filled slot"),
            replaced.1
                == upsized(old(self)@.slots,
                    (slot_index + 1) as nat)[slot_index as int].state.after_clear(
                upsized(old(self)@.slots, (slot_index + 1) as nat)[slot_index as int].register,
            ).0.stop,
    {
        let ghost before = self.slots@;
        let ghost grown = upsized(slot_views(before), (slot_index + 1) as nat);
        proof {
            upsized_in_order(slot_views(before), (slot_index + 1) as nat);
        }
        let to_twin = source.duplicate();
        let slot = get_slot_mut_insert(&mut self.slots, slot_index);
        assert(slot@ == grown[slot_index as int]);
        let descriptor = SlotDescriptor {
            volume: Volume::zero_db(),
            repeat: true,
            content: Some(content),
        };
        let stop = slot.load(descriptor, Some(source));
        assert(slot_views(self.slots@) =~= grown.update(
            slot_index as int,
            grown[slot_index as int].after_load(descriptor, Some(source)),
        ));
        let _ = self.rt_command_sender.send_command(
            ColumnCommand::FillSlot { slot_index, source: to_twin, mode: FillClipMode::Replace },
        );
        (SlotChangeEvent::Clips("filled slot"), stop)
    }

    /// Plays the clip of the slot: see `Slot::play`.
    pub fn play_clip(&mut self, slot_index: usize, track: Option<TrackId>,
        options: SlotPlayOptions) -> (outcome:
        Result<SlotStep<ClipChangedEvent>, &'static str>)
        requires
            old(self).well_formed(),
        ensures
            final(self).well_formed(),
            slot_index >= old(self)@.slots.len() ==> outcome == Err::<
                SlotStep<ClipChangedEvent>,
                &'static str,
            >(SLOT_DOESNT_EXIST) && final(self)@ == old(self)@,
            slot_index < old(self)@.slots.len() ==> ({
                let (slot, step) = old(self)@.slots[slot_index as int].after_play(track, options);
                final(self)@ == old(self)@.with_slot(slot_index as int, slot) && outcome == Ok::<
                    SlotStep<ClipChangedEvent>,
                    &'static str,
                >(step)
            }),
    {
        let ghost before = self.slots@;
        match get_slot_mut(&mut self.slots, slot_index) {
            Ok(slot) => {
                let step = slot.play(track, options);
                proof {
                    replaced_slot_view(before, slot_index as int, *slot);
                }
                Ok(step)
            },
            Err(reason) => Err(reason),
        }
    }
}

/// What is saved of a slot: its place, its settings, and its source as far as
/// one is loaded.
#[derive(Debug)]
pub struct SlotRecord {
    pub row: usize,
    pub descriptor: SlotDescriptor,
    pub source: Option<ClipSource>,
}

/// What is saved of a column.
#[derive(Debug)]
pub struct ColumnDescriptor {
    /// The track that the column plays through.
    pub track: Option<TrackId>,
    pub settings: ColumnSettings,
    pub rt_settings: RtColumnSettings,
    pub slots: Vec<SlotRecord>,
}

/// The slots with the first `count` of the records loaded, each into the
/// slot at its row, with empty slots added as far as it takes.
pub open spec fn loaded_slots(slots: Seq<SlotView>, records: Seq<SlotRecord>, count: nat) -> Seq<
    SlotView,
>
    decreases count,
{
    if count == 0 {
        slots
    } else {
        let before = loaded_slots(slots, records, (count - 1) as nat);
        let record = records[count - 1];
        let grown = upsized(before, (record.row + 1) as nat);
        grown.update(
            record.row as int,
            grown[record.row as int].after_load(record.descriptor, record.source),
        )
    }
}

/// The records of those of the first `count` slots that have content.
pub open spec fn saved_slots(slots: Seq<SlotView>, count: nat) -> Seq<SlotRecord>
    decreases count,
{
    if count == 0 {
        Seq::empty()
    } else {
        let before = saved_slots(slots, (count - 1) as nat);
        let slot = slots[count - 1];
        if slot.descriptor.content is Some {
            before.push(
                SlotRecord {
                    row: slot.index,
                    descriptor: slot.descriptor,
                    source: slot.register.source,
                },
            )
        } else {
            before
        }
    }
}

/// Growing a column keeps its slots in order.
pub proof fn upsized_in_order(slots: Seq<SlotView>, row_count: nat)
    requires
        slots_in_order(slots),
        row_count <= usize::MAX,
    ensures
        slots_in_order(upsized(slots, row_count)),
        upsized(slots, row_count).len() >= row_count,
        upsized(slots, row_count).len() >= slots.len(),
{
}

impl Column {
    /// Ends a play with the host's answer: see `Slot::complete_play`.
    pub fn complete_play(&mut self, slot_index: usize, args: ClipPlayArgs,
        answer: Option<PreviewHandle>) -> (outcome:
        Result<ClipChangedEvent, &'static str>)
        requires
            old(self).well_formed(),
        ensures
            final(self).well_formed(),
            slot_index >= old(self)@.slots.len() ==> outcome == Err::<
                ClipChangedEvent,
                &'static str,
            >(SLOT_DOESNT_EXIST) && final(self)@ == old(self)@,
            slot_index < old(self)@.slots.len() ==> ({
                let (slot, result) = old(self)@.slots[slot_index as int].after_complete_play(
                    args,
                    answer,
                );
                final(self)@ == old(self)@.with_slot(slot_index as int, slot) && outcome == result
            }),
    {
        let ghost before = self.slots@;
        match get_slot_mut(&mut self.slots, slot_index) {
            Ok(slot) => {
                let outcome = slot.complete_play(args, answer);
                proof {
                    replaced_slot_view(before, slot_index as int, *slot);
                }
                outcome
            },
            Err(reason) => Err(reason),
        }
    }

    /// Stops the clip of the slot, at once or at the end of its source.
    pub fn stop_clip(&mut self, slot_index: usize, immediately: bool) -> (outcome: Outcome<
        ClipChangedEvent,
    >)
        requires
            old(self).well_formed(),
        ensures
            final(self).well_formed(),
            slot_index >= old(self)@.slots.len() ==> outcome == (Outcome {
                result: Err::<ClipChangedEvent, &'static str>(SLOT_DOESNT_EXIST),
                stop: None,
            }) && final(self)@ == old(self)@,
            slot_index < old(self)@.slots.len() ==> ({
                let (slot, result) = old(self)@.slots[slot_index as int].after_stop(immediately);
                final(self)@ == old(self)@.with_slot(slot_index as int, slot) && outcome == result
            }),
    {
        let ghost before = self.slots@;
        match get_slot_mut(&mut self.slots, slot_index) {
            Ok(slot) => {
                let outcome = slot.stop(immediately);
                proof {
                    replaced_slot_view(before, slot_index as int, *slot);
                }
                outcome
            },
            Err(reason) => Outcome { result: Err(reason), stop: None },
        }
    }

    /// Pauses the clip of the slot.
    pub fn pause_clip(&mut self, slot_index: usize) -> (outcome: Outcome<ClipChangedEvent>)
        requires
            old(self).well_formed(),
        ensures
            final(self).well_formed(),
            slot_index >= old(self)@.slots.len() ==> outcome == (Outcome {
                result: Err::<ClipChangedEvent, &'static str>(SLOT_DOESNT_EXIST),
                stop: None,
            }) && final(self)@ == old(self)@,
            slot_index < old(self)@.slots.len() ==> ({
                let (slot, result) = old(self)@.slots[slot_index as int].after_pause();
                final(self)@ == old(self)@.with_slot(slot_index as int, slot) && outcome == result
            }),
    {
        let ghost before = self.slots@;
        match get_slot_mut(&mut self.slots, slot_index) {
            Ok(slot) => {
                let outcome = slot.pause();
                proof {
                    replaced_slot_view(before, slot_index as int, *slot);
                }
                outcome
            },
            Err(reason) => Outcome { result: Err(reason), stop: None },
        }
    }

    /// Turns the repeating of the slot's clip on or off.
    pub fn toggle_clip_looped(&mut self, slot_index: usize) -> (outcome: Result<
        ClipChangedEvent,
        &'static str,
    >)
        requires
            old(self).well_formed(),
        ensures
            final(self).well_formed(),
            slot_index >= old(self)@.slots.len() ==> outcome == Err::<
                ClipChangedEvent,
                &'static str,
            >(SLOT_DOESNT_EXIST) && final(self)@ == old(self)@,
            slot_index < old(self)@.slots.len() ==> final(self)@ == old(self)@.with_slot(
                slot_index as int,
                old(self)@.slots[slot_index as int].after_toggle_repeat(),
            ) && outcome == Ok::<ClipChangedEvent, &'static str>(
                ClipChangedEvent::ClipRepeatChanged(
                    !old(self)@.slots[slot_index as int].descriptor.repeat,
                ),
            ),
    {
        let ghost before = self.slots@;
        match get_slot_mut(&mut self.slots, slot_index) {
            Ok(slot) => {
                let event = slot.toggle_repeat();
                proof {
                    replaced_slot_view(before, slot_index as int, *slot);
                }
                Ok(event)
            },
            Err(reason) => Err(reason),
        }
    }

    /// Sets the volume of the slot's clip and tells the real-time twin.
    pub fn set_clip_volume(&mut self, slot_index: usize, volume: Volume) -> (outcome: Result<
        ClipChangedEvent,
        &'static str,
    >)
        requires
            old(self).well_formed(),
        ensures
            final(self).well_formed(),
            slot_index >= old(self)@.slots.len() ==> outcome == Err::<
                ClipChangedEvent,
                &'static str,
            >(SLOT_DOESNT_EXIST) && final(self)@ == old(self)@,
            slot_index < old(self)@.slots.len() ==> final(self)@ == old(self)@.with_slot(
                slot_index as int,
                old(self)@.slots[slot_index as int].after_set_volume(volume),
            ) && outcome == Ok::<ClipChangedEvent, &'static str>(
                ClipChangedEvent::ClipVolumeChanged(volume),
            ),
    {
        let ghost before = self.slots@;
        match get_slot_mut(&mut self.slots, slot_index) {
            Ok(slot) => {
                let event = slot.set_volume(volume);
                proof {
                    replaced_slot_view(before, slot_index as int, *slot);
                }
                let _ = self.rt_command_sender.send_command(
                    ColumnCommand::SetClipVolume(slot_index, volume),
                );
                Ok(event)
            },
            Err(reason) => Err(reason),
        }
    }

    /// Moves the play position of the slot's clip to a part of its source.
    pub fn seek_clip(&mut self, slot_index: usize, position: UnitValue) -> (outcome: Result<
        ClipChangedEvent,
        &'static str,
    >)
        requires
            old(self).well_formed(),
        ensures
            final(self).well_formed(),
            slot_index >= old(self)@.slots.len() ==> outcome == Err::<
                ClipChangedEvent,
                &'static str,
            >(SLOT_DOESNT_EXIST) && final(self)@ == old(self)@,
            slot_index < old(self)@.slots.len() ==> ({
                let (slot, result) = old(self)@.slots[slot_index as int].after_seek(position);
                final(self)@ == old(self)@.with_slot(slot_index as int, slot) && outcome == result
            }),
    {
        let ghost before = self.slots@;
        match get_slot_mut(&mut self.slots, slot_index) {
            Ok(slot) => {
                let outcome = slot.seek(position);
                proof {
                    replaced_slot_view(before, slot_index as int, *slot);
                }
                outcome
            },
            Err(reason) => Err(reason),
        }
    }

    /// Takes over the play position that the host has reached with the
    /// slot's clip.
    pub fn sync_slot_position(&mut self, slot_index: usize, position_micros: i64) -> (outcome:
        Result<(), &'static str>)
        requires
            old(self).well_formed(),
        ensures
            final(self).well_formed(),
            slot_index >= old(self)@.slots.len() ==> outcome == Err::<(), &'static str>(
                SLOT_DOESNT_EXIST,
            ) && final(self)@ == old(self)@,
            slot_index < old(self)@.slots.len() ==> final(self)@ == old(self)@.with_slot(
                slot_index as int,
                old(self)@.slots[slot_index as int].after_sync_position(position_micros),
            ) && outcome == Ok::<(), &'static str>(()),
    {
        let ghost before = self.slots@;
        match get_slot_mut(&mut self.slots, slot_index) {
            Ok(slot) => {
                slot.sync_position(position_micros);
                proof {
                    replaced_slot_view(before, slot_index as int, *slot);
                }
                Ok(())
            },
            Err(reason) => Err(reason),
        }
    }

    /// Requests a recording into the slot, which a column with a playback
    /// track can do. Slots are added as far as it takes to have one there.
    pub fn record_slot(&mut self, slot_index: usize) -> (outcome: Result<(), &'static str>)
        requires
            old(self).well_formed(),
            slot_index < usize::MAX,
        ensures
            final(self).well_formed(),
            (final(self)@, outcome) == old(self)@.after_record(slot_index),
    {
        match self.playback_track() {
            Err(reason) => {
                return Err(reason);
            },
            Ok(_) => {},
        }
        let ghost before = self.slots@;
        let ghost grown = upsized(slot_views(before), (slot_index + 1) as nat);
        proof {
            upsized_in_order(slot_views(before), (slot_index + 1) as nat);
        }
        let slot = get_slot_mut_insert(&mut self.slots, slot_index);
        assert(slot@ == grown[slot_index as int]);
        let outcome = slot.notify_recording_requested();
        assert(slot_views(self.slots@) =~= grown.update(
            slot_index as int,
            self.slots@[slot_index as int]@,
        ));
        assert(grown.update(slot_index as int, grown[slot_index as int]) =~= grown);
        assert(self@.slots == slot_views(self.slots@));
        outcome
    }

    /// The play position of the slot's clip in microseconds.
    pub fn clip_position_micros(&self, slot_index: usize) -> (position: Result<i64, &'static str>)
        ensures
            position == if slot_index < self@.slots.len() {
                Ok::<i64, &'static str>(self@.slots[slot_index as int].register.position_micros)
            } else {
                Err::<i64, &'static str>(SLOT_DOESNT_EXIST)
            },
    {
        match self.get_slot(slot_index) {
            Ok(slot) => Ok(slot.position_micros()),
            Err(reason) => Err(reason),
        }
    }

    /// Which part of its source the slot's clip has played.
    pub fn proportional_clip_position(&self, slot_index: usize) -> (position: Result<
        UnitValue,
        &'static str,
    >)
        ensures
            position == if slot_index < self@.slots.len() {
                self@.slots[slot_index as int].proportional_position()
            } else {
                Err::<UnitValue, &'static str>(SLOT_DOESNT_EXIST)
            },
            position matches Ok(value) ==> value.billionths()
                == crate::slot_state::register_proportion(
                self@.slots[slot_index as int].register,
            ),
    {
        match self.get_slot(slot_index) {
            Ok(slot) => slot.proportional_position(),
            Err(reason) => Err(reason),
        }
    }

    /// The play state of the slot's clip: what the real-time twin reported
    /// last, or what the slot's own state has shown since.
    pub fn clip_play_state(&self, slot_index: usize) -> (play_state: Result<
        ClipPlayState,
        &'static str,
    >)
        ensures
            play_state == if slot_index < self@.slots.len() {
                Ok::<ClipPlayState, &'static str>(self@.slots[slot_index as int].play_state)
            } else {
                Err::<ClipPlayState, &'static str>(SLOT_DOESNT_EXIST)
            },
    {
        match self.get_slot(slot_index) {
            Ok(slot) => Ok(slot.play_state()),
            Err(reason) => Err(reason),
        }
    }

    /// Whether the slot's clip repeats.
    pub fn clip_repeated(&self, slot_index: usize) -> (repeated: Result<bool, &'static str>)
        ensures
            repeated == if slot_index < self@.slots.len() {
                Ok::<bool, &'static str>(self@.slots[slot_index as int].descriptor.repeat)
            } else {
                Err::<bool, &'static str>(SLOT_DOESNT_EXIST)
            },
    {
        match self.get_slot(slot_index) {
            Ok(slot) => Ok(slot.repeat_is_enabled()),
            Err(reason) => Err(reason),
        }
    }

    /// The volume of the slot's clip.
    pub fn clip_volume(&self, slot_index: usize) -> (volume: Result<Volume, &'static str>)
        ensures
            volume == if slot_index < self@.slots.len() {
                Ok::<Volume, &'static str>(self@.slots[slot_index as int].descriptor.volume)
            } else {
                Err::<Volume, &'static str>(SLOT_DOESNT_EXIST)
            },
    {
        match self.get_slot(slot_index) {
            Ok(slot) => Ok(slot.volume()),
            Err(reason) => Err(reason),
        }
    }
}

/// After the real-time twin has reported a play state for a slot of the
/// column, that is the slot's play state. The other slots are as before,
/// and the report is passed on as the last of the events.
pub proof fn reported_play_state_reaches_the_slot(
    drained: Drained,
    slot_index: usize,
    play_state: ClipPlayState,
)
    requires
        slot_index < drained.slots.len(),
    ensures
        ({
            let after = drained.after_event(
                ColumnEvent::SlotPlayStateChanged { slot_index, play_state },
            );
            &&& after.slots.len() == drained.slots.len()
            &&& after.slots[slot_index as int].play_state == play_state
            &&& after.slots[slot_index as int].stoppable() == (play_state.as_good_as_playing()
                || !(drained.slots[slot_index as int].recording is Idle))
            &&& forall|i: int|
                0 <= i < drained.slots.len() && i != slot_index ==> #[trigger] after.slots[i]
                    == drained.slots[i]
            &&& after.events == drained.events.push(
                (slot_index, SlotChangeEvent::Clip(ClipChangedEvent::PlayStateChanged(play_state))),
            )
        }),
{
}

impl Column {
    /// Applies one event of the real-time twin to the slots and adds what
    /// comes of it to what was found.
    pub fn apply_event(&mut self, event: ColumnEvent, found: &mut ColumnPoll)
        requires
            old(self).well_formed(),
        ensures
            final(self).well_formed(),
            final(self)@ == (ColumnView { slots: final(self)@.slots, ..old(self)@ }),
            final(found).with_slots(final(self)@.slots) == old(found).with_slots(
                old(self)@.slots,
            ).after_event(event),
            final(self)@.slots.len() == old(self)@.slots.len(),
    {
        let ghost before = self.slots@;
        match event {
            ColumnEvent::SlotPlayStateChanged { slot_index, play_state } => {
                match get_slot_mut(&mut self.slots, slot_index) {
                    Ok(slot) => {
                        assert(slot_views(before)[slot_index as int] == slot@);
                        slot.update_play_state(play_state);
                        proof {
                            replaced_slot_view(before, slot_index as int, *slot);
                        }
                    },
                    Err(_) => {},
                }
                found.note_event(
                    slot_index,
                    Some(SlotChangeEvent::Clip(ClipChangedEvent::PlayStateChanged(play_state))),
                );
            },
            ColumnEvent::ClipMaterialInfoChanged { slot_index, clip_index, length_micros } => {
                match get_slot_mut(&mut self.slots, slot_index) {
                    Ok(slot) => {
                        assert(slot_views(before)[slot_index as int] == slot@);
                        slot.update_material_info(length_micros);
                        proof {
                            replaced_slot_view(before, slot_index as int, *slot);
                        }
                    },
                    Err(_) => {},
                }
            },
            ColumnEvent::Dispose => {},
            ColumnEvent::RecordRequestAcknowledged { slot_index, successful } => {
                match get_slot_mut(&mut self.slots, slot_index) {
                    Ok(slot) => {
                        assert(slot_views(before)[slot_index as int] == slot@);
                        slot.notify_recording_request_acknowledged(successful);
                        proof {
                            replaced_slot_view(before, slot_index as int, *slot);
                        }
                    },
                    Err(_) => {},
                }
            },
            ColumnEvent::MidiOverdubFinished { slot_index, mirror_source } => {
                match get_slot_mut(&mut self.slots, slot_index) {
                    Ok(slot) => {
                        assert(slot_views(before)[slot_index as int] == slot@);
                        let event = slot.notify_recording_finished(
                            mirror_source,
                            "MIDI overdub finished",
                        );
                        proof {
                            replaced_slot_view(before, slot_index as int, *slot);
                        }
                        found.note_event(slot_index, Some(event));
                    },
                    Err(_) => {},
                }
            },
            ColumnEvent::NormalRecordingFinished { slot_index, source } => {
                match get_slot_mut(&mut self.slots, slot_index) {
                    Ok(slot) => {
                        assert(slot_views(before)[slot_index as int] == slot@);
                        let event = slot.notify_recording_finished(source, "clip recorded");
                        proof {
                            replaced_slot_view(before, slot_index as int, *slot);
                        }
                        found.note_event(slot_index, Some(event));
                    },
                    Err(_) => {},
                }
            },
            ColumnEvent::InteractionFailed { message } => {
                let text = failure_message(message.as_str());
                let ghost failures = found.failures@;
                found.failures.push(text);
                assert(texts(found.failures@) =~= texts(failures).push(failure_text(message@)));
            },
            ColumnEvent::SlotCleared { slot_index } => {
                match get_slot_mut(&mut self.slots, slot_index) {
                    Ok(slot) => {
                        assert(slot_views(before)[slot_index as int] == slot@);
                        let (event, stop) = slot.slot_cleared();
                        proof {
                            replaced_slot_view(before, slot_index as int, *slot);
                        }
                        found.note_event(slot_index, event);
                        found.note_stop(stop);
                    },
                    Err(_) => {},
                }
            },
        }
    }

    /// Looks at every slot for what the host has done since the last call,
    /// and adds what comes of it to what was found.
    pub fn poll_slots(&mut self, found: &mut ColumnPoll)
        requires
            old(self).well_formed(),
        ensures
            final(self).well_formed(),
            final(self)@ == (ColumnView { slots: final(self)@.slots, ..old(self)@ }),
            final(found).with_slots(final(self)@.slots) == old(found).with_slots(
                old(self)@.slots,
            ).after_slot_polls(old(self)@.slots.len()),
            final(self)@.slots.len() == old(self)@.slots.len(),
    {
        let ghost start = found.with_slots(self@.slots);
        let count = self.slots.len();
        let mut i: usize = 0;
        while i < count
            invariant
                i <= count,
                count == self.slots@.len(),
                self.well_formed(),
                self@ == (ColumnView { slots: self@.slots, ..old(self)@ }),
                found.with_slots(self@.slots) == start.after_slot_polls(i as nat),
            decreases count - i,
        {
            let ghost before = self.slots@;
            assert(self@.slots[i as int] == before[i as int]@);
            let slot = &mut self.slots[i];
            let polled = slot.poll();
            proof {
                replaced_slot_view(before, i as int, *slot);
            }
            found.note_event(
                i,
                match polled.event {
                    Some(event) => Some(SlotChangeEvent::Clip(event)),
                    None => None,
                },
            );
            found.note_stop(polled.stop);
            i += 1;
        }
    }

    /// Takes the events that the real-time twin has reported, up to as many
    /// as the channel holds, applies them to the slots in the order in which
    /// they came, and then looks at every slot for what the host has done
    /// since the last call. Which events there are is for the twin to say.
    pub fn poll(&mut self) -> (found: ColumnPoll)
        requires
            old(self).well_formed(),
        ensures
            final(self).well_formed(),
            final(self)@ == (ColumnView { slots: final(self)@.slots, ..old(self)@ }),
            polled(old(self)@, found.with_slots(final(self)@.slots)),
            final(self)@.slots.len() == old(self)@.slots.len(),
    {
        let mut found = ColumnPoll::new();
        let ghost mut received: Seq<ColumnEvent> = Seq::empty();
        let mut taken: usize = 0;
        while taken < COLUMN_CHANNEL_CAPACITY
            invariant
                taken <= COLUMN_CHANNEL_CAPACITY,
                received.len() == taken,
                self.well_formed(),
                self@ == (ColumnView { slots: self@.slots, ..old(self)@ }),
                self@.slots.len() == old(self)@.slots.len(),
                found.with_slots(self@.slots) == Drained::start(old(self)@.slots).after_events(
                    received,
                ),
            decreases COLUMN_CHANNEL_CAPACITY - taken,
        {
            match try_receive(&self.event_receiver) {
                Some(event) => {
                    proof {
                        assert(received.push(event).drop_last() =~= received);
                        received = received.push(event);
                    }
                    self.apply_event(event, &mut found);
                },
                None => {
                    break ;
                },
            }
            taken += 1;
        }
        self.poll_slots(&mut found);
        found
    }

    /// What is to be saved of the column: its track, its settings, and its
    /// slots as far as they have content.
    pub fn save(&self) -> (descriptor: ColumnDescriptor)
        ensures
            descriptor.track == match self@.playback {
                Some(track) => track,
                None => None,
            },
            descriptor.settings == self@.settings,
            descriptor.rt_settings == self@.rt_settings,
            descriptor.slots@ == saved_slots(self@.slots, self@.slots.len()),
    {
        let track = match self.playback {
            Some(track) => track,
            None => None,
        };
        let mut slots: Vec<SlotRecord> = Vec::new();
        let mut i: usize = 0;
        while i < self.slots.len()
            invariant
                i <= self.slots@.len(),
                slots@ == saved_slots(self@.slots, i as nat),
            decreases self.slots@.len() - i,
        {
            let slot = &self.slots[i];
            assert(self@.slots[i as int] == slot@);
            if slot.descriptor().is_filled() {
                slots.push(
                    SlotRecord {
                        row: slot.index(),
                        descriptor: slot.descriptor().duplicate(),
                        source: slot.loaded_source(),
                    },
                );
            }
            i += 1;
        }
        ColumnDescriptor {
            track,
            settings: self.settings,
            rt_settings: self.rt_settings,
            slots,
        }
    }

    /// Removes all slots and loads the column from what was saved of one:
    /// track, settings and slots, each slot at its row. Gives the previews
    /// that the host has to stop.
    pub fn load(&mut self, descriptor: &ColumnDescriptor) -> (stops: Vec<StopPreview>)
        requires
            old(self).well_formed(),
            forall|i: int| 0 <= i < descriptor.slots@.len()
                ==> (#[trigger] descriptor.slots@[i]).row
                < usize::MAX,
        ensures
            final(self).well_formed(),
            final(self)@ == (ColumnView {
                settings: descriptor.settings,
                rt_settings: descriptor.rt_settings,
                playback: Some(descriptor.track),
                slots: loaded_slots(
                    Seq::empty(),
                    descriptor.slots@,
                    descriptor.slots@.len(),
                ),
                project: old(self)@.project,
            }),
            stops@ == old(self)@.playing_previews(old(self)@.slots.len()),
    {
        let stops = self.clear_slots();
        self.init_preview_register(descriptor.track);
        self.settings = descriptor.settings;
        self.rt_settings = descriptor.rt_settings;
        let mut i: usize = 0;
        while i < descriptor.slots.len()
            invariant
                i <= descriptor.slots@.len(),
                self.well_formed(),
                forall|k: int|
                    0 <= k < descriptor.slots@.len() ==> (#[trigger] descriptor.slots@[k]).row
                        < usize::MAX,
                self@ == (ColumnView {
                    settings: descriptor.settings,
                    rt_settings: descriptor.rt_settings,
                    playback: Some(descriptor.track),
                    slots: loaded_slots(Seq::empty(), descriptor.slots@, i as nat),
                    project: old(self)@.project,
                }),
            decreases descriptor.slots@.len() - i,
        {
            let record = &descriptor.slots[i];
            let source = match &record.source {
                Some(source) => Some(source.duplicate()),
                None => None,
            };
            let ghost before = slot_views(self.slots@);
            let ghost grown = upsized(before, (record.row + 1) as nat);
            proof {
                upsized_in_order(before, (record.row + 1) as nat);
            }
            let slot = get_slot_mut_insert(&mut self.slots, record.row);
            assert(slot@ == grown[record.row as int]);
            let _ = slot.load(record.descriptor.duplicate(), source);
            assert(slot_views(self.slots@) =~= grown.update(
                record.row as int,
                grown[record.row as int].after_load(record.descriptor, record.source),
            ));
            i += 1;
        }
        stops
    }
}

} // verus!
