//! The matrix: the grid of columns and rows. A row is wherever a column has
//! a slot, so the number of rows is the largest number of slots of a column,
//! or the number that was set where that is larger.
use crate::channel::{bounded, try_receive, try_send};
use crate::clip_slot::{Outcome, SlotContent, SlotStep};
use crate::column::{
    polled, texts, with, Column, ColumnDescriptor, ColumnTwin, ColumnView, Drained,
    ProjectId, COLUMN_CHANNEL_CAPACITY,
};
use crate::preview::{ClipSource, PreviewHandle, StopPreview, TrackId, Volume};
use crate::settings::{MatrixSettings, RtMatrixSettings};
use crate::slot::{FillClipMode, Slot, SlotChangeEvent, SlotView};
use crate::slot_state::{ClipChangedEvent, ClipPlayArgs, ClipPlayState, SlotPlayOptions};
use crate::unit_value::UnitValue;
use vstd::prelude::*;

verus! {

pub const NO_SUCH_COLUMN: &'static str = "no such column";

/// The place of a slot in the matrix.
#[derive(Copy, Clone, PartialEq, Eq, Debug)]
pub struct ClipSlotCoordinates {
    column: usize,
    row: usize,
}

impl Default for ClipSlotCoordinates {
    /// The first row of the first column.
    fn default() -> (coordinates: Self)
        ensures
            coordinates == Self::at(0, 0),
            coordinates.column_index() == 0,
            coordinates.row_index() == 0,
    {
        ClipSlotCoordinates { column: 0, row: 0 }
    }
}

impl ClipSlotCoordinates {
    pub closed spec fn column_index(&self) -> usize {
        self.column
    }

    pub closed spec fn row_index(&self) -> usize {
        self.row
    }

    /// The coordinates of the slot in that column and row.
    pub closed spec fn at(column: usize, row: usize) -> Self {
        ClipSlotCoordinates { column, row }
    }

    /// Coordinates are known by their column and row.
    pub proof fn known_by_column_and_row(&self)
        ensures
            *self == Self::at(self.column_index(), self.row_index()),
    {
    }

    /// The coordinates of a column and a row are in that column and row.
    pub proof fn at_column_and_row(column: usize, row: usize)
        ensures
            Self::at(column, row).column_index() == column,
            Self::at(column, row).row_index() == row,
    {
    }

    pub fn new(column: usize, row: usize) -> (coordinates: Self)
        ensures
            coordinates == Self::at(column, row),
            coordinates.column_index() == column,
            coordinates.row_index() == row,
    {
        Self { column, row }
    }

    pub fn column(&self) -> (column: usize)
        ensures
            column == self.column_index(),
    {
        self.column
    }

    pub fn row(&self) -> (row: usize)
        ensures
            row == self.row_index(),
    {
        self.row
    }
}

/// What the real-time matrix asks of the main thread.
pub enum MatrixCommand {
    /// To let go of the ends of a column's channels, which the real-time
    /// thread must not do itself.
    ThrowAway(ColumnTwin),
}

/// What a matrix asks of its real-time twin.
pub enum RtMatrixCommand {
    UpdateSettings(RtMatrixSettings),
    InsertColumn(usize, ColumnTwin),
    ClearColumns,
}

/// The sending side of the channel for commands to the main thread.
pub trait MainMatrixCommandSender {
    /// Hands the ends of a column's channels over. Where the command does
    /// not go out, it comes back.
    fn throw_away(&self, source: ColumnTwin) -> (outcome: Result<(), MatrixCommand>)
        ensures
            outcome matches Err(returned) ==> returned == MatrixCommand::ThrowAway(source),
    ;

    /// Sends the command without waiting. Where it does not go out, it comes
    /// back.
    fn send_command(&self, command: MatrixCommand) -> (outcome: Result<(), MatrixCommand>)
        ensures
            outcome matches Err(returned) ==> returned == command,
    ;
}

impl MainMatrixCommandSender for crossbeam_channel::Sender<MatrixCommand> {
    fn throw_away(&self, source: ColumnTwin) -> (outcome: Result<(), MatrixCommand>) {
        self.send_command(MatrixCommand::ThrowAway(source))
    }

    fn send_command(&self, command: MatrixCommand) -> (outcome: Result<(), MatrixCommand>) {
        try_send(self, command)
    }
}

/// Where a recording goes.
#[derive(Copy, Clone, PartialEq, Eq, Debug)]
pub struct ClipRecordDestination {
    pub column_index: usize,
    pub slot_index: usize,
}

/// A MIDI input of the host's hardware.
#[derive(Copy, Clone, PartialEq, Eq, Debug)]
pub struct ClipRecordHardwareMidiInput {
    pub device_id: Option<u8>,
    pub channel: Option<u8>,
}

#[derive(Copy, Clone, PartialEq, Eq, Debug)]
pub enum VirtualClipRecordHardwareMidiInput {
    Specific(ClipRecordHardwareMidiInput),
    Detect,
}

/// A range of channels of an audio input.
#[derive(Copy, Clone, PartialEq, Eq, Debug)]
pub struct ChannelRange {
    pub first_channel_index: u32,
    pub channel_count: u32,
}

#[derive(Copy, Clone, PartialEq, Eq, Debug)]
pub enum VirtualClipRecordAudioInput {
    Specific(ChannelRange),
    Detect { channel_count: u32 },
}

#[derive(Copy, Clone, PartialEq, Eq, Debug)]
pub enum ClipRecordHardwareInput {
    Midi(VirtualClipRecordHardwareMidiInput),
    Audio(VirtualClipRecordAudioInput),
}

#[derive(Copy, Clone, PartialEq, Eq, Debug)]
pub enum ClipRecordFxInput {
    Midi,
    Audio(VirtualClipRecordAudioInput),
}

/// Where a recording comes from.
#[derive(Copy, Clone, PartialEq, Eq, Debug)]
pub enum ClipRecordInput {
    HardwareInput(ClipRecordHardwareInput),
    FxInput(ClipRecordFxInput),
}

/// What it takes to record from an input.
#[derive(Copy, Clone, PartialEq, Eq, Debug)]
pub enum RecordingEquipment {
    Midi,
    Audio { project: Option<ProjectId>, channel_count: usize },
}

impl VirtualClipRecordAudioInput {
    pub open spec fn channels(self) -> u32 {
        match self {
            VirtualClipRecordAudioInput::Specific(range) => range.channel_count,
            VirtualClipRecordAudioInput::Detect { channel_count } => channel_count,
        }
    }
}

impl ClipRecordInput {
    /// What it takes to record from the input: for audio, the project and
    /// as many channels as the input has.
    pub open spec fn equipment(self, project: Option<ProjectId>) -> RecordingEquipment {
        match self {
            ClipRecordInput::HardwareInput(input) => match input {
                ClipRecordHardwareInput::Midi(_) => RecordingEquipment::Midi,
                ClipRecordHardwareInput::Audio(input) => RecordingEquipment::Audio {
                    project,
                    channel_count: input.channels() as usize,
                },
            },
            ClipRecordInput::FxInput(ClipRecordFxInput::Midi) => RecordingEquipment::Midi,
            ClipRecordInput::FxInput(ClipRecordFxInput::Audio(input)) => RecordingEquipment::Audio {
                project,
                channel_count: input.channels() as usize,
            },
        }
    }

    /// The project is necessary to create an audio sink.
    pub fn create_recording_equipment(&self, project: Option<ProjectId>) -> (equipment:
        RecordingEquipment)
        ensures
            equipment == self.equipment(project),
    {
        let virtual_input = match self {
            ClipRecordInput::HardwareInput(ClipRecordHardwareInput::Midi(_)) => {
                return RecordingEquipment::Midi;
            },
            ClipRecordInput::FxInput(ClipRecordFxInput::Midi) => {
                return RecordingEquipment::Midi;
            },
            ClipRecordInput::HardwareInput(ClipRecordHardwareInput::Audio(input)) => input,
            ClipRecordInput::FxInput(ClipRecordFxInput::Audio(input)) => input,
        };
        let channel_count = match virtual_input {
            VirtualClipRecordAudioInput::Specific(range) => range.channel_count,
            VirtualClipRecordAudioInput::Detect { channel_count } => *channel_count,
        };
        RecordingEquipment::Audio { project, channel_count: channel_count as usize }
    }
}

/// A recording that waits for its input.
#[derive(Copy, Clone, PartialEq, Eq, Debug)]
pub struct ClipRecordTask {
    pub input: ClipRecordInput,
    pub destination: ClipRecordDestination,
}

/// A change of a clip, with the place of its slot.
#[derive(Copy, Clone, PartialEq, Eq, Debug)]
pub struct QualifiedClipChangedEvent {
    pub slot_coordinates: ClipSlotCoordinates,
    pub event: SlotChangeEvent,
}

/// What has changed in a matrix.
#[derive(Copy, Clone, PartialEq, Eq, Debug)]
pub enum ClipMatrixEvent {
    AllClipsChanged,
    ClipChanged(QualifiedClipChangedEvent),
}

/// When a recording starts and stops.
#[derive(Copy, Clone, PartialEq, Eq, Debug)]
pub enum ClipRecordTiming {
    StartImmediatelyStopOnDemand,
    StartOnBarStopOnDemand { start_bar: i32 },
    StartOnBarStopOnBar { start_bar: i32, bar_count: u32 },
}

/// What to record.
#[derive(Copy, Clone, PartialEq, Eq, Debug)]
pub enum RecordKind {
    Normal { looped: bool, timing: ClipRecordTiming, detect_downbeat: bool },
    MidiOverdub,
}

#[derive(Copy, Clone, PartialEq, Eq, Debug)]
pub struct RecordArgs {
    pub kind: RecordKind,
}

/// Who embeds a matrix.
pub trait ClipMatrixHandler {
    fn request_recording_input(&self, task: ClipRecordTask);

    fn emit_event(&self, event: ClipMatrixEvent);
}

/// The ends of a matrix's channels that its real-time twin holds.
pub struct MatrixTwin {
    command_receiver: crossbeam_channel::Receiver<RtMatrixCommand>,
    main_command_sender: crossbeam_channel::Sender<MatrixCommand>,
}

impl MatrixTwin {
    /// The next command of the matrix, if one has come.
    pub fn next_command(&self) -> (command: Option<RtMatrixCommand>) {
        try_receive(&self.command_receiver)
    }

    /// Hands the ends of a column's channels to the main thread. Where they
    /// do not go out, they come back, for the twin to keep until they do.
    pub fn throw_away(&self, source: ColumnTwin) -> (outcome: Result<(), ColumnTwin>)
        ensures
            outcome matches Err(returned) ==> returned == source,
    {
        match self.main_command_sender.throw_away(source) {
            Ok(()) => Ok(()),
            Err(MatrixCommand::ThrowAway(source)) => Err(source),
        }
    }
}

/// What is saved of a matrix.
#[derive(Debug)]
pub struct MatrixDescriptor {
    pub columns: Vec<ColumnDescriptor>,
    /// The number of rows that the matrix has at least.
    pub row_count: usize,
    pub settings: MatrixSettings,
    pub rt_settings: RtMatrixSettings,
}

/// What the columns are, as contracts speak of them.
pub open spec fn column_views(columns: Seq<Column>) -> Seq<ColumnView> {
    Seq::new(columns.len(), |i: int| columns[i]@)
}

/// The largest number of slots among the first `count` columns.
pub open spec fn max_slot_count(columns: Seq<ColumnView>, count: nat) -> nat
    decreases count,
{
    if count == 0 {
        0
    } else {
        let before = max_slot_count(columns, (count - 1) as nat);
        if columns[count - 1].slots.len() > before {
            columns[count - 1].slots.len()
        } else {
            before
        }
    }
}

/// The events of one column, each with the coordinates of its slot.
pub open spec fn qualified(column_index: usize, events: Seq<(usize, SlotChangeEvent)>) -> Seq<
    ClipMatrixEvent,
> {
    Seq::new(
        events.len(),
        |i: int|
            ClipMatrixEvent::ClipChanged(
                QualifiedClipChangedEvent {
                    slot_coordinates: ClipSlotCoordinates::at(column_index, events[i].0),
                    event: events[i].1,
                },
            ),
    )
}

/// What a poll of a matrix has found so far.
pub struct Gathered {
    pub events: Seq<ClipMatrixEvent>,
    pub stops: Seq<StopPreview>,
    pub failures: Seq<Seq<char>>,
}

/// What the first `count` columns have found, one column after the other.
pub open spec fn gathered(found: Seq<Drained>, count: nat) -> Gathered
    decreases count,
{
    if count == 0 {
        Gathered { events: Seq::empty(), stops: Seq::empty(), failures: Seq::empty() }
    } else {
        let before = gathered(found, (count - 1) as nat);
        Gathered {
            events: before.events + qualified((count - 1) as usize, found[count - 1].events),
            stops: before.stops + found[count - 1].stops,
            failures: before.failures + found[count - 1].failures,
        }
    }
}

/// What a poll of a matrix has found.
#[derive(Debug)]
pub struct MatrixPoll {
    pub events: Vec<ClipMatrixEvent>,
    /// The previews that the host has to stop.
    pub stops: Vec<StopPreview>,
    /// The messages for the user about interactions that failed.
    pub failures: Vec<String>,
}

impl MatrixPoll {
    pub open spec fn gathered(&self) -> Gathered {
        Gathered { events: self.events@, stops: self.stops@, failures: texts(self.failures@) }
    }
}

/// The previews that the host plays for the first `count` columns.
pub open spec fn playing_previews(columns: Seq<ColumnView>, count: nat) -> Seq<StopPreview>
    decreases count,
{
    if count == 0 {
        Seq::empty()
    } else {
        playing_previews(columns, (count - 1) as nat) + columns[count - 1].playing_previews(
            columns[count - 1].slots.len(),
        )
    }
}

/// A matrix.
pub struct Matrix<H> {
    settings: MatrixSettings,
    rt_settings: RtMatrixSettings,
    handler: H,
    columns: Vec<Column>,
    row_count: usize,
    containing_track: Option<TrackId>,
    project: Option<ProjectId>,
    command_receiver: crossbeam_channel::Receiver<MatrixCommand>,
    rt_command_sender: crossbeam_channel::Sender<RtMatrixCommand>,
}

/// What a matrix is, as contracts speak of it.
pub struct MatrixView {
    pub settings: MatrixSettings,
    pub rt_settings: RtMatrixSettings,
    pub columns: Seq<ColumnView>,
    /// The number of rows that was set.
    pub rows: nat,
    pub containing_track: Option<TrackId>,
    pub project: Option<ProjectId>,
}

impl MatrixView {
    pub open spec fn well_formed(self) -> bool {
        forall|i: int| 0 <= i < self.columns.len() ==> (#[trigger] self.columns[i]).well_formed()
    }

    /// The number of rows: the largest number of slots of a column, or the
    /// number that was set where that is larger.
    pub open spec fn row_count(self) -> nat {
        let slots = max_slot_count(self.columns, self.columns.len());
        if self.rows > slots {
            self.rows
        } else {
            slots
        }
    }

    /// The slot at the coordinates, if there is one.
    pub open spec fn slot(self, coordinates: ClipSlotCoordinates) -> Option<SlotView> {
        if coordinates.column_index() < self.columns.len() && coordinates.row_index()
            < self.columns[coordinates.column_index() as int].slots.len() {
            Some(
                self.columns[coordinates.column_index() as int].slots[coordinates.row_index()
                    as int],
            )
        } else {
            None
        }
    }

    /// The matrix with the column at `index` replaced.
    pub open spec fn with_column(self, index: int, column: ColumnView) -> Self {
        MatrixView { columns: self.columns.update(index, column), ..self }
    }

    /// The matrix with the slot at the coordinates replaced.
    pub open spec fn with_slot(self, coordinates: ClipSlotCoordinates, slot: SlotView) -> Self {
        self.with_column(
            coordinates.column_index() as int,
            self.columns[coordinates.column_index() as int].with_slot(
                coordinates.row_index() as int,
                slot,
            ),
        )
    }

    /// Why there is no slot at the coordinates, if there is none.
    pub open spec fn missing(self, coordinates: ClipSlotCoordinates) -> Option<&'static str> {
        if coordinates.column_index() >= self.columns.len() {
            Some(NO_SUCH_COLUMN)
        } else if coordinates.row_index()
            >= self.columns[coordinates.column_index() as int].slots.len() {
            Some(crate::column::SLOT_DOESNT_EXIST)
        } else {
            None
        }
    }
}

/// No column has more slots than the largest number of slots, and where
/// there are columns, one has as many.
pub proof fn max_slot_count_is_largest(columns: Seq<ColumnView>, count: nat)
    requires
        count <= columns.len(),
    ensures
        forall|i: int| 0 <= i < count
            ==> (#[trigger] columns[i]).slots.len() <= max_slot_count(columns, count),
        count == 0 ==> max_slot_count(columns, count) == 0,
        count > 0 ==> exists|i: int|
            0 <= i < count && (#[trigger] columns[i]).slots.len() == max_slot_count(columns, count),
    decreases count,
{
    if count > 0 {
        max_slot_count_is_largest(columns, (count - 1) as nat);
        let before = max_slot_count(columns, (count - 1) as nat);
        if columns[count - 1].slots.len() > before {
            assert(columns[count - 1].slots.len() == max_slot_count(columns, count));
        } else if count > 1 {
            let i = choose|i: int|
                0 <= i < count - 1 && (#[trigger] columns[i]).slots.len() == before;
            assert(columns[i].slots.len() == max_slot_count(columns, count));
        } else {
            assert(columns[0].slots.len() == max_slot_count(columns, count));
        }
    }
}

/// Replacing a column replaces what it is and leaves the others as they are.
pub proof fn replaced_column_view(columns: Seq<Column>, index: int, column: Column)
    requires
        0 <= index < columns.len(),
    ensures
        column_views(columns.update(index, column)) == column_views(columns).update(index, column@),
{
    assert(column_views(columns.update(index, column)) =~= column_views(columns).update(
        index,
        column@,
    ));
}

/// The column at `index`, if there is one.
pub fn get_column(columns: &Vec<Column>, index: usize) -> (column: Result<&Column, &'static str>)
    ensures
        index < columns@.len() ==> column is Ok && *column->Ok_0 == columns@[index as int],
        index >= columns@.len() ==> column is Err && column->Err_0 == NO_SUCH_COLUMN,
{
    if index < columns.len() {
        Ok(&columns[index])
    } else {
        Err(NO_SUCH_COLUMN)
    }
}

/// The column at `index`, if there is one.
pub fn get_column_mut(columns: &mut Vec<Column>, index: usize) -> (column: Result<
    &mut Column,
    &'static str,
>)
    ensures
        index >= old(columns)@.len() ==> column is Err && column->Err_0 == NO_SUCH_COLUMN
            && final(columns)@ == old(columns)@,
        index < old(columns)@.len() ==> column is Ok && *column->Ok_0 == old(columns)@[index as int]
            && final(columns)@ == old(columns)@.update(index as int, *final(column->Ok_0)),
{
    if index < columns.len() {
        Ok(&mut columns[index])
    } else {
        Err(NO_SUCH_COLUMN)
    }
}

impl<H> View for Matrix<H> {
    type V = MatrixView;

    closed spec fn view(&self) -> MatrixView {
        MatrixView {
            settings: self.settings,
            rt_settings: self.rt_settings,
            columns: column_views(self.columns@),
            rows: self.row_count as nat,
            containing_track: self.containing_track,
            project: self.project,
        }
    }
}

impl<H: ClipMatrixHandler> Matrix<H> {
    pub open spec fn well_formed(&self) -> bool {
        self@.well_formed()
    }

    /// A matrix without columns in the project of `containing_track`, and
    /// the ends of its channels for its real-time twin.
    pub fn new(handler: H, containing_track: Option<TrackId>, project: Option<ProjectId>)
        -> (made: (
        Matrix<H>,
        MatrixTwin,
    ))
        ensures
            made.0.well_formed(),
            made.0@ == (MatrixView {
                settings: MatrixSettings::initial(),
                rt_settings: RtMatrixSettings::initial(),
                columns: Seq::empty(),
                rows: 0,
                containing_track,
                project,
            }),
    {
        let (rt_command_sender, rt_command_receiver) = bounded::<RtMatrixCommand>(
            COLUMN_CHANNEL_CAPACITY,
        );
        let (main_command_sender, main_command_receiver) = bounded::<MatrixCommand>(
            COLUMN_CHANNEL_CAPACITY,
        );
        let matrix = Matrix {
            settings: MatrixSettings::default(),
            rt_settings: RtMatrixSettings::default(),
            handler,
            columns: Vec::new(),
            row_count: 0,
            containing_track,
            project,
            command_receiver: main_command_receiver,
            rt_command_sender,
        };
        assert(matrix@.columns =~= Seq::empty());
        (matrix, MatrixTwin { command_receiver: rt_command_receiver, main_command_sender })
    }

    pub fn settings(&self) -> (settings: MatrixSettings)
        ensures
            settings == self@.settings,
    {
        self.settings
    }

    /// Removes all columns, tells the real-time twin to do the same, and
    /// gives the previews that the host has to stop.
    pub fn clear_columns(&mut self) -> (stops: Vec<StopPreview>)
        ensures
            final(self)@ == (MatrixView { columns: Seq::empty(), ..old(self)@ }),
            final(self).well_formed(),
            stops@ == playing_previews(old(self)@.columns, old(self)@.columns.len()),
    {
        let mut stops: Vec<StopPreview> = Vec::new();
        let mut i: usize = 0;
        while i < self.columns.len()
            invariant
                i <= self.columns@.len(),
                self.columns@.len() == old(self).columns@.len(),
                forall|k: int| i <= k < self.columns@.len()
                    ==> self.columns@[k] == old(self).columns@[k],
                self.settings == old(self).settings,
                self.rt_settings == old(self).rt_settings,
                self.row_count == old(self).row_count,
                self.containing_track == old(self).containing_track,
                self.project == old(self).project,
                stops@ == playing_previews(old(self)@.columns, i as nat),
            decreases self.columns@.len() - i,
        {
            assert(old(self)@.columns[i as int] == self.columns@[i as int]@);
            let column = &mut self.columns[i];
            let mut column_stops = column.clear_slots();
            stops.append(&mut column_stops);
            i += 1;
        }
        self.columns.clear();
        let _ = try_send(&self.rt_command_sender, RtMatrixCommand::ClearColumns);
        assert(self@.columns =~= Seq::empty());
        stops
    }

    /// The slot at the coordinates, if there is one.
    pub fn slot(&self, coordinates: ClipSlotCoordinates) -> (slot: Option<&Slot>)
        ensures
            match self@.slot(coordinates) {
                Some(view) => slot is Some && slot->Some_0@ == view,
                None => slot is None,
            },
    {
        match get_column(&self.columns, coordinates.column()) {
            Ok(column) => column.find_slot(coordinates.row()),
            Err(_) => None,
        }
    }

    pub fn column_count(&self) -> (count: usize)
        ensures
            count == self@.columns.len(),
    {
        self.columns.len()
    }

    /// The number of rows: the largest number of slots of a column, or the
    /// number that was set where that is larger.
    pub fn row_count(&self) -> (count: usize)
        ensures
            count == self@.row_count(),
    {
        let mut max_slot_count_per_col: usize = 0;
        let mut i: usize = 0;
        while i < self.columns.len()
            invariant
                i <= self.columns@.len(),
                max_slot_count_per_col == max_slot_count(self@.columns, i as nat),
            decreases self.columns@.len() - i,
        {
            assert(self@.columns[i as int] == self.columns@[i as int]@);
            let count = self.columns[i].slot_count();
            if count > max_slot_count_per_col {
                max_slot_count_per_col = count;
            }
            i += 1;
        }
        if self.row_count > max_slot_count_per_col {
            self.row_count
        } else {
            max_slot_count_per_col
        }
    }

    /// Lets go of what the real-time twin has handed back, and says how
    /// many commands there were: no more than the channel holds.
    pub fn process_commands(&mut self) -> (count: usize)
        ensures
            final(self)@ == old(self)@,
            count <= COLUMN_CHANNEL_CAPACITY,
    {
        let mut taken: usize = 0;
        while taken < COLUMN_CHANNEL_CAPACITY
            invariant
                taken <= COLUMN_CHANNEL_CAPACITY,
                *self == *old(self),
            decreases COLUMN_CHANNEL_CAPACITY - taken,
        {
            match try_receive(&self.command_receiver) {
                Some(MatrixCommand::ThrowAway(_)) => {},
                None => {
                    break ;
                },
            }
            taken += 1;
        }
        taken
    }

    /// Plays the clip of the slot: see `Slot::play`.
    pub fn play_clip(&mut self, coordinates: ClipSlotCoordinates, track: Option<TrackId>,
        options: SlotPlayOptions) -> (outcome: Result<SlotStep<ClipChangedEvent>, &'static str>)
        requires
            old(self).well_formed(),
        ensures
            final(self).well_formed(),
            match old(self)@.missing(coordinates) {
                Some(reason) => outcome == Err::<SlotStep<ClipChangedEvent>, &'static str>(reason)
                    && final(self)@ == old(self)@,
                None => ({
                    let (slot, step) = old(self)@.slot(coordinates)->Some_0.after_play(track,
                        options);
                    final(self)@ == old(self)@.with_slot(coordinates, slot) && outcome == Ok::<
                        SlotStep<ClipChangedEvent>,
                        &'static str,
                    >(step)
                }),
            },
    {
        let ghost before = self.columns@;
        let ghost views = column_views(before);
        match get_column_mut(&mut self.columns, coordinates.column()) {
            Ok(column) => {
                assert(views[coordinates.column_index() as int] == column@);
                let outcome = column.play_clip(coordinates.row(), track, options);
                proof {
                    replaced_column_view(before, coordinates.column_index() as int, *column);
                    assert(views.update(coordinates.column_index() as int,
                        views[coordinates.column_index() as int])
                        =~= views);
                }
                outcome
            },
            Err(reason) => Err(reason),
        }
    }

    /// Ends a play with the host's answer: see `Slot::complete_play`.
    pub fn complete_play(&mut self, coordinates: ClipSlotCoordinates, args: ClipPlayArgs,
        answer: Option<PreviewHandle>) -> (outcome: Result<ClipChangedEvent, &'static str>)
        requires
            old(self).well_formed(),
        ensures
            final(self).well_formed(),
            match old(self)@.missing(coordinates) {
                Some(reason) => outcome == Err::<ClipChangedEvent, &'static str>(reason)
                    && final(self)@ == old(self)@,
                None => ({
                    let (slot, result) = old(self)@.slot(coordinates)->Some_0.after_complete_play(
                        args,
                        answer,
                    );
                    final(self)@ == old(self)@.with_slot(coordinates, slot) && outcome == result
                }),
            },
    {
        let ghost before = self.columns@;
        let ghost views = column_views(before);
        match get_column_mut(&mut self.columns, coordinates.column()) {
            Ok(column) => {
                assert(views[coordinates.column_index() as int] == column@);
                let outcome = column.complete_play(coordinates.row(), args, answer);
                proof {
                    replaced_column_view(before, coordinates.column_index() as int, *column);
                    assert(views.update(coordinates.column_index() as int,
                        views[coordinates.column_index() as int])
                        =~= views);
                }
                outcome
            },
            Err(reason) => Err(reason),
        }
    }

    /// Stops the clip of the slot, at once or at the end of its source.
    pub fn stop_clip(&mut self, coordinates: ClipSlotCoordinates, immediately: bool)
        -> (outcome: Outcome<ClipChangedEvent>)
        requires
            old(self).well_formed(),
        ensures
            final(self).well_formed(),
            match old(self)@.missing(coordinates) {
                Some(reason) => outcome
                    == (Outcome { result: Err::<ClipChangedEvent, &'static str>(reason),
                        stop: None }) && final(self)@ == old(self)@,
                None => ({
                    let (slot,
                        result) = old(self)@.slot(coordinates)->Some_0.after_stop(immediately);
                    final(self)@ == old(self)@.with_slot(coordinates, slot) && outcome == result
                }),
            },
    {
        let ghost before = self.columns@;
        let ghost views = column_views(before);
        match get_column_mut(&mut self.columns, coordinates.column()) {
            Ok(column) => {
                assert(views[coordinates.column_index() as int] == column@);
                let outcome = column.stop_clip(coordinates.row(), immediately);
                proof {
                    replaced_column_view(before, coordinates.column_index() as int, *column);
                    assert(views.update(coordinates.column_index() as int,
                        views[coordinates.column_index() as int])
                        =~= views);
                }
                outcome
            },
            Err(reason) => Outcome { result: Err(reason), stop: None },
        }
    }

    /// Pauses the clip of the slot.
    pub fn pause_clip_legacy(&mut self, coordinates: ClipSlotCoordinates)
        -> (outcome: Outcome<ClipChangedEvent>)
        requires
            old(self).well_formed(),
        ensures
            final(self).well_formed(),
            match old(self)@.missing(coordinates) {
                Some(reason) => outcome
                    == (Outcome { result: Err::<ClipChangedEvent, &'static str>(reason),
                        stop: None }) && final(self)@ == old(self)@,
                None => ({
                    let (slot, result) = old(self)@.slot(coordinates)->Some_0.after_pause();
                    final(self)@ == old(self)@.with_slot(coordinates, slot) && outcome == result
                }),
            },
    {
        let ghost before = self.columns@;
        let ghost views = column_views(before);
        match get_column_mut(&mut self.columns, coordinates.column()) {
            Ok(column) => {
                assert(views[coordinates.column_index() as int] == column@);
                let outcome = column.pause_clip(coordinates.row());
                proof {
                    replaced_column_view(before, coordinates.column_index() as int, *column);
                    assert(views.update(coordinates.column_index() as int,
                        views[coordinates.column_index() as int])
                        =~= views);
                }
                outcome
            },
            Err(reason) => Outcome { result: Err(reason), stop: None },
        }
    }

    /// Moves the play position of the slot's clip to a part of its source.
    pub fn seek_clip_legacy(&mut self, coordinates: ClipSlotCoordinates, position: UnitValue)
        -> (outcome: Result<ClipChangedEvent, &'static str>)
        requires
            old(self).well_formed(),
        ensures
            final(self).well_formed(),
            match old(self)@.missing(coordinates) {
                Some(reason) => outcome == Err::<ClipChangedEvent, &'static str>(reason)
                    && final(self)@ == old(self)@,
                None => ({
                    let (slot, result) = old(self)@.slot(coordinates)->Some_0.after_seek(position);
                    final(self)@ == old(self)@.with_slot(coordinates, slot) && outcome == result
                }),
            },
    {
        let ghost before = self.columns@;
        let ghost views = column_views(before);
        match get_column_mut(&mut self.columns, coordinates.column()) {
            Ok(column) => {
                assert(views[coordinates.column_index() as int] == column@);
                let outcome = column.seek_clip(coordinates.row(), position);
                proof {
                    replaced_column_view(before, coordinates.column_index() as int, *column);
                    assert(views.update(coordinates.column_index() as int,
                        views[coordinates.column_index() as int])
                        =~= views);
                }
                outcome
            },
            Err(reason) => Err(reason),
        }
    }

    /// Sets the volume of the slot's clip.
    pub fn set_clip_volume(&mut self, coordinates: ClipSlotCoordinates, volume: Volume)
        -> (outcome: Result<ClipChangedEvent, &'static str>)
        requires
            old(self).well_formed(),
        ensures
            final(self).well_formed(),
            match old(self)@.missing(coordinates) {
                Some(reason) => outcome == Err::<ClipChangedEvent, &'static str>(reason)
                    && final(self)@ == old(self)@,
                None => ({
                    final(self)@ == old(self)@.with_slot(
                        coordinates,
                        old(self)@.slot(coordinates)->Some_0.after_set_volume(volume),
                    ) && outcome == Ok::<ClipChangedEvent, &'static str>(
                        ClipChangedEvent::ClipVolumeChanged(volume),
                    )
                }),
            },
    {
        let ghost before = self.columns@;
        let ghost views = column_views(before);
        match get_column_mut(&mut self.columns, coordinates.column()) {
            Ok(column) => {
                assert(views[coordinates.column_index() as int] == column@);
                let outcome = column.set_clip_volume(coordinates.row(), volume);
                proof {
                    replaced_column_view(before, coordinates.column_index() as int, *column);
                    assert(views.update(coordinates.column_index() as int,
                        views[coordinates.column_index() as int])
                        =~= views);
                }
                outcome
            },
            Err(reason) => Err(reason),
        }
    }

    /// Takes over the play position that the host has reached with the
    /// slot's clip.
    pub fn sync_clip_position(&mut self, coordinates: ClipSlotCoordinates, position_micros: i64)
        -> (outcome: Result<(), &'static str>)
        requires
            old(self).well_formed(),
        ensures
            final(self).well_formed(),
            match old(self)@.missing(coordinates) {
                Some(reason) => outcome == Err::<(), &'static str>(reason)
                    && final(self)@ == old(self)@,
                None => ({
                    final(self)@ == old(self)@.with_slot(
                        coordinates,
                        old(self)@.slot(coordinates)->Some_0.after_sync_position(position_micros),
                    ) && outcome == Ok::<(), &'static str>(())
                }),
            },
    {
        let ghost before = self.columns@;
        let ghost views = column_views(before);
        match get_column_mut(&mut self.columns, coordinates.column()) {
            Ok(column) => {
                assert(views[coordinates.column_index() as int] == column@);
                let outcome = column.sync_slot_position(coordinates.row(), position_micros);
                proof {
                    replaced_column_view(before, coordinates.column_index() as int, *column);
                    assert(views.update(coordinates.column_index() as int,
                        views[coordinates.column_index() as int])
                        =~= views);
                }
                outcome
            },
            Err(reason) => Err(reason),
        }
    }

    /// The play position of the slot's clip, in microseconds.
    pub fn clip_position_in_seconds(&self, coordinates: ClipSlotCoordinates)
        -> (outcome: Result<i64, &'static str>)
        ensures
            outcome == match self@.missing(coordinates) {
                Some(reason) => Err::<i64, &'static str>(reason),
                None => Ok::<i64,
                    &'static str>(self@.slot(coordinates)->Some_0.register.position_micros),
            },
    {
        match get_column(&self.columns, coordinates.column()) {
            Ok(column) => {
                assert(self@.columns[coordinates.column_index() as int] == column@);
                column.clip_position_micros(coordinates.row())
            },
            Err(reason) => Err(reason),
        }
    }

    /// The play state of the slot's clip: what the real-time twin reported
    /// last, or what the slot's own state has shown since.
    pub fn clip_play_state(&self, coordinates: ClipSlotCoordinates)
        -> (outcome: Result<ClipPlayState, &'static str>)
        ensures
            outcome == match self@.missing(coordinates) {
                Some(reason) => Err::<ClipPlayState, &'static str>(reason),
                None => Ok::<ClipPlayState, &'static str>(
                    self@.slot(coordinates)->Some_0.play_state,
                ),
            },
    {
        match get_column(&self.columns, coordinates.column()) {
            Ok(column) => {
                assert(self@.columns[coordinates.column_index() as int] == column@);
                column.clip_play_state(coordinates.row())
            },
            Err(reason) => Err(reason),
        }
    }

    /// Whether the slot's clip repeats.
    pub fn clip_repeated(&self, coordinates: ClipSlotCoordinates)
        -> (outcome: Result<bool, &'static str>)
        ensures
            outcome == match self@.missing(coordinates) {
                Some(reason) => Err::<bool, &'static str>(reason),
                None => Ok::<bool, &'static str>(self@.slot(coordinates)->Some_0.descriptor.repeat),
            },
    {
        match get_column(&self.columns, coordinates.column()) {
            Ok(column) => {
                assert(self@.columns[coordinates.column_index() as int] == column@);
                column.clip_repeated(coordinates.row())
            },
            Err(reason) => Err(reason),
        }
    }

    /// The volume of the slot's clip.
    pub fn clip_volume(&self, coordinates: ClipSlotCoordinates)
        -> (outcome: Result<Volume, &'static str>)
        ensures
            outcome == match self@.missing(coordinates) {
                Some(reason) => Err::<Volume, &'static str>(reason),
                None => Ok::<Volume,
                    &'static str>(self@.slot(coordinates)->Some_0.descriptor.volume),
            },
    {
        match get_column(&self.columns, coordinates.column()) {
            Ok(column) => {
                assert(self@.columns[coordinates.column_index() as int] == column@);
                column.clip_volume(coordinates.row())
            },
            Err(reason) => Err(reason),
        }
    }

    /// Which part of its source the slot's clip has played.
    pub fn proportional_clip_position(&self, coordinates: ClipSlotCoordinates)
        -> (outcome: Result<UnitValue, &'static str>)
        ensures
            outcome == match self@.missing(coordinates) {
                Some(reason) => Err::<UnitValue, &'static str>(reason),
                None => self@.slot(coordinates)->Some_0.proportional_position(),
            },
            outcome matches Ok(value) ==> value.billionths()
                == crate::slot_state::register_proportion(
                self@.slot(coordinates)->Some_0.register,
            ),
    {
        match get_column(&self.columns, coordinates.column()) {
            Ok(column) => {
                assert(self@.columns[coordinates.column_index() as int] == column@);
                column.proportional_clip_position(coordinates.row())
            },
            Err(reason) => Err(reason),
        }
    }

    /// Turns the repeating of the slot's clip on or off and tells the
    /// handler.
    pub fn toggle_looped(&mut self, coordinates: ClipSlotCoordinates) -> (outcome: Result<
        (),
        &'static str,
    >)
        requires
            old(self).well_formed(),
        ensures
            final(self).well_formed(),
            match old(self)@.missing(coordinates) {
                Some(reason) => outcome == Err::<(), &'static str>(reason)
                    && final(self)@ == old(self)@,
                None => final(self)@ == old(self)@.with_slot(
                    coordinates,
                    old(self)@.slot(coordinates)->Some_0.after_toggle_repeat(),
                ) && outcome == Ok::<(), &'static str>(()),
            },
    {
        let ghost before = self.columns@;
        let ghost views = column_views(before);
        let toggled = match get_column_mut(&mut self.columns, coordinates.column()) {
            Ok(column) => {
                assert(views[coordinates.column_index() as int] == column@);
                let toggled = column.toggle_clip_looped(coordinates.row());
                proof {
                    replaced_column_view(before, coordinates.column_index() as int, *column);
                    assert(views.update(coordinates.column_index() as int,
                        views[coordinates.column_index() as int])
                        =~= views);
                }
                toggled
            },
            Err(reason) => Err(reason),
        };
        match toggled {
            Ok(event) => {
                self.handler.emit_event(
                    ClipMatrixEvent::ClipChanged(
                        QualifiedClipChangedEvent {
                            slot_coordinates: coordinates,
                            event: SlotChangeEvent::Clip(event),
                        },
                    ),
                );
                Ok(())
            },
            Err(reason) => Err(reason),
        }
    }

    /// Puts a clip into the slot at the coordinates: see
    /// `Column::fill_slot_with_clip`.
    pub fn fill_slot_with_clip(
        &mut self,
        coordinates: ClipSlotCoordinates,
        content: SlotContent,
        source: ClipSource,
        mode: FillClipMode,
    ) -> (outcome: Result<SlotChangeEvent, &'static str>)
        requires
            old(self).well_formed(),
            coordinates.row_index() < usize::MAX,
        ensures
            final(self).well_formed(),
            coordinates.column_index() >= old(self)@.columns.len() ==> outcome == Err::<
                SlotChangeEvent,
                &'static str,
            >(NO_SUCH_COLUMN) && final(self)@ == old(self)@,
            coordinates.column_index() < old(self)@.columns.len() ==> ({
                let (column,
                    result) = old(self)@.columns[coordinates.column_index() as int].after_fill(
                    coordinates.row_index(),
                    content,
                    source,
                    mode,
                );
                final(self)@ == old(self)@.with_column(coordinates.column_index() as int, column)
                    && outcome == result
            }),
    {
        let ghost before = self.columns@;
        let ghost views = column_views(before);
        match get_column_mut(&mut self.columns, coordinates.column()) {
            Ok(column) => {
                assert(views[coordinates.column_index() as int] == column@);
                let outcome = column.fill_slot_with_clip(coordinates.row(), content, source, mode);
                proof {
                    replaced_column_view(before, coordinates.column_index() as int, *column);
                }
                outcome
            },
            Err(reason) => Err(reason),
        }
    }

    /// Requests a recording into the slot at the coordinates: see
    /// `Column::record_slot`.
    pub fn record_clip(&mut self, coordinates: ClipSlotCoordinates) -> (outcome: Result<
        (),
        &'static str,
    >)
        requires
            old(self).well_formed(),
            coordinates.row_index() < usize::MAX,
        ensures
            final(self).well_formed(),
            coordinates.column_index() >= old(self)@.columns.len() ==> outcome == Err::<
                (),
                &'static str,
            >(NO_SUCH_COLUMN) && final(self)@ == old(self)@,
            coordinates.column_index() < old(self)@.columns.len() ==> ({
                let (column,
                    result) = old(self)@.columns[coordinates.column_index() as int].after_record(
                    coordinates.row_index(),
                );
                final(self)@ == old(self)@.with_column(coordinates.column_index() as int, column)
                    && outcome == result
            }),
    {
        let ghost before = self.columns@;
        let ghost views = column_views(before);
        match get_column_mut(&mut self.columns, coordinates.column()) {
            Ok(column) => {
                assert(views[coordinates.column_index() as int] == column@);
                let outcome = column.record_slot(coordinates.row());
                proof {
                    replaced_column_view(before, coordinates.column_index() as int, *column);
                    crate::column::upsized_in_order(
                        views[coordinates.column_index() as int].slots,
                        (coordinates.row_index() + 1) as nat,
                    );
                }
                outcome
            },
            Err(reason) => Err(reason),
        }
    }
}

/// Whether a poll of a matrix may have left it as `after` and found this:
/// it has, where every column was polled, the columns are as their polls
/// left them, and what was found is what the columns found, one column after
/// the other.
pub open spec fn matrix_polled(before: MatrixView, after: MatrixView, found: Gathered) -> bool {
    exists|columns: Seq<Drained>|
        {
            &&& columns.len() == before.columns.len()
            &&& after == (MatrixView { columns: after.columns, ..before })
            &&& after.columns.len() == before.columns.len()
            &&& forall|i: int|
                0 <= i < columns.len() ==> polled(before.columns[i], #[trigger] columns[i])
                    && after.columns[i] == (ColumnView {
                    slots: columns[i].slots,
                    ..before.columns[i]
                })
            &&& found == #[trigger] gathered(columns, columns.len())
        }
}

/// What the first columns have found does not depend on the columns behind
/// them.
pub proof fn gathered_of_prefix(first: Seq<Drained>, second: Seq<Drained>, count: nat)
    requires
        count <= first.len(),
        count <= second.len(),
        forall|i: int| 0 <= i < count ==> first[i] == second[i],
    ensures
        gathered(first, count) == gathered(second, count),
    decreases count,
{
    if count > 0 {
        gathered_of_prefix(first, second, (count - 1) as nat);
    }
}

/// What is saved of a column.
pub open spec fn column_saved(column: ColumnView, descriptor: ColumnDescriptor) -> bool {
    &&& descriptor.track == match column.playback {
        Some(track) => track,
        None => None,
    }
    &&& descriptor.settings == column.settings
    &&& descriptor.rt_settings == column.rt_settings
    &&& descriptor.slots@ == crate::column::saved_slots(column.slots, column.slots.len())
}

/// The column that is loaded from what was saved of one.
pub open spec fn column_loaded(descriptor: ColumnDescriptor, project: Option<ProjectId>)
    -> ColumnView {
    ColumnView {
        settings: descriptor.settings,
        rt_settings: descriptor.rt_settings,
        playback: Some(descriptor.track),
        slots: crate::column::loaded_slots(
            Seq::empty(),
            descriptor.slots@,
            descriptor.slots@.len(),
        ),
        project,
    }
}

/// Whether every slot of what was saved has a row that a column can have.
pub open spec fn loadable(descriptor: ColumnDescriptor) -> bool {
    forall|i: int| 0 <= i < descriptor.slots@.len() ==> (#[trigger] descriptor.slots@[i]).row
        < usize::MAX
}

impl<H: ClipMatrixHandler> Matrix<H> {
    /// Lets go of what the real-time twin has handed back, polls every
    /// column, and gives what the columns found, each change with the
    /// coordinates of its slot.
    pub fn poll(&mut self) -> (found: MatrixPoll)
        requires
            old(self).well_formed(),
        ensures
            final(self).well_formed(),
            matrix_polled(old(self)@, final(self)@, found.gathered()),
    {
        let _ = self.process_commands();
        let mut found = MatrixPoll { events: Vec::new(), stops: Vec::new(), failures: Vec::new() };
        let ghost mut drains: Seq<Drained> = Seq::empty();
        let count = self.columns.len();
        assert(texts(found.failures@) =~= Seq::empty());
        let mut i: usize = 0;
        while i < count
            invariant
                i <= count,
                count == self.columns@.len(),
                count == old(self)@.columns.len(),
                drains.len() == i,
                self@ == (MatrixView { columns: self@.columns, ..old(self)@ }),
                forall|k: int| i <= k < count
                    ==> (#[trigger] self@.columns[k]) == old(self)@.columns[k],
                forall|k: int| 0 <= k < count ==> (#[trigger] self@.columns[k]).well_formed(),
                forall|k: int|
                    0 <= k < i ==> polled(old(self)@.columns[k], #[trigger] drains[k])
                        && self@.columns[k] == (ColumnView {
                        slots: drains[k].slots,
                        ..old(self)@.columns[k]
                    }),
                found.gathered() == gathered(drains, i as nat),
            decreases count - i,
        {
            let ghost before = self.columns@;
            let ghost views = column_views(before);
            assert(views[i as int] == before[i as int]@);
            let column = &mut self.columns[i];
            let mut column_found = column.poll();
            let ghost drained = column_found.with_slots(column@.slots);
            proof {
                replaced_column_view(before, i as int, *column);
                gathered_of_prefix(drains, drains.push(drained), i as nat);
                drains = drains.push(drained);
            }
            let ghost base = found.events@;
            let ghost stops_before = found.stops@;
            let ghost failures_before = found.failures@;
            let mut j: usize = 0;
            while j < column_found.events.len()
                invariant
                    j <= column_found.events@.len(),
                    found.events@
                        == base + qualified(i, column_found.events@.subrange(0, j as int)),
                    found.stops@ == stops_before,
                    found.failures@ == failures_before,
                decreases column_found.events@.len() - j,
            {
                let (row, event) = column_found.events[j];
                found.events.push(
                    ClipMatrixEvent::ClipChanged(
                        QualifiedClipChangedEvent {
                            slot_coordinates: ClipSlotCoordinates::new(i, row),
                            event,
                        },
                    ),
                );
                assert(found.events@ =~= base + qualified(
                    i,
                    column_found.events@.subrange(0, j + 1),
                ));
                j += 1;
            }
            assert(column_found.events@.subrange(0, j as int) =~= column_found.events@);
            let ghost failures = found.failures@;
            let ghost column_failures = column_found.failures@;
            found.stops.append(&mut column_found.stops);
            found.failures.append(&mut column_found.failures);
            assert(texts(found.failures@) =~= texts(failures) + texts(column_failures));
            i += 1;
        }
        found
    }

    /// What is to be saved of the matrix: its settings, the number of rows
    /// that was set, and what is to be saved of each column.
    pub fn save(&self) -> (descriptor: MatrixDescriptor)
        ensures
            descriptor.settings == self@.settings,
            descriptor.rt_settings == self@.rt_settings,
            descriptor.row_count == self@.rows,
            descriptor.columns@.len() == self@.columns.len(),
            forall|i: int|
                0 <= i < self@.columns.len() ==> column_saved(
                    self@.columns[i],
                    #[trigger] descriptor.columns@[i],
                ),
    {
        let mut columns: Vec<ColumnDescriptor> = Vec::new();
        let mut i: usize = 0;
        while i < self.columns.len()
            invariant
                i <= self.columns@.len(),
                columns@.len() == i,
                forall|k: int|
                    0 <= k < i ==> column_saved(self@.columns[k], #[trigger] columns@[k]),
            decreases self.columns@.len() - i,
        {
            assert(self@.columns[i as int] == self.columns@[i as int]@);
            columns.push(self.columns[i].save());
            i += 1;
        }
        MatrixDescriptor {
            columns,
            row_count: self.row_count,
            settings: self.settings,
            rt_settings: self.rt_settings,
        }
    }

    /// Removes all columns and loads the matrix from what was saved of one,
    /// tells the real-time twin of every column and the handler that all
    /// clips have changed, and gives the previews that the host has to stop.
    pub fn load(&mut self, descriptor: &MatrixDescriptor) -> (stops: Vec<StopPreview>)
        requires
            forall|i: int| 0 <= i < descriptor.columns@.len()
                ==> loadable(#[trigger] descriptor.columns@[i]),
        ensures
            final(self).well_formed(),
            final(self)@.settings == descriptor.settings,
            final(self)@.rt_settings == descriptor.rt_settings,
            final(self)@.rows == descriptor.row_count,
            final(self)@.containing_track == old(self)@.containing_track,
            final(self)@.project == old(self)@.project,
            final(self)@.columns.len() == descriptor.columns@.len(),
            forall|i: int|
                0 <= i < descriptor.columns@.len() ==> (#[trigger] final(self)@.columns[i])
                    == column_loaded(descriptor.columns@[i], old(self)@.project),
            stops@ == playing_previews(old(self)@.columns, old(self)@.columns.len()),
    {
        let stops = self.clear_columns();
        assert(column_views(self.columns@).len() == self.columns@.len());
        let permanent_project = self.project;
        self.settings = descriptor.settings;
        self.rt_settings = descriptor.rt_settings;
        let _ = try_send(&self.rt_command_sender,
            RtMatrixCommand::UpdateSettings(self.rt_settings));
        let mut i: usize = 0;
        while i < descriptor.columns.len()
            invariant
                i <= descriptor.columns@.len(),
                self.columns@.len() == i,
                self.settings == descriptor.settings,
                self.rt_settings == descriptor.rt_settings,
                self.row_count == old(self).row_count,
                self.containing_track == old(self).containing_track,
                self.project == old(self).project,
                permanent_project == old(self).project,
                self.well_formed(),
                forall|k: int|
                    0 <= k < descriptor.columns@.len()
                        ==> loadable(#[trigger] descriptor.columns@[k]),
                forall|k: int|
                    0 <= k < i ==> (#[trigger] self@.columns[k]) == column_loaded(
                        descriptor.columns@[k],
                        permanent_project,
                    ),
            decreases descriptor.columns@.len() - i,
        {
            let (mut column, twin) = Column::new(permanent_project);
            assert(loadable(descriptor.columns@[i as int]));
            let _ = column.load(&descriptor.columns[i]);
            let _ = try_send(&self.rt_command_sender, RtMatrixCommand::InsertColumn(i, twin));
            let ghost before = self.columns@;
            let ghost views = self@.columns;
            assert(views == column_views(before));
            let ghost loaded = column@;
            assert(loaded.well_formed());
            assert(loaded == column_loaded(descriptor.columns@[i as int], permanent_project));
            self.columns.push(column);
            assert(self.columns@[i as int]@ == loaded);
            assert(forall|k: int| 0 <= k < i ==> self.columns@[k] == before[k]);
            assert forall|k: int| 0 <= k < i + 1 implies (#[trigger] self@.columns[k]).well_formed()
                && self@.columns[k] == column_loaded(descriptor.columns@[k], permanent_project) by {
                if k < i {
                    assert(views[k].well_formed());
                    assert(views[k] == column_loaded(descriptor.columns@[k], permanent_project));
                    assert(self@.columns[k] == views[k]);
                } else {
                    assert(self@.columns[k] == loaded);
                }
            }
            i += 1;
        }
        let ghost views = self@.columns;
        self.row_count = descriptor.row_count;
        self.handler.emit_event(ClipMatrixEvent::AllClipsChanged);
        assert(self@.columns == views);
        assert forall|k: int| 0 <= k < descriptor.columns@.len() implies (
        #[trigger] self@.columns[k]) == column_loaded(descriptor.columns@[k], permanent_project)
            && self@.columns[k].well_formed() by {
            assert(views[k].well_formed());
            assert(views[k] == column_loaded(descriptor.columns@[k], permanent_project));
        }
        stops
    }
}

} // verus!
