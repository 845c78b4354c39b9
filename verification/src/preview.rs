//! What the engine and its host share about one preview: the register that
//! the host plays from, and the requests to start and to stop playing it.
//! Times are in microseconds.
use vstd::prelude::*;

verus! {

/// A track of the host's project, by the number that stays its own when
/// tracks are moved: its GUID.
#[derive(Copy, Clone, PartialEq, Eq, Hash, Debug)]
pub struct TrackId(pub u128);

/// A preview that the host is playing.
#[derive(Copy, Clone, PartialEq, Eq, Hash, Debug)]
pub struct PreviewHandle(pub u64);

/// A gain factor in millionths: a million leaves the level as it is.
#[derive(Copy, Clone, PartialEq, Eq, Debug)]
pub struct Volume {
    pub micro_gain: u64,
}

/// The gain that leaves the level as it is.
pub const ZERO_DB_MICRO_GAIN: u64 = 1_000_000;

impl Volume {
    /// The volume of zero decibels.
    pub fn zero_db() -> (volume: Self)
        ensures
            volume.micro_gain == ZERO_DB_MICRO_GAIN,
    {
        Volume { micro_gain: ZERO_DB_MICRO_GAIN }
    }
}

/// What the engine knows of a loaded source.
#[derive(Clone, PartialEq, Eq, Debug)]
pub struct ClipSource {
    /// The kind of source, such as "WAVE" or "MIDI".
    pub kind: String,
    pub file_name: Option<String>,
    /// The length in microseconds, where the source has one.
    pub length_micros: Option<u64>,
}

impl ClipSource {
    /// A copy.
    pub fn duplicate(&self) -> (copy: Self)
        ensures
            copy == *self,
    {
        ClipSource {
            kind: self.kind.clone(),
            file_name: match &self.file_name {
                Some(name) => Some(name.clone()),
                None => None,
            },
            length_micros: self.length_micros,
        }
    }
}

/// The output channel of a register whose preview goes to a track.
pub const OUT_CHAN_TRACK: i32 = -1;

/// The register of one preview: what the host plays, where, and how.
#[derive(Clone, PartialEq, Eq, Debug)]
pub struct PreviewRegister {
    pub volume: Volume,
    /// The output channel, or -1 where the preview goes to a track.
    pub out_chan: i32,
    pub preview_track: Option<TrackId>,
    pub source: Option<ClipSource>,
    /// The play position in microseconds, which the host moves on.
    pub position_micros: i64,
    pub looped: bool,
}

impl PreviewRegister {
    /// The register of a slot that has nothing loaded.
    pub open spec fn fresh(volume: Volume) -> Self {
        PreviewRegister {
            volume,
            out_chan: OUT_CHAN_TRACK,
            preview_track: None,
            source: None,
            position_micros: 0,
            looped: false,
        }
    }

    /// A register with the given volume that routes to a track and has
    /// nothing loaded.
    pub fn new(volume: Volume) -> (register: Self)
        ensures
            register == Self::fresh(volume),
    {
        PreviewRegister {
            volume,
            out_chan: OUT_CHAN_TRACK,
            preview_track: None,
            source: None,
            position_micros: 0,
            looped: false,
        }
    }
}

/// A request to the host to start playing a register.
#[derive(Copy, Clone, PartialEq, Eq, Debug)]
pub struct StartPreview {
    /// The track to play through, if any.
    pub track: Option<TrackId>,
    /// Whether the host is to buffer the source.
    pub buffered: bool,
    /// Whether to start with the next measure rather than at once.
    pub align_with_measure_start: bool,
}

/// A request to the host to stop a preview.
#[derive(Copy, Clone, PartialEq, Eq, Debug)]
pub struct StopPreview {
    pub handle: PreviewHandle,
    /// The track that the preview plays through, if any.
    pub track: Option<TrackId>,
}

/// The state of the host's transport.
#[derive(Copy, Clone, PartialEq, Eq, Debug)]
pub struct TransportState {
    pub is_playing: bool,
    pub is_paused: bool,
    pub is_recording: bool,
}

/// Whether two optional tracks are the same.
pub fn same_track(first: Option<TrackId>, second: Option<TrackId>) -> (same: bool)
    ensures
        same == (first == second),
{
    match first {
        None => second.is_none(),
        Some(a) => match second {
            None => false,
            Some(b) => a.0 == b.0,
        },
    }
}

} // verus!
