//! The settings of a matrix and of its columns. A column's settings take the
//! place of the matrix's where they are set.
use crate::preview::TrackId;
use crate::resampler::VirtualResampleMode;
use vstd::prelude::*;

verus! {

/// Whether playing a slot of a column stops the others, and whether the
/// column plays along with a scene.
#[derive(Copy, Clone, PartialEq, Eq, Debug)]
pub enum ColumnPlayMode {
    ExclusiveIgnoringScene,
    ExclusiveFollowingScene,
    NonExclusiveIgnoringScene,
    NonExclusiveFollowingScene,
}

impl ColumnPlayMode {
    pub open spec fn follows(self) -> bool {
        self is ExclusiveFollowingScene || self is NonExclusiveFollowingScene
    }

    pub open spec fn exclusive(self) -> bool {
        self is ExclusiveIgnoringScene || self is ExclusiveFollowingScene
    }

    /// Whether only one slot of the column plays at a time.
    pub fn is_exclusive(&self) -> (exclusive: bool)
        ensures
            exclusive == self.exclusive(),
    {
        match self {
            ColumnPlayMode::ExclusiveIgnoringScene => true,
            ColumnPlayMode::ExclusiveFollowingScene => true,
            _ => false,
        }
    }

    /// Whether the column plays along when a scene is played.
    pub fn follows_scene(&self) -> (follows: bool)
        ensures
            follows == self.follows(),
    {
        match self {
            ColumnPlayMode::ExclusiveFollowingScene => true,
            ColumnPlayMode::NonExclusiveFollowingScene => true,
            _ => false,
        }
    }
}

impl Default for ColumnPlayMode {
    fn default() -> (mode: Self)
        ensures
            mode == ColumnPlayMode::ExclusiveFollowingScene,
    {
        ColumnPlayMode::ExclusiveFollowingScene
    }
}

/// How audio is played at another tempo.
#[derive(Copy, Clone, PartialEq, Eq, Debug)]
pub enum AudioTimeStretchMode {
    /// Faster or slower, and with it higher or lower.
    VariSpeed,
    KeepingPitch,
}

/// Where audio is played from.
#[derive(Copy, Clone, PartialEq, Eq, Debug)]
pub enum AudioCacheBehavior {
    DirectFromDisk,
    CacheInMemory,
}

/// When a clip starts to play.
#[derive(Copy, Clone, PartialEq, Eq, Debug)]
pub enum ClipPlayStartTiming {
    Immediately,
    /// With the next bar.
    Quantized,
}

/// When a clip stops.
#[derive(Copy, Clone, PartialEq, Eq, Debug)]
pub enum ClipPlayStopTiming {
    LikeClipStartTiming,
    Immediately,
    /// With the next bar.
    Quantized,
    UntilEndOfClip,
}

/// The range of tempos that clips are made to play well in, in thousandths
/// of a beat per minute.
#[derive(Copy, Clone, PartialEq, Eq, Debug)]
pub struct TempoRange {
    pub min_millibpm: u64,
    pub max_millibpm: u64,
}

/// How a matrix records clips.
#[derive(Copy, Clone, PartialEq, Eq, Debug)]
pub struct MatrixClipRecordSettings {
    pub looped: bool,
    pub lead_tempo: bool,
    pub detect_downbeat: bool,
    pub detect_input: bool,
    pub auto_quantize: bool,
}

/// How a column records clips.
#[derive(Copy, Clone, PartialEq, Eq, Debug)]
pub struct ColumnClipRecordSettings {
    /// The track to record from, where it is not the track that plays.
    pub track: Option<TrackId>,
}

/// The settings of a column that stay on the main thread.
#[derive(Copy, Clone, PartialEq, Eq, Debug)]
pub struct ColumnSettings {
    pub clip_record_settings: ColumnClipRecordSettings,
}

/// The settings of a column that its real-time twin plays by. What is not
/// set is as the matrix has it.
#[derive(Copy, Clone, PartialEq, Eq, Debug)]
pub struct RtColumnSettings {
    pub audio_resample_mode: Option<VirtualResampleMode>,
    pub audio_time_stretch_mode: Option<AudioTimeStretchMode>,
    pub audio_cache_behavior: Option<AudioCacheBehavior>,
    pub play_mode: ColumnPlayMode,
    pub clip_play_start_timing: Option<ClipPlayStartTiming>,
    pub clip_play_stop_timing: Option<ClipPlayStopTiming>,
}

/// The settings of a matrix that a column can set for itself.
#[derive(Copy, Clone, PartialEq, Eq, Debug)]
pub struct OverridableMatrixSettings {
    pub audio_resample_mode: VirtualResampleMode,
    pub audio_time_stretch_mode: AudioTimeStretchMode,
    pub audio_cache_behavior: AudioCacheBehavior,
}

/// The settings of a matrix that stay on the main thread.
#[derive(Copy, Clone, PartialEq, Eq, Debug)]
pub struct MatrixSettings {
    pub common_tempo_range: TempoRange,
    pub overridable: OverridableMatrixSettings,
    pub clip_record_settings: MatrixClipRecordSettings,
}

/// The settings of a matrix that its real-time twin plays by.
#[derive(Copy, Clone, PartialEq, Eq, Debug)]
pub struct RtMatrixSettings {
    pub clip_play_start_timing: ClipPlayStartTiming,
    pub clip_play_stop_timing: ClipPlayStopTiming,
}

impl ColumnSettings {
    pub open spec fn initial() -> Self {
        ColumnSettings { clip_record_settings: ColumnClipRecordSettings { track: None } }
    }
}

impl Default for ColumnSettings {
    fn default() -> (settings: Self)
        ensures
            settings == ColumnSettings::initial(),
    {
        ColumnSettings { clip_record_settings: ColumnClipRecordSettings { track: None } }
    }
}

impl RtColumnSettings {
    pub open spec fn initial() -> Self {
        RtColumnSettings {
            audio_resample_mode: None,
            audio_time_stretch_mode: None,
            audio_cache_behavior: None,
            play_mode: ColumnPlayMode::ExclusiveFollowingScene,
            clip_play_start_timing: None,
            clip_play_stop_timing: None,
        }
    }
}

impl Default for RtColumnSettings {
    fn default() -> (settings: Self)
        ensures
            settings == RtColumnSettings::initial(),
    {
        RtColumnSettings {
            audio_resample_mode: None,
            audio_time_stretch_mode: None,
            audio_cache_behavior: None,
            play_mode: ColumnPlayMode::ExclusiveFollowingScene,
            clip_play_start_timing: None,
            clip_play_stop_timing: None,
        }
    }
}

impl MatrixSettings {
    pub open spec fn initial() -> Self {
        MatrixSettings {
            common_tempo_range: TempoRange { min_millibpm: 60_000, max_millibpm: 200_000 },
            overridable: OverridableMatrixSettings {
                audio_resample_mode: VirtualResampleMode::ProjectDefault,
                audio_time_stretch_mode: AudioTimeStretchMode::VariSpeed,
                audio_cache_behavior: AudioCacheBehavior::DirectFromDisk,
            },
            clip_record_settings: MatrixClipRecordSettings {
                looped: false,
                lead_tempo: false,
                detect_downbeat: false,
                detect_input: false,
                auto_quantize: false,
            },
        }
    }
}

impl Default for MatrixSettings {
    fn default() -> (settings: Self)
        ensures
            settings == MatrixSettings::initial(),
    {
        MatrixSettings {
            common_tempo_range: TempoRange { min_millibpm: 60_000, max_millibpm: 200_000 },
            overridable: OverridableMatrixSettings {
                audio_resample_mode: VirtualResampleMode::ProjectDefault,
                audio_time_stretch_mode: AudioTimeStretchMode::VariSpeed,
                audio_cache_behavior: AudioCacheBehavior::DirectFromDisk,
            },
            clip_record_settings: MatrixClipRecordSettings {
                looped: false,
                lead_tempo: false,
                detect_downbeat: false,
                detect_input: false,
                auto_quantize: false,
            },
        }
    }
}

impl RtMatrixSettings {
    pub open spec fn initial() -> Self {
        RtMatrixSettings {
            clip_play_start_timing: ClipPlayStartTiming::Immediately,
            clip_play_stop_timing: ClipPlayStopTiming::LikeClipStartTiming,
        }
    }
}

impl Default for RtMatrixSettings {
    fn default() -> (settings: Self)
        ensures
            settings == RtMatrixSettings::initial(),
    {
        RtMatrixSettings {
            clip_play_start_timing: ClipPlayStartTiming::Immediately,
            clip_play_stop_timing: ClipPlayStopTiming::LikeClipStartTiming,
        }
    }
}

} // verus!
