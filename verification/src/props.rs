//! What a change to a model touches, and how much that matters to the
//! processing side.
use vstd::prelude::*;

verus! {

/// Which properties a change may have touched.
pub enum Affected<T> {
    /// Just the given property might be affected.
    One(T),
    /// Multiple properties might be affected.
    Multiple,
}

/// How relevant a change to a model object is for the processing side. The
/// lower level comes first.
#[derive(Copy, Clone, Eq, PartialEq, Ord, PartialOrd, Debug)]
pub enum ProcessingRelevance {
    /// The persistent processing state has to be synced.
    PersistentProcessingRelevant,
    /// The complete state has to be synced.
    ProcessingRelevant,
}

/// A property that knows how relevant it is for processing.
pub trait GetProcessingRelevance {
    /// How relevant a change of the property is: not at all, unless the
    /// property says otherwise.
    open spec fn relevance(&self) -> Option<ProcessingRelevance> {
        None
    }

    /// How relevant a change of the property is, if it is relevant at all.
    fn processing_relevance(&self) -> (relevance: Option<ProcessingRelevance>)
        ensures
            relevance == self.relevance(),
    ;
}

/// A model that changes on command and says what the change may have
/// touched.
pub trait Change {
    type Command;

    type Prop;

    fn change(&mut self, val: Self::Command) -> Result<Affected<Self::Prop>, String>;
}

impl<T: GetProcessingRelevance> Affected<T> {
    /// How relevant the change is: as relevant as the one property, and
    /// fully relevant where several are touched.
    pub open spec fn relevance(&self) -> Option<ProcessingRelevance> {
        match self {
            Affected::One(prop) => prop.relevance(),
            Affected::Multiple => Some(ProcessingRelevance::ProcessingRelevant),
        }
    }

    pub fn processing_relevance(&self) -> (relevance: Option<ProcessingRelevance>)
        ensures
            relevance == self.relevance(),
    {
        match self {
            Affected::One(prop) => prop.processing_relevance(),
            Affected::Multiple => Some(ProcessingRelevance::ProcessingRelevant),
        }
    }
}

/// The properties of a mode.
#[derive(Copy, Clone, PartialEq, Eq, Debug)]
pub enum ModeProp {
    AbsoluteMode,
    TargetValueInterval,
    SourceValueInterval,
    Reverse,
    PressDurationInterval,
    TurboRate,
    JumpInterval,
    OutOfRangeBehavior,
    FireMode,
    RoundTargetValue,
    TakeoverMode,
    ButtonUsage,
    EncoderUsage,
    EelControlTransformation,
    EelFeedbackTransformation,
    StepInterval,
    Rotate,
    MakeAbsolute,
    GroupInteraction,
    TargetValueSequence,
    FeedbackType,
    TextualFeedbackExpression,
    FeedbackColor,
    FeedbackBackgroundColor,
}

impl GetProcessingRelevance for ModeProp {
    /// All aspects of a mode are relevant for processing.
    open spec fn relevance(&self) -> Option<ProcessingRelevance> {
        Some(ProcessingRelevance::ProcessingRelevant)
    }

    fn processing_relevance(&self) -> (relevance: Option<ProcessingRelevance>) {
        Some(ProcessingRelevance::ProcessingRelevant)
    }
}

} // verus!
