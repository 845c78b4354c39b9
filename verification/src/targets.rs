//! Targets that a controller can be mapped to. The one here sets and shows
//! the volume of the clip in a slot of a column.
use crate::column::Column;
use crate::preview::Volume;
use crate::slot_state::ClipChangedEvent;
use vstd::prelude::*;

verus! {

/// What an instance lets its targets know.
#[derive(Copy, Clone, PartialEq, Eq, Debug)]
pub enum InstanceFeedbackEvent {
    ClipChanged { slot_index: usize, event: ClipChangedEvent },
    /// Something that no clip target shows.
    Other,
}

/// The volume of the clip in a slot.
#[derive(Copy, Clone, Debug, PartialEq, Eq)]
pub struct ClipVolumeTarget {
    pub slot_index: usize,
}

impl ClipVolumeTarget {
    /// The volume that a control value stands for: silence where it stands
    /// for none.
    pub open spec fn controlled_volume(volume: Option<Volume>) -> Volume {
        match volume {
            Some(volume) => volume,
            None => Volume { micro_gain: 0 },
        }
    }

    /// What an event means for the target: a new volume of its slot is a new
    /// value, and nothing else is.
    pub open spec fn value_after(&self, evt: InstanceFeedbackEvent) -> (bool, Option<Volume>) {
        match evt {
            InstanceFeedbackEvent::ClipChanged {
                slot_index,
                event: ClipChangedEvent::ClipVolumeChanged(new_value),
            } => if slot_index == self.slot_index {
                (true, Some(new_value))
            } else {
                (false, None)
            },
            _ => (false, None),
        }
    }

    pub fn value_unit(&self) -> (unit: &'static str)
        ensures
            unit == "dB",
    {
        "dB"
    }

    pub fn is_available(&self) -> (available: bool)
        ensures
            available,
    {
        true
    }

    /// Sets the volume of the clip in the target's slot.
    pub fn control(&self, volume: Option<Volume>, column: &mut Column) -> (outcome: Result<
        (),
        &'static str,
    >)
        requires
            old(column).well_formed(),
        ensures
            final(column).well_formed(),
            self.slot_index >= old(column)@.slots.len() ==> outcome == Err::<(), &'static str>(
                crate::column::SLOT_DOESNT_EXIST,
            ) && final(column)@ == old(column)@,
            self.slot_index < old(column)@.slots.len() ==> outcome == Ok::<(), &'static str>(())
                && final(column)@ == old(column)@.with_slot(
                self.slot_index as int,
                old(column)@.slots[self.slot_index as int].after_set_volume(
                    Self::controlled_volume(volume),
                ),
            ),
    {
        let volume = match volume {
            Some(volume) => volume,
            None => Volume { micro_gain: 0 },
        };
        match column.set_clip_volume(self.slot_index, volume) {
            Ok(_) => Ok(()),
            Err(reason) => Err(reason),
        }
    }

    /// The volume of the clip in the target's slot, if there is such a slot.
    pub fn current_value(&self, column: &Column) -> (value: Option<Volume>)
        ensures
            value == if self.slot_index < column@.slots.len() {
                Some(column@.slots[self.slot_index as int].descriptor.volume)
            } else {
                None
            },
    {
        match column.clip_volume(self.slot_index) {
            Ok(volume) => Some(volume),
            Err(_) => None,
        }
    }

    /// Says whether the event changes the target's value, and to what.
    pub fn value_changed_from_instance_feedback_event(&self, evt: &InstanceFeedbackEvent)
        -> (changed: (
        bool,
        Option<Volume>,
    ))
        ensures
            changed == self.value_after(*evt),
    {
        match evt {
            InstanceFeedbackEvent::ClipChanged { slot_index, event } => {
                if *slot_index == self.slot_index {
                    match event {
                        ClipChangedEvent::ClipVolumeChanged(new_value) => (true, Some(*new_value)),
                        _ => (false, None),
                    }
                } else {
                    (false, None)
                }
            },
            _ => (false, None),
        }
    }
}

} // verus!
