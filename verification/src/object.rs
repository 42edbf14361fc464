//! The objects of a chart, and the hit window around them.

use crate::timing::fits_i32;
use crate::timing::MapTimestamp;
use crate::timing::MapTimestampDifference;
use vstd::prelude::*;

verus! {

/// Half the width of the time span around an object's start in which a
/// press counts, in milliseconds.
pub const HIT_WINDOW_MILLIS: i32 = 76;

/// The hit window in 1/100 ms units.
pub open spec fn hit_window_units() -> int {
    7600
}

/// One object of a lane.
#[derive(Debug, PartialEq, Eq, Clone, Copy, Structural)]
pub enum Object {
    /// A tap: one press at `timestamp`.
    HitObject { timestamp: MapTimestamp },
    /// A hold: pressed at `start_timestamp`, released at `end_timestamp`.
    LongNote { start_timestamp: MapTimestamp, end_timestamp: MapTimestamp },
}

impl Object {
    /// When the object begins.
    pub open spec fn start(&self) -> MapTimestamp {
        match *self {
            Object::HitObject { timestamp } => timestamp,
            Object::LongNote { start_timestamp, .. } => start_timestamp,
        }
    }

    /// When the object ends; a tap ends when it begins.
    pub open spec fn end(&self) -> MapTimestamp {
        match *self {
            Object::HitObject { timestamp } => timestamp,
            Object::LongNote { end_timestamp, .. } => end_timestamp,
        }
    }

    /// Whether the object can be judged without leaving 32 bits: a hold
    /// ends after it starts, and the hit window fits before the object's
    /// start, after its end, and on top of its length.
    pub open spec fn judgeable(&self) -> bool {
        &&& *self is LongNote ==> self.start()@ < self.end()@
        &&& fits_i32(self.start()@ - hit_window_units())
        &&& fits_i32(self.end()@ + hit_window_units())
        &&& fits_i32(self.end()@ - self.start()@ + hit_window_units())
    }

    /// Whether one of two objects ends before the other starts.
    pub open spec fn apart(&self, other: Object) -> bool {
        self.end()@ < other.start()@ || other.end()@ < self.start()@
    }

    /// When the object begins.
    pub fn start_timestamp(&self) -> (r: MapTimestamp)
        ensures
            r == self.start(),
    {
        match *self {
            Object::HitObject { timestamp } => timestamp,
            Object::LongNote { start_timestamp, .. } => start_timestamp,
        }
    }

    /// When the object ends; a tap ends when it begins.
    pub fn end_timestamp(&self) -> (r: MapTimestamp)
        ensures
            r == self.end(),
    {
        match *self {
            Object::HitObject { timestamp } => timestamp,
            Object::LongNote { end_timestamp, .. } => end_timestamp,
        }
    }

    /// Whether the object can be judged.
    pub fn is_judgeable(&self) -> (r: bool)
        ensures
            r == self.judgeable(),
    {
        let window = MapTimestampDifference::from_millis(HIT_WINDOW_MILLIS).into_milli_hundreds() as i64;
        let start = self.start_timestamp().into_milli_hundreds() as i64;
        let end = self.end_timestamp().into_milli_hundreds() as i64;
        let ends_after_start = match self {
            Object::HitObject { .. } => true,
            Object::LongNote { .. } => start < end,
        };
        ends_after_start && start - window >= i32::MIN as i64 && end + window <= i32::MAX as i64
            && end - start + window <= i32::MAX as i64
    }
}

} // verus!
