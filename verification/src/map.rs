//! The map of a song: its chart of lanes and objects, and what is known of
//! the song.
//!
//! The judgement engine wants every lane *in order*: each object judgeable,
//! and each ending before the next starts. A lane *can be put in order* if
//! its objects are judgeable and any two of them are apart; sorting such a
//! lane by the starts of its objects puts it in order.

use crate::object::Object;
use vstd::prelude::*;
use vstd::seq_lib::to_multiset_build;
use vstd::seq_lib::to_multiset_contains;
use vstd::seq_lib::to_multiset_insert;

verus! {

/// One lane of a chart.
#[derive(Debug, PartialEq, Eq, Clone)]
pub struct Lane {
    pub objects: Vec<Object>,
}

/// A time signature: `beat_count` beats of `beat_unit` to the bar.
#[derive(Debug, PartialEq, Eq, Clone)]
pub struct TimeSignature {
    pub beat_count: u8,
    pub beat_unit: u8,
}

/// The chart of one song at one difficulty.
#[derive(Debug, PartialEq, Eq, Clone)]
pub struct Chart {
    /// Artist of the song.
    pub song_artist: Option<String>,
    /// Title of the song.
    pub song_title: Option<String>,
    /// Difficulty name.
    pub difficulty_name: Option<String>,
    /// Mapper's name.
    pub mapper: Option<String>,
    /// Filename of the audio track.
    pub audio_file: Option<String>,
    /// Lanes constituting the chart.
    pub lanes: Vec<Lane>,
}

/// Whether no object starts before an object that stands before it.
pub open spec fn in_start_order(objects: Seq<Object>) -> bool {
    forall|i: int, j: int|
        0 <= i < j < objects.len() ==> (#[trigger] objects[i]).start()@ <= (
        #[trigger] objects[j]).start()@
}

/// Whether the objects of a lane are in order: they are judgeable, and each
/// ends before those after it start.
pub open spec fn lane_ordered(objects: Seq<Object>) -> bool {
    &&& forall|i: int| 0 <= i < objects.len() ==> (#[trigger] objects[i]).judgeable()
    &&& forall|i: int, j: int|
        0 <= i < j < objects.len() ==> (#[trigger] objects[i]).end()@ < (
        #[trigger] objects[j]).start()@
}

/// Whether the objects of a lane can be put in order: they are judgeable,
/// and any two of them are apart.
pub open spec fn lane_orderable(objects: Seq<Object>) -> bool {
    &&& forall|i: int| 0 <= i < objects.len() ==> (#[trigger] objects[i]).judgeable()
    &&& forall|i: int, j: int|
        0 <= i < j < objects.len() ==> (#[trigger] objects[i]).apart(#[trigger] objects[j])
}

/// Whether every lane of a chart is in order.
pub open spec fn chart_ordered(chart: Chart) -> bool {
    forall|i: int|
        0 <= i < chart.lanes.len() ==> lane_ordered((#[trigger] chart.lanes[i]).objects@)
}

/// Whether every lane of a chart can be put in order.
pub open spec fn chart_orderable(chart: Chart) -> bool {
    forall|i: int|
        0 <= i < chart.lanes.len() ==> lane_orderable((#[trigger] chart.lanes[i]).objects@)
}

/// Two sequences with the same elements, one of which holds none twice:
/// neither holds an element twice, and each holds every element of the other.
proof fn lemma_same_elements(a: Seq<Object>, b: Seq<Object>)
    requires
        a.no_duplicates(),
        a.to_multiset() == b.to_multiset(),
    ensures
        b.no_duplicates(),
        forall|i: int| 0 <= i < a.len() ==> b.contains(#[trigger] a[i]),
        forall|i: int| 0 <= i < b.len() ==> a.contains(#[trigger] b[i]),
{
    a.lemma_multiset_has_no_duplicates();
    b.lemma_multiset_has_no_duplicates_conv();
    assert forall|i: int| 0 <= i < a.len() implies b.contains(#[trigger] a[i]) by {
        assert(a.contains(a[i]));
        to_multiset_contains(a, a[i]);
        to_multiset_contains(b, a[i]);
    }
    assert forall|i: int| 0 <= i < b.len() implies a.contains(#[trigger] b[i]) by {
        assert(b.contains(b[i]));
        to_multiset_contains(b, b[i]);
        to_multiset_contains(a, b[i]);
    }
}

/// The objects of a lane that can be put in order, sorted by their starts,
/// are in order.
pub proof fn lemma_sorted_lane_is_ordered(objects: Seq<Object>, sorted: Seq<Object>)
    requires
        lane_orderable(objects),
        in_start_order(sorted),
        sorted.to_multiset() == objects.to_multiset(),
    ensures
        lane_ordered(sorted),
{
    assert forall|i: int, j: int|
        0 <= i < objects.len() && 0 <= j < objects.len() && i != j implies objects[i]
        != objects[j] by {
        if i < j {
            assert(objects[i].apart(objects[j]));
        } else {
            assert(objects[j].apart(objects[i]));
        }
    }
    lemma_same_elements(objects, sorted);
    assert forall|i: int, j: int| 0 <= i < j < sorted.len() implies (#[trigger] sorted[i]).end()@
        < (#[trigger] sorted[j]).start()@ by {
        let a = choose|a: int| 0 <= a < objects.len() && objects[a] == sorted[i];
        let b = choose|b: int| 0 <= b < objects.len() && objects[b] == sorted[j];
        if a < b {
            assert(objects[a].apart(objects[b]));
        } else {
            assert(objects[b].apart(objects[a]));
        }
    }
}

/// The objects of a lane in order can be put in order, however they are
/// rearranged.
pub proof fn lemma_ordered_lane_is_orderable(ordered: Seq<Object>, objects: Seq<Object>)
    requires
        lane_ordered(ordered),
        ordered.to_multiset() == objects.to_multiset(),
    ensures
        lane_orderable(objects),
{
    assert forall|i: int, j: int|
        0 <= i < ordered.len() && 0 <= j < ordered.len() && i != j implies ordered[i]
        != ordered[j] by {
        if i < j {
            assert(ordered[i].end()@ < ordered[j].start()@);
        } else {
            assert(ordered[j].end()@ < ordered[i].start()@);
        }
    }
    lemma_same_elements(ordered, objects);
    assert forall|i: int, j: int| 0 <= i < j < objects.len() implies (#[trigger] objects[i]).apart(
        #[trigger] objects[j],
    ) by {
        let a = choose|a: int| 0 <= a < ordered.len() && ordered[a] == objects[i];
        let b = choose|b: int| 0 <= b < ordered.len() && ordered[b] == objects[j];
        if a < b {
            assert(ordered[a].end()@ < ordered[b].start()@);
        } else {
            assert(ordered[b].end()@ < ordered[a].start()@);
        }
    }
}

impl Lane {
    /// The lane with the same objects in the order of their starts.
    pub fn sorted_by_start(&self) -> (r: Lane)
        ensures
            in_start_order(r.objects@),
            r.objects@.to_multiset() == self.objects@.to_multiset(),
    {
        let mut sorted: Vec<Object> = Vec::with_capacity(self.objects.len());
        let mut next: usize = 0;
        assert(self.objects@.subrange(0, 0) =~= sorted@);
        while next < self.objects.len()
            invariant
                next <= self.objects.len(),
                in_start_order(sorted@),
                sorted@.to_multiset() == self.objects@.subrange(0, next as int).to_multiset(),
            decreases self.objects.len() - next,
        {
            let object = self.objects[next];
            let mut place = sorted.len();
            while place > 0 && object.start_timestamp() < sorted[place - 1].start_timestamp()
                invariant
                    place <= sorted.len(),
                    forall|k: int|
                        place <= k < sorted.len() ==> object.start()@ < (#[trigger] sorted[k]).start()@,
                decreases place,
            {
                place -= 1;
            }
            proof {
                to_multiset_insert(sorted@, place as int, object);
                to_multiset_build(self.objects@.subrange(0, next as int), object);
                assert(self.objects@.subrange(0, next + 1) =~= self.objects@.subrange(
                    0,
                    next as int,
                ).push(object));
            }
            sorted.insert(place, object);
            next += 1;
        }
        assert(self.objects@.subrange(0, next as int) =~= self.objects@);
        Lane { objects: sorted }
    }

    /// Whether the objects of the lane are in order.
    pub fn is_ordered(&self) -> (r: bool)
        ensures
            r == lane_ordered(self.objects@),
    {
        let mut checked: usize = 0;
        while checked < self.objects.len()
            invariant
                checked <= self.objects.len(),
                lane_ordered(self.objects@.subrange(0, checked as int)),
            decreases self.objects.len() - checked,
        {
            if !self.objects[checked].is_judgeable() {
                return false;
            }
            if checked > 0 && !(self.objects[checked - 1].end_timestamp()
                < self.objects[checked].start_timestamp()) {
                return false;
            }
            proof {
                let seen = self.objects@.subrange(0, checked as int);
                let more = self.objects@.subrange(0, checked + 1);
                assert forall|i: int, j: int| 0 <= i < j < more.len() implies (#[trigger] more[i]).end()@
                    < (#[trigger] more[j]).start()@ by {
                    if j < checked {
                        assert(seen[i].end()@ < seen[j].start()@);
                    } else if i < checked - 1 {
                        assert(seen[i].end()@ < seen[checked - 1].start()@);
                        assert(seen[checked - 1].judgeable());
                    }
                }
                assert forall|i: int| 0 <= i < more.len() implies (#[trigger] more[i]).judgeable() by {
                    if i < checked {
                        assert(seen[i].judgeable());
                    }
                }
            }
            checked += 1;
        }
        assert(self.objects@.subrange(0, checked as int) =~= self.objects@);
        true
    }
}

impl Chart {
    /// Whether every lane of the chart can be put in order.
    pub fn can_be_ordered(&self) -> (r: bool)
        ensures
            r == chart_orderable(*self),
    {
        let mut checked: usize = 0;
        while checked < self.lanes.len()
            invariant
                checked <= self.lanes.len(),
                forall|i: int| 0 <= i < checked ==> lane_orderable((#[trigger] self.lanes[i]).objects@),
            decreases self.lanes.len() - checked,
        {
            let sorted = self.lanes[checked].sorted_by_start();
            let ordered = sorted.is_ordered();
            proof {
                if ordered {
                    lemma_ordered_lane_is_orderable(
                        sorted.objects@,
                        self.lanes[checked as int].objects@,
                    );
                } else if lane_orderable(self.lanes[checked as int].objects@) {
                    lemma_sorted_lane_is_ordered(
                        self.lanes[checked as int].objects@,
                        sorted.objects@,
                    );
                }
            }
            if !ordered {
                return false;
            }
            checked += 1;
        }
        true
    }
}

} // verus!
