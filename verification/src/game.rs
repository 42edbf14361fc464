//! The judgement engine: per lane, a cursor over the lane's objects and one
//! verdict per object, advanced by updates, key presses and key releases.
//!
//! What the engine does to a lane is defined on [`LaneView`], the
//! mathematical value of a lane's state, by `after_update`, `after_key_press`
//! and `after_key_release`. The methods of [`Game`] compute exactly these.

use crate::map::chart_orderable;
use crate::map::chart_ordered;
use crate::map::lane_ordered;
use crate::map::lemma_sorted_lane_is_ordered;
use crate::map::Chart;
use crate::map::Lane;
use crate::object::hit_window_units;
use crate::object::Object;
use crate::object::HIT_WINDOW_MILLIS;
use crate::scroll::ScrollSpeed;
use crate::timing::fits_i32;
use crate::timing::GameTimestamp;
use crate::timing::GameTimestampDifference;
use crate::timing::MapTimestamp;
use crate::timing::TimestampConverter;
use std::sync::Arc;
use vstd::prelude::*;

verus! {

/// The verdict on a tap.
#[derive(Debug, PartialEq, Eq, Clone, Copy, Structural)]
pub enum HitObjectState {
    NotHit,
    /// Pressed `diff` after the tap's time.
    Hit { diff: GameTimestampDifference },
}

/// The verdict on a hold.
#[allow(inconsistent_fields)]
#[derive(Debug, PartialEq, Eq, Clone, Copy, Structural)]
pub enum LongNoteState {
    NotHit,
    /// Pressed, `diff` after the hold's start, and not released yet.
    Held { diff: GameTimestampDifference },
    /// Pressed `press_diff` after the hold's start and released `rel_diff`
    /// after its end.
    Hit { press_diff: GameTimestampDifference, rel_diff: GameTimestampDifference },
    /// Never pressed, or released at `held` before the hold could count.
    Missed { held: Option<MapTimestamp>, press_diff: Option<GameTimestampDifference> },
}

/// The verdict on an object.
#[derive(Debug, PartialEq, Eq, Clone, Copy, Structural)]
pub enum ObjectState {
    HitObject(HitObjectState),
    LongNote(LongNoteState),
}

/// A registered hit.
#[derive(Debug, PartialEq, Eq, Clone, Copy, Structural)]
pub struct Hit {
    pub timestamp: GameTimestamp,
    pub diff: GameTimestampDifference,
}

/// The verdicts of one lane and its cursor.
pub struct LaneState {
    pub object_states: Vec<ObjectState>,
    first_object: usize,
}

/// The mathematical value of a [`LaneState`].
pub struct LaneView {
    /// One verdict per object of the lane.
    pub states: Seq<ObjectState>,
    /// Index of the first object that is not settled yet; the objects before
    /// it are.
    pub cursor: nat,
}

/// One call of the engine on a lane, by the map time it carries.
pub enum LaneEvent {
    Update { at: int },
    KeyPress { at: int },
    KeyRelease { at: int },
}

/// The judgement engine of one play of one chart.
pub struct Game {
    pub map: Arc<Chart>,
    pub scroll_speed: ScrollSpeed,
    pub cap_fps: bool,
    pub timestamp_converter: TimestampConverter,
    pub lane_states: Vec<LaneState>,
}

impl ObjectState {
    /// The verdict of an object that no event has touched.
    pub open spec fn initial(object: Object) -> ObjectState {
        match object {
            Object::HitObject { .. } => ObjectState::HitObject(HitObjectState::NotHit),
            Object::LongNote { .. } => ObjectState::LongNote(LongNoteState::NotHit),
        }
    }

    /// Whether this is the verdict of a tap on a tap, of a hold on a hold.
    pub open spec fn fits(&self, object: Object) -> bool {
        (*self is HitObject) == (object is HitObject)
    }

    /// Whether nothing has happened to the object yet.
    pub open spec fn is_not_hit(&self) -> bool {
        *self == ObjectState::HitObject(HitObjectState::NotHit) || *self == ObjectState::LongNote(
            LongNoteState::NotHit,
        )
    }

    /// Whether the object is a hold that is being held.
    pub open spec fn is_held(&self) -> bool {
        *self matches ObjectState::LongNote(LongNoteState::Held { .. })
    }

    /// Whether the object was hit.
    pub open spec fn spec_is_hit(&self) -> bool {
        match *self {
            ObjectState::HitObject(HitObjectState::Hit { .. }) => true,
            ObjectState::LongNote(LongNoteState::Hit { .. }) => true,
            _ => false,
        }
    }

    /// Whether the verdict is final: hit or missed.
    pub open spec fn is_final(&self) -> bool {
        self.spec_is_hit() || *self matches ObjectState::LongNote(LongNoteState::Missed { .. })
    }

    /// The verdict an object is left with when the cursor passes it on an
    /// update: a hold still held counts as released at the end of the window,
    /// a hold never pressed is missed, and a tap stays as it is.
    pub open spec fn expired(&self) -> ObjectState {
        match *self {
            ObjectState::LongNote(LongNoteState::Held { diff }) => ObjectState::LongNote(
                LongNoteState::Hit {
                    press_diff: diff,
                    rel_diff: GameTimestampDifference::of_units(hit_window_units()),
                },
            ),
            ObjectState::LongNote(LongNoteState::NotHit) => ObjectState::LongNote(
                LongNoteState::Missed { held: None, press_diff: None },
            ),
            _ => *self,
        }
    }

    /// Whether the object was hit.
    pub fn is_hit(&self) -> (r: bool)
        ensures
            r == self.spec_is_hit(),
    {
        match self {
            ObjectState::HitObject(HitObjectState::Hit { .. }) | ObjectState::LongNote(
                LongNoteState::Hit { .. },
            ) => true,
            _ => false,
        }
    }
}

/// Whether, at map time `t`, the cursor moves past an object whose verdict is
/// `state`: its end lies more than the hit window back, or its start does
/// and it is not being held.
pub open spec fn out_of_reach(object: Object, state: ObjectState, t: int) -> bool {
    ||| object.end()@ + hit_window_units() < t
    ||| (object.start()@ + hit_window_units() < t && !state.is_held())
}

/// The index of the first object at or after `from` that is still in reach
/// at map time `t`, or the number of objects if there is none.
pub open spec fn first_in_reach(
    objects: Seq<Object>,
    states: Seq<ObjectState>,
    from: nat,
    t: int,
) -> nat
    decreases objects.len() - from,
{
    if from >= objects.len() {
        objects.len()
    } else if out_of_reach(objects[from as int], states[from as int], t) {
        first_in_reach(objects, states, from + 1, t)
    } else {
        from
    }
}

/// `first_in_reach` is the one index at or after `from` before which all is
/// out of reach and at which, if it is an object, that object is in reach.
pub proof fn lemma_first_in_reach(
    objects: Seq<Object>,
    states: Seq<ObjectState>,
    from: nat,
    t: int,
)
    requires
        from <= objects.len(),
    ensures
        from <= first_in_reach(objects, states, from, t) <= objects.len(),
        forall|i: int|
            from <= i < first_in_reach(objects, states, from, t) ==> out_of_reach(
                #[trigger] objects[i],
                states[i],
                t,
            ),
        first_in_reach(objects, states, from, t) < objects.len() ==> !out_of_reach(
            objects[first_in_reach(objects, states, from, t) as int],
            states[first_in_reach(objects, states, from, t) as int],
            t,
        ),
    decreases objects.len() - from,
{
    if from < objects.len() && out_of_reach(objects[from as int], states[from as int], t) {
        lemma_first_in_reach(objects, states, from + 1, t);
    }
}

impl LaneView {
    /// What holds of the state of a lane with these objects at all times:
    /// there is one verdict per object, of the object's kind; before the
    /// cursor every hold has its final verdict; at the cursor no verdict is
    /// final; after the cursor nothing has been touched.
    pub open spec fn wf(self, objects: Seq<Object>) -> bool {
        &&& self.states.len() == objects.len()
        &&& self.cursor <= objects.len()
        &&& forall|i: int|
            0 <= i < objects.len() ==> (#[trigger] self.states[i]).fits(objects[i])
        &&& forall|i: int|
            0 <= i < self.cursor && self.states[i] is LongNote ==> (
            #[trigger] self.states[i]).is_final()
        &&& self.cursor < objects.len() ==> !self.states[self.cursor as int].is_final()
        &&& forall|i: int|
            self.cursor < i < objects.len() ==> (#[trigger] self.states[i]).is_not_hit()
    }

    /// The state of a lane on which nothing has happened yet.
    pub open spec fn initial(objects: Seq<Object>) -> LaneView {
        LaneView {
            states: Seq::new(objects.len(), |i: int| ObjectState::initial(objects[i])),
            cursor: 0,
        }
    }

    /// The lane after an update at map time `t`: the cursor moves to the
    /// first object still in reach, and every object it passes expires.
    pub open spec fn after_update(self, objects: Seq<Object>, t: int) -> LaneView {
        let stop = first_in_reach(objects, self.states, self.cursor, t);
        LaneView {
            states: Seq::new(
                self.states.len(),
                |i: int|
                    if self.cursor <= i < stop {
                        self.states[i].expired()
                    } else {
                        self.states[i]
                    },
            ),
            cursor: stop,
        }
    }

    /// The lane after a key press at map time `t`: the lane is updated; then,
    /// unless the press comes more than the hit window before the start of
    /// the object at the cursor, a tap there is hit and the cursor moves on,
    /// and a hold there is held from now.
    pub open spec fn after_key_press(self, objects: Seq<Object>, t: int) -> LaneView {
        let updated = self.after_update(objects, t);
        let at = updated.cursor as int;
        if at < objects.len() && t >= objects[at].start()@ - hit_window_units() {
            let diff = GameTimestampDifference::of_units(t - objects[at].start()@);
            match updated.states[at] {
                ObjectState::HitObject(_) => LaneView {
                    states: updated.states.update(
                        at,
                        ObjectState::HitObject(HitObjectState::Hit { diff }),
                    ),
                    cursor: updated.cursor + 1,
                },
                ObjectState::LongNote(_) => LaneView {
                    states: updated.states.update(
                        at,
                        ObjectState::LongNote(LongNoteState::Held { diff }),
                    ),
                    cursor: updated.cursor,
                },
            }
        } else {
            updated
        }
    }

    /// The lane after a key release at map time `t`: the lane is updated;
    /// then, if the object at the cursor is a hold being held, it is hit
    /// unless the release comes more than the hit window before its start,
    /// in which case it is missed; either way the cursor moves on. The
    /// release offset of a hit is `t` less the end of the hold: zero for a
    /// release on the end, below zero for an early one.
    pub open spec fn after_key_release(self, objects: Seq<Object>, t: int) -> LaneView {
        let updated = self.after_update(objects, t);
        let at = updated.cursor as int;
        if at < objects.len() {
            match updated.states[at] {
                ObjectState::LongNote(LongNoteState::Held { diff }) => {
                    let verdict = if t >= objects[at].start()@ - hit_window_units() {
                        LongNoteState::Hit {
                            press_diff: diff,
                            rel_diff: GameTimestampDifference::of_units(t - objects[at].end()@),
                        }
                    } else {
                        LongNoteState::Missed {
                            held: Some(MapTimestamp::of_units(t)),
                            press_diff: Some(diff),
                        }
                    };
                    LaneView {
                        states: updated.states.update(at, ObjectState::LongNote(verdict)),
                        cursor: updated.cursor + 1,
                    }
                },
                _ => updated,
            }
        } else {
            updated
        }
    }

    /// The lane after one event.
    pub open spec fn after_event(self, objects: Seq<Object>, event: LaneEvent) -> LaneView {
        match event {
            LaneEvent::Update { at } => self.after_update(objects, at),
            LaneEvent::KeyPress { at } => self.after_key_press(objects, at),
            LaneEvent::KeyRelease { at } => self.after_key_release(objects, at),
        }
    }

    /// The lane after a sequence of events, the first of them first.
    pub open spec fn after_events(self, objects: Seq<Object>, events: Seq<LaneEvent>) -> LaneView
        decreases events.len(),
    {
        if events.len() == 0 {
            self
        } else {
            self.after_events(objects, events.drop_last()).after_event(objects, events.last())
        }
    }

    /// Whether this state can come after `before`: the cursor is where it
    /// was or further on, what was settled before the cursor is as it was,
    /// and so is every final verdict.
    pub open spec fn follows(self, before: LaneView) -> bool {
        &&& self.states.len() == before.states.len()
        &&& self.cursor >= before.cursor
        &&& forall|i: int| 0 <= i < before.cursor ==> #[trigger] self.states[i] == before.states[i]
        &&& forall|i: int|
            0 <= i < before.states.len() && (#[trigger] before.states[i]).is_final()
                ==> self.states[i] == before.states[i]
    }

    /// One event, at whatever time, takes a well-formed lane to a
    /// well-formed lane that follows it.
    pub proof fn lemma_event_follows(self, objects: Seq<Object>, event: LaneEvent)
        requires
            self.wf(objects),
        ensures
            self.after_event(objects, event).wf(objects),
            self.after_event(objects, event).follows(self),
    {
        let t = match event {
            LaneEvent::Update { at } => at,
            LaneEvent::KeyPress { at } => at,
            LaneEvent::KeyRelease { at } => at,
        };
        lemma_first_in_reach(objects, self.states, self.cursor, t);
        let updated = self.after_update(objects, t);
        assert(updated.wf(objects));
        assert(updated.follows(self));
    }

    /// Over any sequence of updates, key presses and key releases, at
    /// whatever times, the lane stays well-formed.
    pub proof fn lemma_events_keep_wf(self, objects: Seq<Object>, events: Seq<LaneEvent>)
        requires
            self.wf(objects),
        ensures
            self.after_events(objects, events).wf(objects),
        decreases events.len(),
    {
        if events.len() > 0 {
            self.lemma_events_keep_wf(objects, events.drop_last());
            self.after_events(objects, events.drop_last()).lemma_event_follows(
                objects,
                events.last(),
            );
        }
    }

    /// Over any sequence of updates, key presses and key releases, at
    /// whatever times, the cursor never moves back.
    pub proof fn lemma_cursor_never_moves_back(
        self,
        objects: Seq<Object>,
        events: Seq<LaneEvent>,
    )
        requires
            self.wf(objects),
        ensures
            self.after_events(objects, events).cursor >= self.cursor,
        decreases events.len(),
    {
        if events.len() > 0 {
            self.lemma_events_keep_wf(objects, events.drop_last());
            self.lemma_cursor_never_moves_back(objects, events.drop_last());
            self.after_events(objects, events.drop_last()).lemma_event_follows(
                objects,
                events.last(),
            );
        }
    }

    /// Once an object has a final verdict, hit or missed, no sequence of
    /// events changes it: an object gets its final verdict at most once.
    pub proof fn lemma_final_verdict_stays(
        self,
        objects: Seq<Object>,
        events: Seq<LaneEvent>,
        i: int,
    )
        requires
            self.wf(objects),
            0 <= i < objects.len(),
            self.states[i].is_final(),
        ensures
            self.after_events(objects, events).states[i] == self.states[i],
        decreases events.len(),
    {
        if events.len() > 0 {
            self.lemma_events_keep_wf(objects, events.drop_last());
            self.lemma_final_verdict_stays(objects, events.drop_last(), i);
            self.after_events(objects, events.drop_last()).lemma_event_follows(
                objects,
                events.last(),
            );
        }
    }

    /// No sequence of events changes the verdict of an object that the
    /// cursor has passed.
    pub proof fn lemma_passed_verdict_stays(
        self,
        objects: Seq<Object>,
        events: Seq<LaneEvent>,
        i: int,
    )
        requires
            self.wf(objects),
            0 <= i < self.cursor,
        ensures
            self.after_events(objects, events).states[i] == self.states[i],
        decreases events.len(),
    {
        if events.len() > 0 {
            self.lemma_events_keep_wf(objects, events.drop_last());
            self.lemma_cursor_never_moves_back(objects, events.drop_last());
            self.lemma_passed_verdict_stays(objects, events.drop_last(), i);
            self.after_events(objects, events.drop_last()).lemma_event_follows(
                objects,
                events.last(),
            );
        }
    }
}

impl View for LaneState {
    type V = LaneView;

    closed spec fn view(&self) -> LaneView {
        LaneView { states: self.object_states@, cursor: self.first_object as nat }
    }
}

impl LaneState {
    /// Index of the first object that is not settled yet.
    pub fn first_object(&self) -> (r: usize)
        ensures
            r == self@.cursor,
    {
        self.first_object
    }

    /// The verdict on the object at `index`.
    pub fn object_state(&self, index: usize) -> (r: ObjectState)
        requires
            index < self@.states.len(),
        ensures
            r == self@.states[index as int],
    {
        self.object_states[index]
    }
}

impl Game {
    /// What holds of an engine at all times: the chart is in order, and
    /// every lane of it has a well-formed state.
    pub open spec fn wf(&self) -> bool {
        &&& chart_ordered(*self.map)
        &&& self.lane_states.len() == self.map.lanes.len()
        &&& forall|i: int|
            0 <= i < self.lane_states.len() ==> (#[trigger] self.lane_states[i])@.wf(
                self.map.lanes[i].objects@,
            )
    }

    /// The objects of a lane.
    pub open spec fn objects(&self, lane: int) -> Seq<Object> {
        self.map.lanes[lane].objects@
    }

    /// The map time of a game timestamp under the engine's converter.
    pub open spec fn map_time(&self, timestamp: GameTimestamp) -> int {
        timestamp@ + self.timestamp_converter.global_offset@
    }

    /// Whether this engine differs from `before` in the state of `lane` at
    /// most: same chart, same settings, same state of every other lane.
    pub open spec fn same_but_lane(&self, before: &Game, lane: int) -> bool {
        &&& self.map == before.map
        &&& self.scroll_speed == before.scroll_speed
        &&& self.cap_fps == before.cap_fps
        &&& self.timestamp_converter == before.timestamp_converter
        &&& self.lane_states.len() == before.lane_states.len()
        &&& forall|i: int|
            0 <= i < self.lane_states.len() && i != lane ==> self.lane_states[i]
                == before.lane_states[i]
    }

    /// An engine on `map`, with each lane's objects put in the order of
    /// their starts, every verdict open, every cursor on the first object, no
    /// offset between game time and map time, and scroll speed 25.
    pub fn new(map: Chart) -> (game: Game)
        requires
            chart_orderable(map),
        ensures
            game.wf(),
            game.map.song_artist == map.song_artist,
            game.map.song_title == map.song_title,
            game.map.difficulty_name == map.difficulty_name,
            game.map.mapper == map.mapper,
            game.map.audio_file == map.audio_file,
            game.map.lanes.len() == map.lanes.len(),
            forall|i: int|
                0 <= i < map.lanes.len() ==> (#[trigger] game.map.lanes[i]).objects@.to_multiset()
                    == map.lanes[i].objects@.to_multiset(),
            forall|i: int|
                0 <= i < map.lanes.len() ==> (#[trigger] game.lane_states[i])@ == LaneView::initial(
                    game.map.lanes[i].objects@,
                ),
            game.timestamp_converter.global_offset@ == 0,
            game.scroll_speed == ScrollSpeed(25),
            !game.cap_fps,
    {
        let Chart { song_artist, song_title, difficulty_name, mapper, audio_file, lanes } = map;
        let mut ordered_lanes: Vec<Lane> = Vec::with_capacity(lanes.len());
        let mut lane_states: Vec<LaneState> = Vec::with_capacity(lanes.len());

        let mut n: usize = 0;
        while n < lanes.len()
            invariant
                n <= lanes.len(),
                lanes == map.lanes,
                chart_orderable(map),
                ordered_lanes.len() == n,
                lane_states.len() == n,
                forall|i: int|
                    0 <= i < n ==> lane_ordered((#[trigger] ordered_lanes[i]).objects@),
                forall|i: int|
                    0 <= i < n ==> (#[trigger] ordered_lanes[i]).objects@.to_multiset()
                        == lanes[i].objects@.to_multiset(),
                forall|i: int|
                    0 <= i < n ==> (#[trigger] lane_states[i])@ == LaneView::initial(
                        ordered_lanes[i].objects@,
                    ),
            decreases lanes.len() - n,
        {
            let lane = lanes[n].sorted_by_start();
            proof {
                lemma_sorted_lane_is_ordered(lanes[n as int].objects@, lane.objects@);
            }
            let mut object_states: Vec<ObjectState> = Vec::with_capacity(lane.objects.len());
            let mut k: usize = 0;
            while k < lane.objects.len()
                invariant
                    k <= lane.objects.len(),
                    object_states.len() == k,
                    forall|i: int|
                        0 <= i < k ==> #[trigger] object_states[i] == ObjectState::initial(
                            lane.objects[i],
                        ),
                decreases lane.objects.len() - k,
            {
                let state = match lane.objects[k] {
                    Object::HitObject { .. } => ObjectState::HitObject(HitObjectState::NotHit),
                    Object::LongNote { .. } => ObjectState::LongNote(LongNoteState::NotHit),
                };
                object_states.push(state);
                k += 1;
            }
            let lane_state = LaneState { object_states, first_object: 0 };
            assert(lane_state@.states =~= LaneView::initial(lane.objects@).states);
            ordered_lanes.push(lane);
            lane_states.push(lane_state);
            n += 1;
        }

        let timestamp_converter = TimestampConverter {
            global_offset: GameTimestampDifference::from_millis(0),
        };
        Game {
            map: Arc::new(
                Chart {
                    song_artist,
                    song_title,
                    difficulty_name,
                    mapper,
                    audio_file,
                    lanes: ordered_lanes,
                },
            ),
            cap_fps: false,
            scroll_speed: ScrollSpeed(25),
            timestamp_converter,
            lane_states,
        }
    }

    /// Whether the cursor of `lane` stands on an object.
    pub fn has_active_objects(&self, lane: usize) -> (r: bool)
        requires
            lane < self.lane_states.len(),
        ensures
            r == (self.lane_states[lane as int]@.cursor < self.lane_states[lane as int]@.states.len()),
    {
        let lane_state = &self.lane_states[lane];
        lane_state.first_object < lane_state.object_states.len()
    }

    /// Moves the cursor of `lane` to the first object still in reach at
    /// `timestamp`, and settles the objects it passes.
    pub fn update(&mut self, lane: usize, timestamp: GameTimestamp)
        requires
            old(self).wf(),
            lane < old(self).lane_states.len(),
            fits_i32(old(self).map_time(timestamp)),
        ensures
            final(self).wf(),
            final(self).same_but_lane(old(self), lane as int),
            final(self).lane_states[lane as int]@ == old(self).lane_states[lane as int]@.after_update(
                old(self).objects(lane as int),
                old(self).map_time(timestamp),
            ),
            final(self).lane_states[lane as int]@.follows(old(self).lane_states[lane as int]@),
    {
        let hit_window = GameTimestampDifference::from_millis(HIT_WINDOW_MILLIS);
        let map_timestamp = timestamp.to_map(&self.timestamp_converter);
        let map_hit_window = hit_window.to_map(&self.timestamp_converter);

        let objects = &self.map.lanes[lane].objects;
        let lane_state = &mut self.lane_states[lane];
        let ghost before = lane_state@;
        let ghost t = map_timestamp@;

        while lane_state.first_object < objects.len()
            invariant
                lane < old(self).lane_states.len(),
                objects@ == old(self).objects(lane as int),
                lane_ordered(objects@),
                before == old(self).lane_states[lane as int]@,
                before.wf(objects@),
                t == map_timestamp@,
                map_hit_window@ == hit_window_units(),
                hit_window@ == hit_window_units(),
                lane_state@.states.len() == objects.len(),
                before.cursor <= lane_state@.cursor <= objects.len(),
                first_in_reach(objects@, before.states, lane_state@.cursor, t) == first_in_reach(
                    objects@,
                    before.states,
                    before.cursor,
                    t,
                ),
                forall|i: int|
                    0 <= i < objects.len() ==> lane_state@.states[i] == if before.cursor <= i
                        < lane_state@.cursor {
                        before.states[i].expired()
                    } else {
                        before.states[i]
                    },
            ensures
                lane_state@.cursor == first_in_reach(objects@, before.states, before.cursor, t),
            decreases objects.len() - lane_state.first_object,
        {
            let at = lane_state.first_object;
            let object = objects[at];
            let state = lane_state.object_states[at];

            if object.end_timestamp() + map_hit_window < map_timestamp {
                match state {
                    ObjectState::LongNote(LongNoteState::Held { diff }) => {
                        lane_state.object_states[at] = ObjectState::LongNote(
                            LongNoteState::Hit { press_diff: diff, rel_diff: hit_window },
                        );
                    },
                    ObjectState::LongNote(LongNoteState::NotHit) => {
                        lane_state.object_states[at] = ObjectState::LongNote(
                            LongNoteState::Missed { held: None, press_diff: None },
                        );
                    },
                    _ => {},
                }
                lane_state.first_object += 1;
                continue ;
            }
            if object.start_timestamp() + map_hit_window < map_timestamp {
                if let ObjectState::LongNote(LongNoteState::NotHit) = state {
                    lane_state.object_states[at] = ObjectState::LongNote(
                        LongNoteState::Missed { held: None, press_diff: None },
                    );
                    lane_state.first_object += 1;
                    continue ;
                }
            }
            assert(state.fits(objects@[at as int]));
            break ;
        }
        proof {
            assert(lane_state@.states =~= before.after_update(objects@, t).states);
            before.lemma_event_follows(objects@, LaneEvent::Update { at: t });
        }
    }

    /// Judges a key press on `lane` at `timestamp`.
    pub fn key_press(&mut self, lane: usize, timestamp: GameTimestamp)
        requires
            old(self).wf(),
            lane < old(self).lane_states.len(),
            fits_i32(old(self).map_time(timestamp)),
        ensures
            final(self).wf(),
            final(self).same_but_lane(old(self), lane as int),
            final(self).lane_states[lane as int]@ == old(self).lane_states[lane as int]@.after_key_press(
                old(self).objects(lane as int),
                old(self).map_time(timestamp),
            ),
            final(self).lane_states[lane as int]@.follows(old(self).lane_states[lane as int]@),
    {
        self.update(lane, timestamp);
        if !self.has_active_objects(lane) {
            return ;
        }
        let hit_window = GameTimestampDifference::from_millis(HIT_WINDOW_MILLIS);
        let map_timestamp = timestamp.to_map(&self.timestamp_converter);
        let map_hit_window = hit_window.to_map(&self.timestamp_converter);

        let ghost before = old(self).lane_states[lane as int]@;
        let ghost updated = self.lane_states[lane as int]@;
        let objects = &self.map.lanes[lane].objects;
        proof {
            lemma_first_in_reach(objects@, before.states, before.cursor, map_timestamp@);
            assert(objects@[updated.cursor as int].judgeable());
        }
        let lane_state = &mut self.lane_states[lane];
        let at = lane_state.first_object;
        assert(at < objects.len());
        let object = objects[at];

        if map_timestamp >= object.start_timestamp() - map_hit_window {
            let diff = (map_timestamp - object.start_timestamp()).to_game(
                &self.timestamp_converter,
            );
            match lane_state.object_states[at] {
                ObjectState::HitObject(_) => {
                    lane_state.object_states[at] = ObjectState::HitObject(
                        HitObjectState::Hit { diff },
                    );
                    lane_state.first_object += 1;
                },
                ObjectState::LongNote(_) => {
                    lane_state.object_states[at] = ObjectState::LongNote(
                        LongNoteState::Held { diff },
                    );
                },
            }
        }
        proof {
            assert(lane_state@ =~= before.after_key_press(objects@, map_timestamp@));
            before.lemma_event_follows(objects@, LaneEvent::KeyPress { at: map_timestamp@ });
        }
    }

    /// Judges a key release on `lane` at `timestamp`. A hold that is hit
    /// gets as its release offset the time of the release less its end.
    pub fn key_release(&mut self, lane: usize, timestamp: GameTimestamp)
        requires
            old(self).wf(),
            lane < old(self).lane_states.len(),
            fits_i32(old(self).map_time(timestamp)),
        ensures
            final(self).wf(),
            final(self).same_but_lane(old(self), lane as int),
            final(self).lane_states[lane as int]@ == old(
                self,
            ).lane_states[lane as int]@.after_key_release(
                old(self).objects(lane as int),
                old(self).map_time(timestamp),
            ),
            final(self).lane_states[lane as int]@.follows(old(self).lane_states[lane as int]@),
    {
        self.update(lane, timestamp);
        if !self.has_active_objects(lane) {
            return ;
        }
        let hit_window = GameTimestampDifference::from_millis(HIT_WINDOW_MILLIS);
        let map_timestamp = timestamp.to_map(&self.timestamp_converter);
        let map_hit_window = hit_window.to_map(&self.timestamp_converter);

        let ghost before = old(self).lane_states[lane as int]@;
        let ghost updated = self.lane_states[lane as int]@;
        let objects = &self.map.lanes[lane].objects;
        proof {
            lemma_first_in_reach(objects@, before.states, before.cursor, map_timestamp@);
            assert(objects@[updated.cursor as int].judgeable());
        }
        let lane_state = &mut self.lane_states[lane];
        let at = lane_state.first_object;
        assert(at < objects.len());
        let object = objects[at];

        if let ObjectState::LongNote(LongNoteState::Held { diff }) = lane_state.object_states[at] {
            if map_timestamp >= object.start_timestamp() - map_hit_window {
                let rel_diff = (map_timestamp - object.end_timestamp()).to_game(
                    &self.timestamp_converter,
                );
                lane_state.object_states[at] = ObjectState::LongNote(
                    LongNoteState::Hit { press_diff: diff, rel_diff },
                );
            } else {
                lane_state.object_states[at] = ObjectState::LongNote(
                    LongNoteState::Missed { held: Some(map_timestamp), press_diff: Some(diff) },
                );
            }
            lane_state.first_object += 1;
        }
        proof {
            assert(lane_state@ =~= before.after_key_release(objects@, map_timestamp@));
            before.lemma_event_follows(objects@, LaneEvent::KeyRelease { at: map_timestamp@ });
        }
    }
}

} // verus!
