use y_core::game::Game;
use y_core::game::HitObjectState;
use y_core::game::LongNoteState;
use y_core::game::ObjectState;
use y_core::map::Chart;
use y_core::map::Lane;
use y_core::object::Object;
use y_core::scroll::ScrollSpeed;
use y_core::timing::GameTimestamp;
use y_core::timing::GameTimestampDifference;
use y_core::timing::MapTimestamp;

fn chart(lanes: Vec<Lane>) -> Chart {
    Chart {
        song_artist: None,
        song_title: None,
        difficulty_name: None,
        mapper: None,
        audio_file: None,
        lanes,
    }
}

fn tap(millis: i32) -> Object {
    Object::HitObject { timestamp: MapTimestamp::from_millis(millis) }
}

fn hold(start: i32, end: i32) -> Object {
    Object::LongNote {
        start_timestamp: MapTimestamp::from_millis(start),
        end_timestamp: MapTimestamp::from_millis(end),
    }
}

fn one_lane(objects: Vec<Object>) -> Game {
    Game::new(chart(vec![Lane { objects }]))
}

fn at(millis: i32) -> GameTimestamp {
    GameTimestamp::from_millis(millis)
}

fn diff(millis: i32) -> GameTimestampDifference {
    GameTimestampDifference::from_millis(millis)
}

const TAP_OPEN: ObjectState = ObjectState::HitObject(HitObjectState::NotHit);
const HOLD_OPEN: ObjectState = ObjectState::LongNote(LongNoteState::NotHit);
const HOLD_MISSED: ObjectState =
    ObjectState::LongNote(LongNoteState::Missed { held: None, press_diff: None });

fn tap_hit(millis: i32) -> ObjectState {
    ObjectState::HitObject(HitObjectState::Hit { diff: diff(millis) })
}

fn held(millis: i32) -> ObjectState {
    ObjectState::LongNote(LongNoteState::Held { diff: diff(millis) })
}

fn hold_hit(press: i32, release: i32) -> ObjectState {
    ObjectState::LongNote(LongNoteState::Hit { press_diff: diff(press), rel_diff: diff(release) })
}

#[test]
fn game_state_regular_hit() {
    let lanes = vec![Lane {
        objects: vec![
            Object::HitObject { timestamp: MapTimestamp::from_millis(0) },
            Object::HitObject { timestamp: MapTimestamp::from_millis(10_000) },
        ],
    }];

    let map = Chart {
        song_artist: None,
        song_title: None,
        difficulty_name: None,
        mapper: None,
        audio_file: None,
        lanes: lanes,
    };

    let mut state = Game::new(map);
    state.key_press(0, GameTimestamp::from_millis(10_000));

    assert_eq!(
        &state.lane_states[0].object_states[..],
        &[
            ObjectState::HitObject(HitObjectState::NotHit),
            ObjectState::HitObject(HitObjectState::Hit {
                diff: GameTimestampDifference::from_millis(0)
            }),
        ][..]
    );
}

#[test]
fn new_game_starts_with_open_verdicts() {
    let game = Game::new(chart(vec![
        Lane { objects: vec![tap(0), hold(100, 200)] },
        Lane { objects: vec![] },
    ]));
    assert_eq!(game.lane_states.len(), 2);
    assert_eq!(game.lane_states[0].object_states, vec![TAP_OPEN, HOLD_OPEN]);
    assert_eq!(game.lane_states[0].first_object(), 0);
    assert!(game.lane_states[1].object_states.is_empty());
    assert_eq!(game.lane_states[1].first_object(), 0);
    assert_eq!(game.scroll_speed, ScrollSpeed(25));
    assert!(!game.cap_fps);
    assert_eq!(game.timestamp_converter.global_offset, diff(0));
    assert!(game.has_active_objects(0));
    assert!(!game.has_active_objects(1));
}

#[test]
fn new_game_sorts_each_lane_by_start() {
    let game = Game::new(Chart {
        song_artist: Some(String::from("artist")),
        song_title: Some(String::from("title")),
        difficulty_name: None,
        mapper: Some(String::from("mapper")),
        audio_file: Some(String::from("song.ogg")),
        lanes: vec![
            Lane { objects: vec![tap(3000), hold(1000, 2000), tap(0), tap(-500)] },
            Lane { objects: vec![tap(7), tap(5)] },
        ],
    });
    assert_eq!(game.map.lanes[0].objects, vec![tap(-500), tap(0), hold(1000, 2000), tap(3000)]);
    assert_eq!(game.map.lanes[1].objects, vec![tap(5), tap(7)]);
    assert_eq!(
        game.lane_states[0].object_states,
        vec![TAP_OPEN, TAP_OPEN, HOLD_OPEN, TAP_OPEN]
    );
    assert_eq!(game.map.song_artist, Some(String::from("artist")));
    assert_eq!(game.map.song_title, Some(String::from("title")));
    assert_eq!(game.map.difficulty_name, None);
    assert_eq!(game.map.mapper, Some(String::from("mapper")));
    assert_eq!(game.map.audio_file, Some(String::from("song.ogg")));
}

#[test]
fn sorted_by_start_orders_a_lane() {
    let lane = Lane { objects: vec![hold(50, 60), tap(40), tap(10), hold(20, 30)] };
    let sorted = lane.sorted_by_start();
    assert_eq!(sorted.objects, vec![tap(10), hold(20, 30), tap(40), hold(50, 60)]);
    assert_eq!(lane.objects.len(), 4);
    assert!(Lane { objects: vec![] }.sorted_by_start().objects.is_empty());
}

#[test]
fn tap_pressed_on_time_is_hit() {
    let mut game = one_lane(vec![tap(0)]);
    game.key_press(0, at(0));
    assert_eq!(game.lane_states[0].object_states, vec![tap_hit(0)]);
    assert_eq!(game.lane_states[0].first_object(), 1);
    assert!(!game.has_active_objects(0));
    assert!(game.lane_states[0].object_states[0].is_hit());
}

#[test]
fn later_tap_is_hit_and_earlier_tap_stays_not_hit() {
    let mut game = one_lane(vec![tap(0), tap(10_000)]);
    game.key_press(0, at(10_000));
    assert_eq!(game.lane_states[0].object_states, vec![TAP_OPEN, tap_hit(0)]);
    assert_eq!(game.lane_states[0].first_object(), 2);
    game.update(0, at(10_077));
    assert_eq!(game.lane_states[0].object_states, vec![TAP_OPEN, tap_hit(0)]);
    assert_eq!(game.lane_states[0].first_object(), 2);
    assert!(!game.lane_states[0].object_states[0].is_hit());
}

#[test]
fn hold_pressed_and_released_on_time_is_hit() {
    let mut game = one_lane(vec![hold(0, 1000)]);
    game.key_press(0, at(0));
    assert_eq!(game.lane_states[0].object_states, vec![held(0)]);
    assert_eq!(game.lane_states[0].first_object(), 0);
    assert!(!game.lane_states[0].object_states[0].is_hit());
    game.key_release(0, at(1000));
    assert_eq!(game.lane_states[0].object_states, vec![hold_hit(0, 0)]);
    assert_eq!(game.lane_states[0].first_object(), 1);
    assert!(game.lane_states[0].object_states[0].is_hit());
}

#[test]
fn hold_never_released_is_hit_at_the_window() {
    let mut game = one_lane(vec![hold(0, 1000)]);
    game.key_press(0, at(0));
    assert_eq!(game.lane_states[0].object_states, vec![held(0)]);
    game.update(0, at(1200));
    assert_eq!(game.lane_states[0].object_states, vec![hold_hit(0, 76)]);
    assert_eq!(game.lane_states[0].first_object(), 1);
}

#[test]
fn held_hold_stays_held_until_its_end_window_is_over() {
    let mut game = one_lane(vec![hold(0, 1000), tap(5000)]);
    game.key_press(0, at(10));
    game.update(0, at(500));
    assert_eq!(game.lane_states[0].object_states, vec![held(10), TAP_OPEN]);
    game.update(0, at(1076));
    assert_eq!(game.lane_states[0].object_states, vec![held(10), TAP_OPEN]);
    assert_eq!(game.lane_states[0].first_object(), 0);
    game.update(0, GameTimestamp::from_milli_hundreds(107_601));
    assert_eq!(game.lane_states[0].object_states, vec![hold_hit(10, 76), TAP_OPEN]);
    assert_eq!(game.lane_states[0].first_object(), 1);
}

#[test]
fn press_before_the_window_is_ignored() {
    let mut game = one_lane(vec![tap(1000), hold(2000, 3000)]);
    game.key_press(0, at(923));
    assert_eq!(game.lane_states[0].object_states, vec![TAP_OPEN, HOLD_OPEN]);
    assert_eq!(game.lane_states[0].first_object(), 0);
    game.key_press(0, at(924));
    assert_eq!(game.lane_states[0].object_states, vec![tap_hit(-76), HOLD_OPEN]);
    assert_eq!(game.lane_states[0].first_object(), 1);
    game.key_press(0, GameTimestamp::from_milli_hundreds(192_399));
    assert_eq!(game.lane_states[0].object_states, vec![tap_hit(-76), HOLD_OPEN]);
    game.key_press(0, GameTimestamp::from_milli_hundreds(192_400));
    assert_eq!(game.lane_states[0].object_states, vec![tap_hit(-76), held(-76)]);
    assert_eq!(game.lane_states[0].first_object(), 1);
}

#[test]
fn tap_is_in_reach_until_the_window_is_over() {
    let mut game = one_lane(vec![tap(1000)]);
    game.update(0, at(1076));
    assert_eq!(game.lane_states[0].first_object(), 0);
    game.key_press(0, at(1076));
    assert_eq!(game.lane_states[0].object_states, vec![tap_hit(76)]);

    let mut late = one_lane(vec![tap(1000)]);
    late.key_press(0, GameTimestamp::from_milli_hundreds(107_601));
    assert_eq!(late.lane_states[0].object_states, vec![TAP_OPEN]);
    assert_eq!(late.lane_states[0].first_object(), 1);
}

#[test]
fn hold_not_pressed_in_its_window_is_missed() {
    let mut game = one_lane(vec![hold(0, 1000), tap(2000)]);
    game.update(0, at(76));
    assert_eq!(game.lane_states[0].object_states, vec![HOLD_OPEN, TAP_OPEN]);
    game.update(0, at(77));
    assert_eq!(game.lane_states[0].object_states, vec![HOLD_MISSED, TAP_OPEN]);
    assert_eq!(game.lane_states[0].first_object(), 1);
    game.key_press(0, at(500));
    assert_eq!(game.lane_states[0].object_states, vec![HOLD_MISSED, TAP_OPEN]);
    assert_eq!(game.lane_states[0].first_object(), 1);
}

#[test]
fn update_passes_every_object_out_of_reach() {
    let mut game = one_lane(vec![tap(0), hold(100, 200), hold(300, 400), tap(500), tap(9000)]);
    game.update(0, at(8000));
    assert_eq!(
        game.lane_states[0].object_states,
        vec![TAP_OPEN, HOLD_MISSED, HOLD_MISSED, TAP_OPEN, TAP_OPEN]
    );
    assert_eq!(game.lane_states[0].first_object(), 4);
    assert!(game.has_active_objects(0));
    game.update(0, at(10_000));
    assert_eq!(game.lane_states[0].first_object(), 5);
    assert!(!game.has_active_objects(0));
}

#[test]
fn release_with_nothing_held_changes_nothing() {
    let mut game = one_lane(vec![tap(0), hold(1000, 2000)]);
    game.key_release(0, at(0));
    assert_eq!(game.lane_states[0].object_states, vec![TAP_OPEN, HOLD_OPEN]);
    assert_eq!(game.lane_states[0].first_object(), 0);
    game.key_press(0, at(0));
    game.key_release(0, at(1000));
    assert_eq!(game.lane_states[0].object_states, vec![tap_hit(0), HOLD_OPEN]);
    assert_eq!(game.lane_states[0].first_object(), 1);
}

#[test]
fn release_before_the_window_of_a_held_hold_misses_it() {
    let mut game = one_lane(vec![hold(1000, 2000)]);
    game.key_press(0, at(1000));
    assert_eq!(game.lane_states[0].object_states, vec![held(0)]);
    game.key_release(0, at(0));
    assert_eq!(
        game.lane_states[0].object_states,
        vec![ObjectState::LongNote(LongNoteState::Missed {
            held: Some(MapTimestamp::from_millis(0)),
            press_diff: Some(diff(0)),
        })]
    );
    assert_eq!(game.lane_states[0].first_object(), 1);
}

#[test]
fn early_release_of_a_held_hold_is_a_hit_with_its_offset() {
    let mut game = one_lane(vec![hold(1000, 2000)]);
    game.key_press(0, at(1010));
    game.key_release(0, at(1500));
    assert_eq!(game.lane_states[0].object_states, vec![hold_hit(10, -500)]);
}

#[test]
fn second_press_on_a_held_hold_holds_it_anew() {
    let mut game = one_lane(vec![hold(1000, 2000)]);
    game.key_press(0, at(1000));
    game.key_press(0, at(1500));
    assert_eq!(game.lane_states[0].object_states, vec![held(500)]);
    assert_eq!(game.lane_states[0].first_object(), 0);
}

#[test]
fn events_on_a_finished_lane_change_nothing() {
    let mut game = one_lane(vec![tap(0)]);
    game.key_press(0, at(0));
    game.key_press(0, at(10));
    game.key_release(0, at(20));
    game.update(0, at(30));
    assert_eq!(game.lane_states[0].object_states, vec![tap_hit(0)]);
    assert_eq!(game.lane_states[0].first_object(), 1);

    let mut empty = one_lane(vec![]);
    empty.update(0, at(0));
    empty.key_press(0, at(0));
    empty.key_release(0, at(0));
    assert!(empty.lane_states[0].object_states.is_empty());
    assert_eq!(empty.lane_states[0].first_object(), 0);
}

#[test]
fn lanes_are_judged_apart() {
    let mut game = Game::new(chart(vec![
        Lane { objects: vec![tap(0), tap(1000)] },
        Lane { objects: vec![hold(0, 500)] },
    ]));
    game.key_press(1, at(5));
    assert_eq!(game.lane_states[0].object_states, vec![TAP_OPEN, TAP_OPEN]);
    assert_eq!(game.lane_states[0].first_object(), 0);
    assert_eq!(game.lane_states[1].object_states, vec![held(5)]);
    game.key_press(0, at(1000));
    assert_eq!(game.lane_states[0].object_states, vec![TAP_OPEN, tap_hit(0)]);
    assert_eq!(game.lane_states[1].object_states, vec![held(5)]);
    assert_eq!(game.lane_states[1].first_object(), 0);
}

#[test]
fn offset_moves_game_time_onto_map_time() {
    let mut game = one_lane(vec![tap(1000)]);
    game.timestamp_converter.global_offset = diff(-50);
    game.key_press(0, at(1050));
    assert_eq!(game.lane_states[0].object_states, vec![tap_hit(0)]);

    let mut early = one_lane(vec![tap(1000)]);
    early.timestamp_converter.global_offset = diff(100);
    early.key_press(0, at(823));
    assert_eq!(early.lane_states[0].object_states, vec![TAP_OPEN]);
    early.key_press(0, at(830));
    assert_eq!(early.lane_states[0].object_states, vec![tap_hit(-70)]);
}

#[test]
fn cursor_never_moves_back() {
    let mut game = one_lane(vec![tap(0), hold(1000, 2000), tap(3000), hold(4000, 5000)]);
    let times = [0, 500, 1000, 900, 2000, 2100, 100, 3000, 3000, 4100, 4000, 6000, 0];
    let mut cursor = game.lane_states[0].first_object();
    for (n, millis) in times.iter().enumerate() {
        match n % 3 {
            0 => game.key_press(0, at(*millis)),
            1 => game.update(0, at(*millis)),
            _ => game.key_release(0, at(*millis)),
        }
        let now = game.lane_states[0].first_object();
        assert!(now >= cursor);
        cursor = now;
    }
    assert_eq!(cursor, 4);
}

#[test]
fn final_verdicts_never_change() {
    let mut game = one_lane(vec![tap(0), hold(1000, 2000), hold(3000, 4000), tap(5000)]);
    let events = [
        ('p', 0),
        ('r', 10),
        ('p', 1000),
        ('u', 1200),
        ('r', 1500),
        ('u', 3200),
        ('p', 3300),
        ('r', 100),
        ('p', 5000),
        ('u', 9000),
        ('p', 0),
        ('r', 0),
    ];
    for (kind, millis) in events {
        let before = game.lane_states[0].object_states.clone();
        match kind {
            'p' => game.key_press(0, at(millis)),
            'r' => game.key_release(0, at(millis)),
            _ => game.update(0, at(millis)),
        }
        for (old, new) in before.iter().zip(game.lane_states[0].object_states.iter()) {
            let is_final = old.is_hit()
                || matches!(old, ObjectState::LongNote(LongNoteState::Missed { .. }));
            if is_final {
                assert_eq!(old, new);
            }
        }
    }
    assert_eq!(
        game.lane_states[0].object_states,
        vec![tap_hit(0), hold_hit(0, -500), HOLD_MISSED, tap_hit(0)]
    );
}

#[test]
fn is_hit_tells_hits_from_the_rest() {
    assert!(tap_hit(3).is_hit());
    assert!(hold_hit(1, 2).is_hit());
    assert!(!TAP_OPEN.is_hit());
    assert!(!HOLD_OPEN.is_hit());
    assert!(!held(0).is_hit());
    assert!(!HOLD_MISSED.is_hit());
}

#[test]
fn objects_give_their_start_and_end() {
    assert_eq!(tap(12).start_timestamp(), MapTimestamp::from_millis(12));
    assert_eq!(tap(12).end_timestamp(), MapTimestamp::from_millis(12));
    assert_eq!(hold(5, 9).start_timestamp(), MapTimestamp::from_millis(5));
    assert_eq!(hold(5, 9).end_timestamp(), MapTimestamp::from_millis(9));
}

#[test]
fn objects_are_judgeable_where_the_window_fits() {
    assert!(tap(0).is_judgeable());
    assert!(hold(0, 1).is_judgeable());
    assert!(!hold(5, 5).is_judgeable());
    assert!(!hold(6, 5).is_judgeable());
    let first = i32::MIN + 7600;
    let last = i32::MAX - 7600;
    let tap_at = |units: i32| Object::HitObject { timestamp: MapTimestamp::from_milli_hundreds(units) };
    let hold_at = |start: i32, end: i32| Object::LongNote {
        start_timestamp: MapTimestamp::from_milli_hundreds(start),
        end_timestamp: MapTimestamp::from_milli_hundreds(end),
    };
    assert!(tap_at(first).is_judgeable());
    assert!(!tap_at(first - 1).is_judgeable());
    assert!(tap_at(last).is_judgeable());
    assert!(!tap_at(last + 1).is_judgeable());
    assert!(hold_at(0, last).is_judgeable());
    assert!(!hold_at(-1, last).is_judgeable());
    assert!(hold_at(first, first + last).is_judgeable());
    assert!(!hold_at(first, first + last + 1).is_judgeable());
}

#[test]
fn lane_is_ordered_where_each_object_ends_before_the_next_starts() {
    assert!(Lane { objects: vec![] }.is_ordered());
    assert!(Lane { objects: vec![tap(0)] }.is_ordered());
    assert!(Lane { objects: vec![tap(0), hold(1, 2), tap(3)] }.is_ordered());
    assert!(!Lane { objects: vec![tap(0), tap(0)] }.is_ordered());
    assert!(!Lane { objects: vec![hold(0, 10), tap(10)] }.is_ordered());
    assert!(!Lane { objects: vec![hold(0, 10), tap(5), tap(20)] }.is_ordered());
    assert!(!Lane { objects: vec![tap(3), tap(1)] }.is_ordered());
    assert!(!Lane { objects: vec![tap(0), hold(2, 1)] }.is_ordered());
}

#[test]
fn chart_can_be_ordered_where_its_objects_are_apart() {
    assert!(chart(vec![]).can_be_ordered());
    assert!(chart(vec![Lane { objects: vec![] }]).can_be_ordered());
    assert!(chart(vec![
        Lane { objects: vec![tap(3000), hold(1000, 2000), tap(0)] },
        Lane { objects: vec![tap(0), tap(3000)] },
    ])
    .can_be_ordered());
    assert!(!chart(vec![
        Lane { objects: vec![tap(3000), hold(1000, 2000), tap(0)] },
        Lane { objects: vec![tap(1500), hold(1000, 2000)] },
    ])
    .can_be_ordered());
    assert!(!chart(vec![Lane { objects: vec![tap(7), tap(7)] }]).can_be_ordered());
    assert!(!chart(vec![Lane { objects: vec![hold(20, 10)] }]).can_be_ordered());
    assert!(!chart(vec![Lane { objects: vec![hold(0, 10), hold(10, 20)] }]).can_be_ordered());
}

#[test]
fn release_offset_is_measured_from_the_end_of_the_hold() {
    let mut late = one_lane(vec![hold(1000, 2000)]);
    late.key_press(0, at(1000));
    late.key_release(0, at(2076));
    assert_eq!(late.lane_states[0].object_states, vec![hold_hit(0, 76)]);

    let mut early = one_lane(vec![hold(1000, 2000)]);
    early.key_press(0, at(924));
    early.key_release(0, at(924));
    assert_eq!(early.lane_states[0].object_states, vec![hold_hit(-76, -1076)]);
}

#[test]
fn object_state_reads_one_verdict() {
    let mut game = one_lane(vec![tap(0), hold(1000, 2000)]);
    assert_eq!(game.lane_states[0].object_state(0), TAP_OPEN);
    assert_eq!(game.lane_states[0].object_state(1), HOLD_OPEN);
    game.key_press(0, at(5));
    game.key_press(0, at(1001));
    assert_eq!(game.lane_states[0].object_state(0), tap_hit(5));
    assert_eq!(game.lane_states[0].object_state(1), held(1));
}
