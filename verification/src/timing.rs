//! Fixed-point timestamps at a resolution of 1/100 of a millisecond, in two
//! time domains.
//!
//! *Map time* is the time written in a chart. *Game time* is the time of the
//! playback clock, which input events carry. The two domains are separate
//! types; a [`TimestampConverter`] is the only way from one to the other.
//!
//! Every type here views as the `int` number of 1/100 ms units it holds, and
//! is ordered by that number.

use core::cmp::Ordering;
use vstd::prelude::*;
use vstd::std_specs::cmp::PartialOrdSpecImpl;
use vstd::std_specs::ops::AddSpecImpl;
use vstd::std_specs::ops::SubSpecImpl;

verus! {

/// Number of fixed-point units in one millisecond.
pub const UNITS_PER_MILLI: i32 = 100;

/// The quotient of `a` by a positive `b`, rounded toward zero.
pub open spec fn div_toward_zero(a: int, b: int) -> int {
    if a >= 0 {
        a / b
    } else {
        -((-a) / b)
    }
}

/// Whether `v` can be held in an `i32`.
pub open spec fn fits_i32(v: int) -> bool {
    i32::MIN <= v <= i32::MAX
}

/// A point in time, counted in 1/100 ms units.
#[derive(Debug, PartialEq, Eq, Ord, Clone, Copy, Structural)]
pub struct Timestamp(pub i32);

/// A signed duration, counted in 1/100 ms units.
#[derive(Debug, PartialEq, Eq, Ord, Clone, Copy, Structural)]
pub struct TimestampDifference(pub i32);

/// A point in time of the chart.
#[derive(Debug, PartialEq, Eq, Ord, Clone, Copy, Structural)]
pub struct MapTimestamp(pub Timestamp);

/// A duration between two points in time of the chart.
#[derive(Debug, PartialEq, Eq, Ord, Clone, Copy, Structural)]
pub struct MapTimestampDifference(pub TimestampDifference);

/// A point in time of the playback clock.
#[derive(Debug, PartialEq, Eq, Ord, Clone, Copy, Structural)]
pub struct GameTimestamp(pub Timestamp);

/// A duration between two points in time of the playback clock.
#[derive(Debug, PartialEq, Eq, Ord, Clone, Copy, Structural)]
pub struct GameTimestampDifference(pub TimestampDifference);

/// Converts between game time and map time.
pub struct TimestampConverter {
    /// What is added to a game timestamp to get the map timestamp. It makes up
    /// for the playback latency of the audio device.
    pub global_offset: GameTimestampDifference,
}

impl View for Timestamp {
    type V = int;

    open spec fn view(&self) -> int {
        self.0 as int
    }
}

impl View for TimestampDifference {
    type V = int;

    open spec fn view(&self) -> int {
        self.0 as int
    }
}

impl View for MapTimestamp {
    type V = int;

    open spec fn view(&self) -> int {
        self.0@
    }
}

impl View for MapTimestampDifference {
    type V = int;

    open spec fn view(&self) -> int {
        self.0@
    }
}

impl View for GameTimestamp {
    type V = int;

    open spec fn view(&self) -> int {
        self.0@
    }
}

impl View for GameTimestampDifference {
    type V = int;

    open spec fn view(&self) -> int {
        self.0@
    }
}

impl Timestamp {
    /// The value that holds `units` 1/100 ms units, where that fits.
    pub open spec fn of_units(units: int) -> Self {
        Timestamp(units as i32)
    }

    /// The timestamp `millis` milliseconds after zero.
    pub fn from_millis(millis: i32) -> (r: Self)
        requires
            fits_i32(millis * 100),
        ensures
            r@ == millis * 100,
    {
        Timestamp(millis * UNITS_PER_MILLI)
    }

    /// Whole milliseconds, rounded toward zero.
    pub fn as_millis(self) -> (r: i32)
        ensures
            r == div_toward_zero(self@, 100),
    {
        self.0 / UNITS_PER_MILLI
    }

    /// The value that holds `milli_hundreds` 1/100 ms units.
    pub fn from_milli_hundreds(milli_hundreds: i32) -> (r: Self)
        ensures
            r@ == milli_hundreds,
            r == Self::of_units(milli_hundreds as int),
    {
        Timestamp(milli_hundreds)
    }

    /// The number of 1/100 ms units held.
    pub fn into_milli_hundreds(self) -> (r: i32)
        ensures
            r == self@,
    {
        self.0
    }
}

impl TimestampDifference {
    /// The value that holds `units` 1/100 ms units, where that fits.
    pub open spec fn of_units(units: int) -> Self {
        TimestampDifference(units as i32)
    }

    /// The duration of `millis` milliseconds.
    pub fn from_millis(millis: i32) -> (r: Self)
        requires
            fits_i32(millis * 100),
        ensures
            r@ == millis * 100,
    {
        TimestampDifference(millis * UNITS_PER_MILLI)
    }

    /// Whole milliseconds, rounded toward zero.
    pub fn as_millis(self) -> (r: i32)
        ensures
            r == div_toward_zero(self@, 100),
    {
        self.0 / UNITS_PER_MILLI
    }

    /// The value that holds `milli_hundreds` 1/100 ms units.
    pub fn from_milli_hundreds(milli_hundreds: i32) -> (r: Self)
        ensures
            r@ == milli_hundreds,
            r == Self::of_units(milli_hundreds as int),
    {
        TimestampDifference(milli_hundreds)
    }

    /// The number of 1/100 ms units held.
    pub fn into_milli_hundreds(self) -> (r: i32)
        ensures
            r == self@,
    {
        self.0
    }
}

impl MapTimestamp {
    /// The value that holds `units` 1/100 ms units, where that fits.
    pub open spec fn of_units(units: int) -> Self {
        MapTimestamp(Timestamp::of_units(units))
    }

    /// The timestamp `millis` milliseconds after zero.
    pub fn from_millis(millis: i32) -> (r: Self)
        requires
            fits_i32(millis * 100),
        ensures
            r@ == millis * 100,
    {
        MapTimestamp(Timestamp::from_millis(millis))
    }

    /// Whole milliseconds, rounded toward zero.
    pub fn as_millis(self) -> (r: i32)
        ensures
            r == div_toward_zero(self@, 100),
    {
        self.0.as_millis()
    }

    /// The value that holds `milli_hundreds` 1/100 ms units.
    pub fn from_milli_hundreds(milli_hundreds: i32) -> (r: Self)
        ensures
            r@ == milli_hundreds,
            r == Self::of_units(milli_hundreds as int),
    {
        MapTimestamp(Timestamp::from_milli_hundreds(milli_hundreds))
    }

    /// The number of 1/100 ms units held.
    pub fn into_milli_hundreds(self) -> (r: i32)
        ensures
            r == self@,
    {
        self.0.into_milli_hundreds()
    }
}

impl MapTimestampDifference {
    /// The value that holds `units` 1/100 ms units, where that fits.
    pub open spec fn of_units(units: int) -> Self {
        MapTimestampDifference(TimestampDifference::of_units(units))
    }

    /// The duration of `millis` milliseconds.
    pub fn from_millis(millis: i32) -> (r: Self)
        requires
            fits_i32(millis * 100),
        ensures
            r@ == millis * 100,
    {
        MapTimestampDifference(TimestampDifference::from_millis(millis))
    }

    /// Whole milliseconds, rounded toward zero.
    pub fn as_millis(self) -> (r: i32)
        ensures
            r == div_toward_zero(self@, 100),
    {
        self.0.as_millis()
    }

    /// The value that holds `milli_hundreds` 1/100 ms units.
    pub fn from_milli_hundreds(milli_hundreds: i32) -> (r: Self)
        ensures
            r@ == milli_hundreds,
            r == Self::of_units(milli_hundreds as int),
    {
        MapTimestampDifference(TimestampDifference::from_milli_hundreds(milli_hundreds))
    }

    /// The number of 1/100 ms units held.
    pub fn into_milli_hundreds(self) -> (r: i32)
        ensures
            r == self@,
    {
        self.0.into_milli_hundreds()
    }
}

impl GameTimestamp {
    /// The value that holds `units` 1/100 ms units, where that fits.
    pub open spec fn of_units(units: int) -> Self {
        GameTimestamp(Timestamp::of_units(units))
    }

    /// The timestamp `millis` milliseconds after zero.
    pub fn from_millis(millis: i32) -> (r: Self)
        requires
            fits_i32(millis * 100),
        ensures
            r@ == millis * 100,
    {
        GameTimestamp(Timestamp::from_millis(millis))
    }

    /// Whole milliseconds, rounded toward zero.
    pub fn as_millis(self) -> (r: i32)
        ensures
            r == div_toward_zero(self@, 100),
    {
        self.0.as_millis()
    }

    /// The value that holds `milli_hundreds` 1/100 ms units.
    pub fn from_milli_hundreds(milli_hundreds: i32) -> (r: Self)
        ensures
            r@ == milli_hundreds,
            r == Self::of_units(milli_hundreds as int),
    {
        GameTimestamp(Timestamp::from_milli_hundreds(milli_hundreds))
    }

    /// The number of 1/100 ms units held.
    pub fn into_milli_hundreds(self) -> (r: i32)
        ensures
            r == self@,
    {
        self.0.into_milli_hundreds()
    }
}

impl GameTimestampDifference {
    /// The value that holds `units` 1/100 ms units, where that fits.
    pub open spec fn of_units(units: int) -> Self {
        GameTimestampDifference(TimestampDifference::of_units(units))
    }

    /// The duration of `millis` milliseconds.
    pub fn from_millis(millis: i32) -> (r: Self)
        requires
            fits_i32(millis * 100),
        ensures
            r@ == millis * 100,
    {
        GameTimestampDifference(TimestampDifference::from_millis(millis))
    }

    /// Whole milliseconds, rounded toward zero.
    pub fn as_millis(self) -> (r: i32)
        ensures
            r == div_toward_zero(self@, 100),
    {
        self.0.as_millis()
    }

    /// The value that holds `milli_hundreds` 1/100 ms units.
    pub fn from_milli_hundreds(milli_hundreds: i32) -> (r: Self)
        ensures
            r@ == milli_hundreds,
            r == Self::of_units(milli_hundreds as int),
    {
        GameTimestampDifference(TimestampDifference::from_milli_hundreds(milli_hundreds))
    }

    /// The number of 1/100 ms units held.
    pub fn into_milli_hundreds(self) -> (r: i32)
        ensures
            r == self@,
    {
        self.0.into_milli_hundreds()
    }
}

/// How two counts of units compare.
pub open spec fn order_of_units(a: int, b: int) -> Option<Ordering> {
    if a < b {
        Some(Ordering::Less)
    } else if a == b {
        Some(Ordering::Equal)
    } else {
        Some(Ordering::Greater)
    }
}

impl PartialOrd for Timestamp {
    fn partial_cmp(&self, other: &Timestamp) -> (r: Option<Ordering>) {
        self.0.partial_cmp(&other.0)
    }
}

impl PartialOrdSpecImpl for Timestamp {
    open spec fn obeys_partial_cmp_spec() -> bool {
        true
    }

    open spec fn partial_cmp_spec(&self, other: &Timestamp) -> Option<Ordering> {
        order_of_units(self@, other@)
    }
}

impl PartialOrd for TimestampDifference {
    fn partial_cmp(&self, other: &TimestampDifference) -> (r: Option<Ordering>) {
        self.0.partial_cmp(&other.0)
    }
}

impl PartialOrdSpecImpl for TimestampDifference {
    open spec fn obeys_partial_cmp_spec() -> bool {
        true
    }

    open spec fn partial_cmp_spec(&self, other: &TimestampDifference) -> Option<Ordering> {
        order_of_units(self@, other@)
    }
}

impl PartialOrd for MapTimestamp {
    fn partial_cmp(&self, other: &MapTimestamp) -> (r: Option<Ordering>) {
        self.0.partial_cmp(&other.0)
    }
}

impl PartialOrdSpecImpl for MapTimestamp {
    open spec fn obeys_partial_cmp_spec() -> bool {
        true
    }

    open spec fn partial_cmp_spec(&self, other: &MapTimestamp) -> Option<Ordering> {
        order_of_units(self@, other@)
    }
}

impl PartialOrd for MapTimestampDifference {
    fn partial_cmp(&self, other: &MapTimestampDifference) -> (r: Option<Ordering>) {
        self.0.partial_cmp(&other.0)
    }
}

impl PartialOrdSpecImpl for MapTimestampDifference {
    open spec fn obeys_partial_cmp_spec() -> bool {
        true
    }

    open spec fn partial_cmp_spec(&self, other: &MapTimestampDifference) -> Option<Ordering> {
        order_of_units(self@, other@)
    }
}

impl PartialOrd for GameTimestamp {
    fn partial_cmp(&self, other: &GameTimestamp) -> (r: Option<Ordering>) {
        self.0.partial_cmp(&other.0)
    }
}

impl PartialOrdSpecImpl for GameTimestamp {
    open spec fn obeys_partial_cmp_spec() -> bool {
        true
    }

    open spec fn partial_cmp_spec(&self, other: &GameTimestamp) -> Option<Ordering> {
        order_of_units(self@, other@)
    }
}

impl PartialOrd for GameTimestampDifference {
    fn partial_cmp(&self, other: &GameTimestampDifference) -> (r: Option<Ordering>) {
        self.0.partial_cmp(&other.0)
    }
}

impl PartialOrdSpecImpl for GameTimestampDifference {
    open spec fn obeys_partial_cmp_spec() -> bool {
        true
    }

    open spec fn partial_cmp_spec(&self, other: &GameTimestampDifference) -> Option<Ordering> {
        order_of_units(self@, other@)
    }
}

impl core::ops::Sub<Timestamp> for Timestamp {
    type Output = TimestampDifference;

    fn sub(self, other: Timestamp) -> (r: TimestampDifference) {
        TimestampDifference(self.0 - other.0)
    }
}

impl SubSpecImpl<Timestamp> for Timestamp {
    open spec fn obeys_sub_spec() -> bool {
        true
    }

    /// The difference must fit in 32 bits.
    open spec fn sub_req(self, other: Timestamp) -> bool {
        fits_i32(self@ - other@)
    }

    open spec fn sub_spec(self, other: Timestamp) -> TimestampDifference {
        TimestampDifference::of_units(self@ - other@)
    }
}

impl core::ops::Add<TimestampDifference> for Timestamp {
    type Output = Timestamp;

    fn add(self, other: TimestampDifference) -> (r: Timestamp) {
        Timestamp(self.0 + other.0)
    }
}

impl AddSpecImpl<TimestampDifference> for Timestamp {
    open spec fn obeys_add_spec() -> bool {
        true
    }

    /// The sum must fit in 32 bits.
    open spec fn add_req(self, other: TimestampDifference) -> bool {
        fits_i32(self@ + other@)
    }

    open spec fn add_spec(self, other: TimestampDifference) -> Timestamp {
        Timestamp::of_units(self@ + other@)
    }
}

impl core::ops::Sub<TimestampDifference> for Timestamp {
    type Output = Timestamp;

    fn sub(self, other: TimestampDifference) -> (r: Timestamp) {
        Timestamp(self.0 - other.0)
    }
}

impl SubSpecImpl<TimestampDifference> for Timestamp {
    open spec fn obeys_sub_spec() -> bool {
        true
    }

    /// The difference must fit in 32 bits.
    open spec fn sub_req(self, other: TimestampDifference) -> bool {
        fits_i32(self@ - other@)
    }

    open spec fn sub_spec(self, other: TimestampDifference) -> Timestamp {
        Timestamp::of_units(self@ - other@)
    }
}

impl core::ops::Add<TimestampDifference> for TimestampDifference {
    type Output = TimestampDifference;

    fn add(self, other: TimestampDifference) -> (r: TimestampDifference) {
        TimestampDifference(self.0 + other.0)
    }
}

impl AddSpecImpl<TimestampDifference> for TimestampDifference {
    open spec fn obeys_add_spec() -> bool {
        true
    }

    /// The sum must fit in 32 bits.
    open spec fn add_req(self, other: TimestampDifference) -> bool {
        fits_i32(self@ + other@)
    }

    open spec fn add_spec(self, other: TimestampDifference) -> TimestampDifference {
        TimestampDifference::of_units(self@ + other@)
    }
}

impl core::ops::Sub<TimestampDifference> for TimestampDifference {
    type Output = TimestampDifference;

    fn sub(self, other: TimestampDifference) -> (r: TimestampDifference) {
        TimestampDifference(self.0 - other.0)
    }
}

impl SubSpecImpl<TimestampDifference> for TimestampDifference {
    open spec fn obeys_sub_spec() -> bool {
        true
    }

    /// The difference must fit in 32 bits.
    open spec fn sub_req(self, other: TimestampDifference) -> bool {
        fits_i32(self@ - other@)
    }

    open spec fn sub_spec(self, other: TimestampDifference) -> TimestampDifference {
        TimestampDifference::of_units(self@ - other@)
    }
}

impl core::ops::Sub<MapTimestamp> for MapTimestamp {
    type Output = MapTimestampDifference;

    fn sub(self, other: MapTimestamp) -> (r: MapTimestampDifference) {
        MapTimestampDifference(self.0 - other.0)
    }
}

impl SubSpecImpl<MapTimestamp> for MapTimestamp {
    open spec fn obeys_sub_spec() -> bool {
        true
    }

    /// The difference must fit in 32 bits.
    open spec fn sub_req(self, other: MapTimestamp) -> bool {
        fits_i32(self@ - other@)
    }

    open spec fn sub_spec(self, other: MapTimestamp) -> MapTimestampDifference {
        MapTimestampDifference::of_units(self@ - other@)
    }
}

impl core::ops::Add<MapTimestampDifference> for MapTimestamp {
    type Output = MapTimestamp;

    fn add(self, other: MapTimestampDifference) -> (r: MapTimestamp) {
        MapTimestamp(self.0 + other.0)
    }
}

impl AddSpecImpl<MapTimestampDifference> for MapTimestamp {
    open spec fn obeys_add_spec() -> bool {
        true
    }

    /// The sum must fit in 32 bits.
    open spec fn add_req(self, other: MapTimestampDifference) -> bool {
        fits_i32(self@ + other@)
    }

    open spec fn add_spec(self, other: MapTimestampDifference) -> MapTimestamp {
        MapTimestamp::of_units(self@ + other@)
    }
}

impl core::ops::Sub<MapTimestampDifference> for MapTimestamp {
    type Output = MapTimestamp;

    fn sub(self, other: MapTimestampDifference) -> (r: MapTimestamp) {
        MapTimestamp(self.0 - other.0)
    }
}

impl SubSpecImpl<MapTimestampDifference> for MapTimestamp {
    open spec fn obeys_sub_spec() -> bool {
        true
    }

    /// The difference must fit in 32 bits.
    open spec fn sub_req(self, other: MapTimestampDifference) -> bool {
        fits_i32(self@ - other@)
    }

    open spec fn sub_spec(self, other: MapTimestampDifference) -> MapTimestamp {
        MapTimestamp::of_units(self@ - other@)
    }
}

impl core::ops::Add<MapTimestampDifference> for MapTimestampDifference {
    type Output = MapTimestampDifference;

    fn add(self, other: MapTimestampDifference) -> (r: MapTimestampDifference) {
        MapTimestampDifference(self.0 + other.0)
    }
}

impl AddSpecImpl<MapTimestampDifference> for MapTimestampDifference {
    open spec fn obeys_add_spec() -> bool {
        true
    }

    /// The sum must fit in 32 bits.
    open spec fn add_req(self, other: MapTimestampDifference) -> bool {
        fits_i32(self@ + other@)
    }

    open spec fn add_spec(self, other: MapTimestampDifference) -> MapTimestampDifference {
        MapTimestampDifference::of_units(self@ + other@)
    }
}

impl core::ops::Sub<MapTimestampDifference> for MapTimestampDifference {
    type Output = MapTimestampDifference;

    fn sub(self, other: MapTimestampDifference) -> (r: MapTimestampDifference) {
        MapTimestampDifference(self.0 - other.0)
    }
}

impl SubSpecImpl<MapTimestampDifference> for MapTimestampDifference {
    open spec fn obeys_sub_spec() -> bool {
        true
    }

    /// The difference must fit in 32 bits.
    open spec fn sub_req(self, other: MapTimestampDifference) -> bool {
        fits_i32(self@ - other@)
    }

    open spec fn sub_spec(self, other: MapTimestampDifference) -> MapTimestampDifference {
        MapTimestampDifference::of_units(self@ - other@)
    }
}

impl core::ops::Sub<GameTimestamp> for GameTimestamp {
    type Output = GameTimestampDifference;

    fn sub(self, other: GameTimestamp) -> (r: GameTimestampDifference) {
        GameTimestampDifference(self.0 - other.0)
    }
}

impl SubSpecImpl<GameTimestamp> for GameTimestamp {
    open spec fn obeys_sub_spec() -> bool {
        true
    }

    /// The difference must fit in 32 bits.
    open spec fn sub_req(self, other: GameTimestamp) -> bool {
        fits_i32(self@ - other@)
    }

    open spec fn sub_spec(self, other: GameTimestamp) -> GameTimestampDifference {
        GameTimestampDifference::of_units(self@ - other@)
    }
}

impl core::ops::Add<GameTimestampDifference> for GameTimestamp {
    type Output = GameTimestamp;

    fn add(self, other: GameTimestampDifference) -> (r: GameTimestamp) {
        GameTimestamp(self.0 + other.0)
    }
}

impl AddSpecImpl<GameTimestampDifference> for GameTimestamp {
    open spec fn obeys_add_spec() -> bool {
        true
    }

    /// The sum must fit in 32 bits.
    open spec fn add_req(self, other: GameTimestampDifference) -> bool {
        fits_i32(self@ + other@)
    }

    open spec fn add_spec(self, other: GameTimestampDifference) -> GameTimestamp {
        GameTimestamp::of_units(self@ + other@)
    }
}

impl core::ops::Sub<GameTimestampDifference> for GameTimestamp {
    type Output = GameTimestamp;

    fn sub(self, other: GameTimestampDifference) -> (r: GameTimestamp) {
        GameTimestamp(self.0 - other.0)
    }
}

impl SubSpecImpl<GameTimestampDifference> for GameTimestamp {
    open spec fn obeys_sub_spec() -> bool {
        true
    }

    /// The difference must fit in 32 bits.
    open spec fn sub_req(self, other: GameTimestampDifference) -> bool {
        fits_i32(self@ - other@)
    }

    open spec fn sub_spec(self, other: GameTimestampDifference) -> GameTimestamp {
        GameTimestamp::of_units(self@ - other@)
    }
}

impl core::ops::Add<GameTimestampDifference> for GameTimestampDifference {
    type Output = GameTimestampDifference;

    fn add(self, other: GameTimestampDifference) -> (r: GameTimestampDifference) {
        GameTimestampDifference(self.0 + other.0)
    }
}

impl AddSpecImpl<GameTimestampDifference> for GameTimestampDifference {
    open spec fn obeys_add_spec() -> bool {
        true
    }

    /// The sum must fit in 32 bits.
    open spec fn add_req(self, other: GameTimestampDifference) -> bool {
        fits_i32(self@ + other@)
    }

    open spec fn add_spec(self, other: GameTimestampDifference) -> GameTimestampDifference {
        GameTimestampDifference::of_units(self@ + other@)
    }
}

impl core::ops::Sub<GameTimestampDifference> for GameTimestampDifference {
    type Output = GameTimestampDifference;

    fn sub(self, other: GameTimestampDifference) -> (r: GameTimestampDifference) {
        GameTimestampDifference(self.0 - other.0)
    }
}

impl SubSpecImpl<GameTimestampDifference> for GameTimestampDifference {
    open spec fn obeys_sub_spec() -> bool {
        true
    }

    /// The difference must fit in 32 bits.
    open spec fn sub_req(self, other: GameTimestampDifference) -> bool {
        fits_i32(self@ - other@)
    }

    open spec fn sub_spec(self, other: GameTimestampDifference) -> GameTimestampDifference {
        GameTimestampDifference::of_units(self@ - other@)
    }
}

impl MapTimestamp {
    /// The game time of this map timestamp.
    pub fn to_game(self, converter: &TimestampConverter) -> (r: GameTimestamp)
        requires
            fits_i32(self@ - converter.global_offset@),
        ensures
            r == converter.spec_map_to_game(self),
            r@ == self@ - converter.global_offset@,
    {
        converter.map_to_game(self)
    }
}

impl MapTimestampDifference {
    /// This duration in game time.
    pub fn to_game(self, converter: &TimestampConverter) -> (r: GameTimestampDifference)
        ensures
            r == converter.spec_map_to_game_difference(self),
            r@ == self@,
    {
        converter.map_to_game_difference(self)
    }
}

impl GameTimestamp {
    /// The map time of this game timestamp.
    pub fn to_map(self, converter: &TimestampConverter) -> (r: MapTimestamp)
        requires
            fits_i32(self@ + converter.global_offset@),
        ensures
            r == converter.spec_game_to_map(self),
            r@ == self@ + converter.global_offset@,
    {
        converter.game_to_map(self)
    }
}

impl GameTimestampDifference {
    /// This duration in map time.
    pub fn to_map(self, converter: &TimestampConverter) -> (r: MapTimestampDifference)
        ensures
            r == converter.spec_game_to_map_difference(self),
            r@ == self@,
    {
        converter.game_to_map_difference(self)
    }
}

impl TimestampConverter {
    /// The map time of a game timestamp: the offset is added.
    pub open spec fn spec_game_to_map(&self, timestamp: GameTimestamp) -> MapTimestamp {
        MapTimestamp::of_units(timestamp@ + self.global_offset@)
    }

    /// The game time of a map timestamp: the offset is taken off.
    pub open spec fn spec_map_to_game(&self, timestamp: MapTimestamp) -> GameTimestamp {
        GameTimestamp::of_units(timestamp@ - self.global_offset@)
    }

    /// A duration is the same in both domains, which tick at one rate.
    pub open spec fn spec_game_to_map_difference(
        &self,
        difference: GameTimestampDifference,
    ) -> MapTimestampDifference {
        MapTimestampDifference(difference.0)
    }

    /// A duration is the same in both domains, which tick at one rate.
    pub open spec fn spec_map_to_game_difference(
        &self,
        difference: MapTimestampDifference,
    ) -> GameTimestampDifference {
        GameTimestampDifference(difference.0)
    }

    /// The map time of a game timestamp.
    pub fn game_to_map(&self, timestamp: GameTimestamp) -> (r: MapTimestamp)
        requires
            fits_i32(timestamp@ + self.global_offset@),
        ensures
            r == self.spec_game_to_map(timestamp),
            r@ == timestamp@ + self.global_offset@,
    {
        MapTimestamp((timestamp + self.global_offset).0)
    }

    /// The game time of a map timestamp.
    pub fn map_to_game(&self, timestamp: MapTimestamp) -> (r: GameTimestamp)
        requires
            fits_i32(timestamp@ - self.global_offset@),
        ensures
            r == self.spec_map_to_game(timestamp),
            r@ == timestamp@ - self.global_offset@,
    {
        GameTimestamp(timestamp.0) - self.global_offset
    }

    /// A game-time duration in map time.
    pub fn game_to_map_difference(&self, difference: GameTimestampDifference) -> (r:
        MapTimestampDifference)
        ensures
            r == self.spec_game_to_map_difference(difference),
            r@ == difference@,
    {
        MapTimestampDifference(difference.0)
    }

    /// A map-time duration in game time.
    pub fn map_to_game_difference(&self, difference: MapTimestampDifference) -> (r:
        GameTimestampDifference)
        ensures
            r == self.spec_map_to_game_difference(difference),
            r@ == difference@,
    {
        GameTimestampDifference(difference.0)
    }

    /// A game-domain duration taken to map time and back is the duration itself.
    pub proof fn lemma_game_difference_round_trip(&self, difference: GameTimestampDifference)
        ensures
            self.spec_map_to_game_difference(self.spec_game_to_map_difference(difference))
                == difference,
    {
    }

    /// A map-domain duration taken to game time and back is the duration itself.
    pub proof fn lemma_map_difference_round_trip(&self, difference: MapTimestampDifference)
        ensures
            self.spec_game_to_map_difference(self.spec_map_to_game_difference(difference))
                == difference,
    {
    }

    /// A game timestamp whose map time fits in 32 bits comes back unchanged
    /// from map time.
    pub proof fn lemma_game_timestamp_round_trip(&self, timestamp: GameTimestamp)
        requires
            fits_i32(timestamp@ + self.global_offset@),
        ensures
            self.spec_map_to_game(self.spec_game_to_map(timestamp)) == timestamp,
    {
    }

    /// A map timestamp whose game time fits in 32 bits comes back unchanged
    /// from game time.
    pub proof fn lemma_map_timestamp_round_trip(&self, timestamp: MapTimestamp)
        requires
            fits_i32(timestamp@ - self.global_offset@),
        ensures
            self.spec_game_to_map(self.spec_map_to_game(timestamp)) == timestamp,
    {
    }
}

} // verus!
