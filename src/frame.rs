//! One simulation tick of race state, and how it is built from a source sample.
//!
//! Floating-point channels are carried as IEEE-754 bit patterns: the relay never
//! does arithmetic on them, it only forwards them.

use vstd::prelude::*;

verus! {

/// Number of car slots in every per-car channel: the simulator's largest grid.
pub const GRID_SIZE: usize = 64;

/// Bit pattern of the `f32` value -273.0, the air and track temperature used when
/// the sample has none.
pub const MISSING_TEMPERATURE_BITS: u32 = 0xC388_8000;

/// Bit pattern of the `f64` value 86400.0 (one day in seconds), the time
/// remaining used when the sample has none.
pub const MISSING_TIME_REMAINING_BITS: u64 = 0x40F5_1800_0000_0000;

/// A per-car channel as the source reports it.
#[derive(Clone, Debug, PartialEq)]
pub enum Channel {
    Ints(Vec<i32>),
    /// `f32` values, as bit patterns.
    Floats(Vec<u32>),
    Bools(Vec<bool>),
    /// A value of any other shape.
    Other,
}

/// What one source poll returned: each channel, or `None` where the source had
/// no value of that name or of the expected type.
#[derive(Clone, Debug, PartialEq)]
pub struct TelemetrySample {
    /// `f32` bits.
    pub air_temperature: Option<u32>,
    /// `f32` bits.
    pub track_temperature: Option<u32>,
    pub state: Option<i32>,
    pub flags: Option<u32>,
    pub session_number: Option<i32>,
    /// `f64` bits, in seconds.
    pub time_remaining: Option<u64>,
    pub car_class_positions: Option<Channel>,
    pub car_positions: Option<Channel>,
    pub car_gears: Option<Channel>,
    pub car_rpms: Option<Channel>,
    pub car_steers: Option<Channel>,
    pub car_laps: Option<Channel>,
    pub car_laps_perc: Option<Channel>,
    pub car_pits: Option<Channel>,
}

/// One tick of race state.
#[derive(Clone, Debug, PartialEq)]
pub struct TelemetryData {
    /// `f32` bits.
    pub air_temperature: u32,
    pub state: i32,
    pub flags: u32,
    pub session_number: i32,
    /// `f64` bits, in seconds.
    pub time_remaining: u64,
    /// `f32` bits.
    pub track_temperature: u32,
    pub car_class_positions: Vec<i32>,
    pub car_positions: Vec<i32>,
    pub car_gears: Vec<i32>,
    /// `f32` bits per car.
    pub car_rpms: Vec<u32>,
    /// `f32` bits per car.
    pub car_steers: Vec<u32>,
    pub car_laps: Vec<i32>,
    /// `f32` bits per car.
    pub car_laps_perc: Vec<u32>,
    pub car_pits: Vec<bool>,
}

/// The frame the producer sends is the frame the hub relays.
pub type TelemetryMessage = TelemetryData;

/// `s` cut or padded with `fill` to the grid size.
pub open spec fn fit<T>(s: Seq<T>, fill: T) -> Seq<T> {
    Seq::new(GRID_SIZE as nat, |i: int| if i < s.len() { s[i] } else { fill })
}

/// An integer channel on the grid: the reported values, zero where there are none.
pub open spec fn int_channel(c: Option<Channel>) -> Seq<i32> {
    match c {
        Some(Channel::Ints(v)) => fit(v@, 0i32),
        _ => fit(Seq::empty(), 0i32),
    }
}

/// A float channel on the grid: the reported bits, those of 0.0 where there are none.
pub open spec fn float_channel(c: Option<Channel>) -> Seq<u32> {
    match c {
        Some(Channel::Floats(v)) => fit(v@, 0u32),
        _ => fit(Seq::empty(), 0u32),
    }
}

/// The pit-road channel on the grid: reported flags as they are, reported
/// integers as "above zero", `false` where there is nothing.
pub open spec fn pit_channel(c: Option<Channel>) -> Seq<bool> {
    match c {
        Some(Channel::Bools(v)) => fit(v@, false),
        Some(Channel::Ints(v)) => fit(v@.map_values(|x: i32| x > 0), false),
        _ => fit(Seq::empty(), false),
    }
}

impl TelemetryData {
    /// Every per-car channel spans the whole grid.
    pub open spec fn wf(&self) -> bool {
        &&& self.car_class_positions@.len() == GRID_SIZE
        &&& self.car_positions@.len() == GRID_SIZE
        &&& self.car_gears@.len() == GRID_SIZE
        &&& self.car_rpms@.len() == GRID_SIZE
        &&& self.car_steers@.len() == GRID_SIZE
        &&& self.car_laps@.len() == GRID_SIZE
        &&& self.car_laps_perc@.len() == GRID_SIZE
        &&& self.car_pits@.len() == GRID_SIZE
    }

    /// This frame is the one built from `s`.
    pub open spec fn built_from(&self, s: TelemetrySample) -> bool {
        &&& self.air_temperature == s.air_temperature.unwrap_or(MISSING_TEMPERATURE_BITS)
        &&& self.track_temperature == s.track_temperature.unwrap_or(MISSING_TEMPERATURE_BITS)
        &&& self.state == s.state.unwrap_or(0)
        &&& self.flags == s.flags.unwrap_or(0)
        &&& self.session_number == s.session_number.unwrap_or(0)
        &&& self.time_remaining == s.time_remaining.unwrap_or(MISSING_TIME_REMAINING_BITS)
        &&& self.car_class_positions@ == int_channel(s.car_class_positions)
        &&& self.car_positions@ == int_channel(s.car_positions)
        &&& self.car_gears@ == int_channel(s.car_gears)
        &&& self.car_rpms@ == float_channel(s.car_rpms)
        &&& self.car_steers@ == float_channel(s.car_steers)
        &&& self.car_laps@ == int_channel(s.car_laps)
        &&& self.car_laps_perc@ == float_channel(s.car_laps_perc)
        &&& self.car_pits@ == pit_channel(s.car_pits)
    }

    /// Builds the frame of a sample: a missing scalar takes its documented
    /// default, a missing or mistyped per-car channel is filled with its sentinel,
    /// and every per-car channel is cut or padded to the grid.
    pub fn from_sample(s: TelemetrySample) -> (r: TelemetryData)
        ensures
            r.wf(),
            r.built_from(s),
    {
        let ghost g = s;
        TelemetryData {
            air_temperature: unwrap_or_u32(s.air_temperature, MISSING_TEMPERATURE_BITS),
            track_temperature: unwrap_or_u32(s.track_temperature, MISSING_TEMPERATURE_BITS),
            state: unwrap_or_i32(s.state, 0),
            flags: unwrap_or_u32(s.flags, 0),
            session_number: unwrap_or_i32(s.session_number, 0),
            time_remaining: match s.time_remaining {
                Some(t) => t,
                None => MISSING_TIME_REMAINING_BITS,
            },
            car_class_positions: ints_on_grid(&s.car_class_positions),
            car_positions: ints_on_grid(&s.car_positions),
            car_gears: ints_on_grid(&s.car_gears),
            car_rpms: floats_on_grid(&s.car_rpms),
            car_steers: floats_on_grid(&s.car_steers),
            car_laps: ints_on_grid(&s.car_laps),
            car_laps_perc: floats_on_grid(&s.car_laps_perc),
            car_pits: pits_on_grid(&s.car_pits),
        }
    }
}

fn unwrap_or_u32(v: Option<u32>, d: u32) -> (r: u32)
    ensures
        r == v.unwrap_or(d),
{
    match v {
        Some(x) => x,
        None => d,
    }
}

fn unwrap_or_i32(v: Option<i32>, d: i32) -> (r: i32)
    ensures
        r == v.unwrap_or(d),
{
    match v {
        Some(x) => x,
        None => d,
    }
}

/// `v` cut or padded with `fill` to the grid size.
pub fn fit_to_grid<T: Copy>(v: &[T], fill: T) -> (r: Vec<T>)
    ensures
        r@ == fit(v@, fill),
{
    let mut r: Vec<T> = Vec::new();
    let mut i: usize = 0;
    while i < GRID_SIZE
        invariant
            i <= GRID_SIZE,
            r@.len() == i,
            forall|j: int| 0 <= j < i ==> r@[j] == (if j < v@.len() { v@[j] } else { fill }),
        decreases GRID_SIZE - i,
    {
        if i < v.len() {
            r.push(v[i]);
        } else {
            r.push(fill);
        }
        i = i + 1;
    }
    assert(r@ =~= fit(v@, fill));
    r
}

/// An integer channel on the grid.
pub fn ints_on_grid(c: &Option<Channel>) -> (r: Vec<i32>)
    ensures
        r@ == int_channel(*c),
{
    match c {
        Some(Channel::Ints(v)) => fit_to_grid(v.as_slice(), 0i32),
        _ => fit_to_grid(&[], 0i32),
    }
}

/// A float channel on the grid.
pub fn floats_on_grid(c: &Option<Channel>) -> (r: Vec<u32>)
    ensures
        r@ == float_channel(*c),
{
    match c {
        Some(Channel::Floats(v)) => fit_to_grid(v.as_slice(), 0u32),
        _ => fit_to_grid(&[], 0u32),
    }
}

/// The pit-road channel on the grid.
pub fn pits_on_grid(c: &Option<Channel>) -> (r: Vec<bool>)
    ensures
        r@ == pit_channel(*c),
{
    match c {
        Some(Channel::Bools(v)) => fit_to_grid(v.as_slice(), false),
        Some(Channel::Ints(v)) => {
            let mut flags: Vec<bool> = Vec::new();
            let mut i: usize = 0;
            while i < v.len()
                invariant
                    i <= v@.len(),
                    flags@ =~= v@.subrange(0, i as int).map_values(|x: i32| x > 0),
                decreases v@.len() - i,
            {
                flags.push(v[i] > 0);
                i = i + 1;
                assert(flags@ =~= v@.subrange(0, i as int).map_values(|x: i32| x > 0));
            }
            assert(v@.subrange(0, v@.len() as int) =~= v@);
            fit_to_grid(flags.as_slice(), false)
        },
        _ => fit_to_grid(&[], false),
    }
}

/// A channel the sample lacks, or holds in another shape, becomes the grid
/// filled with its sentinel: zero for integers and floats, `false` for pit flags.
pub proof fn lemma_missing_channel_filled(c: Option<Channel>)
    requires
        c is None || c->0 is Other,
    ensures
        int_channel(c) =~= Seq::new(GRID_SIZE as nat, |i: int| 0i32),
        float_channel(c) =~= Seq::new(GRID_SIZE as nat, |i: int| 0u32),
        pit_channel(c) =~= Seq::new(GRID_SIZE as nat, |i: int| false),
        int_channel(c).len() == GRID_SIZE,
{
}

} // verus!
