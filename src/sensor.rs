//! One telemetry channel of a device and its current reading.
use vstd::prelude::*;

use crate::view_state::{Area, ViewState};

verus! {

/// What a sensor measures, as its file name tells.
#[derive(Clone, Copy, Debug, PartialEq, Eq, Structural)]
pub enum SensorType {
    Chip,
    Temperature,
    Voltage,
    Current,
    Power,
    Energy,
    Humidity,
    Fan,
    Unknown,
}

/// The lower-case hex digit for `d`, below 16.
pub open spec fn hex_digit(d: u128) -> char {
    seq!['0', '1', '2', '3', '4', '5', '6', '7', '8', '9', 'a', 'b', 'c', 'd', 'e', 'f'][d as int]
}

/// The `k`-th hex digit's value of `id`, counting from the most significant
/// (0 to 31).
pub open spec fn nibble(id: u128, k: int) -> u128 {
    (id >> ((124 - 4 * k) as u128)) & 0xF
}

/// Which hex digit the character at `i` of the hyphenated form shows.
pub open spec fn nibble_at(i: int) -> int {
    if i < 8 {
        i
    } else if i < 13 {
        i - 1
    } else if i < 18 {
        i - 2
    } else if i < 23 {
        i - 3
    } else {
        i - 4
    }
}

/// The hyphenated text of an id: its 32 lower-case hex digits, most
/// significant first, in groups of 8, 4, 4, 4 and 12 joined by `-`.
pub open spec fn id_text(id: u128) -> Seq<char> {
    Seq::new(
        36,
        |i: int|
            if i == 8 || i == 13 || i == 18 || i == 23 {
                '-'
            } else {
                hex_digit(nibble(id, nibble_at(i)))
            },
    )
}

/// Bits that every random (version 4, RFC 4122 variant) UUID has fixed.
pub open spec fn is_random_uuid(id: u128) -> bool {
    id & 0xF000C000000000000000u128 == 0x40008000000000000000u128
}

/// Relies on uuid::Uuid::new_v4 (read as its `u128`): random bits, with the
/// version field set to 4 and the variant to RFC 4122.
#[verifier::external_body]
fn random_id() -> (r: u128)
    ensures
        is_random_uuid(r),
{
    uuid::Uuid::new_v4().as_u128()
}

/// Relies on uuid's `Display` for `Uuid` (built with `from_u128`, most
/// significant byte first): the hyphenated lower-case form.
#[verifier::external_body]
fn uuid_string(id: u128) -> (r: String)
    ensures
        r@ == id_text(id),
{
    uuid::Uuid::from_u128(id).to_string()
}

pub struct Sensor {
    view_state: ViewState,
    pub name: String,
    id: u128,
    pub sensor_type: SensorType,
    pub value: i32,
}

/// What a sensor is, as contracts see it.
pub struct SensorView {
    pub name: Seq<char>,
    pub id: u128,
    pub sensor_type: SensorType,
    pub value: i32,
    pub area: Area,
}

impl SensorView {
    /// This sensor with its reading replaced by `v`.
    pub open spec fn with_value(self, v: i32) -> SensorView {
        SensorView { value: v, ..self }
    }
}

impl View for Sensor {
    type V = SensorView;

    closed spec fn view(&self) -> SensorView {
        SensorView {
            name: self.name@,
            id: self.id,
            sensor_type: self.sensor_type,
            value: self.value,
            area: self.view_state@,
        }
    }
}

impl Sensor {
    /// A sensor with a fresh random id, laid out nowhere yet.
    pub fn new(name: String, sensor_type: SensorType, value: i32) -> (r: Self)
        ensures
            r@.name == name@,
            r@.sensor_type == sensor_type,
            r@.value == value,
            r@.area == Area::zero(),
            is_random_uuid(r@.id),
    {
        let view_state = ViewState::new();
        let id = random_id();
        Sensor { view_state, name, id, sensor_type, value }
    }

    /// The id in its hyphenated text form.
    pub fn id(&self) -> (r: String)
        ensures
            r@ == id_text(self@.id),
            r@.len() == 36,
    {
        uuid_string(self.id)
    }

    pub fn name(&self) -> (r: &str)
        ensures
            r@ == self@.name,
    {
        self.name.as_str()
    }

    pub fn sensor_type(&self) -> (r: SensorType)
        ensures
            r == self@.sensor_type,
    {
        self.sensor_type
    }

    pub fn value(&self) -> (r: i32)
        ensures
            r == self@.value,
    {
        self.value
    }

    /// Sets the reading, and nothing else.
    pub fn set_value(&mut self, v: i32)
        ensures
            final(self)@ == old(self)@.with_value(v),
    {
        self.value = v;
    }

    pub fn view_state(&mut self) -> (r: &mut ViewState)
        ensures
            (*r)@ == old(self)@.area,
            final(self)@ == (SensorView { area: (*final(r))@, ..old(self)@ }),
    {
        &mut self.view_state
    }
}

} // verus!
