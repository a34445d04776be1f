//! The kernel sensor hub: one module instance per provider directory, one
//! sensor per `*_input` file in it.
use vstd::prelude::*;

use crate::hwmodule::{contents_view, refreshed, Module};
use crate::reading::{chars_of, parse_reading, reading_of, trim_blank, trim_text};
use crate::sensor::{is_random_uuid, Sensor, SensorType, SensorView};
use crate::view_state::Area;

verus! {

broadcast use vstd::seq::group_seq_axioms;

pub open spec fn is_digit_char(c: char) -> bool {
    '0' <= c && c <= '9'
}

/// Index of the first character of `s` that satisfies `p`, or the length of
/// `s` where none does.
pub open spec fn position_of(s: Seq<char>, p: spec_fn(char) -> bool) -> int
    decreases s.len(),
{
    if s.len() == 0 {
        0
    } else if p(s[0]) {
        0
    } else {
        1 + position_of(s.drop_first(), p)
    }
}

/// The suffix that every sensor file name carries.
pub open spec fn input_suffix() -> Seq<char> {
    "_input"@
}

/// Whether `name` ends with `suffix`.
pub open spec fn ends_with(name: Seq<char>, suffix: Seq<char>) -> bool {
    suffix.len() <= name.len() && name.subrange(name.len() - suffix.len(), name.len() as int)
        == suffix
}

/// The part of a sensor file name that names its kind: what precedes the
/// first digit; a name without digits is taken whole, less its `_input`
/// suffix.
pub open spec fn type_prefix(name: Seq<char>) -> Seq<char> {
    let d = position_of(name, |c: char| is_digit_char(c));
    if d < name.len() {
        name.subrange(0, d)
    } else if ends_with(name, input_suffix()) {
        name.subrange(0, name.len() - input_suffix().len())
    } else {
        name
    }
}

/// The kind that a file-name prefix stands for, matched case-sensitively.
pub open spec fn kind_of_prefix(p: Seq<char>) -> SensorType {
    if p == "chip"@ {
        SensorType::Chip
    } else if p == "temp"@ {
        SensorType::Temperature
    } else if p == "in"@ {
        SensorType::Voltage
    } else if p == "curr"@ {
        SensorType::Current
    } else if p == "power"@ {
        SensorType::Power
    } else if p == "energy"@ {
        SensorType::Energy
    } else if p == "humidity"@ {
        SensorType::Humidity
    } else if p == "fan"@ {
        SensorType::Fan
    } else {
        SensorType::Unknown
    }
}

/// The kind of the sensor whose file is named `name`.
pub open spec fn sensor_type_of(name: Seq<char>) -> SensorType {
    kind_of_prefix(type_prefix(name))
}

proof fn lemma_position_of(s: Seq<char>, p: spec_fn(char) -> bool, k: int)
    requires
        0 <= k <= s.len(),
        forall|j: int| 0 <= j < k ==> !p(#[trigger] s[j]),
        k == s.len() || p(s[k]),
    ensures
        position_of(s, p) == k,
    decreases s.len(),
{
    if s.len() > 0 && k > 0 {
        let t = s.drop_first();
        assert forall|j: int| 0 <= j < k - 1 implies !p(#[trigger] t[j]) by {
            assert(t[j] == s[j + 1]);
        }
        if k < s.len() {
            assert(t[k - 1] == s[k]);
        }
        lemma_position_of(t, p, k - 1);
    }
}

/// Index of the first decimal digit in `v`, or its length.
fn first_digit(v: &Vec<char>) -> (r: usize)
    ensures
        r == position_of(v@, |c: char| is_digit_char(c)),
        r <= v.len(),
{
    let mut k: usize = 0;
    while k < v.len() && !('0' <= v[k] && v[k] <= '9')
        invariant
            k <= v.len(),
            forall|j: int| 0 <= j < k ==> !is_digit_char(#[trigger] v@[j]),
        decreases v.len() - k,
    {
        k = k + 1;
    }
    proof {
        lemma_position_of(v@, |c: char| is_digit_char(c), k as int);
    }
    k
}

/// Where `word` starts in `v` if `v` ends with it.
fn suffix_start(v: &Vec<char>, word: &str) -> (r: Option<usize>)
    ensures
        r is Some <==> ends_with(v@, word@),
        r matches Some(k) ==> k == v@.len() - word@.len(),
{
    let w = chars_of(word);
    if w.len() > v.len() {
        return None;
    }
    let start = v.len() - w.len();
    let mut i: usize = 0;
    while i < w.len()
        invariant
            i <= w.len() <= v.len(),
            start == v.len() - w.len(),
            w@ == word@,
            forall|j: int| 0 <= j < i ==> v@[start + j] == w@[j],
        decreases w.len() - i,
    {
        if v[start + i] != w[i] {
            assert(v@.subrange(start as int, v@.len() as int)[i as int] != w@[i as int]);
            return None;
        }
        i = i + 1;
    }
    assert(v@.subrange(start as int, v@.len() as int) =~= w@);
    Some(start)
}

/// Whether the first `k` characters of `v` are exactly `word`.
fn prefix_is(v: &Vec<char>, k: usize, word: &str) -> (r: bool)
    requires
        k <= v.len(),
    ensures
        r == (v@.subrange(0, k as int) == word@),
{
    let w = chars_of(word);
    if w.len() != k {
        return false;
    }
    let mut i: usize = 0;
    while i < k
        invariant
            i <= k == w.len() <= v.len(),
            w@ == word@,
            forall|j: int| 0 <= j < i ==> v@[j] == w@[j],
        decreases k - i,
    {
        if v[i] != w[i] {
            assert(v@.subrange(0, k as int)[i as int] != w@[i as int]);
            return false;
        }
        i = i + 1;
    }
    assert(v@.subrange(0, k as int) =~= w@);
    true
}

/// One sensor of a device, with the file that backs it.
struct HWMonSensor {
    sensor: Sensor,
    file_path: String,
}

/// A file found in a device directory: where it is, its name, and what it
/// held (`None` where it could not be read).
pub struct SensorFile {
    pub path: String,
    pub file_name: String,
    pub contents: Option<String>,
}

/// A provider directory: where it is, what its `name` file held (`None`
/// where it could not be read), and its `*_input` files.
pub struct DeviceDir {
    pub path: String,
    pub name_contents: Option<String>,
    pub sensor_files: Vec<SensorFile>,
}

pub open spec fn text_view(t: Option<String>) -> Option<Seq<char>> {
    match t {
        Some(s) => Some(s@),
        None => None,
    }
}

/// `s` is the sensor made, at discovery, from the file `f`.
pub open spec fn made_from(s: SensorView, f: SensorFile) -> bool {
    &&& s.name == f.file_name@
    &&& s.sensor_type == sensor_type_of(f.file_name@)
    &&& s.value == reading_of(text_view(f.contents))
    &&& s.area == Area::zero()
    &&& is_random_uuid(s.id)
}

/// The display name of a device whose `name` file held `t`: its trimmed
/// text, or the empty name where it could not be read.
pub open spec fn device_name(t: Option<Seq<char>>) -> Seq<char> {
    match t {
        Some(s) => trim_blank(s),
        None => Seq::empty(),
    }
}

/// `m` is the module instance discovered from the directory `d`.
pub open spec fn discovered_from(m: HWMon, d: DeviceDir) -> bool {
    &&& m.spec_name() == device_name(text_view(d.name_contents))
    &&& m.spec_path() == d.path@
    &&& m.spec_sensors().len() == d.sensor_files@.len()
    &&& forall|i: int|
        0 <= i < d.sensor_files@.len() ==> made_from(
            #[trigger] m.spec_sensors()[i],
            d.sensor_files@[i],
        )
    &&& m.spec_sources() == Seq::new(
        d.sensor_files@.len(),
        |i: int| d.sensor_files@[i].path@,
    )
}

pub struct HWMon {
    name: String,
    hwmon_path: String,
    hwmon_sensors: Vec<HWMonSensor>,
}

impl HWMon {
    /// The directory the instance was discovered in.
    pub closed spec fn spec_path(&self) -> Seq<char> {
        self.hwmon_path@
    }

    /// The kind of a sensor whose file is named `file_name`.
    pub fn parse_sensor_type(file_name: &str) -> (r: SensorType)
        ensures
            r == sensor_type_of(file_name@),
    {
        let v = chars_of(file_name);
        let d = first_digit(&v);
        let k = if d < v.len() {
            d
        } else {
            match suffix_start(&v, "_input") {
                Some(start) => start,
                None => v.len(),
            }
        };
        proof {
            assert(v@.subrange(0, v@.len() as int) =~= v@);
        }
        if prefix_is(&v, k, "chip") {
            SensorType::Chip
        } else if prefix_is(&v, k, "temp") {
            SensorType::Temperature
        } else if prefix_is(&v, k, "in") {
            SensorType::Voltage
        } else if prefix_is(&v, k, "curr") {
            SensorType::Current
        } else if prefix_is(&v, k, "power") {
            SensorType::Power
        } else if prefix_is(&v, k, "energy") {
            SensorType::Energy
        } else if prefix_is(&v, k, "humidity") {
            SensorType::Humidity
        } else if prefix_is(&v, k, "fan") {
            SensorType::Fan
        } else {
            SensorType::Unknown
        }
    }

    /// The reading of a sensor file whose read gave `contents`; a failed
    /// read gives 0.
    pub fn read_sensor(contents: &Option<String>) -> (r: i32)
        ensures
            r == reading_of(text_view(*contents)),
    {
        match contents {
            Some(s) => parse_reading(s.as_str()),
            None => 0,
        }
    }

    /// Replaces the instance's sensors by one per file of `files`, in order.
    pub fn init_sensors(&mut self, files: Vec<SensorFile>)
        ensures
            final(self).spec_name() == old(self).spec_name(),
            final(self).spec_path() == old(self).spec_path(),
            final(self).spec_sensors().len() == files@.len(),
            forall|i: int|
                0 <= i < files@.len() ==> made_from(
                    #[trigger] final(self).spec_sensors()[i],
                    files@[i],
                ),
            final(self).spec_sources() == Seq::new(files@.len(), |i: int| files@[i].path@),
    {
        let ghost fs = files@;
        let mut sensors: Vec<HWMonSensor> = Vec::new();
        for f in it: files.into_iter()
            invariant
                it.seq() == fs,
                sensors@.len() == it.index(),
                forall|i: int|
                    0 <= i < it.index() ==> made_from(#[trigger] sensors@[i].sensor@, fs[i]),
                forall|i: int|
                    0 <= i < it.index() ==> #[trigger] sensors@[i].file_path@ == fs[i].path@,
        {
            let sensor_type = Self::parse_sensor_type(f.file_name.as_str());
            let value = Self::read_sensor(&f.contents);
            let sensor = Sensor::new(f.file_name, sensor_type, value);
            sensors.push(HWMonSensor { sensor, file_path: f.path });
        }
        self.hwmon_sensors = sensors;
        assert(self.spec_sources() =~= Seq::new(fs.len(), |i: int| fs[i].path@));
    }

    /// One module instance per directory of `devices`, in order.
    pub fn init(devices: Vec<DeviceDir>) -> (r: Vec<HWMon>)
        ensures
            r@.len() == devices@.len(),
            forall|i: int| 0 <= i < devices@.len() ==> discovered_from(#[trigger] r@[i], devices@[i]),
    {
        let ghost ds = devices@;
        let mut modules: Vec<HWMon> = Vec::new();
        for d in it: devices.into_iter()
            invariant
                it.seq() == ds,
                modules@.len() == it.index(),
                forall|i: int| 0 <= i < it.index() ==> discovered_from(#[trigger] modules@[i], ds[i]),
        {
            let name = match &d.name_contents {
                Some(t) => trim_text(t.as_str()),
                None => String::new(),
            };
            let mut hwmon = HWMon { name, hwmon_path: d.path, hwmon_sensors: Vec::new() };
            hwmon.init_sensors(d.sensor_files);
            modules.push(hwmon);
        }
        modules
    }

    /// Reads the sensor values from `readings`, the contents of the backing
    /// files in sensor order.
    fn apply_readings(&mut self, readings: &Vec<Option<String>>)
        ensures
            final(self).spec_name() == old(self).spec_name(),
            final(self).spec_path() == old(self).spec_path(),
            final(self).spec_sources() == old(self).spec_sources(),
            final(self).spec_sensors() == refreshed(
                old(self).spec_sensors(),
                contents_view(readings@),
            ),
    {
        let ghost old_sensors = self.spec_sensors();
        let ghost old_sources = self.spec_sources();
        let n = self.hwmon_sensors.len();
        if readings.len() != n {
            return;
        }
        let mut items: Vec<HWMonSensor> = Vec::new();
        std::mem::swap(&mut items, &mut self.hwmon_sensors);
        let ghost olds = items@;
        let mut updated: Vec<HWMonSensor> = Vec::new();
        let mut i: usize = 0;
        for item in it: items.into_iter()
            invariant
                it.seq() == olds,
                i == it.index(),
                n == olds.len() == readings@.len(),
                old_sensors == Seq::new(olds.len(), |j: int| olds[j].sensor@),
                old_sources == Seq::new(olds.len(), |j: int| olds[j].file_path@),
                updated@.len() == i,
                forall|j: int|
                    0 <= j < i ==> (#[trigger] updated@[j]).sensor@ == old_sensors[j].with_value(
                        reading_of(contents_view(readings@)[j]),
                    ),
                forall|j: int| 0 <= j < i ==> (#[trigger] updated@[j]).file_path@ == old_sources[j],
        {
            let mut item = item;
            let v = Self::read_sensor(&readings[i]);
            item.sensor.set_value(v);
            updated.push(item);
            i = i + 1;
        }
        self.hwmon_sensors = updated;
        assert(self.spec_sources() =~= old_sources);
        assert(self.spec_sensors() =~= refreshed(old_sensors, contents_view(readings@)));
    }
}

impl Module for HWMon {
    closed spec fn spec_name(&self) -> Seq<char> {
        self.name@
    }

    closed spec fn spec_sensors(&self) -> Seq<SensorView> {
        Seq::new(self.hwmon_sensors@.len(), |i: int| self.hwmon_sensors@[i].sensor@)
    }

    closed spec fn spec_sources(&self) -> Seq<Seq<char>> {
        Seq::new(self.hwmon_sensors@.len(), |i: int| self.hwmon_sensors@[i].file_path@)
    }

    fn name(&self) -> (r: &str) {
        self.name.as_str()
    }

    fn set_name(&mut self, name: String) {
        self.name = name;
    }

    fn sensors(&self) -> (r: Vec<&Sensor>) {
        let mut r: Vec<&Sensor> = Vec::new();
        let mut i: usize = 0;
        while i < self.hwmon_sensors.len()
            invariant
                i <= self.hwmon_sensors@.len(),
                r@.len() == i,
                forall|j: int| 0 <= j < i ==> (#[trigger] r@[j])@ == self.spec_sensors()[j],
            decreases self.hwmon_sensors@.len() - i,
        {
            r.push(&self.hwmon_sensors[i].sensor);
            i = i + 1;
        }
        r
    }

    fn sources(&self) -> (r: Vec<String>) {
        let mut r: Vec<String> = Vec::new();
        let mut i: usize = 0;
        while i < self.hwmon_sensors.len()
            invariant
                i <= self.hwmon_sensors@.len(),
                r@.len() == i,
                forall|j: int| 0 <= j < i ==> (#[trigger] r@[j])@ == self.spec_sources()[j],
            decreases self.hwmon_sensors@.len() - i,
        {
            r.push(self.hwmon_sensors[i].file_path.clone());
            i = i + 1;
        }
        r
    }

    fn refresh_sensors(&mut self, readings: &Vec<Option<String>>) {
        self.apply_readings(readings);
    }
}

} // verus!
