//! Hardware subsystems that expose sensors, behind one capability.
pub mod hwmon;

use vstd::prelude::*;

use crate::hwmodule::hwmon::HWMon;
use crate::reading::reading_of;
use crate::sensor::{Sensor, SensorView};
use crate::view_state::{Area, ViewState};

verus! {

/// The views of file contents, `None` where a read failed.
pub open spec fn contents_view(c: Seq<Option<String>>) -> Seq<Option<Seq<char>>> {
    Seq::new(
        c.len(),
        |i: int|
            match c[i] {
                Some(s) => Some(s@),
                None => None,
            },
    )
}

/// The sensors after a refresh that read `readings`, one per sensor in order:
/// each keeps its name, kind, id and place and takes the new reading. A set
/// of readings of another length is a failed refresh and changes nothing.
pub open spec fn refreshed(sensors: Seq<SensorView>, readings: Seq<Option<Seq<char>>>) -> Seq<
    SensorView,
> {
    if readings.len() == sensors.len() {
        Seq::new(sensors.len(), |i: int| sensors[i].with_value(reading_of(readings[i])))
    } else {
        sensors
    }
}

/// Refreshing twice from the same file contents leaves the sensors as one
/// refresh does: values, order and count are the same.
pub proof fn lemma_refresh_idempotent(
    sensors: Seq<SensorView>,
    readings: Seq<Option<Seq<char>>>,
)
    ensures
        refreshed(refreshed(sensors, readings), readings) == refreshed(sensors, readings),
{
    assert(refreshed(refreshed(sensors, readings), readings) =~= refreshed(sensors, readings));
}

/// Refreshing from files whose contents still give the values that the
/// sensors hold changes nothing: values, order and count are the same.
pub proof fn lemma_refresh_unchanged_files(
    sensors: Seq<SensorView>,
    readings: Seq<Option<Seq<char>>>,
)
    requires
        readings.len() == sensors.len(),
        forall|i: int| 0 <= i < sensors.len() ==> (#[trigger] sensors[i]).value == reading_of(readings[i]),
    ensures
        refreshed(sensors, readings) == sensors,
{
    assert(refreshed(sensors, readings) =~= sensors);
}

/// What any kind of hardware module offers the engine.
pub trait Module: Send {
    spec fn spec_name(&self) -> Seq<char>;

    /// The sensors, in their stable order.
    spec fn spec_sensors(&self) -> Seq<SensorView>;

    /// The file behind each sensor, in sensor order.
    spec fn spec_sources(&self) -> Seq<Seq<char>>;

    fn name(&self) -> (r: &str)
        ensures
            r@ == self.spec_name(),
    ;

    fn set_name(&mut self, name: String)
        ensures
            final(self).spec_name() == name@,
            final(self).spec_sensors() == old(self).spec_sensors(),
            final(self).spec_sources() == old(self).spec_sources(),
    ;

    fn sensors(&self) -> (r: Vec<&Sensor>)
        ensures
            r@.len() == self.spec_sensors().len(),
            forall|i: int| 0 <= i < r@.len() ==> (#[trigger] r@[i])@ == self.spec_sensors()[i],
    ;

    /// The files that a refresh reads, in sensor order.
    fn sources(&self) -> (r: Vec<String>)
        ensures
            r@.len() == self.spec_sources().len(),
            r@.len() == self.spec_sensors().len(),
            forall|i: int| 0 <= i < r@.len() ==> (#[trigger] r@[i])@ == self.spec_sources()[i],
    ;

    /// Takes new readings from `readings`, what the files of `sources` held,
    /// in the same order. Only values change.
    fn refresh_sensors(&mut self, readings: &Vec<Option<String>>)
        ensures
            final(self).spec_name() == old(self).spec_name(),
            final(self).spec_sources() == old(self).spec_sources(),
            final(self).spec_sensors() == refreshed(
                old(self).spec_sensors(),
                contents_view(readings@),
            ),
    ;
}

/// A module instance as contracts see it.
pub struct HWModuleView {
    pub name: Seq<char>,
    pub sensors: Seq<SensorView>,
    pub sources: Seq<Seq<char>>,
    pub area: Area,
}

/// The module kinds that the engine can hold; each variant is one kind.
pub enum ModuleKind {
    HWMon(HWMon),
}

impl Module for ModuleKind {
    open spec fn spec_name(&self) -> Seq<char> {
        match self {
            ModuleKind::HWMon(m) => m.spec_name(),
        }
    }

    open spec fn spec_sensors(&self) -> Seq<SensorView> {
        match self {
            ModuleKind::HWMon(m) => m.spec_sensors(),
        }
    }

    open spec fn spec_sources(&self) -> Seq<Seq<char>> {
        match self {
            ModuleKind::HWMon(m) => m.spec_sources(),
        }
    }

    fn name(&self) -> (r: &str) {
        match self {
            ModuleKind::HWMon(m) => m.name(),
        }
    }

    fn set_name(&mut self, name: String) {
        match self {
            ModuleKind::HWMon(m) => m.set_name(name),
        }
    }

    fn sensors(&self) -> (r: Vec<&Sensor>) {
        match self {
            ModuleKind::HWMon(m) => m.sensors(),
        }
    }

    fn sources(&self) -> (r: Vec<String>) {
        match self {
            ModuleKind::HWMon(m) => m.sources(),
        }
    }

    fn refresh_sensors(&mut self, readings: &Vec<Option<String>>) {
        match self {
            ModuleKind::HWMon(m) => m.refresh_sensors(readings),
        }
    }
}

/// A module instance of any kind, with its layout state.
pub struct HWModule {
    module: ModuleKind,
    view_state: ViewState,
}

impl View for HWModule {
    type V = HWModuleView;

    closed spec fn view(&self) -> HWModuleView {
        HWModuleView {
            name: self.module.spec_name(),
            sensors: self.module.spec_sensors(),
            sources: self.module.spec_sources(),
            area: self.view_state@,
        }
    }
}

impl HWModule {
    /// Wraps each discovered instance, in order, laid out nowhere yet.
    pub fn init(modules: Vec<ModuleKind>) -> (r: Vec<HWModule>)
        ensures
            r@.len() == modules@.len(),
            forall|i: int|
                0 <= i < modules@.len() ==> (#[trigger] r@[i])@ == (HWModuleView {
                    name: modules@[i].spec_name(),
                    sensors: modules@[i].spec_sensors(),
                    sources: modules@[i].spec_sources(),
                    area: Area::zero(),
                }),
    {
        let ghost ms = modules@;
        let mut hwmodules: Vec<HWModule> = Vec::new();
        for module in it: modules.into_iter()
            invariant
                it.seq() == ms,
                hwmodules@.len() == it.index(),
                forall|i: int|
                    0 <= i < it.index() ==> (#[trigger] hwmodules@[i])@ == (HWModuleView {
                        name: ms[i].spec_name(),
                        sensors: ms[i].spec_sensors(),
                        sources: ms[i].spec_sources(),
                        area: Area::zero(),
                    }),
        {
            let hwmodule = HWModule { module, view_state: ViewState::new() };
            hwmodules.push(hwmodule);
        }
        hwmodules
    }

    /// Re-samples every sensor from `readings`, the contents of the files of
    /// `sources` in the same order.
    pub fn refresh_sensors(&mut self, readings: &Vec<Option<String>>)
        ensures
            final(self)@ == (HWModuleView {
                sensors: refreshed(old(self)@.sensors, contents_view(readings@)),
                ..old(self)@
            }),
    {
        self.module.refresh_sensors(readings);
    }

    pub fn name(&self) -> (r: &str)
        ensures
            r@ == self@.name,
    {
        self.module.name()
    }

    pub fn sensors(&self) -> (r: Vec<&Sensor>)
        ensures
            r@.len() == self@.sensors.len(),
            forall|i: int| 0 <= i < r@.len() ==> (#[trigger] r@[i])@ == self@.sensors[i],
    {
        self.module.sensors()
    }

    /// The files that a refresh of this instance reads, in sensor order.
    pub fn sources(&self) -> (r: Vec<String>)
        ensures
            r@.len() == self@.sources.len(),
            r@.len() == self@.sensors.len(),
            forall|i: int| 0 <= i < r@.len() ==> (#[trigger] r@[i])@ == self@.sources[i],
    {
        self.module.sources()
    }

    /// Where the instance was last laid out.
    pub fn area(&self) -> (r: Area)
        ensures
            r == self@.area,
    {
        self.view_state.area()
    }

    pub fn view_state(&mut self) -> (r: &mut ViewState)
        ensures
            (*r)@ == old(self)@.area,
            final(self)@ == (HWModuleView { area: (*final(r))@, ..old(self)@ }),
    {
        &mut self.view_state
    }
}

} // verus!
