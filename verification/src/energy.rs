//! Where the figures of the energy page come from.

use vstd::prelude::*;

use crate::device::{DeviceModel, DeviceRecord};
use crate::text;

verus! {

broadcast use vstd::string::group_string_axioms;

/// A battery in the network.
#[derive(Debug)]
pub struct Battery {
    pub name: String,
    pub hostname: String,
    pub ip: String,
    pub status: String,
}

/// What a `Battery` stands for.
#[verifier::ext_equal]
pub struct BatteryModel {
    pub name: Seq<char>,
    pub hostname: Seq<char>,
    pub ip: Seq<char>,
    pub status: Seq<char>,
}

impl DeepView for Battery {
    type V = BatteryModel;

    open spec fn deep_view(&self) -> BatteryModel {
        BatteryModel { name: self.name@, hostname: self.hostname@, ip: self.ip@, status: self.status@ }
    }
}

/// The hosts of the inverter and of the meter, and the batteries.
#[derive(Debug)]
pub struct EnergySources {
    pub fronius_host: String,
    pub shelly_host: String,
    pub batteries: Vec<Battery>,
}

/// What an `EnergySources` stands for.
#[verifier::ext_equal]
pub struct SourcesModel {
    pub fronius_host: Seq<char>,
    pub shelly_host: Seq<char>,
    pub batteries: Seq<BatteryModel>,
}

impl DeepView for EnergySources {
    type V = SourcesModel;

    open spec fn deep_view(&self) -> SourcesModel {
        SourcesModel {
            fronius_host: self.fronius_host@,
            shelly_host: self.shelly_host@,
            batteries: self.batteries.deep_view(),
        }
    }
}

/// What a device is to the energy page.
#[derive(PartialEq, Eq, Structural, Clone, Copy)]
pub enum Part {
    Inverter,
    Meter,
    Battery,
    Other,
}

/// What a device is, by its name and its host name. An inverter or a meter counts only with an
/// address.
pub open spec fn part_of(d: DeviceModel) -> Part {
    let host = d.meta_or_empty("hostname"@);
    let name = text::lowercase(d.display_name);
    let has_ip = d.meta_or_empty("ip"@).len() > 0;
    if (text::has(host, "fronius"@) || text::has(name, "fronius"@)) && has_ip {
        Part::Inverter
    } else if (text::has(host, "shellypro3em"@) || text::has(name, "shelly pro 3em"@) || text::has(name, "shellypro3em"@))
        && has_ip {
        Part::Meter
    } else if text::has(host, "ecoflow"@) || text::has(name, "ecoflow"@) {
        Part::Battery
    } else {
        Part::Other
    }
}

/// A battery as it is reported.
pub open spec fn battery_of(d: DeviceModel) -> BatteryModel {
    BatteryModel {
        name: d.display_name,
        hostname: d.meta_or_empty("hostname"@),
        ip: d.meta_or_empty("ip"@),
        status: "Connected to LAN"@,
    }
}

/// What the devices tell: the last inverter, the last meter, and all batteries.
pub open spec fn told_sources(devices: Seq<DeviceModel>) -> SourcesModel
    decreases devices.len(),
{
    if devices.len() == 0 {
        SourcesModel {
            fronius_host: "fronius.fritz.box"@,
            shelly_host: "shellypro3em.fritz.box"@,
            batteries: Seq::empty(),
        }
    } else {
        let before = told_sources(devices.drop_last());
        let d = devices.last();
        match part_of(d) {
            Part::Inverter => SourcesModel { fronius_host: d.meta_or_empty("ip"@), ..before },
            Part::Meter => SourcesModel { shelly_host: d.meta_or_empty("ip"@), ..before },
            Part::Battery => SourcesModel { batteries: before.batteries.push(battery_of(d)), ..before },
            Part::Other => before,
        }
    }
}

/// The batteries that are assumed where none is seen.
pub open spec fn assumed_batteries() -> Seq<BatteryModel> {
    seq![
        BatteryModel {
            name: "EcoFlow PowerStream (Balcony 1)"@,
            hostname: "ecoflow1.fritz.box"@,
            ip: "192.168.178.96"@,
            status: "Connected to LAN"@,
        },
        BatteryModel {
            name: "EcoFlow PowerStream (Balcony 2)"@,
            hostname: "ecoflow2.fritz.box"@,
            ip: "192.168.178.105"@,
            status: "Connected to LAN"@,
        },
    ]
}

/// Where the figures come from.
pub open spec fn sources_for(devices: Seq<DeviceModel>) -> SourcesModel {
    let told = told_sources(devices);
    if told.batteries.len() == 0 {
        SourcesModel { batteries: assumed_batteries(), ..told }
    } else {
        told
    }
}

fn part_of_device(d: &DeviceRecord) -> (r: Part)
    ensures
        r == part_of(d.deep_view()),
{
    let host = d.meta_or_empty("hostname");
    let name = d.display_name.as_str().to_lowercase();
    let has_ip = !text::blank(d.meta_or_empty("ip").as_str());
    if (text::contains(host.as_str(), "fronius") || text::contains(name.as_str(), "fronius")) && has_ip {
        Part::Inverter
    } else if (text::contains(host.as_str(), "shellypro3em") || text::contains(name.as_str(), "shelly pro 3em")
        || text::contains(name.as_str(), "shellypro3em")) && has_ip {
        Part::Meter
    } else if text::contains(host.as_str(), "ecoflow") || text::contains(name.as_str(), "ecoflow") {
        Part::Battery
    } else {
        Part::Other
    }
}

/// Where the figures of the energy page come from.
pub fn energy_sources(devices: &[DeviceRecord]) -> (r: EnergySources)
    ensures
        r.deep_view() == sources_for(devices.deep_view()),
{
    let ghost all = devices.deep_view();
    let mut fronius_host = "fronius.fritz.box".to_owned();
    let mut shelly_host = "shellypro3em.fritz.box".to_owned();
    let mut batteries: Vec<Battery> = Vec::new();
    let mut i: usize = 0;
    assert(batteries.deep_view() =~= Seq::<BatteryModel>::empty());
    while i < devices.len()
        invariant
            i <= devices@.len(),
            all == devices.deep_view(),
            fronius_host@ == told_sources(all.take(i as int)).fronius_host,
            shelly_host@ == told_sources(all.take(i as int)).shelly_host,
            batteries.deep_view() == told_sources(all.take(i as int)).batteries,
        decreases devices@.len() - i,
    {
        let d = &devices[i];
        let ghost before = batteries.deep_view();
        assert(all.take(i + 1).drop_last() =~= all.take(i as int));
        assert(all.take(i + 1).last() == d.deep_view());
        match part_of_device(d) {
            Part::Inverter => {
                fronius_host = d.meta_or_empty("ip");
            },
            Part::Meter => {
                shelly_host = d.meta_or_empty("ip");
            },
            Part::Battery => {
                let battery = Battery {
                    name: d.display_name.clone(),
                    hostname: d.meta_or_empty("hostname"),
                    ip: d.meta_or_empty("ip"),
                    status: "Connected to LAN".to_owned(),
                };
                batteries.push(battery);
                assert(batteries.deep_view() =~= before.push(battery.deep_view()));
            },
            Part::Other => {},
        }
        i = i + 1;
    }
    assert(all.take(i as int) =~= all);
    if batteries.len() == 0 {
        batteries.push(
            Battery {
                name: "EcoFlow PowerStream (Balcony 1)".to_owned(),
                hostname: "ecoflow1.fritz.box".to_owned(),
                ip: "192.168.178.96".to_owned(),
                status: "Connected to LAN".to_owned(),
            },
        );
        batteries.push(
            Battery {
                name: "EcoFlow PowerStream (Balcony 2)".to_owned(),
                hostname: "ecoflow2.fritz.box".to_owned(),
                ip: "192.168.178.105".to_owned(),
                status: "Connected to LAN".to_owned(),
            },
        );
        assert(batteries.deep_view() =~= assumed_batteries());
    }
    EnergySources { fronius_host, shelly_host, batteries }
}

/// There is always a battery to show.
pub proof fn some_battery_is_shown(devices: Seq<DeviceModel>)
    ensures
        sources_for(devices).batteries.len() > 0,
{
}

}
