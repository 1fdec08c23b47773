//! Where the energy page asks, and what the health check counts.

use vstd::prelude::*;

use crate::device::DeviceModel;
use crate::energy;
use crate::energy::BatteryModel;
use crate::health;
use crate::pages::overview;
use crate::records::GatewayModel;
use crate::text;

verus! {

broadcast use vstd::string::group_string_axioms;

/// `word` stands in what the device reports under `key`.
pub open spec fn tells(d: DeviceModel, key: Seq<char>, word: Seq<char>) -> bool {
    d.metadata.contains_key(key) && text::has(d.metadata[key], word)
}

/// `word` stands in the device's name, in whatever case.
pub open spec fn is_called(d: DeviceModel, word: Seq<char>) -> bool {
    text::has(text::lowercase(d.display_name), word)
}

/// The device reports an address.
pub open spec fn is_reachable(d: DeviceModel) -> bool {
    d.metadata.contains_key("ip"@) && d.metadata["ip"@].len() > 0
}

/// The device is an inverter, by its host name or its name.
pub open spec fn is_inverter(d: DeviceModel) -> bool {
    (tells(d, "hostname"@, "fronius"@) || is_called(d, "fronius"@)) && is_reachable(d)
}

/// The device is a meter, by its host name or its name.
pub open spec fn is_meter(d: DeviceModel) -> bool {
    (tells(d, "hostname"@, "shellypro3em"@) || is_called(d, "shelly pro 3em"@) || is_called(d, "shellypro3em"@))
        && is_reachable(d)
}

proof fn lemma_nothing_stands_in_nothing(p: Seq<char>)
    requires
        p.len() > 0,
    ensures
        !text::has(Seq::<char>::empty(), p),
{
}

proof fn lemma_words()
    ensures
        "fronius"@.len() > 0,
        "shellypro3em"@.len() > 0,
        "ecoflow"@.len() > 0,
        "matter"@.len() > 0,
{
    reveal_strlit("fronius");
    reveal_strlit("shellypro3em");
    reveal_strlit("ecoflow");
    reveal_strlit("matter");
    lemma_nothing_stands_in_nothing("fronius"@);
    lemma_nothing_stands_in_nothing("shellypro3em"@);
    lemma_nothing_stands_in_nothing("ecoflow"@);
    lemma_nothing_stands_in_nothing("matter"@);
}

/// The last inverter that reports an address is asked at that address; a device that is no
/// inverter leaves it where it was.
pub proof fn the_inverter_is_asked_at_its_address(devices: Seq<DeviceModel>, d: DeviceModel)
    ensures
        energy::sources_for(devices.push(d)).fronius_host == if is_inverter(d) {
            d.metadata["ip"@]
        } else {
            energy::sources_for(devices).fronius_host
        },
        energy::sources_for(Seq::empty()).fronius_host == "fronius.fritz.box"@,
{
    lemma_words();
    lemma_nothing_stands_in_nothing("fronius"@);
    assert(devices.push(d).drop_last() =~= devices);
    assert(Seq::<DeviceModel>::empty().len() == 0);
}

/// The last meter that reports an address and is no inverter is asked at that address.
pub proof fn the_meter_is_asked_at_its_address(devices: Seq<DeviceModel>, d: DeviceModel)
    ensures
        energy::sources_for(devices.push(d)).shelly_host == if is_meter(d) && !is_inverter(d) {
            d.metadata["ip"@]
        } else {
            energy::sources_for(devices).shelly_host
        },
        energy::sources_for(Seq::empty()).shelly_host == "shellypro3em.fritz.box"@,
{
    lemma_words();
    lemma_nothing_stands_in_nothing("fronius"@);
    lemma_nothing_stands_in_nothing("shellypro3em"@);
    assert(devices.push(d).drop_last() =~= devices);
    assert(Seq::<DeviceModel>::empty().len() == 0);
}

/// A battery: by its host name or its name, and neither inverter nor meter.
pub open spec fn is_battery(d: DeviceModel) -> bool {
    (tells(d, "hostname"@, "ecoflow"@) || is_called(d, "ecoflow"@)) && !is_inverter(d) && !is_meter(d)
}

/// Every battery is shown, with its name, host name and address, and nothing else is, as long as a
/// device reports one.
pub proof fn every_battery_is_shown(devices: Seq<DeviceModel>, i: int)
    requires
        0 <= i < devices.len(),
        is_battery(devices[i]),
    ensures
        exists|n: int|
            0 <= n < energy::sources_for(devices).batteries.len() && {
                let b = #[trigger] energy::sources_for(devices).batteries[n];
                &&& b.name == devices[i].display_name
                &&& devices[i].metadata.contains_key("hostname"@) ==> b.hostname == devices[i].metadata["hostname"@]
                &&& !devices[i].metadata.contains_key("hostname"@) ==> b.hostname.len() == 0
                &&& devices[i].metadata.contains_key("ip"@) ==> b.ip == devices[i].metadata["ip"@]
                &&& !devices[i].metadata.contains_key("ip"@) ==> b.ip.len() == 0
                &&& b.status == "Connected to LAN"@
            },
    decreases devices.len(),
{
    lemma_words();
    lemma_nothing_stands_in_nothing("fronius"@);
    lemma_nothing_stands_in_nothing("shellypro3em"@);
    lemma_nothing_stands_in_nothing("ecoflow"@);
    let told = energy::told_sources(devices).batteries;
    let rest = devices.drop_last();
    if i == devices.len() - 1 {
        assert(told.last() == energy::battery_of(devices[i]));
        assert(energy::sources_for(devices).batteries[told.len() - 1] == energy::battery_of(devices[i]));
    } else {
        assert(rest[i] == devices[i]);
        every_battery_is_shown(rest, i);
        lemma_told(rest, i);
        let n = choose|n: int|
            0 <= n < energy::sources_for(rest).batteries.len() && {
                let b = #[trigger] energy::sources_for(rest).batteries[n];
                &&& b.name == rest[i].display_name
                &&& rest[i].metadata.contains_key("hostname"@) ==> b.hostname == rest[i].metadata["hostname"@]
                &&& !rest[i].metadata.contains_key("hostname"@) ==> b.hostname.len() == 0
                &&& rest[i].metadata.contains_key("ip"@) ==> b.ip == rest[i].metadata["ip"@]
                &&& !rest[i].metadata.contains_key("ip"@) ==> b.ip.len() == 0
                &&& b.status == "Connected to LAN"@
            };
        assert(energy::sources_for(devices).batteries[n] == energy::sources_for(rest).batteries[n]);
    }
}

proof fn lemma_told(devices: Seq<DeviceModel>, i: int)
    requires
        0 <= i < devices.len(),
        is_battery(devices[i]),
    ensures
        energy::told_sources(devices).batteries.len() > 0,
    decreases devices.len(),
{
    lemma_words();
    lemma_nothing_stands_in_nothing("fronius"@);
    lemma_nothing_stands_in_nothing("shellypro3em"@);
    lemma_nothing_stands_in_nothing("ecoflow"@);
    if i < devices.len() - 1 {
        assert(devices.drop_last()[i] == devices[i]);
        lemma_told(devices.drop_last(), i);
    }
}

/// What is shown as a battery is one: with a battery among the devices, each shown one is a
/// device's; without any, two are assumed.
pub proof fn only_batteries_are_shown(devices: Seq<DeviceModel>, n: int)
    requires
        0 <= n < energy::sources_for(devices).batteries.len(),
    ensures
        (exists|i: int| 0 <= i < devices.len() && is_battery(#[trigger] devices[i])) ==> exists|i: int|
            0 <= i < devices.len() && is_battery(#[trigger] devices[i]) && devices[i].display_name
                == energy::sources_for(devices).batteries[n].name,
        (forall|i: int| 0 <= i < devices.len() ==> !is_battery(#[trigger] devices[i])) ==> energy::sources_for(devices).batteries
            == seq![
            BatteryModel {
                name: "EcoFlow PowerStream (Balcony 1)"@,
                hostname: "ecoflow1.fritz.box"@,
                ip: "192.168.178.96"@,
                status: "Connected to LAN"@,
            },
            BatteryModel {
                name: "EcoFlow PowerStream (Balcony 2)"@,
                hostname: "ecoflow2.fritz.box"@,
                ip: "192.168.178.105"@,
                status: "Connected to LAN"@,
            },
        ],
{
    if exists|i: int| 0 <= i < devices.len() && is_battery(#[trigger] devices[i]) {
        let i = choose|i: int| 0 <= i < devices.len() && is_battery(#[trigger] devices[i]);
        lemma_told(devices, i);
        lemma_told_by(devices, n);
    } else {
        if energy::told_sources(devices).batteries.len() > 0 {
            lemma_told_by(devices, 0);
        }
    }
}

proof fn lemma_told_by(devices: Seq<DeviceModel>, n: int)
    requires
        0 <= n < energy::told_sources(devices).batteries.len(),
    ensures
        exists|i: int|
            0 <= i < devices.len() && is_battery(#[trigger] devices[i]) && devices[i].display_name
                == energy::told_sources(devices).batteries[n].name,
    decreases devices.len(),
{
    lemma_words();
    lemma_nothing_stands_in_nothing("fronius"@);
    lemma_nothing_stands_in_nothing("shellypro3em"@);
    lemma_nothing_stands_in_nothing("ecoflow"@);
    let rest = devices.drop_last();
    if n < energy::told_sources(rest).batteries.len() {
        lemma_told_by(rest, n);
        let i = choose|i: int|
            0 <= i < rest.len() && is_battery(#[trigger] rest[i]) && rest[i].display_name
                == energy::told_sources(rest).batteries[n].name;
        assert(devices[i] == rest[i]);
    } else {
        assert(is_battery(devices[devices.len() - 1]));
    }
}

/// A device counts as a Matter node where its sources name Matter or it reports an endpoint, and
/// each counts once.
pub proof fn matter_nodes_are_counted(devices: Seq<DeviceModel>, d: DeviceModel)
    ensures
        health::matter_nodes(Seq::empty()) == 0,
        health::matter_nodes(devices.push(d)) == health::matter_nodes(devices) + if tells(d, "sources"@, "matter"@) || (
        d.metadata.contains_key("source"@) && d.metadata["source"@] == "matter"@) || d.metadata.contains_key(
            "matter_endpoint"@,
        ) {
            1int
        } else {
            0int
        },
{
    lemma_words();
    lemma_nothing_stands_in_nothing("matter"@);
    assert(devices.push(d).drop_last() =~= devices);
    assert(Seq::<DeviceModel>::empty().len() == 0);
}

/// A gateway counts where it speaks Bluetooth, and each counts once.
pub proof fn ble_gateways_are_counted(gateways: Seq<GatewayModel>, g: GatewayModel)
    ensures
        health::ble_gateways(Seq::empty()) == 0,
        health::ble_gateways(gateways.push(g)) == health::ble_gateways(gateways) + if g.ble_supported {
            1int
        } else {
            0int
        },
{
    assert(gateways.push(g).drop_last() =~= gateways);
    assert(Seq::<GatewayModel>::empty().len() == 0);
}

/// A device counts as active where it says so or says nothing of its state, and each counts once.
pub proof fn active_devices_are_counted(devices: Seq<DeviceModel>, d: DeviceModel)
    ensures
        overview::active_devices(Seq::empty()) == 0,
        overview::active_devices(devices.push(d)) == overview::active_devices(devices) + if !d.metadata.contains_key(
            "status"@,
        ) || d.metadata["status"@] == "active"@ {
            1int
        } else {
            0int
        },
{
    assert(devices.push(d).drop_last() =~= devices);
    assert(Seq::<DeviceModel>::empty().len() == 0);
}

}
