//! The figures that the health of the server is told by.

use vstd::prelude::*;

use crate::device::{DeviceModel, DeviceRecord};
use crate::pages::overview;
use crate::records::{GatewayModel, VerifiedShellyGateway};
use crate::text;

verus! {

broadcast use vstd::string::group_string_axioms;

/// The figures that the health of the server is told by.
#[derive(Debug)]
pub struct HealthCounts {
    pub active_matter_nodes: usize,
    pub active_ble_gateways: usize,
    pub active_devices: usize,
}

/// The device speaks Matter.
pub open spec fn is_matter_node(d: DeviceModel) -> bool {
    text::has(d.meta_or_empty("sources"@), "matter"@) || d.meta_or_empty("source"@) == "matter"@ || d.meta(
        "matter_endpoint"@,
    ) is Some
}

/// How many devices speak Matter.
pub open spec fn matter_nodes(devices: Seq<DeviceModel>) -> nat
    decreases devices.len(),
{
    if devices.len() == 0 {
        0
    } else {
        matter_nodes(devices.drop_last()) + if is_matter_node(devices.last()) {
            1nat
        } else {
            0nat
        }
    }
}

/// How many gateways speak Bluetooth.
pub open spec fn ble_gateways(gateways: Seq<GatewayModel>) -> nat
    decreases gateways.len(),
{
    if gateways.len() == 0 {
        0
    } else {
        ble_gateways(gateways.drop_last()) + if gateways.last().ble_supported {
            1nat
        } else {
            0nat
        }
    }
}

fn count_matter_nodes(devices: &[DeviceRecord]) -> (r: usize)
    ensures
        r == matter_nodes(devices.deep_view()),
{
    let ghost all = devices.deep_view();
    let mut r: usize = 0;
    let mut i: usize = 0;
    while i < devices.len()
        invariant
            i <= devices@.len(),
            all == devices.deep_view(),
            r <= i,
            r == matter_nodes(all.take(i as int)),
        decreases devices@.len() - i,
    {
        let d = &devices[i];
        assert(all.take(i + 1).drop_last() =~= all.take(i as int));
        assert(all.take(i + 1).last() == d.deep_view());
        if text::contains(d.meta_or_empty("sources").as_str(), "matter") || text::same(
            d.meta_or_empty("source").as_str(),
            "matter",
        ) || d.meta("matter_endpoint").is_some() {
            r = r + 1;
        }
        i = i + 1;
    }
    assert(all.take(i as int) =~= all);
    r
}

fn count_ble_gateways(gateways: &[VerifiedShellyGateway]) -> (r: usize)
    ensures
        r == ble_gateways(gateways.deep_view()),
{
    let ghost all = gateways.deep_view();
    let mut r: usize = 0;
    let mut i: usize = 0;
    while i < gateways.len()
        invariant
            i <= gateways@.len(),
            all == gateways.deep_view(),
            r <= i,
            r == ble_gateways(all.take(i as int)),
        decreases gateways@.len() - i,
    {
        assert(all.take(i + 1).drop_last() =~= all.take(i as int));
        assert(all.take(i + 1).last() == gateways@[i as int].deep_view());
        if gateways[i].ble_supported {
            r = r + 1;
        }
        i = i + 1;
    }
    assert(all.take(i as int) =~= all);
    r
}

/// How many devices are active, how many speak Matter, and how many gateways speak Bluetooth.
pub fn health_counts(devices: &[DeviceRecord], gateways: &[VerifiedShellyGateway]) -> (r: HealthCounts)
    ensures
        r.active_devices == overview::active_devices(devices.deep_view()),
        r.active_matter_nodes == matter_nodes(devices.deep_view()),
        r.active_ble_gateways == ble_gateways(gateways.deep_view()),
{
    HealthCounts {
        active_matter_nodes: count_matter_nodes(devices),
        active_ble_gateways: count_ble_gateways(gateways),
        active_devices: overview::count_active(devices),
    }
}

}
