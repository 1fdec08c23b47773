//! Devices as the supervisor reports them, and what the library reads from their metadata.

use vstd::prelude::*;

use crate::text;
use crate::text_map;
use crate::text_map::{Duplicate, TextMap};

verus! {

broadcast use vstd::string::group_string_axioms;

/// A device as one module reports it.
#[derive(Debug)]
pub struct DeviceRecord {
    pub module_id: String,
    pub device_id: String,
    pub display_name: String,
    pub kind: String,
    pub capabilities: Vec<String>,
    pub metadata: TextMap<String>,
}

/// What a `DeviceRecord` stands for.
#[verifier::ext_equal]
pub struct DeviceModel {
    pub module_id: Seq<char>,
    pub device_id: Seq<char>,
    pub display_name: Seq<char>,
    pub kind: Seq<char>,
    pub capabilities: Seq<Seq<char>>,
    pub metadata: Map<Seq<char>, Seq<char>>,
}

impl DeepView for DeviceRecord {
    type V = DeviceModel;

    open spec fn deep_view(&self) -> DeviceModel {
        DeviceModel {
            module_id: self.module_id@,
            device_id: self.device_id@,
            display_name: self.display_name@,
            kind: self.kind@,
            capabilities: self.capabilities.deep_view(),
            metadata: self.metadata@,
        }
    }
}

impl Duplicate for DeviceRecord {
    fn duplicate(&self) -> (r: Self) {
        DeviceRecord {
            module_id: self.module_id.clone(),
            device_id: self.device_id.clone(),
            display_name: self.display_name.clone(),
            kind: self.kind.clone(),
            capabilities: self.capabilities.duplicate(),
            metadata: self.metadata.duplicate(),
        }
    }
}

impl Clone for DeviceRecord {
    fn clone(&self) -> (r: Self)
        ensures
            r.deep_view() == self.deep_view(),
    {
        self.duplicate()
    }
}

impl DeviceModel {
    /// What the metadata say under `key`.
    pub open spec fn meta(self, key: Seq<char>) -> Option<Seq<char>> {
        text_map::lookup(self.metadata, key)
    }

    /// What the metadata say under `key`, or nothing.
    pub open spec fn meta_or_empty(self, key: Seq<char>) -> Seq<char> {
        text::or_empty(self.meta(key))
    }

    /// The device was seen over Bluetooth.
    pub open spec fn is_ble(self) -> bool {
        ||| self.meta("protocol"@) == Some("ble"@)
        ||| "mobile-ble-"@.is_prefix_of(self.device_id)
        ||| self.module_id == "bthome"@
    }

    /// The device is marked as active in one of the two ways that modules use.
    pub open spec fn is_active(self) -> bool {
        ||| self.meta("is_active"@) == Some("true"@)
        ||| self.meta("status"@) == Some("active"@)
    }
}

/// The MAC address without separators, in capitals.
pub open spec fn plain_mac(mac: Seq<char>) -> Seq<char> {
    text::uppercase(text::without(mac, seq![':', '-']))
}

impl DeviceRecord {
    pub fn meta(&self, key: &str) -> (r: Option<&String>)
        ensures
            r.deep_view() == self.deep_view().meta(key@),
    {
        self.metadata.get(key)
    }

    pub fn meta_or_empty(&self, key: &str) -> (r: String)
        ensures
            r@ == self.deep_view().meta_or_empty(key@),
    {
        match self.metadata.get(key) {
            Some(s) => s.clone(),
            None => String::new(),
        }
    }

    /// The metadata say exactly `value` under `key`.
    pub fn meta_is(&self, key: &str, value: &str) -> (r: bool)
        ensures
            r == (self.deep_view().meta(key@) == Some(value@)),
    {
        match self.metadata.get(key) {
            Some(s) => text::same(s.as_str(), value),
            None => false,
        }
    }

    pub fn is_ble(&self) -> (r: bool)
        ensures
            r == self.deep_view().is_ble(),
    {
        self.meta_is("protocol", "ble") || text::starts_with(self.device_id.as_str(), "mobile-ble-")
            || text::same(self.module_id.as_str(), "bthome")
    }

    pub fn is_active(&self) -> (r: bool)
        ensures
            r == self.deep_view().is_active(),
    {
        self.meta_is("is_active", "true") || self.meta_is("status", "active")
    }
}

pub fn plain_mac_of(mac: &str) -> (r: String)
    ensures
        r@ == plain_mac(mac@),
{
    let plain = text::strip(mac, &[':', '-']);
    plain.as_str().to_uppercase()
}

}
