//! The records that the web module keeps and shows beside the devices themselves.

use vstd::prelude::*;

use crate::text_map::Duplicate;

verus! {

broadcast use vstd::string::group_string_axioms;

impl Duplicate for u16 {
    fn duplicate(&self) -> (r: Self) {
        *self
    }
}

/// What the household has written down about a device.
#[derive(Debug)]
pub struct DeviceDocumentation {
    pub name: Option<String>,
    pub notes: String,
    pub room: Option<String>,
    pub manual_url: Option<String>,
    pub product_id: Option<String>,
    pub updated_at: String,
}

/// What a `DeviceDocumentation` stands for.
#[verifier::ext_equal]
pub struct DocModel {
    pub name: Option<Seq<char>>,
    pub notes: Seq<char>,
    pub room: Option<Seq<char>>,
    pub manual_url: Option<Seq<char>>,
    pub product_id: Option<Seq<char>>,
    pub updated_at: Seq<char>,
}

impl DeepView for DeviceDocumentation {
    type V = DocModel;

    open spec fn deep_view(&self) -> DocModel {
        DocModel {
            name: self.name.deep_view(),
            notes: self.notes@,
            room: self.room.deep_view(),
            manual_url: self.manual_url.deep_view(),
            product_id: self.product_id.deep_view(),
            updated_at: self.updated_at@,
        }
    }
}

impl Duplicate for DeviceDocumentation {
    fn duplicate(&self) -> (r: Self) {
        DeviceDocumentation {
            name: self.name.duplicate(),
            notes: self.notes.clone(),
            room: self.room.duplicate(),
            manual_url: self.manual_url.duplicate(),
            product_id: self.product_id.duplicate(),
            updated_at: self.updated_at.clone(),
        }
    }
}

impl Clone for DeviceDocumentation {
    fn clone(&self) -> (r: Self)
        ensures
            r.deep_view() == self.deep_view(),
    {
        self.duplicate()
    }
}

/// A documentation in which nothing is written.
pub open spec fn empty_doc() -> DocModel {
    DocModel {
        name: None,
        notes: Seq::empty(),
        room: None,
        manual_url: None,
        product_id: None,
        updated_at: Seq::empty(),
    }
}

impl Default for DeviceDocumentation {
    fn default() -> (r: Self)
        ensures
            r.deep_view() == empty_doc(),
    {
        DeviceDocumentation {
            name: None,
            notes: String::new(),
            room: None,
            manual_url: None,
            product_id: None,
            updated_at: String::new(),
        }
    }
}

/// How a Matter fabric is shown.
#[derive(Debug)]
pub struct MatterFabricMeta {
    pub name: String,
    pub icon: String,
    pub description: String,
}

/// What a `MatterFabricMeta` stands for.
#[verifier::ext_equal]
pub struct FabricMetaModel {
    pub name: Seq<char>,
    pub icon: Seq<char>,
    pub description: Seq<char>,
}

impl DeepView for MatterFabricMeta {
    type V = FabricMetaModel;

    open spec fn deep_view(&self) -> FabricMetaModel {
        FabricMetaModel {
            name: self.name@,
            icon: self.icon@,
            description: self.description@,
        }
    }
}

impl Duplicate for MatterFabricMeta {
    fn duplicate(&self) -> (r: Self) {
        MatterFabricMeta {
            name: self.name.clone(),
            icon: self.icon.clone(),
            description: self.description.clone(),
        }
    }
}

impl Clone for MatterFabricMeta {
    fn clone(&self) -> (r: Self)
        ensures
            r.deep_view() == self.deep_view(),
    {
        self.duplicate()
    }
}

impl Default for MatterFabricMeta {
    fn default() -> (r: Self)
        ensures
            r.deep_view() == (FabricMetaModel { name: Seq::empty(), icon: Seq::empty(), description: Seq::empty() }),
    {
        MatterFabricMeta { name: String::new(), icon: String::new(), description: String::new() }
    }
}

/// A Matter fabric that a device belongs to.
#[derive(Debug)]
pub struct ClientMatterFabric {
    pub fabric_id: String,
    pub node_id: String,
    pub port: u16,
    pub interface: String,
    pub fabric_name: String,
    pub fabric_icon: String,
}

/// What a `ClientMatterFabric` stands for.
#[verifier::ext_equal]
pub struct FabricModel {
    pub fabric_id: Seq<char>,
    pub node_id: Seq<char>,
    pub port: u16,
    pub interface: Seq<char>,
    pub fabric_name: Seq<char>,
    pub fabric_icon: Seq<char>,
}

impl DeepView for ClientMatterFabric {
    type V = FabricModel;

    open spec fn deep_view(&self) -> FabricModel {
        FabricModel {
            fabric_id: self.fabric_id@,
            node_id: self.node_id@,
            port: self.port,
            interface: self.interface@,
            fabric_name: self.fabric_name@,
            fabric_icon: self.fabric_icon@,
        }
    }
}

impl Duplicate for ClientMatterFabric {
    fn duplicate(&self) -> (r: Self) {
        ClientMatterFabric {
            fabric_id: self.fabric_id.clone(),
            node_id: self.node_id.clone(),
            port: self.port,
            interface: self.interface.clone(),
            fabric_name: self.fabric_name.clone(),
            fabric_icon: self.fabric_icon.clone(),
        }
    }
}

impl Clone for ClientMatterFabric {
    fn clone(&self) -> (r: Self)
        ensures
            r.deep_view() == self.deep_view(),
    {
        self.duplicate()
    }
}

/// A Shelly device that answered as a Bluetooth gateway.
#[derive(Debug)]
pub struct VerifiedShellyGateway {
    pub ip: String,
    pub id: String,
    pub mac: String,
    pub model: String,
    pub gen: i64,
    pub name: String,
    pub ble_supported: bool,
    pub ble_enabled: bool,
    pub ws_connected: bool,
    pub last_seen: String,
}

/// What a `VerifiedShellyGateway` stands for.
#[verifier::ext_equal]
pub struct GatewayModel {
    pub ip: Seq<char>,
    pub id: Seq<char>,
    pub mac: Seq<char>,
    pub model: Seq<char>,
    pub gen: i64,
    pub name: Seq<char>,
    pub ble_supported: bool,
    pub ble_enabled: bool,
    pub ws_connected: bool,
    pub last_seen: Seq<char>,
}

impl DeepView for VerifiedShellyGateway {
    type V = GatewayModel;

    open spec fn deep_view(&self) -> GatewayModel {
        GatewayModel {
            ip: self.ip@,
            id: self.id@,
            mac: self.mac@,
            model: self.model@,
            gen: self.gen,
            name: self.name@,
            ble_supported: self.ble_supported,
            ble_enabled: self.ble_enabled,
            ws_connected: self.ws_connected,
            last_seen: self.last_seen@,
        }
    }
}

impl Clone for VerifiedShellyGateway {
    fn clone(&self) -> (r: Self)
        ensures
            r.deep_view() == self.deep_view(),
    {
        VerifiedShellyGateway {
            ip: self.ip.clone(),
            id: self.id.clone(),
            mac: self.mac.clone(),
            model: self.model.clone(),
            gen: self.gen,
            name: self.name.clone(),
            ble_supported: self.ble_supported,
            ble_enabled: self.ble_enabled,
            ws_connected: self.ws_connected,
            last_seen: self.last_seen.clone(),
        }
    }
}

/// A room of the house.
#[derive(Debug)]
pub struct RoomRecord {
    pub id: String,
    pub name: String,
    pub floor: Option<String>,
    pub icon: Option<String>,
    pub archetype: Option<String>,
    pub matter_tag: Option<String>,
    pub hue_group_id: Option<String>,
    pub hue_class: Option<String>,
}

/// What a `RoomRecord` stands for.
#[verifier::ext_equal]
pub struct RoomModel {
    pub id: Seq<char>,
    pub name: Seq<char>,
    pub floor: Option<Seq<char>>,
    pub icon: Option<Seq<char>>,
    pub archetype: Option<Seq<char>>,
    pub matter_tag: Option<Seq<char>>,
    pub hue_group_id: Option<Seq<char>>,
    pub hue_class: Option<Seq<char>>,
}

impl DeepView for RoomRecord {
    type V = RoomModel;

    open spec fn deep_view(&self) -> RoomModel {
        RoomModel {
            id: self.id@,
            name: self.name@,
            floor: self.floor.deep_view(),
            icon: self.icon.deep_view(),
            archetype: self.archetype.deep_view(),
            matter_tag: self.matter_tag.deep_view(),
            hue_group_id: self.hue_group_id.deep_view(),
            hue_class: self.hue_class.deep_view(),
        }
    }
}

impl Duplicate for RoomRecord {
    fn duplicate(&self) -> (r: Self) {
        RoomRecord {
            id: self.id.clone(),
            name: self.name.clone(),
            floor: self.floor.duplicate(),
            icon: self.icon.duplicate(),
            archetype: self.archetype.duplicate(),
            matter_tag: self.matter_tag.duplicate(),
            hue_group_id: self.hue_group_id.duplicate(),
            hue_class: self.hue_class.duplicate(),
        }
    }
}

impl Clone for RoomRecord {
    fn clone(&self) -> (r: Self)
        ensures
            r.deep_view() == self.deep_view(),
    {
        self.duplicate()
    }
}

/// A manufacturer in the hardware catalog.
#[derive(Debug)]
pub struct Vendor {
    pub id: String,
    pub name: String,
    pub icon: String,
    pub website: Option<String>,
    pub support_url: Option<String>,
    pub protocols: Vec<String>,
    pub oui_prefixes: Vec<String>,
    pub description: Option<String>,
}

/// What a `Vendor` stands for.
#[verifier::ext_equal]
pub struct VendorModel {
    pub id: Seq<char>,
    pub name: Seq<char>,
    pub icon: Seq<char>,
    pub website: Option<Seq<char>>,
    pub support_url: Option<Seq<char>>,
    pub protocols: Seq<Seq<char>>,
    pub oui_prefixes: Seq<Seq<char>>,
    pub description: Option<Seq<char>>,
}

impl DeepView for Vendor {
    type V = VendorModel;

    open spec fn deep_view(&self) -> VendorModel {
        VendorModel {
            id: self.id@,
            name: self.name@,
            icon: self.icon@,
            website: self.website.deep_view(),
            support_url: self.support_url.deep_view(),
            protocols: self.protocols.deep_view(),
            oui_prefixes: self.oui_prefixes.deep_view(),
            description: self.description.deep_view(),
        }
    }
}

impl Duplicate for Vendor {
    fn duplicate(&self) -> (r: Self) {
        Vendor {
            id: self.id.clone(),
            name: self.name.clone(),
            icon: self.icon.clone(),
            website: self.website.duplicate(),
            support_url: self.support_url.duplicate(),
            protocols: self.protocols.duplicate(),
            oui_prefixes: self.oui_prefixes.duplicate(),
            description: self.description.duplicate(),
        }
    }
}

impl Clone for Vendor {
    fn clone(&self) -> (r: Self)
        ensures
            r.deep_view() == self.deep_view(),
    {
        self.duplicate()
    }
}

/// A product in the hardware catalog.
#[derive(Debug)]
pub struct Product {
    pub id: String,
    pub vendor_id: String,
    pub name: String,
    pub model_number: Option<String>,
    pub category: String,
    pub category_icon: String,
    pub connectivity: Vec<String>,
    pub matter_device_type: Option<String>,
    pub default_ports: Vec<u16>,
    pub documentation_url: Option<String>,
    pub specs: Option<String>,
    pub rhai_script_ref: Option<String>,
}

/// What a `Product` stands for.
#[verifier::ext_equal]
pub struct ProductModel {
    pub id: Seq<char>,
    pub vendor_id: Seq<char>,
    pub name: Seq<char>,
    pub model_number: Option<Seq<char>>,
    pub category: Seq<char>,
    pub category_icon: Seq<char>,
    pub connectivity: Seq<Seq<char>>,
    pub matter_device_type: Option<Seq<char>>,
    pub default_ports: Seq<u16>,
    pub documentation_url: Option<Seq<char>>,
    pub specs: Option<Seq<char>>,
    pub rhai_script_ref: Option<Seq<char>>,
}

impl DeepView for Product {
    type V = ProductModel;

    open spec fn deep_view(&self) -> ProductModel {
        ProductModel {
            id: self.id@,
            vendor_id: self.vendor_id@,
            name: self.name@,
            model_number: self.model_number.deep_view(),
            category: self.category@,
            category_icon: self.category_icon@,
            connectivity: self.connectivity.deep_view(),
            matter_device_type: self.matter_device_type.deep_view(),
            default_ports: self.default_ports.deep_view(),
            documentation_url: self.documentation_url.deep_view(),
            specs: self.specs.deep_view(),
            rhai_script_ref: self.rhai_script_ref.deep_view(),
        }
    }
}

impl Duplicate for Product {
    fn duplicate(&self) -> (r: Self) {
        Product {
            id: self.id.clone(),
            vendor_id: self.vendor_id.clone(),
            name: self.name.clone(),
            model_number: self.model_number.duplicate(),
            category: self.category.clone(),
            category_icon: self.category_icon.clone(),
            connectivity: self.connectivity.duplicate(),
            matter_device_type: self.matter_device_type.duplicate(),
            default_ports: self.default_ports.duplicate(),
            documentation_url: self.documentation_url.duplicate(),
            specs: self.specs.duplicate(),
            rhai_script_ref: self.rhai_script_ref.duplicate(),
        }
    }
}

impl Clone for Product {
    fn clone(&self) -> (r: Self)
        ensures
            r.deep_view() == self.deep_view(),
    {
        self.duplicate()
    }
}

/// Lights that are switched together.
#[derive(Debug)]
pub struct LightGroup {
    pub id: String,
    pub name: String,
    pub room: String,
    pub device_ids: Vec<String>,
    pub icon: Option<String>,
    pub created_at: String,
    pub updated_at: String,
}

/// What a `LightGroup` stands for.
#[verifier::ext_equal]
pub struct LightGroupModel {
    pub id: Seq<char>,
    pub name: Seq<char>,
    pub room: Seq<char>,
    pub device_ids: Seq<Seq<char>>,
    pub icon: Option<Seq<char>>,
    pub created_at: Seq<char>,
    pub updated_at: Seq<char>,
}

impl DeepView for LightGroup {
    type V = LightGroupModel;

    open spec fn deep_view(&self) -> LightGroupModel {
        LightGroupModel {
            id: self.id@,
            name: self.name@,
            room: self.room@,
            device_ids: self.device_ids.deep_view(),
            icon: self.icon.deep_view(),
            created_at: self.created_at@,
            updated_at: self.updated_at@,
        }
    }
}

impl Duplicate for LightGroup {
    fn duplicate(&self) -> (r: Self) {
        LightGroup {
            id: self.id.clone(),
            name: self.name.clone(),
            room: self.room.clone(),
            device_ids: self.device_ids.duplicate(),
            icon: self.icon.duplicate(),
            created_at: self.created_at.clone(),
            updated_at: self.updated_at.clone(),
        }
    }
}

impl Clone for LightGroup {
    fn clone(&self) -> (r: Self)
        ensures
            r.deep_view() == self.deep_view(),
    {
        self.duplicate()
    }
}

/// The state that a Govee light reported.
#[derive(Debug)]
pub struct GoveeState {
    pub ip: String,
    pub on_off: bool,
    pub brightness: u64,
    pub color: (u8, u8, u8),
    pub color_tem_kelvin: u64,
    pub sku: String,
}

/// What a `GoveeState` stands for.
#[verifier::ext_equal]
pub struct GoveeModel {
    pub ip: Seq<char>,
    pub on_off: bool,
    pub brightness: u64,
    pub color: (u8, u8, u8),
    pub color_tem_kelvin: u64,
    pub sku: Seq<char>,
}

impl DeepView for GoveeState {
    type V = GoveeModel;

    open spec fn deep_view(&self) -> GoveeModel {
        GoveeModel {
            ip: self.ip@,
            on_off: self.on_off,
            brightness: self.brightness,
            color: self.color,
            color_tem_kelvin: self.color_tem_kelvin,
            sku: self.sku@,
        }
    }
}

}
