//! What the household writes down: documentation of devices, categories, fabrics and rooms.

use vstd::prelude::*;

use crate::records;
use crate::records::{DeviceDocumentation, DocModel, FabricMetaModel, MatterFabricMeta, Product, ProductModel};
use crate::text;
use crate::text_map;
use crate::text_map::{Duplicate, TextMap};
use crate::unify;

verus! {

broadcast use vstd::string::group_string_axioms;

/// The documentations that are kept.
pub type DocsModel = Map<Seq<char>, DocModel>;

// ---------------------------------------------------------------------------------------
// Saving and reading documentation
// ---------------------------------------------------------------------------------------

/// What is to be written down about a device.
#[derive(Debug)]
pub struct SaveDocRequest {
    pub name: Option<String>,
    pub room: Option<String>,
    pub notes: Option<String>,
    pub manual_url: Option<String>,
}

/// What a `SaveDocRequest` stands for.
#[verifier::ext_equal]
pub struct SaveDocModel {
    pub name: Option<Seq<char>>,
    pub room: Option<Seq<char>>,
    pub notes: Option<Seq<char>>,
    pub manual_url: Option<Seq<char>>,
}

impl DeepView for SaveDocRequest {
    type V = SaveDocModel;

    open spec fn deep_view(&self) -> SaveDocModel {
        SaveDocModel {
            name: self.name.deep_view(),
            room: self.room.deep_view(),
            notes: self.notes.deep_view(),
            manual_url: self.manual_url.deep_view(),
        }
    }
}

/// A value without space around it; nothing where nothing is left.
pub open spec fn cleaned(value: Option<Seq<char>>) -> Option<Seq<char>> {
    match value {
        Some(s) => if text::trimmed(s).len() > 0 {
            Some(text::trimmed(s))
        } else {
            None
        },
        None => None,
    }
}

/// The product that is written down for a device.
pub open spec fn written_product(docs: DocsModel, id: Seq<char>) -> Option<Seq<char>> {
    match text_map::lookup(docs, id) {
        Some(doc) => doc.product_id,
        None => None,
    }
}

/// What a request writes down; the product stays.
pub open spec fn requested_doc(docs: DocsModel, id: Seq<char>, request: SaveDocModel, now: Seq<char>) -> DocModel {
    DocModel {
        name: cleaned(request.name),
        notes: text::or_empty(request.notes),
        room: cleaned(request.room),
        manual_url: cleaned(request.manual_url),
        product_id: written_product(docs, id),
        updated_at: now,
    }
}

/// Nothing is written down.
pub open spec fn says_nothing(doc: DocModel) -> bool {
    doc.name is None && doc.room is None && text::trimmed(doc.notes).len() == 0 && doc.manual_url is None
        && doc.product_id is None
}

/// The documentations after a request. One that says nothing is not kept.
pub open spec fn saved(docs: DocsModel, id: Seq<char>, request: SaveDocModel, now: Seq<char>) -> DocsModel {
    let doc = requested_doc(docs, id, request, now);
    if says_nothing(doc) {
        docs.remove(id)
    } else {
        docs.insert(id, doc)
    }
}

/// The documentation of a device; an empty one where there is none.
pub open spec fn doc_of(docs: DocsModel, id: Seq<char>) -> DocModel {
    match text_map::lookup(docs, id) {
        Some(doc) => doc,
        None => records::empty_doc(),
    }
}

fn cleaned_of(value: &Option<String>) -> (r: Option<String>)
    ensures
        r.deep_view() == cleaned(value.deep_view()),
{
    match value {
        Some(s) => {
            let t = text::trim(s.as_str());
            if text::blank(t.as_str()) {
                None
            } else {
                Some(t)
            }
        },
        None => None,
    }
}

/// Writes down what is requested, and gives back the name and the room that were written.
pub fn save_device_doc(
    store: &mut TextMap<DeviceDocumentation>,
    device_id: &str,
    request: &SaveDocRequest,
    now: &str,
) -> (r: (
    Option<String>,
    Option<String>,
))
    ensures
        final(store)@ == saved(old(store)@, device_id@, request.deep_view(), now@),
        r.0.deep_view() == cleaned(request.deep_view().name),
        r.1.deep_view() == cleaned(request.deep_view().room),
{
    let product_id = match store.get(device_id) {
        Some(doc) => doc.product_id.duplicate(),
        None => None,
    };
    let name = cleaned_of(&request.name);
    let room = cleaned_of(&request.room);
    let notes = match &request.notes {
        Some(s) => s.clone(),
        None => text::empty(),
    };
    let manual_url = cleaned_of(&request.manual_url);
    if name.is_none() && room.is_none() && text::blank(text::trim(notes.as_str()).as_str()) && manual_url.is_none()
        && product_id.is_none() {
        store.remove(device_id);
    } else {
        let doc = DeviceDocumentation {
            name: name.duplicate(),
            notes,
            room: room.duplicate(),
            manual_url,
            product_id,
            updated_at: now.to_owned(),
        };
        store.insert(device_id.to_owned(), doc);
    }
    (name, room)
}

/// The documentation of a device; an empty one where there is none.
pub fn get_device_doc(store: &TextMap<DeviceDocumentation>, device_id: &str) -> (r: DeviceDocumentation)
    ensures
        r.deep_view() == doc_of(store@, device_id@),
{
    match store.get(device_id) {
        Some(doc) => doc.duplicate(),
        None => DeviceDocumentation::default(),
    }
}

/// What is read behind a request is what it wrote down, or nothing where that says nothing; the
/// documentation of other devices stays.
pub proof fn read_gives_back_what_was_saved(
    docs: DocsModel,
    id: Seq<char>,
    request: SaveDocModel,
    now: Seq<char>,
    other: Seq<char>,
)
    ensures
        ({
            let doc = requested_doc(docs, id, request, now);
            doc_of(saved(docs, id, request, now), id) == if says_nothing(doc) {
                records::empty_doc()
            } else {
                doc
            }
        }),
        other != id ==> doc_of(saved(docs, id, request, now), other) == doc_of(docs, other),
{
}

/// No request loses the product of a device.
pub proof fn saving_keeps_the_product(
    docs: DocsModel,
    id: Seq<char>,
    request: SaveDocModel,
    now: Seq<char>,
    other: Seq<char>,
)
    ensures
        written_product(saved(docs, id, request, now), other) == written_product(docs, other),
{
}

// ---------------------------------------------------------------------------------------
// Claiming a device, assigning a product
// ---------------------------------------------------------------------------------------

/// A device that someone claims.
#[derive(Debug)]
pub struct ClaimDevicePayload {
    pub id: String,
    pub name: Option<String>,
    pub family: Option<String>,
    pub assigned_room: Option<String>,
}

/// What a `ClaimDevicePayload` stands for.
#[verifier::ext_equal]
pub struct ClaimModel {
    pub id: Seq<char>,
    pub name: Option<Seq<char>>,
    pub family: Option<Seq<char>>,
    pub assigned_room: Option<Seq<char>>,
}

impl DeepView for ClaimDevicePayload {
    type V = ClaimModel;

    open spec fn deep_view(&self) -> ClaimModel {
        ClaimModel {
            id: self.id@,
            name: self.name.deep_view(),
            family: self.family.deep_view(),
            assigned_room: self.assigned_room.deep_view(),
        }
    }
}

/// `new_value` where it is not blank, else `old_value`.
pub open spec fn unless_blank(new_value: Option<Seq<char>>, old_value: Option<Seq<char>>) -> Option<Seq<char>> {
    match new_value {
        Some(s) => if text::trimmed(s).len() > 0 {
            Some(s)
        } else {
            old_value
        },
        None => old_value,
    }
}

/// The documentations after a device was claimed: its name and its room are written down where
/// the claim gives them.
pub open spec fn claimed(docs: DocsModel, claim: ClaimModel, now: Seq<char>) -> DocsModel {
    let doc = doc_of(docs, claim.id);
    docs.insert(
        claim.id,
        DocModel {
            name: unless_blank(claim.name, doc.name),
            room: unless_blank(claim.assigned_room, doc.room),
            updated_at: now,
            ..doc
        },
    )
}

fn unless_blank_of(new_value: &Option<String>, old_value: Option<String>) -> (r: Option<String>)
    ensures
        r.deep_view() == unless_blank(new_value.deep_view(), old_value.deep_view()),
{
    match new_value {
        Some(s) => if text::blank(text::trim(s.as_str()).as_str()) {
            old_value
        } else {
            Some(s.clone())
        },
        None => old_value,
    }
}

/// Writes down that a device was claimed.
pub fn claim_device(store: &mut TextMap<DeviceDocumentation>, payload: &ClaimDevicePayload, now: &str)
    ensures
        final(store)@ == claimed(old(store)@, payload.deep_view(), now@),
{
    let doc = get_device_doc(store, payload.id.as_str());
    let after = DeviceDocumentation {
        name: unless_blank_of(&payload.name, doc.name),
        notes: doc.notes,
        room: unless_blank_of(&payload.assigned_room, doc.room),
        manual_url: doc.manual_url,
        product_id: doc.product_id,
        updated_at: now.to_owned(),
    };
    store.insert(payload.id.clone(), after);
}

/// The manual: the one written down, unless there is none or it is empty and the product has
/// one.
pub open spec fn manual_after(old_url: Option<Seq<char>>, product: ProductModel) -> Option<Seq<char>> {
    if product.documentation_url is Some && (old_url is None || old_url->0.len() == 0) {
        product.documentation_url
    } else {
        old_url
    }
}

/// The documentations after a product was assigned. A product that the catalog does not know
/// changes nothing.
pub open spec fn with_product(
    docs: DocsModel,
    key: Seq<char>,
    found: Option<ProductModel>,
    now: Seq<char>,
) -> DocsModel {
    match found {
        Some(product) => {
            let doc = doc_of(docs, key);
            docs.insert(
                key,
                DocModel {
                    product_id: Some(product.id),
                    manual_url: manual_after(doc.manual_url, product),
                    updated_at: now,
                    ..doc
                },
            )
        },
        None => docs,
    }
}

/// Assigns the product that the catalog found to the device that is documented under `doc_key`.
pub fn assign_device_product(
    store: &mut TextMap<DeviceDocumentation>,
    doc_key: &str,
    found: &Option<Product>,
    now: &str,
)
    ensures
        final(store)@ == with_product(old(store)@, doc_key@, found.deep_view(), now@),
{
    match found {
        Some(product) => {
            let doc = get_device_doc(store, doc_key);
            let replaceable = match &doc.manual_url {
                Some(url) => text::blank(url.as_str()),
                None => true,
            };
            let manual_url = if product.documentation_url.is_some() && replaceable {
                product.documentation_url.duplicate()
            } else {
                doc.manual_url
            };
            let after = DeviceDocumentation {
                name: doc.name,
                notes: doc.notes,
                room: doc.room,
                manual_url,
                product_id: Some(product.id.clone()),
                updated_at: now.to_owned(),
            };
            store.insert(doc_key.to_owned(), after);
        },
        None => {},
    }
}

// ---------------------------------------------------------------------------------------
// Categories and fabrics
// ---------------------------------------------------------------------------------------

/// The chosen categories after a choice; a blank one takes the choice back.
pub open spec fn with_category(categories: Map<Seq<char>, Seq<char>>, id: Seq<char>, category: Seq<char>) -> Map<
    Seq<char>,
    Seq<char>,
> {
    let plain = text::lowercase(text::trimmed(category));
    if plain.len() == 0 {
        categories.remove(id)
    } else {
        categories.insert(id, plain)
    }
}

/// Chooses the category of a device.
pub fn update_device_category(categories: &mut TextMap<String>, id: &str, category: &str)
    ensures
        final(categories)@ == with_category(old(categories)@, id@, category@),
{
    let plain = text::trim(category).as_str().to_lowercase();
    if text::blank(plain.as_str()) {
        categories.remove(id);
    } else {
        categories.insert(id.to_owned(), plain);
    }
}

/// How a fabric is to be shown.
#[derive(Debug)]
pub struct UpdateMatterFabric {
    pub name: String,
    pub icon: Option<String>,
    pub description: Option<String>,
}

/// What an `UpdateMatterFabric` stands for.
#[verifier::ext_equal]
pub struct UpdateFabricModel {
    pub name: Seq<char>,
    pub icon: Option<Seq<char>>,
    pub description: Option<Seq<char>>,
}

impl DeepView for UpdateMatterFabric {
    type V = UpdateFabricModel;

    open spec fn deep_view(&self) -> UpdateFabricModel {
        UpdateFabricModel {
            name: self.name@,
            icon: self.icon.deep_view(),
            description: self.description.deep_view(),
        }
    }
}

/// How a fabric is shown while nothing is known of it.
pub open spec fn unknown_fabric() -> FabricMetaModel {
    FabricMetaModel { name: Seq::empty(), icon: "✨"@, description: Seq::empty() }
}

/// How a fabric is shown after a request.
pub open spec fn updated_fabric(old_meta: FabricMetaModel, request: UpdateFabricModel) -> FabricMetaModel {
    FabricMetaModel {
        name: text::trimmed(request.name),
        icon: text::or_text(cleaned(request.icon), old_meta.icon),
        description: match request.description {
            Some(s) => text::trimmed(s),
            None => old_meta.description,
        },
    }
}

/// The known fabrics after a request.
pub open spec fn with_fabric(
    fabrics: Map<Seq<char>, FabricMetaModel>,
    id: Seq<char>,
    request: UpdateFabricModel,
) -> Map<Seq<char>, FabricMetaModel> {
    let key = text::uppercase(text::trimmed(id));
    let old_meta = match text_map::lookup(fabrics, key) {
        Some(m) => m,
        None => unknown_fabric(),
    };
    fabrics.insert(key, updated_fabric(old_meta, request))
}

/// Changes how a fabric is shown.
pub fn update_matter_fabric(fabrics: &mut TextMap<MatterFabricMeta>, fabric_id: &str, request: &UpdateMatterFabric)
    ensures
        final(fabrics)@ == with_fabric(old(fabrics)@, fabric_id@, request.deep_view()),
{
    let key = text::trim(fabric_id).as_str().to_uppercase();
    let (old_icon, old_description) = match fabrics.get(key.as_str()) {
        Some(m) => (m.icon.clone(), m.description.clone()),
        None => ("✨".to_owned(), text::empty()),
    };
    let icon = match cleaned_of(&request.icon) {
        Some(s) => s,
        None => old_icon,
    };
    let description = match &request.description {
        Some(s) => text::trim(s.as_str()),
        None => old_description,
    };
    let meta = MatterFabricMeta { name: text::trim(request.name.as_str()), icon, description };
    fabrics.insert(key, meta);
}

/// `fabrics` with a fabric that is not known yet.
pub open spec fn with_default_fabric(
    fabrics: Map<Seq<char>, FabricMetaModel>,
    id: Seq<char>,
    meta: FabricMetaModel,
) -> Map<Seq<char>, FabricMetaModel> {
    if fabrics.contains_key(id) {
        fabrics
    } else {
        fabrics.insert(id, meta)
    }
}

/// The fabrics with the three that every household starts with.
pub open spec fn with_default_fabrics(fabrics: Map<Seq<char>, FabricMetaModel>) -> Map<Seq<char>, FabricMetaModel> {
    with_default_fabric(
        with_default_fabric(
            with_default_fabric(
                fabrics,
                "6ABEDCB982EC2223"@,
                FabricMetaModel { name: "Apple Home"@, icon: "🍎"@, description: "Apple Home ecosystem fabric"@ },
            ),
            "4518A03EC84FB6E7"@,
            FabricMetaModel {
                name: "Home Assistant"@,
                icon: "🏡"@,
                description: "Home Assistant Matter Server ecosystem fabric"@,
            },
        ),
        "A38D674BFAAFF432"@,
        FabricMetaModel {
            name: "Direct Device Fabric"@,
            icon: "💡"@,
            description: "Direct vendor fabric (e.g. Govee)"@,
        },
    )
}

fn add_default_fabric(
    fabrics: &mut TextMap<MatterFabricMeta>,
    id: &str,
    name: &str,
    icon: &str,
    description: &str,
) -> (added: bool)
    ensures
        final(fabrics)@ == with_default_fabric(
            old(fabrics)@,
            id@,
            (FabricMetaModel { name: name@, icon: icon@, description: description@ }),
        ),
        added == !old(fabrics)@.contains_key(id@),
{
    if fabrics.contains_key(id) {
        return false;
    }
    let meta = MatterFabricMeta {
        name: name.to_owned(),
        icon: icon.to_owned(),
        description: description.to_owned(),
    };
    fabrics.insert(id.to_owned(), meta);
    true
}

/// Adds the fabrics that every household starts with, and says whether one was missing.
pub fn seed_matter_fabrics(fabrics: &mut TextMap<MatterFabricMeta>) -> (modified: bool)
    ensures
        final(fabrics)@ == with_default_fabrics(old(fabrics)@),
        modified == !(old(fabrics)@.contains_key("6ABEDCB982EC2223"@) && old(fabrics)@.contains_key("4518A03EC84FB6E7"@)
            && old(fabrics)@.contains_key("A38D674BFAAFF432"@)),
{
    proof {
        reveal_strlit("6ABEDCB982EC2223");
        reveal_strlit("4518A03EC84FB6E7");
        reveal_strlit("A38D674BFAAFF432");
        assert("6ABEDCB982EC2223"@[0] == '6');
        assert("4518A03EC84FB6E7"@[0] == '4');
        assert("A38D674BFAAFF432"@[0] == 'A');
    }
    let apple = add_default_fabric(fabrics, "6ABEDCB982EC2223", "Apple Home", "🍎", "Apple Home ecosystem fabric");
    let assistant = add_default_fabric(
        fabrics,
        "4518A03EC84FB6E7",
        "Home Assistant",
        "🏡",
        "Home Assistant Matter Server ecosystem fabric",
    );
    let vendor = add_default_fabric(
        fabrics,
        "A38D674BFAAFF432",
        "Direct Device Fabric",
        "💡",
        "Direct vendor fabric (e.g. Govee)",
    );
    apple || assistant || vendor
}

// ---------------------------------------------------------------------------------------
// The lights that the household starts with
// ---------------------------------------------------------------------------------------

/// What is written down about a Govee light at the start.
pub open spec fn light_doc(name: Seq<char>, room: Seq<char>, now: Seq<char>) -> DocModel {
    DocModel {
        name: Some(name),
        notes: "Govee RGBIC Smart Light (UDP LAN Steuerung)"@,
        room: Some(room),
        manual_url: Some("https://www.govee.com"@),
        product_id: Some("govee_rgbic_light"@),
        updated_at: now,
    }
}

/// `docs` with a light that is documented neither by its MAC address nor by its address yet.
pub open spec fn with_light(
    docs: DocsModel,
    mac: Seq<char>,
    ip: Seq<char>,
    name: Seq<char>,
    room: Seq<char>,
    now: Seq<char>,
) -> DocsModel {
    let key = text::lowercase(mac);
    if docs.contains_key(key) || docs.contains_key(unify::ip_key(ip)) {
        docs
    } else {
        docs.insert(key, light_doc(name, room, now))
    }
}

/// `docs` with the four lights that the household starts with.
pub open spec fn with_lights(docs: DocsModel, now: Seq<char>) -> DocsModel {
    let one = with_light(docs, "d0:c9:07:3c:1b:5c"@, "192.168.178.40"@, "Govee LED Sophie"@, "Sophie Zimmer"@, now);
    let two = with_light(
        one,
        "d0:c9:07:a4:c0:dc"@,
        "192.168.178.41"@,
        "Govee LED Dachgeschoss"@,
        "Dachgeschoss"@,
        now,
    );
    let three = with_light(two, "d0:c9:07:39:f4:4c"@, "192.168.178.42"@, "Govee LED EG Links"@, "Wohnzimmer"@, now);
    with_light(three, "d0:c9:07:3c:3a:d4"@, "192.168.178.43"@, "Govee LED EG Rechts"@, "Wohnzimmer"@, now)
}

fn add_light(
    store: &mut TextMap<DeviceDocumentation>,
    mac: &str,
    ip: &str,
    name: &str,
    room: &str,
    now: &str,
) -> (added: bool)
    ensures
        final(store)@ == with_light(old(store)@, mac@, ip@, name@, room@, now@),
        !added ==> final(store)@ == old(store)@,
        added ==> final(store)@.dom().contains(text::lowercase(mac@)) && !old(store)@.contains_key(text::lowercase(mac@)),
        forall|k: Seq<char>| old(store)@.contains_key(k) ==> #[trigger] final(store)@.contains_key(k),
{
    let key = mac.to_lowercase();
    if store.contains_key(key.as_str()) || store.contains_key(unify::ip_key_of(ip).as_str()) {
        return false;
    }
    let doc = DeviceDocumentation {
        name: Some(name.to_owned()),
        notes: "Govee RGBIC Smart Light (UDP LAN Steuerung)".to_owned(),
        room: Some(room.to_owned()),
        manual_url: Some("https://www.govee.com".to_owned()),
        product_id: Some("govee_rgbic_light".to_owned()),
        updated_at: now.to_owned(),
    };
    store.insert(key, doc);
    true
}

/// Documents the lights that the household starts with, and says whether that changed anything.
pub fn seed_govee_docs(store: &mut TextMap<DeviceDocumentation>, now: &str) -> (modified: bool)
    ensures
        final(store)@ == with_lights(old(store)@, now@),
        modified == (final(store)@ != old(store)@),
{
    let ghost first = store@;
    let one = add_light(store, "d0:c9:07:3c:1b:5c", "192.168.178.40", "Govee LED Sophie", "Sophie Zimmer", now);
    let two = add_light(store, "d0:c9:07:a4:c0:dc", "192.168.178.41", "Govee LED Dachgeschoss", "Dachgeschoss", now);
    let three = add_light(store, "d0:c9:07:39:f4:4c", "192.168.178.42", "Govee LED EG Links", "Wohnzimmer", now);
    let four = add_light(store, "d0:c9:07:3c:3a:d4", "192.168.178.43", "Govee LED EG Rechts", "Wohnzimmer", now);
    one || two || three || four
}

// ---------------------------------------------------------------------------------------
// What holds of choices and of the start
// ---------------------------------------------------------------------------------------

/// A choice is read back in its plain form, a blank one is none, and the choices for other
/// devices stay.
pub proof fn chosen_category_is_read_back(
    categories: Map<Seq<char>, Seq<char>>,
    id: Seq<char>,
    category: Seq<char>,
    other: Seq<char>,
)
    ensures
        ({
            let after = with_category(categories, id, category);
            let plain = text::lowercase(text::trimmed(category));
            &&& text_map::lookup(after, id) == if plain.len() == 0 {
                None
            } else {
                Some(plain)
            }
            &&& other != id ==> text_map::lookup(after, other) == text_map::lookup(categories, other)
        }),
{
}

/// How a fabric is shown is read back as it was asked for, and the other fabrics stay.
pub proof fn fabric_is_read_back(
    fabrics: Map<Seq<char>, FabricMetaModel>,
    id: Seq<char>,
    request: UpdateFabricModel,
    other: Seq<char>,
)
    ensures
        ({
            let key = text::uppercase(text::trimmed(id));
            let after = with_fabric(fabrics, id, request);
            &&& after.contains_key(key)
            &&& after[key].name == text::trimmed(request.name)
            &&& other != key ==> text_map::lookup(after, other) == text_map::lookup(fabrics, other)
        }),
{
}

/// What the household starts with replaces nothing that is there.
pub proof fn seeding_keeps_what_is_there(
    fabrics: Map<Seq<char>, FabricMetaModel>,
    docs: DocsModel,
    now: Seq<char>,
    key: Seq<char>,
)
    ensures
        fabrics.contains_key(key) ==> with_default_fabrics(fabrics).contains_key(key) && with_default_fabrics(fabrics)[key]
            == fabrics[key],
        docs.contains_key(key) ==> with_lights(docs, now).contains_key(key) && with_lights(docs, now)[key] == docs[key],
{
}

/// Starting a second time adds nothing.
pub proof fn seeding_twice_is_seeding_once(
    fabrics: Map<Seq<char>, FabricMetaModel>,
    docs: DocsModel,
    now: Seq<char>,
    later: Seq<char>,
)
    ensures
        with_default_fabrics(with_default_fabrics(fabrics)) == with_default_fabrics(fabrics),
        with_lights(with_lights(docs, now), later) == with_lights(docs, now),
{
}

}
