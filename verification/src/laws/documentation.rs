//! Documentation: what is saved is what was asked for, and what was not asked for stays.

use vstd::prelude::*;

use crate::docs;
use crate::docs::{ClaimModel, DocsModel, SaveDocModel, UpdateFabricModel};
use crate::records::{FabricMetaModel, ProductModel};
use crate::text;

verus! {

broadcast use vstd::string::group_string_axioms;

/// The value says something: it is there and more than white space.
pub open spec fn says_something(value: Option<Seq<char>>) -> bool {
    value is Some && text::trimmed(value->0).len() > 0
}

/// What is read of a device behind a request to save its documentation is what the request says,
/// without space around names; where the request says nothing and no product is assigned, nothing is
/// kept. Nothing else is touched.
pub proof fn saved_documentation_is_what_was_asked(
    store: DocsModel,
    id: Seq<char>,
    request: SaveDocModel,
    now: Seq<char>,
    other: Seq<char>,
)
    ensures
        ({
            let after = docs::saved(store, id, request, now);
            let product = store.contains_key(id) && store[id].product_id is Some;
            let kept = says_something(request.name) || says_something(request.room) || says_something(request.notes)
                || says_something(request.manual_url) || product;
            &&& after.contains_key(id) <==> kept
            &&& kept ==> {
                &&& after[id].name == (if says_something(request.name) {
                    Some(text::trimmed(request.name->0))
                } else {
                    None
                })
                &&& after[id].room == (if says_something(request.room) {
                    Some(text::trimmed(request.room->0))
                } else {
                    None
                })
                &&& after[id].manual_url == (if says_something(request.manual_url) {
                    Some(text::trimmed(request.manual_url->0))
                } else {
                    None
                })
                &&& request.notes is Some ==> after[id].notes == request.notes->0
                &&& request.notes is None ==> after[id].notes.len() == 0
                &&& after[id].updated_at == now
                &&& product ==> after[id].product_id == store[id].product_id
                &&& !product ==> after[id].product_id is None
            }
            &&& other != id ==> (after.contains_key(other) <==> store.contains_key(other))
            &&& other != id && store.contains_key(other) ==> after[other] == store[other]
        }),
{
    let empty = Seq::<char>::empty();
    assert(text::trimmed(empty).len() == 0);
}

/// What is read of a device is what is kept of it, and nothing where nothing is kept.
pub proof fn documentation_is_read_as_it_is_kept(store: DocsModel, id: Seq<char>)
    ensures
        store.contains_key(id) ==> docs::doc_of(store, id) == store[id],
        !store.contains_key(id) ==> {
            let doc = docs::doc_of(store, id);
            doc.name is None && doc.room is None && doc.notes.len() == 0 && doc.manual_url is None && doc.product_id is None
        },
{
}

/// A claimed device is documented with the name and the room of the claim, as far as it gives them;
/// all else that was written down of it stays.
pub proof fn claimed_devices_keep_what_the_claim_leaves_out(
    store: DocsModel,
    claim: ClaimModel,
    now: Seq<char>,
    other: Seq<char>,
)
    ensures
        ({
            let after = docs::claimed(store, claim, now);
            let id = claim.id;
            let known = store.contains_key(id);
            &&& after.contains_key(id)
            &&& after[id].updated_at == now
            &&& says_something(claim.name) ==> after[id].name == claim.name
            &&& !says_something(claim.name) ==> after[id].name == (if known { store[id].name } else { None })
            &&& says_something(claim.assigned_room) ==> after[id].room == claim.assigned_room
            &&& !says_something(claim.assigned_room) ==> after[id].room == (if known { store[id].room } else { None })
            &&& known ==> after[id].notes == store[id].notes && after[id].manual_url == store[id].manual_url
                && after[id].product_id == store[id].product_id
            &&& other != id ==> (after.contains_key(other) <==> store.contains_key(other))
            &&& other != id && store.contains_key(other) ==> after[other] == store[other]
        }),
{
}

/// An assigned product is written down; its manual only where the device has none yet. A product
/// that is not in the catalog changes nothing.
pub proof fn assigned_products_are_written_down(
    store: DocsModel,
    key: Seq<char>,
    product: ProductModel,
    now: Seq<char>,
    other: Seq<char>,
)
    ensures
        docs::with_product(store, key, None, now) == store,
        ({
            let after = docs::with_product(store, key, Some(product), now);
            let known = store.contains_key(key);
            let has_manual = known && store[key].manual_url is Some && store[key].manual_url->0.len() > 0;
            &&& after.contains_key(key)
            &&& after[key].product_id == Some(product.id)
            &&& after[key].updated_at == now
            &&& has_manual ==> after[key].manual_url == store[key].manual_url
            &&& !has_manual && product.documentation_url is Some ==> after[key].manual_url == product.documentation_url
            &&& known ==> after[key].name == store[key].name && after[key].room == store[key].room && after[key].notes
                == store[key].notes
            &&& other != key ==> (after.contains_key(other) <==> store.contains_key(other))
            &&& other != key && store.contains_key(other) ==> after[other] == store[other]
        }),
{
}

/// A chosen category is kept in small letters, without space around it; choosing nothing takes the
/// choice back. Other devices keep theirs.
pub proof fn chosen_categories_are_kept(
    categories: Map<Seq<char>, Seq<char>>,
    id: Seq<char>,
    category: Seq<char>,
    other: Seq<char>,
)
    ensures
        ({
            let after = docs::with_category(categories, id, category);
            let chosen = text::lowercase(text::trimmed(category));
            &&& chosen.len() > 0 ==> after.contains_key(id) && after[id] == chosen
            &&& chosen.len() == 0 ==> !after.contains_key(id)
            &&& other != id ==> (after.contains_key(other) <==> categories.contains_key(other))
            &&& other != id && categories.contains_key(other) ==> after[other] == categories[other]
        }),
{
}

/// A fabric gets the name of the request, and its icon and description as far as it gives them, under
/// its id in capitals. Other fabrics are not touched.
pub proof fn renamed_fabrics_keep_what_the_request_leaves_out(
    fabrics: Map<Seq<char>, FabricMetaModel>,
    id: Seq<char>,
    request: UpdateFabricModel,
    other: Seq<char>,
)
    ensures
        ({
            let after = docs::with_fabric(fabrics, id, request);
            let key = text::uppercase(text::trimmed(id));
            let known = fabrics.contains_key(key);
            &&& after.contains_key(key)
            &&& after[key].name == text::trimmed(request.name)
            &&& says_something(request.icon) ==> after[key].icon == text::trimmed(request.icon->0)
            &&& !says_something(request.icon) && known ==> after[key].icon == fabrics[key].icon
            &&& request.description is Some ==> after[key].description == text::trimmed(request.description->0)
            &&& request.description is None && known ==> after[key].description == fabrics[key].description
            &&& other != key ==> (after.contains_key(other) <==> fabrics.contains_key(other))
            &&& other != key && fabrics.contains_key(other) ==> after[other] == fabrics[other]
        }),
{
}

/// Seeding makes the three fabrics of the house known under their names, where they were not known
/// before, and no other.
pub proof fn seeding_makes_the_fabrics_known(fabrics: Map<Seq<char>, FabricMetaModel>, key: Seq<char>)
    ensures
        ({
            let after = docs::with_default_fabrics(fabrics);
            let seeded = key == "6ABEDCB982EC2223"@ || key == "4518A03EC84FB6E7"@ || key == "A38D674BFAAFF432"@;
            &&& after.contains_key(key) <==> fabrics.contains_key(key) || seeded
            &&& fabrics.contains_key(key) ==> after[key] == fabrics[key]
            &&& !fabrics.contains_key(key) && key == "6ABEDCB982EC2223"@ ==> after[key] == (FabricMetaModel {
                name: "Apple Home"@,
                icon: "🍎"@,
                description: "Apple Home ecosystem fabric"@,
            })
            &&& !fabrics.contains_key(key) && key == "4518A03EC84FB6E7"@ ==> after[key] == (FabricMetaModel {
                name: "Home Assistant"@,
                icon: "🏡"@,
                description: "Home Assistant Matter Server ecosystem fabric"@,
            })
            &&& !fabrics.contains_key(key) && key == "A38D674BFAAFF432"@ ==> after[key] == (FabricMetaModel {
                name: "Direct Device Fabric"@,
                icon: "💡"@,
                description: "Direct vendor fabric (e.g. Govee)"@,
            })
        }),
{
    reveal_strlit("6ABEDCB982EC2223");
    reveal_strlit("4518A03EC84FB6E7");
    reveal_strlit("A38D674BFAAFF432");
    assert("6ABEDCB982EC2223"@[0] == '6');
    assert("4518A03EC84FB6E7"@[0] == '4');
    assert("A38D674BFAAFF432"@[0] == 'A');
}

/// The lights that are known from the start: MAC address, address, name and room.
pub open spec fn known_lights() -> Seq<(Seq<char>, Seq<char>, Seq<char>, Seq<char>)> {
    seq![
        ("d0:c9:07:3c:1b:5c"@, "192.168.178.40"@, "Govee LED Sophie"@, "Sophie Zimmer"@),
        ("d0:c9:07:a4:c0:dc"@, "192.168.178.41"@, "Govee LED Dachgeschoss"@, "Dachgeschoss"@),
        ("d0:c9:07:39:f4:4c"@, "192.168.178.42"@, "Govee LED EG Links"@, "Wohnzimmer"@),
        ("d0:c9:07:3c:3a:d4"@, "192.168.178.43"@, "Govee LED EG Rechts"@, "Wohnzimmer"@),
    ]
}

proof fn lemma_small(s: Seq<char>)
    requires
        s.len() == 17,
        forall|i: int| 0 <= i < 17 ==> '0' <= #[trigger] s[i] <= ':' || 'a' <= s[i] <= 'z',
    ensures
        text::lowercase(s) == s,
{
    assert(vstd::utf8::is_ascii_chars(s));
    assert(text::lowercase(s) =~= s);
}

proof fn lemma_light_keys()
    ensures
        text::lowercase("d0:c9:07:3c:1b:5c"@) == "d0:c9:07:3c:1b:5c"@,
        "d0:c9:07:3c:1b:5c"@.len() == 17 && "d0:c9:07:3c:1b:5c"@[0] == 'd' && "d0:c9:07:3c:1b:5c"@[12] == '1',
        text::lowercase("d0:c9:07:a4:c0:dc"@) == "d0:c9:07:a4:c0:dc"@,
        "d0:c9:07:a4:c0:dc"@.len() == 17 && "d0:c9:07:a4:c0:dc"@[0] == 'd' && "d0:c9:07:a4:c0:dc"@[12] == 'c',
        text::lowercase("d0:c9:07:39:f4:4c"@) == "d0:c9:07:39:f4:4c"@,
        "d0:c9:07:39:f4:4c"@.len() == 17 && "d0:c9:07:39:f4:4c"@[0] == 'd' && "d0:c9:07:39:f4:4c"@[12] == 'f',
        text::lowercase("d0:c9:07:3c:3a:d4"@) == "d0:c9:07:3c:3a:d4"@,
        "d0:c9:07:3c:3a:d4"@.len() == 17 && "d0:c9:07:3c:3a:d4"@[0] == 'd' && "d0:c9:07:3c:3a:d4"@[12] == '3',
{
    reveal_strlit("d0:c9:07:3c:1b:5c");
    assert forall|i: int| 0 <= i < 17 implies '0' <= #[trigger] "d0:c9:07:3c:1b:5c"@[i] <= ':' || 'a' <= "d0:c9:07:3c:1b:5c"@[i] <= 'z' by {
        assert(i == 0 || i == 1 || i == 2 || i == 3 || i == 4 || i == 5 || i == 6 || i == 7 || i == 8
            || i == 9 || i == 10 || i == 11 || i == 12 || i == 13 || i == 14 || i == 15 || i == 16);
    }
    lemma_small("d0:c9:07:3c:1b:5c"@);
    reveal_strlit("d0:c9:07:a4:c0:dc");
    assert forall|i: int| 0 <= i < 17 implies '0' <= #[trigger] "d0:c9:07:a4:c0:dc"@[i] <= ':' || 'a' <= "d0:c9:07:a4:c0:dc"@[i] <= 'z' by {
        assert(i == 0 || i == 1 || i == 2 || i == 3 || i == 4 || i == 5 || i == 6 || i == 7 || i == 8
            || i == 9 || i == 10 || i == 11 || i == 12 || i == 13 || i == 14 || i == 15 || i == 16);
    }
    lemma_small("d0:c9:07:a4:c0:dc"@);
    reveal_strlit("d0:c9:07:39:f4:4c");
    assert forall|i: int| 0 <= i < 17 implies '0' <= #[trigger] "d0:c9:07:39:f4:4c"@[i] <= ':' || 'a' <= "d0:c9:07:39:f4:4c"@[i] <= 'z' by {
        assert(i == 0 || i == 1 || i == 2 || i == 3 || i == 4 || i == 5 || i == 6 || i == 7 || i == 8
            || i == 9 || i == 10 || i == 11 || i == 12 || i == 13 || i == 14 || i == 15 || i == 16);
    }
    lemma_small("d0:c9:07:39:f4:4c"@);
    reveal_strlit("d0:c9:07:3c:3a:d4");
    assert forall|i: int| 0 <= i < 17 implies '0' <= #[trigger] "d0:c9:07:3c:3a:d4"@[i] <= ':' || 'a' <= "d0:c9:07:3c:3a:d4"@[i] <= 'z' by {
        assert(i == 0 || i == 1 || i == 2 || i == 3 || i == 4 || i == 5 || i == 6 || i == 7 || i == 8
            || i == 9 || i == 10 || i == 11 || i == 12 || i == 13 || i == 14 || i == 15 || i == 16);
    }
    lemma_small("d0:c9:07:3c:3a:d4"@);
}

/// Every light that is known from the start is written down with its name and its room, unless something is
/// written down of it already, under its MAC address or its address; nothing else changes.
pub proof fn known_lights_are_written_down(docs: DocsModel, now: Seq<char>, k: int, other: Seq<char>)
    requires
        0 <= k < known_lights().len(),
    ensures
        ({
            let after = docs::with_lights(docs, now);
            let (mac, ip, name, room) = known_lights()[k];
            let missing = !docs.contains_key(mac) && !docs.contains_key("net-"@ + text::char_replaced(ip, '.', "-"@));
            &&& missing ==> after.contains_key(mac) && after[mac].name == Some(name) && after[mac].room == Some(room)
                && after[mac].updated_at == now && after[mac].product_id == Some("govee_rgbic_light"@)
                && after[mac].manual_url == Some("https://www.govee.com"@) && after[mac].notes
                == "Govee RGBIC Smart Light (UDP LAN Steuerung)"@
            &&& !missing ==> after.contains_key(mac) == docs.contains_key(mac)
            &&& docs.contains_key(other) ==> after.contains_key(other) && after[other] == docs[other]
            &&& (forall|i: int| 0 <= i < known_lights().len() ==> (#[trigger] known_lights()[i]).0 != other)
                ==> after.contains_key(other) == docs.contains_key(other)
        }),
{
    lemma_light_keys();
    reveal_strlit("net-");
    let all = known_lights();
    assert(k == 0 ==> all[k] == ("d0:c9:07:3c:1b:5c"@, "192.168.178.40"@, "Govee LED Sophie"@, "Sophie Zimmer"@));
    assert(k == 1 ==> all[k] == ("d0:c9:07:a4:c0:dc"@, "192.168.178.41"@, "Govee LED Dachgeschoss"@, "Dachgeschoss"@));
    assert(k == 2 ==> all[k] == ("d0:c9:07:39:f4:4c"@, "192.168.178.42"@, "Govee LED EG Links"@, "Wohnzimmer"@));
    assert(k == 3 ==> all[k] == ("d0:c9:07:3c:3a:d4"@, "192.168.178.43"@, "Govee LED EG Rechts"@, "Wohnzimmer"@));
    assert(all[0].0 == "d0:c9:07:3c:1b:5c"@);
    assert(("net-"@ + text::char_replaced("192.168.178.40"@, '.', "-"@))[0] == 'n');
    assert(all[1].0 == "d0:c9:07:a4:c0:dc"@);
    assert(("net-"@ + text::char_replaced("192.168.178.41"@, '.', "-"@))[0] == 'n');
    assert(all[2].0 == "d0:c9:07:39:f4:4c"@);
    assert(("net-"@ + text::char_replaced("192.168.178.42"@, '.', "-"@))[0] == 'n');
    assert(all[3].0 == "d0:c9:07:3c:3a:d4"@);
    assert(("net-"@ + text::char_replaced("192.168.178.43"@, '.', "-"@))[0] == 'n');
}

/// A fabric that was not known gets the usual sign and no description, unless the request brings them.
pub proof fn unknown_fabrics_get_the_usual_sign(
    fabrics: Map<Seq<char>, FabricMetaModel>,
    id: Seq<char>,
    name: Seq<char>,
)
    requires
        !fabrics.contains_key(text::uppercase(text::trimmed(id))),
    ensures
        ({
            let request = UpdateFabricModel { name, icon: None, description: None };
            let after = docs::with_fabric(fabrics, id, request);
            let key = text::uppercase(text::trimmed(id));
            &&& after.contains_key(key)
            &&& after[key].name == text::trimmed(name)
            &&& after[key].icon == "✨"@
            &&& after[key].description.len() == 0
        }),
{
}

}
