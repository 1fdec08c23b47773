//! The Matter fabrics that a device shares.

use vstd::prelude::*;

use crate::device::DeviceModel;
use crate::fabrics;
use crate::json;
use crate::json::Json;
use crate::laws::hearing;
use crate::records::{FabricMetaModel, FabricModel};
use crate::text;

verus! {

broadcast use vstd::string::group_string_axioms;

/// What an item says under `key`, in capitals.
pub open spec fn large(m: Map<Seq<char>, Json>, key: Seq<char>) -> Seq<char> {
    text::uppercase(
        if hearing::says(m, key) is Some {
            hearing::says(m, key)->0
        } else {
            Seq::empty()
        },
    )
}

/// One more interface of a device adds what it reports behind what is listed already; an interface
/// that reports nothing adds nothing.
pub proof fn every_interface_adds_its_fabrics(
    d: DeviceModel,
    others: Seq<DeviceModel>,
    o: DeviceModel,
    known: Map<Seq<char>, FabricMetaModel>,
    items: Seq<Json>,
)
    ensures
        !o.metadata.contains_key("matter_fabrics"@) ==> fabrics::device_fabrics(d, others.push(o), known)
            == fabrics::device_fabrics(d, others, known),
        o.metadata.contains_key("matter_fabrics"@) && json::parsed(o.metadata["matter_fabrics"@]) == Some(
            Json::List(items),
        ) ==> fabrics::device_fabrics(d, others.push(o), known) == fabrics::with_items(
            fabrics::device_fabrics(d, others, known),
            items,
            known,
        ),
        d.metadata.contains_key("matter_fabrics"@) && json::parsed(d.metadata["matter_fabrics"@]) == Some(
            Json::List(items),
        ) ==> fabrics::device_fabrics(d, Seq::empty(), known) == fabrics::with_items(Seq::empty(), items, known),
        !d.metadata.contains_key("matter_fabrics"@) ==> fabrics::device_fabrics(d, Seq::empty(), known).len() == 0,
{
    assert(others.push(o).drop_last() =~= others);
    let before = fabrics::reports(d, others);
    if o.metadata.contains_key("matter_fabrics"@) {
        assert(before.push(o.metadata["matter_fabrics"@]).drop_last() =~= before);
    }
    assert(Seq::<DeviceModel>::empty().len() == 0);
    if d.metadata.contains_key("matter_fabrics"@) {
        let one = seq![d.metadata["matter_fabrics"@]];
        assert(one.drop_last() =~= Seq::<Seq<char>>::empty());
        assert(fabrics::with_reports(Seq::<Seq<char>>::empty(), known) =~= Seq::<FabricModel>::empty());
    }
}

/// A fabric that is reported under an id and a node that are not listed yet is listed once more, with
/// the id and the node in capitals, the port and the interface it reports, and the name and the sign
/// it is known by.
pub proof fn new_fabrics_are_listed(
    listed: Seq<FabricModel>,
    items: Seq<Json>,
    m: Map<Seq<char>, Json>,
    known: Map<Seq<char>, FabricMetaModel>,
)
    requires
        large(m, "fabric_id"@).len() > 0,
        forall|i: int|
            0 <= i < fabrics::with_items(listed, items, known).len() ==> !((#[trigger] fabrics::with_items(
                listed,
                items,
                known,
            )[i]).fabric_id == large(m, "fabric_id"@) && fabrics::with_items(listed, items, known)[i].node_id == large(
                m,
                "node_id"@,
            )),
    ensures
        ({
            let before = fabrics::with_items(listed, items, known);
            let after = fabrics::with_items(listed, items.push(Json::Object(m)), known);
            let f = after.last();
            &&& after.len() == before.len() + 1
            &&& after.drop_last() == before
            &&& f.fabric_id == large(m, "fabric_id"@)
            &&& f.node_id == large(m, "node_id"@)
            &&& m.contains_key("port"@) && m["port"@] is Unsigned && m["port"@]->Unsigned_0 < 65536 ==> f.port
                == m["port"@]->Unsigned_0
            &&& m.contains_key("port"@) && m["port"@] is Unsigned ==> f.port == m["port"@]->Unsigned_0 as int % 65536
            &&& !m.contains_key("port"@) || !(m["port"@] is Unsigned) ==> f.port == 5540
            &&& hearing::says(m, "interface"@) is Some ==> f.interface == hearing::says(m, "interface"@)->0
            &&& hearing::says(m, "interface"@) is None ==> f.interface == "wifi"@
            &&& known.contains_key(f.fabric_id) ==> f.fabric_name == known[f.fabric_id].name && f.fabric_icon
                == known[f.fabric_id].icon
            &&& !known.contains_key(f.fabric_id) ==> f.fabric_icon == "✨"@
            &&& !known.contains_key(f.fabric_id) && text::bytes(f.fabric_id) < 8 ==> f.fabric_name == "Fabric "@
                + f.fabric_id
            &&& !known.contains_key(f.fabric_id) && text::bytes(f.fabric_id) >= 8 ==> f.fabric_name == "Fabric "@
                + text::first_bytes(f.fabric_id, 8)
        }),
{
    let item = Json::Object(m);
    let before = fabrics::with_items(listed, items, known);
    assert(items.push(item).drop_last() =~= items);
    assert(fabrics::is_new(before, item));
    assert(before.push(fabrics::fabric_of(item, known)).drop_last() =~= before);
}

/// A fabric that is listed already, and an item without an id, add nothing.
pub proof fn listed_fabrics_are_not_listed_again(
    listed: Seq<FabricModel>,
    items: Seq<Json>,
    m: Map<Seq<char>, Json>,
    known: Map<Seq<char>, FabricMetaModel>,
    i: int,
)
    requires
        large(m, "fabric_id"@).len() == 0 || (0 <= i < fabrics::with_items(listed, items, known).len()
            && fabrics::with_items(listed, items, known)[i].fabric_id == large(m, "fabric_id"@) && fabrics::with_items(
            listed,
            items,
            known,
        )[i].node_id == large(m, "node_id"@)),
    ensures
        fabrics::with_items(listed, items.push(Json::Object(m)), known) == fabrics::with_items(listed, items, known),
        fabrics::with_items(listed, Seq::empty(), known) == listed,
{
    assert(items.push(Json::Object(m)).drop_last() =~= items);
    assert(Seq::<Json>::empty().len() == 0);
}

}
