//! The history of devices: a change reaches the records of its device and nothing else.

use vstd::prelude::*;

use crate::history;
use crate::history::ChangeModel;
use crate::json;
use crate::json::Json;
use crate::text;

verus! {

broadcast use vstd::string::group_string_axioms;

/// What tells the names of the members apart.
proof fn lemma_names()
    ensures
        "display_name"@.len() == 12,
        "hostname"@.len() == 8,
        "device_id"@.len() == 9,
        "is_active"@.len() == 9,
        "last_seen"@.len() == 9,
        "records"@.len() == 7,
        "mac"@.len() == 3,
        "ip"@.len() == 2,
        "device_id"@[0] == 'd',
        "is_active"@[0] == 'i',
        "last_seen"@[0] == 'l',
{
    reveal_strlit("display_name");
    reveal_strlit("hostname");
    reveal_strlit("device_id");
    reveal_strlit("is_active");
    reveal_strlit("last_seen");
    reveal_strlit("records");
    reveal_strlit("mac");
    reveal_strlit("ip");
}

/// The two are the same id but for case and for space around them.
pub open spec fn same_id(a: Seq<char>, b: Seq<char>) -> bool {
    text::lowercase(text::trimmed(a)) == text::lowercase(text::trimmed(b))
}

/// The record under `key` is of the device `id`: by its key, its MAC address or its id.
pub open spec fn is_of(key: Seq<char>, record: Map<Seq<char>, Json>, id: Seq<char>) -> bool {
    ||| same_id(key, id)
    ||| exists|s: Seq<char>| record.contains_key("mac"@) && record["mac"@] == Json::Text(s) && #[trigger] same_id(s, id)
    ||| exists|s: Seq<char>|
        record.contains_key("device_id"@) && record["device_id"@] == Json::Text(s) && #[trigger] same_id(s, id)
}

proof fn lemma_is_of(key: Seq<char>, record: Map<Seq<char>, Json>, id: Seq<char>)
    ensures
        is_of(key, record, id) == history::is_record_of(key, Json::Object(record), history::plain_id(id)),
{
    let j = Json::Object(record);
    if history::member_names(j, "mac"@, history::plain_id(id)) {
        let s = j.member_text("mac"@)->0;
        assert(same_id(s, id));
    }
    if history::member_names(j, "device_id"@, history::plain_id(id)) {
        let s = j.member_text("device_id"@)->0;
        assert(same_id(s, id));
    }
}

/// A history whose records are `records`.
pub open spec fn has_records(h: Map<Seq<char>, Json>, records: Map<Seq<char>, Json>) -> bool {
    h.contains_key("records"@) && h["records"@] == Json::Object(records)
}

/// The member `name` of a record behind a change.
pub open spec fn after(
    h: Map<Seq<char>, Json>,
    id: Seq<char>,
    change: ChangeModel,
    key: Seq<char>,
    name: Seq<char>,
) -> Option<Json> {
    match history::history_after(Json::Object(h), history::plain_id(id), change) {
        Some(j) => match j.member("records"@) {
            Some(records) => match records.member(key) {
                Some(record) => record.member(name),
                None => None,
            },
            None => None,
        },
        None => None,
    }
}

proof fn lemma_after(
    h: Map<Seq<char>, Json>,
    records: Map<Seq<char>, Json>,
    id: Seq<char>,
    change: ChangeModel,
    key: Seq<char>,
    record: Map<Seq<char>, Json>,
)
    requires
        has_records(h, records),
        records.contains_key(key),
        records[key] == Json::Object(record),
        history::is_concerned(key, Json::Object(record), history::plain_id(id), change),
    ensures
        history::history_after(Json::Object(h), history::plain_id(id), change) is Some,
        forall|name: Seq<char>|
            #[trigger] after(h, id, change, key, name) == history::changed_record(Json::Object(record), change).member(name),
{
    assert(history::concerns_any(records, history::plain_id(id), change));
}

/// A device that gets a name is remembered under that name, and all else that is remembered of it
/// stays.
pub proof fn renamed_devices_are_remembered_by_their_name(
    h: Map<Seq<char>, Json>,
    records: Map<Seq<char>, Json>,
    id: Seq<char>,
    given: Seq<char>,
    key: Seq<char>,
    record: Map<Seq<char>, Json>,
    name: Seq<char>,
)
    requires
        has_records(h, records),
        records.contains_key(key),
        records[key] == Json::Object(record),
        is_of(key, record, id),
    ensures
        after(h, id, ChangeModel::Rename(Some(given)), key, "display_name"@) == Some(Json::Text(given)),
        name != "display_name"@ ==> after(h, id, ChangeModel::Rename(Some(given)), key, name) == Json::Object(record).member(
            name,
        ),
        name != "display_name"@ ==> after(h, id, ChangeModel::Rename(None), key, name) == Json::Object(record).member(name),
{
    lemma_is_of(key, record, id);
    lemma_after(h, records, id, ChangeModel::Rename(Some(given)), key, record);
    lemma_after(h, records, id, ChangeModel::Rename(None), key, record);
}

/// A device whose name is taken back goes by its host name, or by its id where it has none.
pub proof fn devices_without_a_name_go_by_what_they_report(
    h: Map<Seq<char>, Json>,
    records: Map<Seq<char>, Json>,
    id: Seq<char>,
    key: Seq<char>,
    record: Map<Seq<char>, Json>,
    reported: Seq<char>,
)
    requires
        has_records(h, records),
        records.contains_key(key),
        records[key] == Json::Object(record),
        is_of(key, record, id),
        reported.len() > 0,
    ensures
        record.contains_key("hostname"@) && record["hostname"@] == Json::Text(reported) ==> after(
            h,
            id,
            ChangeModel::Rename(None),
            key,
            "display_name"@,
        ) == Some(Json::Text(reported)),
        !record.contains_key("hostname"@) && record.contains_key("device_id"@) && record["device_id"@] == Json::Text(reported)
            ==> after(h, id, ChangeModel::Rename(None), key, "display_name"@) == Some(Json::Text(reported)),
{
    lemma_is_of(key, record, id);
    lemma_after(h, records, id, ChangeModel::Rename(None), key, record);
}

/// A device that answered is remembered as active, and when; found by its id or by its address. All
/// else that is remembered of it stays.
pub proof fn devices_that_answered_are_remembered_as_active(
    h: Map<Seq<char>, Json>,
    records: Map<Seq<char>, Json>,
    id: Seq<char>,
    ip: Seq<char>,
    now: Seq<char>,
    key: Seq<char>,
    record: Map<Seq<char>, Json>,
    name: Seq<char>,
)
    requires
        has_records(h, records),
        records.contains_key(key),
        records[key] == Json::Object(record),
        is_of(key, record, id) || (record.contains_key("ip"@) && record["ip"@] == Json::Text(ip)),
    ensures
        after(h, id, ChangeModel::Answered(ip, now), key, "is_active"@) == Some(Json::Bool(true)),
        after(h, id, ChangeModel::Answered(ip, now), key, "last_seen"@) == Some(Json::Text(now)),
        name != "is_active"@ && name != "last_seen"@ ==> after(h, id, ChangeModel::Answered(ip, now), key, name)
            == Json::Object(record).member(name),
{
    lemma_names();
    lemma_is_of(key, record, id);
    lemma_after(h, records, id, ChangeModel::Answered(ip, now), key, record);
}

/// The records of other devices, and what stands beside the records, are not touched.
pub proof fn other_records_are_not_touched(
    h: Map<Seq<char>, Json>,
    records: Map<Seq<char>, Json>,
    id: Seq<char>,
    change: ChangeModel,
    key: Seq<char>,
    record: Map<Seq<char>, Json>,
    name: Seq<char>,
)
    requires
        has_records(h, records),
        records.contains_key(key),
        records[key] == Json::Object(record),
        !is_of(key, record, id),
        match change {
            ChangeModel::Rename(_) => true,
            ChangeModel::Answered(ip, now) => !(record.contains_key("ip"@) && record["ip"@] == Json::Text(ip)),
        },
    ensures
        match history::history_after(Json::Object(h), history::plain_id(id), change) {
            Some(j) => j.member("records"@) is Some && j.member("records"@)->0.member(key) == Some(Json::Object(record)) && (
            name != "records"@ ==> j.member(name) == Json::Object(h).member(name)),
            None => true,
        },
{
    lemma_is_of(key, record, id);
    if record.contains_key("ip"@) {
        assert(Json::Object(record).member_text("ip"@) is Some ==> record["ip"@] is Text);
    }
}

/// Where no record is of the device, nothing changes.
pub proof fn unknown_devices_change_nothing(
    h: Map<Seq<char>, Json>,
    records: Map<Seq<char>, Json>,
    id: Seq<char>,
    name: Option<Seq<char>>,
)
    requires
        has_records(h, records),
        forall|k: Seq<char>| #[trigger] records.contains_key(k) ==> records[k] is Object && !is_of(k, records[k]->Object_0, id),
    ensures
        history::history_after(Json::Object(h), history::plain_id(id), ChangeModel::Rename(name)) is None,
{
    assert forall|k: Seq<char>| #[trigger] records.contains_key(k) implies !history::is_concerned(
        k,
        records[k],
        history::plain_id(id),
        ChangeModel::Rename(name),
    ) by {
        lemma_is_of(k, records[k]->Object_0, id);
    }
}

/// The address of a device is the one that is remembered in the only record of it.
pub proof fn addresses_are_remembered(
    h: Map<Seq<char>, Json>,
    records: Map<Seq<char>, Json>,
    id: Seq<char>,
    key: Seq<char>,
    record: Map<Seq<char>, Json>,
)
    requires
        has_records(h, records),
        records.contains_key(key),
        records[key] == Json::Object(record),
        is_of(key, record, id),
        forall|k: Seq<char>| #[trigger]
            records.contains_key(k) && k != key ==> records[k] is Object && !is_of(k, records[k]->Object_0, id),
    ensures
        forall|ip: Seq<char>|
            record.contains_key("ip"@) && record["ip"@] == Json::Text(ip) ==> history::remembered_ip(
                Json::Object(h),
                #[trigger] history::plain_id(id),
            ) == Some(ip),
        !record.contains_key("ip"@) ==> history::remembered_ip(Json::Object(h), history::plain_id(id)) is None,
{
    let plain = history::plain_id(id);
    lemma_is_of(key, record, id);
    assert forall|k: Seq<char>| #[trigger] records.contains_key(k) && history::is_record_of(k, records[k], plain) implies k
        == key by {
        if k != key {
            lemma_is_of(k, records[k]->Object_0, id);
        }
    }
    lemma_itself(key, 0);
    assert(history::is_first_record(records, plain, key));
    let first = history::first_key(records, plain);
    assert(history::is_first_record(records, plain, first->0));
    assert(first == Some(key));
}

proof fn lemma_itself(s: Seq<char>, i: int)
    ensures
        text::at_most_from(s, s, i),
    decreases s.len() - i,
{
    if 0 <= i < s.len() {
        lemma_itself(s, i + 1);
    }
}

/// A text that is a history is written anew where the change concerns one of its records, and else left.
pub proof fn history_texts_are_written_anew(content: Seq<char>, plain: Seq<char>, change: ChangeModel)
    ensures
        json::parsed(content) is None ==> history::text_after(content, plain, change) is None && history::ip_in_text(
            content,
            plain,
        ) is None,
        json::parsed(content) is Some ==> history::ip_in_text(content, plain) == history::remembered_ip(
            json::parsed(content)->0,
            plain,
        ),
        json::parsed(content) is Some && history::history_after(json::parsed(content)->0, plain, change) is Some
            ==> history::text_after(content, plain, change) == json::pretty_text(
            history::history_after(json::parsed(content)->0, plain, change)->0,
        ),
        json::parsed(content) is Some && history::history_after(json::parsed(content)->0, plain, change) is None
            ==> history::text_after(content, plain, change) is None,
{
}

}
