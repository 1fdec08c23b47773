//! The history of devices that the discovery keeps: a JSON object whose member `records` holds
//! one record per device.

use serde_json::Value;
use vstd::prelude::*;

use crate::json;
use crate::json::Json;
use crate::text;

verus! {

broadcast use vstd::string::group_string_axioms;

/// An id as records are found by it: in small letters, without space around it.
pub open spec fn plain_id(id: Seq<char>) -> Seq<char> {
    text::lowercase(text::trimmed(id))
}

/// The text member `key` of a record names `plain`.
pub open spec fn member_names(record: Json, key: Seq<char>, plain: Seq<char>) -> bool {
    match record.member_text(key) {
        Some(s) => plain_id(s) == plain,
        None => false,
    }
}

/// The record under `key` is that of the device `plain`: by its key, its MAC address or its id.
pub open spec fn is_record_of(key: Seq<char>, record: Json, plain: Seq<char>) -> bool {
    plain_id(key) == plain || member_names(record, "mac"@, plain) || member_names(record, "device_id"@, plain)
}

/// The records of a history; none where it holds no object of records.
pub open spec fn records_of(history: Json) -> Map<Seq<char>, Json> {
    match history.member("records"@) {
        Some(Json::Object(m)) => m,
        _ => json::no_members(),
    }
}

/// What is changed in the records of a device.
#[derive(Debug)]
pub enum Change {
    /// The device gets a name, or goes back to the one that it reports.
    Rename(Option<String>),
    /// The device at this address answered at this time.
    Answered(String, String),
}

/// What a `Change` stands for.
pub enum ChangeModel {
    Rename(Option<Seq<char>>),
    Answered(Seq<char>, Seq<char>),
}

impl DeepView for Change {
    type V = ChangeModel;

    open spec fn deep_view(&self) -> ChangeModel {
        match self {
            Change::Rename(name) => ChangeModel::Rename(name.deep_view()),
            Change::Answered(ip, now) => ChangeModel::Answered(ip@, now@),
        }
    }
}

/// The name of a record that nobody gave a name: its host name, else its id.
pub open spec fn reported_name(record: Json) -> Seq<char> {
    let host = text::or_empty(record.member_text("hostname"@));
    if host.len() > 0 {
        host
    } else {
        text::or_text(record.member_text("device_id"@), "Unknown Device"@)
    }
}

/// The change concerns the record under `key`.
pub open spec fn is_concerned(key: Seq<char>, record: Json, plain: Seq<char>, change: ChangeModel) -> bool {
    record is Object && (is_record_of(key, record, plain) || match change {
        ChangeModel::Rename(_) => false,
        ChangeModel::Answered(ip, _) => record.member_text("ip"@) == Some(ip),
    })
}

/// A record with the change made in it.
pub open spec fn changed_record(record: Json, change: ChangeModel) -> Json {
    let m = record->Object_0;
    match change {
        ChangeModel::Rename(Some(name)) => Json::Object(m.insert("display_name"@, Json::Text(name))),
        ChangeModel::Rename(None) => Json::Object(m.insert("display_name"@, Json::Text(reported_name(record)))),
        ChangeModel::Answered(_, now) => Json::Object(
            m.insert("is_active"@, Json::Bool(true)).insert("last_seen"@, Json::Text(now)),
        ),
    }
}

/// What stands under `key` behind the change.
pub open spec fn record_after(key: Seq<char>, record: Json, plain: Seq<char>, change: ChangeModel) -> Json {
    if is_concerned(key, record, plain, change) {
        changed_record(record, change)
    } else {
        record
    }
}

/// The records with the change made in all that it concerns.
pub open spec fn records_after(
    records: Map<Seq<char>, Json>,
    plain: Seq<char>,
    change: ChangeModel,
) -> Map<Seq<char>, Json> {
    Map::new(|k: Seq<char>| records.contains_key(k), |k: Seq<char>| record_after(k, records[k], plain, change))
}

/// The change concerns one of the records.
pub open spec fn concerns_any(records: Map<Seq<char>, Json>, plain: Seq<char>, change: ChangeModel) -> bool {
    exists|k: Seq<char>| #[trigger] records.contains_key(k) && is_concerned(k, records[k], plain, change)
}

/// The history with the change made in it; nothing where it concerns no record.
pub open spec fn history_after(history: Json, plain: Seq<char>, change: ChangeModel) -> Option<Json> {
    let records = records_of(history);
    if concerns_any(records, plain, change) {
        Some(
            Json::Object(history->Object_0.insert("records"@, Json::Object(records_after(records, plain, change)))),
        )
    } else {
        None
    }
}

pub fn plain_id_of(id: &str) -> (r: String)
    ensures
        r@ == plain_id(id@),
{
    text::trim(id).as_str().to_lowercase()
}

fn member_names_id(record: &Value, key: &str, plain: &str) -> (r: bool)
    ensures
        r == member_names(json::json_of(*record), key@, plain@),
{
    match json::get_text(record, key) {
        Some(s) => text::same(plain_id_of(s.as_str()).as_str(), plain),
        None => false,
    }
}

fn is_record_of_id(key: &str, record: &Value, plain: &str) -> (r: bool)
    ensures
        r == is_record_of(key@, json::json_of(*record), plain@),
{
    text::same(plain_id_of(key).as_str(), plain) || member_names_id(record, "mac", plain) || member_names_id(
        record,
        "device_id",
        plain,
    )
}

fn has_ip(record: &Value, ip: &str) -> (r: bool)
    ensures
        r == (json::json_of(*record).member_text("ip"@) == Some(ip@)),
{
    match json::get_text(record, "ip") {
        Some(s) => text::same(s.as_str(), ip),
        None => false,
    }
}

fn reported_name_of(record: &Value) -> (r: String)
    ensures
        r@ == reported_name(json::json_of(*record)),
{
    match json::get_text(record, "hostname") {
        Some(host) => {
            if !text::blank(host.as_str()) {
                return host;
            }
        },
        None => {},
    }
    match json::get_text(record, "device_id") {
        Some(id) => id,
        None => "Unknown Device".to_owned(),
    }
}

/// The record with the change made in it, where the change concerns it.
fn change_record(key: &str, record: &Value, plain: &str, change: &Change) -> (r: Option<Value>)
    ensures
        match r {
            Some(v) => is_concerned(key@, json::json_of(*record), plain@, change.deep_view()) && json::json_of(v)
                == changed_record(json::json_of(*record), change.deep_view()),
            None => !is_concerned(key@, json::json_of(*record), plain@, change.deep_view()),
        },
{
    match record.as_object() {
        Some(m) => {
            let own = is_record_of_id(key, record, plain);
            match change {
                Change::Rename(name) => {
                    if !own {
                        return None;
                    }
                    let shown = match name {
                        Some(n) => n.clone(),
                        None => reported_name_of(record),
                    };
                    let mut o = json::copy_members(m);
                    json::put(&mut o, "display_name", json::string(shown.as_str()));
                    Some(json::object(o))
                },
                Change::Answered(ip, now) => {
                    if !own && !has_ip(record, ip.as_str()) {
                        return None;
                    }
                    let mut o = json::copy_members(m);
                    json::put(&mut o, "is_active", json::boolean(true));
                    json::put(&mut o, "last_seen", json::string(now.as_str()));
                    Some(json::object(o))
                },
            }
        },
        None => None,
    }
}

/// The history with the change made in the records of `device_id`; nothing where there are none.
pub fn change_history(history: &Value, device_id: &str, change: &Change) -> (r: Option<Value>)
    ensures
        match r {
            Some(v) => history_after(json::json_of(*history), plain_id(device_id@), change.deep_view()) == Some(
                json::json_of(v),
            ),
            None => history_after(json::json_of(*history), plain_id(device_id@), change.deep_view()) is None,
        },
{
    let plain = plain_id_of(device_id);
    let ghost what = change.deep_view();
    let records = match json::get(history, "records") {
        Some(v) => v,
        None => {
            return None;
        },
    };
    let m = match records.as_object() {
        Some(m) => m,
        None => {
            return None;
        },
    };
    let ghost before = json::members(*m);
    let keys = json::keys(m);
    let ghost names = keys.deep_view();
    let mut out = json::new_members();
    let mut updated = false;
    let mut i: usize = 0;
    while i < keys.len()
        invariant
            i <= keys@.len(),
            names == keys.deep_view(),
            what == change.deep_view(),
            plain@ == plain_id(device_id@),
            before == json::members(*m),
            json::json_of(*records) == Json::Object(before),
            json::in_order(names),
            forall|k: Seq<char>| #[trigger] before.contains_key(k) <==> names.contains(k),
            forall|k: Seq<char>| #[trigger] json::members(out).contains_key(k) <==> names.take(i as int).contains(k),
            forall|k: Seq<char>| #[trigger]
                json::members(out).contains_key(k) ==> json::members(out)[k] == record_after(k, before[k], plain@, what),
            updated == (exists|j: int|
                0 <= j < i && is_concerned(#[trigger] names[j], before[names[j]], plain@, what)),
        decreases keys@.len() - i,
    {
        let key = keys[i].as_str();
        assert(names[i as int] == key@);
        assert(names.contains(key@));
        assert(before.contains_key(key@));
        proof {
            crate::text_map::lemma_one_more(names, i as int);
        }
        let ghost earlier = json::members(out);
        match json::get(records, key) {
            Some(record) => {
                match change_record(key, record, plain.as_str(), change) {
                    Some(v) => {
                        json::put(&mut out, key, v);
                        updated = true;
                        assert(is_concerned(names[i as int], before[names[i as int]], plain@, what));
                    },
                    None => {
                        json::put(&mut out, key, json::copy(record));
                    },
                }
                assert(forall|x: Seq<char>| #[trigger]
                    json::members(out).contains_key(x) <==> x == key@ || earlier.contains_key(x));
            },
            None => {},
        }
        i = i + 1;
    }
    assert(names.take(i as int) =~= names);
    assert(json::members(out) =~= records_after(before, plain@, what));
    if !updated {
        assert forall|k: Seq<char>| #[trigger] before.contains_key(k) implies !is_concerned(k, before[k], plain@, what) by {
            let j = names.index_of(k);
            assert(names.contains(k));
            assert(names[j] == k);
        }
        return None;
    }
    proof {
        let j = choose|j: int| 0 <= j < names.len() && is_concerned(#[trigger] names[j], before[names[j]], plain@, what);
        assert(names.contains(names[j]));
        assert(before.contains_key(names[j]));
    }
    match history.as_object() {
        Some(h) => {
            let mut o = json::copy_members(h);
            json::put(&mut o, "records", json::object(out));
            Some(json::object(o))
        },
        None => None,
    }
}

/// The text of a history with the change made in it; nothing where the text is no history or
/// the change concerns no record.
pub open spec fn text_after(content: Seq<char>, plain: Seq<char>, change: ChangeModel) -> Option<Seq<char>> {
    match json::parsed(content) {
        Some(history) => match history_after(history, plain, change) {
            Some(after) => json::pretty_text(after),
            None => None,
        },
        None => None,
    }
}

/// The text that the history file gets; nothing where it stays as it is.
pub fn change_history_text(content: &str, device_id: &str, change: &Change) -> (r: Option<String>)
    ensures
        r.deep_view() == text_after(content@, plain_id(device_id@), change.deep_view()),
{
    match json::parse(content) {
        Some(history) => match change_history(&history, device_id, change) {
            Some(after) => json::write_pretty(&after),
            None => None,
        },
        None => None,
    }
}

// ---------------------------------------------------------------------------------------
// The address of a device
// ---------------------------------------------------------------------------------------

/// Under `key` stands the first record of the device, in the order of the keys.
pub open spec fn is_first_record(records: Map<Seq<char>, Json>, plain: Seq<char>, key: Seq<char>) -> bool {
    &&& records.contains_key(key)
    &&& is_record_of(key, records[key], plain)
    &&& forall|k: Seq<char>| #[trigger]
        records.contains_key(k) && is_record_of(k, records[k], plain) ==> text::at_most(key, k)
}

/// The key of the first record of the device.
pub open spec fn first_key(records: Map<Seq<char>, Json>, plain: Seq<char>) -> Option<Seq<char>> {
    if exists|key: Seq<char>| is_first_record(records, plain, key) {
        Some(choose|key: Seq<char>| is_first_record(records, plain, key))
    } else {
        None
    }
}

/// The address in the first record of the device.
pub open spec fn remembered_ip(history: Json, plain: Seq<char>) -> Option<Seq<char>> {
    match first_key(records_of(history), plain) {
        Some(key) => records_of(history)[key].member_text("ip"@),
        None => None,
    }
}

proof fn lemma_at_most_both(a: Seq<char>, b: Seq<char>, i: int)
    requires
        0 <= i,
        i <= a.len(),
        i <= b.len(),
        a.take(i) == b.take(i),
        text::at_most_from(a, b, i),
        text::at_most_from(b, a, i),
    ensures
        a == b,
    decreases a.len() - i,
{
    if i < a.len() && i < b.len() {
        assert(a.take(i + 1) =~= a.take(i).push(a[i]));
        assert(b.take(i + 1) =~= b.take(i).push(b[i]));
        lemma_at_most_both(a, b, i + 1);
    } else {
        assert(a.take(i) =~= a);
        assert(b.take(i) =~= b);
    }
}

proof fn lemma_first_record(records: Map<Seq<char>, Json>, plain: Seq<char>, key: Seq<char>)
    requires
        is_first_record(records, plain, key),
    ensures
        first_key(records, plain) == Some(key),
{
    let other = choose|k: Seq<char>| is_first_record(records, plain, k);
    assert(is_first_record(records, plain, other));
    assert(records.contains_key(key) && records.contains_key(other));
    assert(other.take(0) =~= key.take(0));
    lemma_at_most_both(other, key, 0);
}

/// The address that the history remembers for `device_id`.
pub fn ip_from_history(history: &Value, device_id: &str) -> (r: Option<String>)
    ensures
        r.deep_view() == remembered_ip(json::json_of(*history), plain_id(device_id@)),
{
    let plain = plain_id_of(device_id);
    let records = match json::get(history, "records") {
        Some(v) => v,
        None => {
            return None;
        },
    };
    let m = match records.as_object() {
        Some(m) => m,
        None => {
            return None;
        },
    };
    let ghost all = json::members(*m);
    let keys = json::keys(m);
    let ghost names = keys.deep_view();
    let mut i: usize = 0;
    while i < keys.len()
        invariant
            i <= keys@.len(),
            names == keys.deep_view(),
            plain@ == plain_id(device_id@),
            all == json::members(*m),
            json::json_of(*records) == Json::Object(all),
            all == records_of(json::json_of(*history)),
            json::in_order(names),
            forall|k: Seq<char>| #[trigger] all.contains_key(k) <==> names.contains(k),
            forall|j: int| 0 <= j < i ==> !is_record_of(#[trigger] names[j], all[names[j]], plain@),
        decreases keys@.len() - i,
    {
        let key = keys[i].as_str();
        assert(names[i as int] == key@);
        assert(names.contains(key@));
        assert(all.contains_key(key@));
        match json::get(records, key) {
            Some(record) => {
                if is_record_of_id(key, record, plain.as_str()) {
                    proof {
                        assert forall|k: Seq<char>| #[trigger]
                            all.contains_key(k) && is_record_of(k, all[k], plain@) implies text::at_most(key@, k) by {
                            let j = names.index_of(k);
                            assert(names.contains(k));
                            assert(names[j] == k);
                            if j > i {
                                assert(text::at_most(names[i as int], names[j]));
                            } else {
                                lemma_at_most_self(k, 0);
                            }
                        }
                        lemma_first_record(all, plain@, key@);
                    }
                    return json::get_text(record, "ip");
                }
            },
            None => {},
        }
        i = i + 1;
    }
    proof {
        assert forall|k: Seq<char>| !is_first_record(all, plain@, k) by {
            if all.contains_key(k) {
                let j = names.index_of(k);
                assert(names.contains(k));
                assert(names[j] == k);
            }
        }
    }
    None
}

proof fn lemma_at_most_self(a: Seq<char>, i: int)
    ensures
        text::at_most_from(a, a, i),
    decreases a.len() - i,
{
    if 0 <= i < a.len() {
        lemma_at_most_self(a, i + 1);
    }
}

/// The address that the text of a history remembers.
pub open spec fn ip_in_text(content: Seq<char>, plain: Seq<char>) -> Option<Seq<char>> {
    match json::parsed(content) {
        Some(history) => remembered_ip(history, plain),
        None => None,
    }
}

/// The address that the text of a history remembers for `device_id`.
pub fn ip_from_history_text(content: &str, device_id: &str) -> (r: Option<String>)
    ensures
        r.deep_view() == ip_in_text(content@, plain_id(device_id@)),
{
    match json::parse(content) {
        Some(history) => ip_from_history(&history, device_id),
        None => None,
    }
}

// ---------------------------------------------------------------------------------------
// What holds of changes
// ---------------------------------------------------------------------------------------

/// A change adds no record and takes none away, and leaves those of other devices as they are.
pub proof fn changes_touch_only_their_records(history: Json, plain: Seq<char>, change: ChangeModel)
    ensures
        match history_after(history, plain, change) {
            Some(after) => {
                &&& records_of(after).dom() == records_of(history).dom()
                &&& forall|k: Seq<char>|
                    records_of(history).contains_key(k) && !is_concerned(k, records_of(history)[k], plain, change)
                        ==> #[trigger] records_of(after)[k] == records_of(history)[k]
                &&& forall|key: Seq<char>| key != "records"@ ==> #[trigger] after.member(key) == history.member(key)
            },
            None => true,
        },
{
    if history_after(history, plain, change) is Some {
        let after = history_after(history, plain, change)->0;
        let k = choose|k: Seq<char>| #[trigger]
            records_of(history).contains_key(k) && is_concerned(k, records_of(history)[k], plain, change);
        assert(history.member("records"@) is Some);
        assert(records_of(after) =~= records_after(records_of(history), plain, change));
        assert(records_of(after).dom() =~= records_of(history).dom());
    }
}

/// A device that answered is active and was seen at that time; whatever changes, the other members
/// of its records stay.
pub proof fn changes_reach_their_records(history: Json, plain: Seq<char>, change: ChangeModel, key: Seq<char>)
    requires
        records_of(history).contains_key(key),
        is_concerned(key, records_of(history)[key], plain, change),
    ensures
        history_after(history, plain, change) is Some,
        ({
            let before = records_of(history)[key];
            let after = records_of(history_after(history, plain, change)->0)[key];
            match change {
                ChangeModel::Rename(name) => {
                    &&& after.member_text("display_name"@) == Some(text::or_text(name, reported_name(before)))
                    &&& forall|m: Seq<char>| m != "display_name"@ ==> #[trigger] after.member(m) == before.member(m)
                },
                ChangeModel::Answered(_, now) => {
                    &&& after.member("is_active"@) == Some(Json::Bool(true))
                    &&& after.member_text("last_seen"@) == Some(now)
                    &&& forall|m: Seq<char>|
                        m != "is_active"@ && m != "last_seen"@ ==> #[trigger] after.member(m) == before.member(m)
                },
            }
        }),
{
    reveal_strlit("is_active");
    reveal_strlit("last_seen");
    assert("is_active"@[0] == 'i');
    assert("last_seen"@[0] == 'l');
}

}
