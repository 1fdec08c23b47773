//! Which device a Bluetooth interface of a Shelly belongs to.

use vstd::prelude::*;
use vstd::utf8::is_ascii_chars;

use crate::autolink;
use crate::device::DeviceModel;
use crate::laws::texts;
use crate::text;

verus! {

broadcast use vstd::string::group_string_axioms;

/// The device was seen over Bluetooth.
pub open spec fn over_bluetooth(d: DeviceModel) -> bool {
    ||| d.metadata.contains_key("protocol"@) && d.metadata["protocol"@] == "ble"@
    ||| "mobile-ble-"@.is_prefix_of(d.device_id)
    ||| d.module_id == "bthome"@
}

/// The device tells no address of its own.
pub open spec fn tells_no_address(d: DeviceModel) -> bool {
    over_bluetooth(d) || (!d.metadata.contains_key("mac"@) && !d.metadata.contains_key("hostname"@))
}

/// A name of a Shelly: it holds the word, begins with no space, and ends in twelve hexadecimal digits.
pub open spec fn is_shelly_name(before: Seq<char>, hex: Seq<char>) -> bool {
    &&& is_ascii_chars(before)
    &&& before.len() > 0
    &&& !text::whitespace(before[0])
    &&& text::has(text::lowercase(before), "shelly"@)
    &&& hex.len() == 12
    &&& forall|i: int|
        0 <= i < 12 ==> '0' <= #[trigger] hex[i] <= '9' || 'a' <= hex[i] <= 'f' || 'A' <= hex[i] <= 'F'
}

/// The name of a Shelly carries the address that its last twelve digits make.
pub proof fn shelly_names_carry_their_address(before: Seq<char>, hex: Seq<char>)
    requires
        is_shelly_name(before, hex),
    ensures
        autolink::shelly_mac(before + hex) == Some(text::uppercase(hex)),
        autolink::name_cuts(before + hex),
{
    let s = before + hex;
    assert forall|i: int| 0 <= i < 12 implies text::is_hex_digit(#[trigger] hex[i]) && hex[i] <= '\u{7f}' by {}
    assert(is_ascii_chars(hex));
    assert(is_ascii_chars(s));
    assert(s.last() == hex[11]);
    assert(!text::whitespace(s.last()));
    assert(s.first() == before[0]);
    assert(text::trimmed(s) == s);
    text::lemma_ascii_tail(s, s.len() - 12);
    assert(s.skip(s.len() - 12) =~= hex);
    let i = choose|i: int| text::occurs_at(text::lowercase(before), "shelly"@, i);
    let p = "shelly"@;
    assert(text::lowercase(s).subrange(i, i + p.len()) =~= text::lowercase(before).subrange(i, i + p.len()));
    assert(text::occurs_at(text::lowercase(s), p, i));
}

/// A name without the word, one that is too short, and one that ends in anything but hexadecimal
/// digits carry no address.
pub proof fn other_names_carry_no_address(name: Seq<char>, before: Seq<char>, end: Seq<char>, k: int)
    requires
        is_ascii_chars(before + end),
        before.len() > 0,
        !text::whitespace(before[0]),
        end.len() == 12,
        !text::whitespace(end[11]),
        0 <= k < 12,
        !('0' <= end[k] <= '9' || 'a' <= end[k] <= 'f' || 'A' <= end[k] <= 'F'),
    ensures
        !text::has(text::lowercase(name), "shelly"@) ==> autolink::shelly_mac(name) is None,
        text::bytes(text::trimmed(name)) < 12 ==> autolink::shelly_mac(name) is None,
        autolink::shelly_mac(before + end) is None,
{
    let s = before + end;
    assert(s.last() == end[11]);
    assert(s.first() == before[0]);
    assert(text::trimmed(s) == s);
    text::lemma_ascii_tail(s, s.len() - 12);
    assert(s.skip(s.len() - 12) =~= end);
    assert(!text::is_hex_digit(end[k]));
}

proof fn lemma_large(hex: Seq<char>)
    requires
        hex.len() == 12,
        forall|i: int|
            0 <= i < 12 ==> '0' <= #[trigger] hex[i] <= '9' || 'a' <= hex[i] <= 'f' || 'A' <= hex[i] <= 'F',
    ensures
        is_ascii_chars(text::uppercase(hex)),
        text::uppercase(hex).len() == 12,
        text::bytes(text::uppercase(hex)) == 12,
{
    assert forall|i: int| 0 <= i < 12 implies hex[i] <= '\u{7f}' by {}
    assert(is_ascii_chars(hex));
    let u = text::uppercase(hex);
    assert forall|i: int| 0 <= i < 12 implies #[trigger] u[i] <= '\u{7f}' by {
        assert(u[i] == text::ascii_large(hex[i]));
    }
    text::lemma_ascii_tail(u, 0);
}

/// An interface whose name carries the MAC address of a device belongs to that device: the last one
/// with the address.
pub proof fn interfaces_belong_to_the_device_with_their_address(
    devices: Seq<DeviceModel>,
    o: DeviceModel,
    d: DeviceModel,
    before: Seq<char>,
    hex: Seq<char>,
)
    requires
        over_bluetooth(d),
        !over_bluetooth(o),
        d.device_id != o.device_id,
        is_shelly_name(before, hex),
        d.display_name == before + hex,
        o.metadata.contains_key("mac"@),
        text::uppercase(text::without(o.metadata["mac"@], seq![':', '-'])) == text::uppercase(hex),
    ensures
        autolink::proposed_primary(devices.push(o), d) == Some(o.device_id),
{
    shelly_names_carry_their_address(before, hex);
    lemma_large(hex);
    assert(autolink::claims_by_address(o, text::uppercase(hex)));
}

/// Where no device has the address itself, the last one that shares its first ten digits counts: one
/// device has several interfaces in a row.
pub proof fn neighbouring_addresses_belong_together(
    devices: Seq<DeviceModel>,
    o: DeviceModel,
    d: DeviceModel,
    before: Seq<char>,
    hex: Seq<char>,
    own: Seq<char>,
)
    requires
        forall|i: int| 0 <= i < devices.len() ==> tells_no_address(#[trigger] devices[i]),
        over_bluetooth(d),
        !over_bluetooth(o),
        d.device_id != o.device_id,
        is_shelly_name(before, hex),
        d.display_name == before + hex,
        o.metadata.contains_key("mac"@),
        !o.metadata.contains_key("hostname"@),
        text::uppercase(text::without(o.metadata["mac"@], seq![':', '-'])) == own,
        own.len() == 12,
        is_ascii_chars(own),
        own.take(10) == text::uppercase(hex).take(10),
    ensures
        autolink::proposed_primary(devices.push(o), d) == Some(o.device_id),
{
    shelly_names_carry_their_address(before, hex);
    lemma_large(hex);
    let mac = text::uppercase(hex);
    let all = devices.push(o);
    assert(all.drop_last() =~= devices);
    text::lemma_ascii_tail(own, 0);
    texts::lemma_ascii_head(own, 10);
    assert(mac.take(10).len() == 10);
    assert(autolink::claims_by_address(o, mac.take(10)));
    if own == mac {
        assert(autolink::claims_by_address(o, mac));
    } else {
        lemma_silent(devices, mac);
        lemma_no_host(o, mac);
        assert(!autolink::claims(o, mac)) by {
            assert(mac != own.take(10));
        }
    }
}

proof fn lemma_no_host(o: DeviceModel, mac: Seq<char>)
    requires
        !o.metadata.contains_key("hostname"@),
    ensures
        !autolink::claims_by_host(o, mac),
        autolink::large_host(o).len() == 0,
{
    reveal_strlit("SHELLY");
    assert(o.meta_or_empty("hostname"@) =~= Seq::<char>::empty());
    assert(is_ascii_chars(Seq::<char>::empty()));
    assert(autolink::large_host(o) =~= Seq::<char>::empty());
}

proof fn lemma_silent(devices: Seq<DeviceModel>, mac: Seq<char>)
    requires
        forall|i: int| 0 <= i < devices.len() ==> tells_no_address(#[trigger] devices[i]),
    ensures
        autolink::mac_owner(devices, mac) is None,
    decreases devices.len(),
{
    if devices.len() > 0 {
        let rest = devices.drop_last();
        assert(devices[devices.len() - 1] == devices.last());
        assert(tells_no_address(devices.last()));
        if !over_bluetooth(devices.last()) {
            lemma_no_host(devices.last(), mac);
        }
        assert forall|i: int| 0 <= i < rest.len() implies tells_no_address(#[trigger] rest[i]) by {
            assert(rest[i] == devices[i]);
        }
        lemma_silent(rest, mac);
    }
}

/// A device whose host name is that of a Shelly with the address counts like one with the MAC address.
pub proof fn host_names_carry_addresses_too(
    devices: Seq<DeviceModel>,
    o: DeviceModel,
    d: DeviceModel,
    before: Seq<char>,
    hex: Seq<char>,
    model: Seq<char>,
    digits: Seq<char>,
)
    requires
        over_bluetooth(d),
        !over_bluetooth(o),
        d.device_id != o.device_id,
        is_shelly_name(before, hex),
        d.display_name == before + hex,
        o.metadata.contains_key("hostname"@),
        o.metadata["hostname"@] == "shelly"@ + model + digits,
        is_ascii_chars(model),
        is_shelly_name("shelly"@ + model, digits),
        text::uppercase(digits) == text::uppercase(hex),
    ensures
        autolink::proposed_primary(devices.push(o), d) == Some(o.device_id),
{
    shelly_names_carry_their_address(before, hex);
    shelly_names_carry_their_address("shelly"@ + model, digits);
    lemma_large(hex);
    let host = o.metadata["hostname"@];
    assert forall|i: int| 0 <= i < 12 implies digits[i] <= '\u{7f}' by {}
    assert(is_ascii_chars(digits));
    assert(is_ascii_chars("shelly"@ + model));
    assert(is_ascii_chars(host));
    autolink::small_and_large_names_carry_one_address(host);
    reveal_strlit("shelly");
    reveal_strlit("SHELLY");
    assert(text::uppercase(host).subrange(0, 6) =~= "SHELLY"@);
    assert(text::occurs_at(text::uppercase(host), "SHELLY"@, 0));
    assert(autolink::claims_by_host(o, text::uppercase(hex)));
}

/// An interface whose address nobody has belongs to the last active device of the model that its name
/// tells, by that device's name.
pub proof fn models_join_where_addresses_do_not(
    devices: Seq<DeviceModel>,
    o: DeviceModel,
    d: DeviceModel,
    before: Seq<char>,
    hex: Seq<char>,
)
    requires
        forall|i: int| 0 <= i < devices.len() ==> tells_no_address(#[trigger] devices[i]),
        tells_no_address(o),
        over_bluetooth(d),
        !over_bluetooth(o),
        d.device_id != o.device_id,
        is_shelly_name(before, hex),
        d.display_name == before + hex,
        o.metadata.contains_key("status"@) && o.metadata["status"@] == "active"@,
    ensures
        text::has(text::lowercase(d.display_name), "shellypro3em"@) && text::has(
            text::lowercase(o.display_name),
            "shellypro3em"@,
        ) ==> autolink::proposed_primary(devices.push(o), d) == Some(o.device_id),
        !text::has(text::lowercase(d.display_name), "shellypro3em"@) && text::has(
            text::lowercase(d.display_name),
            "shellypro4pm"@,
        ) && text::has(text::lowercase(o.display_name), "shellypro4pm"@) ==> autolink::proposed_primary(
            devices.push(o),
            d,
        ) == Some(o.device_id),
        !text::has(text::lowercase(d.display_name), "shellypro3em"@) && !text::has(
            text::lowercase(d.display_name),
            "shellypro4pm"@,
        ) && text::has(text::lowercase(d.display_name), "shellyplus1"@) && text::has(
            text::lowercase(o.display_name),
            "shellyplus1"@,
        ) ==> autolink::proposed_primary(devices.push(o), d) == Some(o.device_id),
        !text::has(text::lowercase(d.display_name), "shellypro3em"@) && !text::has(
            text::lowercase(d.display_name),
            "shellypro4pm"@,
        ) && !text::has(text::lowercase(d.display_name), "shellyplus1"@) ==> autolink::proposed_primary(
            devices.push(o),
            d,
        ) is None,
{
    shelly_names_carry_their_address(before, hex);
    let mac = text::uppercase(hex);
    let all = devices.push(o);
    assert(all.drop_last() =~= devices);
    assert forall|i: int| 0 <= i < all.len() implies tells_no_address(#[trigger] all[i]) by {
        if i < devices.len() {
            assert(all[i] == devices[i]);
        }
    }
    lemma_silent(all, mac);
    lemma_silent(all, mac.take(10));
}

/// What is no Bluetooth interface of a Shelly belongs to nobody, and nothing belongs to a device that
/// was seen over Bluetooth.
pub proof fn only_bluetooth_interfaces_belong(devices: Seq<DeviceModel>, o: DeviceModel, d: DeviceModel)
    ensures
        !over_bluetooth(d) ==> autolink::proposed_primary(devices, d) is None,
        !text::has(text::lowercase(d.display_name), "shelly"@) ==> autolink::proposed_primary(devices, d) is None,
        autolink::proposed_primary(devices, d) != Some(d.device_id),
        over_bluetooth(o) ==> autolink::proposed_primary(devices.push(o), d) == autolink::proposed_primary(devices, d),
{
    assert(devices.push(o).drop_last() =~= devices);
}

/// An inactive device takes no interface from a device of the same model that came before it.
pub proof fn inactive_devices_take_nothing(devices: Seq<DeviceModel>, o: DeviceModel, model: Seq<char>)
    requires
        !(o.metadata.contains_key("status"@) && o.metadata["status"@] == "active"@),
        !(o.metadata.contains_key("is_active"@) && o.metadata["is_active"@] == "true"@),
        autolink::model_owner(devices, model) is Some,
    ensures
        autolink::model_owner(devices.push(o), model) == autolink::model_owner(devices, model),
{
    assert(devices.push(o).drop_last() =~= devices);
}

}
