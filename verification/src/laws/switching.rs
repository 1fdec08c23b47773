//! Switching lights: every light that is meant gets exactly what was asked for.

use vstd::prelude::*;

use crate::device::DeviceModel;
use crate::docs::DocsModel;
use crate::laws::hearing;
use crate::laws::rooms_told;
use crate::laws::texts;
use crate::lights;
use crate::lights::{CommandModel, LightSetting};
use crate::text;

verus! {

broadcast use vstd::string::group_string_axioms;

/// The bridge is told `percent` of its brightness: a number of its scale, which ends at 254, as
/// near to it as there is one.
pub open spec fn tells_brightness(body: Seq<char>, percent: u8) -> bool {
    exists|n: nat|
        n <= 255 && body == "{\"on\":true,\"bri\":"@ + #[trigger] text::decimal(n) + "}"@ && (percent <= 100 ==> -50 <= 100 * n
            - 254 * percent <= 50) && (percent > 100 ==> n >= 254)
}

/// The bridge is told the temperature `kelvin` in mired, within what lights can do.
pub open spec fn tells_temperature(body: Seq<char>, kelvin: u32) -> bool {
    exists|n: nat|
        153 <= n <= 500 && body == "{\"on\":true,\"ct\":"@ + #[trigger] text::decimal(n) + "}"@ && (kelvin <= 2000 ==> n == 500)
            && (kelvin >= 6500 ==> n == 153) && (2000 <= kelvin <= 6500 ==> n * kelvin <= 1_000_000 < (n + 1) * kelvin)
}

/// The command carries the setting.
pub open spec fn carries(c: CommandModel, setting: LightSetting) -> bool {
    match c {
        CommandModel::Govee { ip, setting: given } => given == setting,
        CommandModel::Hue { path, body } => match setting {
            LightSetting::Power(on) => body == (if on { "{\"on\":true}"@ } else { "{\"on\":false}"@ }),
            LightSetting::Brightness(percent) => tells_brightness(body, percent),
            LightSetting::Color(_, _, _) => body == "{\"on\":true}"@,
            LightSetting::Temperature(kelvin) => tells_temperature(body, kelvin),
        },
    }
}

proof fn lemma_hue_body(setting: LightSetting, path: Seq<char>)
    ensures
        carries(CommandModel::Hue { path, body: lights::hue_body(setting) }, setting),
{
    let body = lights::hue_body(setting);
    match setting {
        LightSetting::Power(on) => {
            reveal_strlit("{\"on\":");
            reveal_strlit("}");
            reveal_strlit("true");
            reveal_strlit("false");
            reveal_strlit("{\"on\":true}");
            reveal_strlit("{\"on\":false}");
            if on {
                assert("{\"on\":"@ + "true"@ + "}"@ =~= "{\"on\":true}"@);
            } else {
                assert("{\"on\":"@ + "false"@ + "}"@ =~= "{\"on\":false}"@);
            }
        },
        LightSetting::Brightness(percent) => {
            let n = lights::bridge_brightness(percent) as nat;
            assert(body == "{\"on\":true,\"bri\":"@ + text::decimal(n) + "}"@);
            assert(tells_brightness(body, percent));
        },
        LightSetting::Color(_, _, _) => {},
        LightSetting::Temperature(kelvin) => {
            let k = lights::between(kelvin as int, 2000, 6500);
            let q = 1_000_000int / k;
            assert(q * k <= 1_000_000 < (q + 1) * k && 153 <= q <= 500) by (nonlinear_arith)
                requires
                    2000 <= k <= 6500,
                    q == 1_000_000int / k,
            ;
            if kelvin <= 2000 {
                assert(k == 2000);
                assert(q == 500) by (nonlinear_arith)
                    requires
                        q * 2000 <= 1_000_000 < (q + 1) * 2000,
                ;
            }
            if kelvin >= 6500 {
                assert(k == 6500);
                assert(q == 153) by (nonlinear_arith)
                    requires
                        q * 6500 <= 1_000_000 < (q + 1) * 6500,
                ;
            }
            let n = lights::mired(kelvin) as nat;
            assert(n == q);
            assert(body == "{\"on\":true,\"ct\":"@ + text::decimal(n) + "}"@);
            assert(tells_temperature(body, kelvin));
        },
    }
}

proof fn lemma_carried(devices: Seq<DeviceModel>, id: Seq<char>, setting: LightSetting, n: int)
    requires
        0 <= n < lights::commands_for(devices, id, setting).len(),
    ensures
        carries(lights::commands_for(devices, id, setting)[n], setting),
{
    let c = lights::commands_for(devices, id, setting)[n];
    match c {
        CommandModel::Govee { ip, setting: given } => {},
        CommandModel::Hue { path, body } => {
            lemma_hue_body(setting, path);
        },
    }
}

/// Every command for a setting carries that setting and no other.
pub proof fn every_command_carries_the_setting(
    devices: Seq<DeviceModel>,
    ids: Seq<Seq<char>>,
    setting: LightSetting,
    n: int,
)
    requires
        0 <= n < lights::commands(devices, ids, setting).len(),
    ensures
        carries(lights::commands(devices, ids, setting)[n], setting),
    decreases ids.len(),
{
    if ids.len() > 0 {
        let before = lights::commands(devices, ids.drop_last(), setting);
        if n < before.len() {
            every_command_carries_the_setting(devices, ids.drop_last(), setting, n);
        } else {
            lemma_carried(devices, ids.last(), setting, n - before.len());
        }
    }
}

/// `d` is the first device with its id.
pub open spec fn first_of_its_id(devices: Seq<DeviceModel>, d: DeviceModel) -> bool {
    exists|j: int|
        0 <= j < devices.len() && #[trigger] devices[j] == d && forall|i: int|
            0 <= i < j ==> (#[trigger] devices[i]).device_id != d.device_id
}

pub proof fn lemma_first(devices: Seq<DeviceModel>, d: DeviceModel)
    requires
        first_of_its_id(devices, d),
    ensures
        lights::device_with_id(devices, d.device_id) == Some(d),
{
    let j = choose|j: int|
        0 <= j < devices.len() && #[trigger] devices[j] == d && forall|i: int|
            0 <= i < j ==> (#[trigger] devices[i]).device_id != d.device_id;
    lemma_nobody(devices.take(j), d.device_id);
    assert(devices.take(j + 1).drop_last() =~= devices.take(j));
    assert(devices.take(j + 1).last() == d);
    lights::lemma_device_with_id_stays(devices, d.device_id, j + 1);
}

pub proof fn lemma_nobody(devices: Seq<DeviceModel>, id: Seq<char>)
    requires
        forall|i: int| 0 <= i < devices.len() ==> (#[trigger] devices[i]).device_id != id,
    ensures
        lights::device_with_id(devices, id) is None,
    decreases devices.len(),
{
    if devices.len() > 0 {
        assert(devices[devices.len() - 1] == devices.last());
        assert forall|i: int| 0 <= i < devices.drop_last().len() implies (#[trigger] devices.drop_last()[i]).device_id != id by {
            assert(devices.drop_last()[i] == devices[i]);
        }
        lemma_nobody(devices.drop_last(), id);
    }
}

proof fn lemma_among_commands(
    devices: Seq<DeviceModel>,
    ids: Seq<Seq<char>>,
    setting: LightSetting,
    id: Seq<char>,
    c: CommandModel,
)
    requires
        ids.contains(id),
        lights::commands_for(devices, id, setting).contains(c),
    ensures
        lights::commands(devices, ids, setting).contains(c),
    decreases ids.len(),
{
    let rest = ids.drop_last();
    let before = lights::commands(devices, rest, setting);
    let here = lights::commands_for(devices, ids.last(), setting);
    let all = lights::commands(devices, ids, setting);
    if ids.last() == id {
        let n = here.index_of(c);
        assert(all[before.len() + n] == c);
    } else {
        let i = ids.index_of(id);
        assert(rest[i] == id);
        lemma_among_commands(devices, rest, setting, id, c);
        let n = before.index_of(c);
        assert(all[n] == c);
    }
}

/// A device that is meant and reports an address that can be used is told there. An address can
/// be used where it is not empty, not a hyphen and not bracketed.
pub proof fn meant_devices_are_told_at_their_address(
    devices: Seq<DeviceModel>,
    ids: Seq<Seq<char>>,
    setting: LightSetting,
    d: DeviceModel,
)
    requires
        first_of_its_id(devices, d),
        ids.contains(d.device_id),
        d.metadata.contains_key("ip"@),
        d.metadata["ip"@].len() > 0,
        d.metadata["ip"@] != "-"@,
        !d.metadata["ip"@].contains('('),
    ensures
        lights::commands(devices, ids, setting).contains(CommandModel::Govee { ip: d.metadata["ip"@], setting }),
{
    lemma_first(devices, d);
    let c = CommandModel::Govee { ip: d.metadata["ip"@], setting };
    assert(lights::commands_for(devices, d.device_id, setting)[0] == c);
    lemma_among_commands(devices, ids, setting, d.device_id, c);
}

/// A light of the bridge that is meant is told through the bridge, under the number that it reports
/// or that its id ends with.
pub proof fn meant_hue_lights_are_told_through_the_bridge(
    devices: Seq<DeviceModel>,
    ids: Seq<Seq<char>>,
    setting: LightSetting,
    d: DeviceModel,
    number: Seq<char>,
)
    requires
        first_of_its_id(devices, d),
        ids.contains(d.device_id),
        d.module_id == "philips-hue"@ || (d.metadata.contains_key("source"@) && d.metadata["source"@] == "philips-hue"@),
        if d.metadata.contains_key("hue_light_id"@) {
            number == d.metadata["hue_light_id"@]
        } else {
            d.device_id == "hue-light-"@ + number && !number.contains('h')
        },
    ensures
        exists|n: int|
            0 <= n < lights::commands(devices, ids, setting).len() && match #[trigger] lights::commands(devices, ids, setting)[n] {
                CommandModel::Hue { path, body } => path == "/api/lights/"@ + number + "/state"@,
                CommandModel::Govee { ip, setting: given } => false,
            },
{
    lemma_first(devices, d);
    if !d.metadata.contains_key("hue_light_id"@) {
        reveal_strlit("hue-light-");
        texts::lemma_mark_removed("hue-light-"@, number);
    }
    let c = CommandModel::Hue { path: lights::hue_path(d), body: lights::hue_body(setting) };
    let here = lights::commands_for(devices, d.device_id, setting);
    assert(here[lights::address_commands(d, setting).len() as int] == c);
    lemma_among_commands(devices, ids, setting, d.device_id, c);
    let n = lights::commands(devices, ids, setting).index_of(c);
    assert(lights::commands(devices, ids, setting)[n] == c);
}

/// An id that spells an address, with hyphens in place of the dots, is told at that address, known
/// or not.
pub proof fn spelled_addresses_are_told(
    devices: Seq<DeviceModel>,
    ids: Seq<Seq<char>>,
    setting: LightSetting,
    ip: Seq<char>,
    id: Seq<char>,
)
    requires
        ids.contains(id),
        !ip.contains('-'),
        !ip.contains('n'),
        id.len() == 4 + ip.len(),
        id.take(4) == "net-"@,
        forall|i: int| 0 <= i < ip.len() ==> #[trigger] id[4 + i] == (if ip[i] == '.' { '-' } else { ip[i] }),
    ensures
        lights::commands(devices, ids, setting).contains(CommandModel::Govee { ip, setting }),
{
    reveal_strlit("net-");
    let rest = id.skip(4);
    assert("net-"@.is_prefix_of(id)) by {
        assert(id.subrange(0, 4) =~= id.take(4));
    }
    if rest.len() > 0 {
        assert(rest[0] == id[4 + 0int]);
        assert(ip.contains(ip[0]));
        assert(rest[0] != 'n');
        if "net-"@.is_prefix_of(rest) {
            assert("net-"@[0] == rest[0]);
        }
    }
    assert(text::prefix_stripped(rest, "net-"@) == rest);
    assert(text::prefix_stripped(id, "net-"@) == rest);
    texts::lemma_hyphens(rest);
    assert forall|i: int| 0 <= i < ip.len() implies ip[i] == text::char_replaced(rest, '-', "."@)[i] by {
        assert(rest[i] == id[4 + i]);
        assert(ip.contains(ip[i]));
    }
    assert(lights::ip_in_id(id) =~= ip);
    let c = CommandModel::Govee { ip, setting };
    let here = lights::commands_for(devices, id, setting);
    assert(here[here.len() - 1] == c);
    lemma_among_commands(devices, ids, setting, id, c);
}

/// Nobody else is told: a command goes to a device that is meant or to an address that an id spells.
pub proof fn nobody_else_is_told(devices: Seq<DeviceModel>, ids: Seq<Seq<char>>, setting: LightSetting, n: int)
    requires
        0 <= n < lights::commands(devices, ids, setting).len(),
    ensures
        ({
            let c = lights::commands(devices, ids, setting)[n];
            exists|id: Seq<char>| #[trigger]
                ids.contains(id) && ((id.len() >= 4 && id.take(4) == "net-"@ && c is Govee) || exists|j: int|
                    0 <= j < devices.len() && (#[trigger] devices[j]).device_id == id && match c {
                        CommandModel::Govee { ip, setting: given } => devices[j].metadata.contains_key("ip"@)
                            && devices[j].metadata["ip"@] == ip,
                        CommandModel::Hue { path, body } => devices[j].module_id == "philips-hue"@ || (
                        devices[j].metadata.contains_key("source"@) && devices[j].metadata["source"@] == "philips-hue"@),
                    })
        }),
    decreases ids.len(),
{
    if ids.len() > 0 {
        let rest = ids.drop_last();
        let before = lights::commands(devices, rest, setting);
        if n < before.len() {
            nobody_else_is_told(devices, rest, setting, n);
            let c = before[n];
            let id = choose|id: Seq<char>| #[trigger]
                rest.contains(id) && ((id.len() >= 4 && id.take(4) == "net-"@ && c is Govee) || exists|j: int|
                    0 <= j < devices.len() && (#[trigger] devices[j]).device_id == id && match c {
                        CommandModel::Govee { ip, setting: given } => devices[j].metadata.contains_key("ip"@)
                            && devices[j].metadata["ip"@] == ip,
                        CommandModel::Hue { path, body } => devices[j].module_id == "philips-hue"@ || (
                        devices[j].metadata.contains_key("source"@) && devices[j].metadata["source"@] == "philips-hue"@),
                    });
            assert(ids[rest.index_of(id)] == id);
            assert(ids.contains(id));
        } else {
            let id = ids.last();
            assert(ids[ids.len() - 1] == id);
            assert(ids.contains(id));
            reveal_strlit("net-");
            if "net-"@.is_prefix_of(id) {
                assert(id.subrange(0, 4) =~= id.take(4));
            }
            lemma_with_id(devices, id);
        }
    }
}

proof fn lemma_with_id(devices: Seq<DeviceModel>, id: Seq<char>)
    ensures
        match lights::device_with_id(devices, id) {
            Some(d) => exists|j: int| 0 <= j < devices.len() && #[trigger] devices[j] == d && d.device_id == id,
            None => true,
        },
    decreases devices.len(),
{
    if devices.len() > 0 {
        let rest = devices.drop_last();
        lemma_with_id(rest, id);
        assert(devices[devices.len() - 1] == devices.last());
        match lights::device_with_id(rest, id) {
            Some(d) => {
                let j = choose|j: int| 0 <= j < rest.len() && #[trigger] rest[j] == d && d.device_id == id;
                assert(devices[j] == d);
            },
            None => {},
        }
    }
}

/// The steps of a scene that is not known are none. `all_off` switches off and does nothing more.
/// Every other scene switches on, then sets a brightness that can be seen, then a color or a
/// temperature that lights can do.
pub proof fn scenes_do_three_things(name: Seq<char>)
    requires
        name != "all_off"@,
        lights::scene(name).len() > 0,
    ensures
        lights::scene(name).len() == 3,
        lights::scene(name)[0] == LightSetting::Power(true),
        match lights::scene(name)[1] {
            LightSetting::Brightness(percent) => 10 <= percent <= 100,
            _ => false,
        },
        match lights::scene(name)[2] {
            LightSetting::Temperature(kelvin) => 2200 <= kelvin <= 6500,
            LightSetting::Color(r, g, b) => r > 0 || g > 0 || b > 0,
            _ => false,
        },
{
}

/// Switching all off never switches anything on.
pub proof fn all_off_is_off(steps: Seq<LightSetting>)
    requires
        steps == lights::scene("all_off"@),
    ensures
        steps == seq![LightSetting::Power(false)],
{
}

/// The brightness in which a scene leaves the lights.
pub open spec fn brightness_in(name: Seq<char>, percent: u8) -> bool {
    lights::scene(name).contains(LightSetting::Brightness(percent))
}

/// The temperature in which a scene leaves the lights.
pub open spec fn temperature_in(name: Seq<char>, kelvin: u32) -> bool {
    lights::scene(name).contains(LightSetting::Temperature(kelvin))
}

/// From working light to night light the scenes grow darker and warmer.
pub proof fn scenes_grow_darker_and_warmer(
    focus: (u8, u32),
    on: (u8, u32),
    relax: (u8, u32),
    evening: (u8, u32),
    night: (u8, u32),
)
    requires
        brightness_in("focus"@, focus.0) && temperature_in("focus"@, focus.1),
        brightness_in("all_on"@, on.0) && temperature_in("all_on"@, on.1),
        brightness_in("relax"@, relax.0) && temperature_in("relax"@, relax.1),
        brightness_in("evening"@, evening.0) && temperature_in("evening"@, evening.1),
        brightness_in("night"@, night.0) && temperature_in("night"@, night.1),
    ensures
        100 == focus.0 == on.0 && on.0 > relax.0 > evening.0 > night.0 > 0,
        focus.1 > on.1 > relax.1 > evening.1 > night.1 >= 2000,
{
    lemma_scene_names();
}

/// Every scene of the house is known.
pub proof fn the_scenes_are_known(name: Seq<char>)
    ensures
        lights::scene(name).len() > 0 <==> name == "all_off"@ || name == "all_on"@ || name == "relax"@ || name == "focus"@
            || name == "evening"@ || name == "night"@ || name == "cinema"@,
{
}

proof fn lemma_scene_names()
    ensures
        lights::scene("focus"@) == seq![
            LightSetting::Power(true),
            LightSetting::Brightness(100),
            LightSetting::Temperature(6500),
        ],
        lights::scene("all_on"@) == seq![
            LightSetting::Power(true),
            LightSetting::Brightness(100),
            LightSetting::Temperature(4000),
        ],
        lights::scene("relax"@) == seq![
            LightSetting::Power(true),
            LightSetting::Brightness(40),
            LightSetting::Temperature(2700),
        ],
        lights::scene("evening"@) == seq![
            LightSetting::Power(true),
            LightSetting::Brightness(25),
            LightSetting::Temperature(2400),
        ],
        lights::scene("night"@) == seq![
            LightSetting::Power(true),
            LightSetting::Brightness(10),
            LightSetting::Temperature(2200),
        ],
{
    reveal_strlit("all_off");
    reveal_strlit("all_on");
    reveal_strlit("relax");
    reveal_strlit("focus");
    reveal_strlit("evening");
    reveal_strlit("night");
    assert("all_off"@.len() == 7 && "all_off"@[0] == 'a');
    assert("all_on"@.len() == 6);
    assert("relax"@.len() == 5 && "relax"@[0] == 'r');
    assert("focus"@.len() == 5 && "focus"@[0] == 'f');
    assert("evening"@.len() == 7 && "evening"@[0] == 'e');
    assert("night"@.len() == 5 && "night"@[0] == 'n');
}

/// The device is a light: by its category, its kind, its place at the bridge or its maker's name, and neither a
/// button nor a sensor.
pub open spec fn gives_light(d: DeviceModel) -> bool {
    let category = d.metadata.contains_key("category"@);
    let senses = d.kind == "button"@ || d.kind == "sensor"@ || (category && d.metadata["category"@] == "button"@) || (
    d.device_id.len() >= 11 && d.device_id.take(11) == "hue-sensor-"@);
    let shines = d.kind == "lighting"@ || (category && d.metadata["category"@] == "lighting"@) || (d.module_id
        == "philips-hue"@ && d.metadata.contains_key("hue_light_id"@)) || text::has(text::lowercase(d.display_name), "govee"@)
        || (d.metadata.contains_key("hostname"@) && text::has(text::lowercase(d.metadata["hostname"@]), "govee"@));
    shines && !senses
}

/// A scene for a room means the lights that are in it, in order and whatever the case and the space around its
/// name, and nothing else.
pub proof fn scenes_mean_the_lights_of_the_room(
    docs: DocsModel,
    devices: Seq<DeviceModel>,
    d: DeviceModel,
    room: Seq<char>,
)
    ensures
        ({
            let doc = rooms_told::written(docs, d);
            let told = rooms_told::room_told(doc, d);
            let own = if told is Some {
                told->0
            } else {
                Seq::empty()
            };
            let here = text::lowercase(text::trimmed(own)) == text::lowercase(text::trimmed(room)) && gives_light(d);
            &&& lights::lights_in(docs, Seq::empty(), room).len() == 0
            &&& here ==> lights::lights_in(docs, devices.push(d), room) == lights::lights_in(docs, devices, room).push(
                d.device_id,
            )
            &&& !here ==> lights::lights_in(docs, devices.push(d), room) == lights::lights_in(docs, devices, room)
        }),
{
    reveal_strlit("");
    reveal_strlit("hue-sensor-");
    assert(""@ =~= Seq::<char>::empty());
    assert(devices.push(d).drop_last() =~= devices);
    assert(Seq::<DeviceModel>::empty().len() == 0);
    assert(hearing::reported(d, "mac"@) =~= d.meta_or_empty("mac"@));
    if d.device_id.len() >= 11 {
        assert(d.device_id.subrange(0, 11) =~= d.device_id.take(11));
    }
    assert(crate::pages::rooms::primary_doc(docs, d) == rooms_told::written(docs, d));
}

/// The scenes, each with what it sets.
pub proof fn scenes_set_what_they_promise()
    ensures
        lights::scene("all_on"@)[1] == LightSetting::Brightness(100) && lights::scene("all_on"@)[2]
            == LightSetting::Temperature(4000),
        lights::scene("relax"@)[1] == LightSetting::Brightness(40) && lights::scene("relax"@)[2]
            == LightSetting::Temperature(2700),
        lights::scene("focus"@)[1] == LightSetting::Brightness(100) && lights::scene("focus"@)[2]
            == LightSetting::Temperature(6500),
        lights::scene("evening"@)[1] == LightSetting::Brightness(25) && lights::scene("evening"@)[2]
            == LightSetting::Temperature(2400),
        lights::scene("night"@)[1] == LightSetting::Brightness(10) && lights::scene("night"@)[2]
            == LightSetting::Temperature(2200),
        lights::scene("cinema"@)[1] == LightSetting::Brightness(20) && lights::scene("cinema"@)[2] == LightSetting::Color(
            0,
            100,
            255,
        ),
{
    lemma_scene_names();
    reveal_strlit("all_off");
    reveal_strlit("all_on");
    reveal_strlit("relax");
    reveal_strlit("focus");
    reveal_strlit("evening");
    reveal_strlit("night");
    reveal_strlit("cinema");
    assert("cinema"@.len() == 6 && "cinema"@[0] == 'c' && "all_on"@[0] == 'a');
}

}
