//! Switching lights: which commands go to which lights, and what a scene is made of.

use vstd::prelude::*;

use crate::device::{DeviceModel, DeviceRecord};
use crate::docs::DocsModel;
use crate::pages::rooms;
use crate::records::DeviceDocumentation;
use crate::text;
use crate::text_map;
use crate::text_map::TextMap;

verus! {

broadcast use vstd::string::group_string_axioms;

/// What a light is to do.
#[derive(PartialEq, Eq, Structural, Clone, Copy, Debug)]
pub enum LightSetting {
    Power(bool),
    /// In percent.
    Brightness(u8),
    Color(u8, u8, u8),
    /// In kelvin.
    Temperature(u32),
}

/// A command to one light.
#[derive(Debug)]
pub enum LightCommand {
    /// To the Govee light at this address.
    Govee { ip: String, setting: LightSetting },
    /// To the Hue module: a path and the JSON text that is posted there.
    Hue { path: String, body: String },
}

/// What a `LightCommand` stands for.
pub enum CommandModel {
    Govee { ip: Seq<char>, setting: LightSetting },
    Hue { path: Seq<char>, body: Seq<char> },
}

impl DeepView for LightCommand {
    type V = CommandModel;

    open spec fn deep_view(&self) -> CommandModel {
        match self {
            LightCommand::Govee { ip, setting } => CommandModel::Govee { ip: ip@, setting: *setting },
            LightCommand::Hue { path, body } => CommandModel::Hue { path: path@, body: body@ },
        }
    }
}

// ---------------------------------------------------------------------------------------
// Units
// ---------------------------------------------------------------------------------------

/// A brightness in percent on the scale of the bridge, rounded, at most 255.
pub open spec fn bridge_brightness(percent: u8) -> int {
    let scaled = (percent * 254 + 50) / 100;
    if scaled > 255 {
        255
    } else {
        scaled
    }
}

/// `n` kept between `low` and `high`.
pub open spec fn between(n: int, low: int, high: int) -> int {
    if n < low {
        low
    } else if n > high {
        high
    } else {
        n
    }
}

/// A color temperature in mired, kept within what the lights can do.
pub open spec fn mired(kelvin: u32) -> int {
    between(1_000_000int / between(kelvin as int, 2000, 6500), 153, 500)
}

pub fn bridge_brightness_of(percent: u8) -> (r: u8)
    ensures
        r == bridge_brightness(percent),
{
    let scaled: u32 = (percent as u32 * 254 + 50) / 100;
    if scaled > 255 {
        255
    } else {
        scaled as u8
    }
}

pub fn mired_of(kelvin: u32) -> (r: u32)
    ensures
        r == mired(kelvin),
{
    let kept: u32 = if kelvin < 2000 {
        2000
    } else if kelvin > 6500 {
        6500
    } else {
        kelvin
    };
    let m: u32 = 1_000_000 / kept;
    if m < 153 {
        153
    } else if m > 500 {
        500
    } else {
        m
    }
}

/// Every temperature is within what the lights can do, and a warmer light never has the smaller
/// number.
pub proof fn mired_is_in_range(a: u32, b: u32)
    ensures
        153 <= mired(a) <= 500,
        a <= b ==> mired(b) <= mired(a),
{
    let x = between(a as int, 2000, 6500);
    let y = between(b as int, 2000, 6500);
    if a <= b {
        assert(1_000_000int / y <= 1_000_000int / x) by (nonlinear_arith)
            requires
                0 < x <= y,
        ;
    }
}

/// Dark is dark, full is full, and more percent is never less bright.
pub proof fn brightness_scale(a: u8, b: u8)
    ensures
        bridge_brightness(0) == 0,
        bridge_brightness(100) == 254,
        a <= b ==> bridge_brightness(a) <= bridge_brightness(b),
{
}

// ---------------------------------------------------------------------------------------
// Commands
// ---------------------------------------------------------------------------------------

/// The first device with that id.
pub open spec fn device_with_id(devices: Seq<DeviceModel>, id: Seq<char>) -> Option<DeviceModel>
    decreases devices.len(),
{
    if devices.len() == 0 {
        None
    } else {
        let before = device_with_id(devices.drop_last(), id);
        if before is Some {
            before
        } else if devices.last().device_id == id {
            Some(devices.last())
        } else {
            None
        }
    }
}

pub proof fn lemma_device_with_id_stays(devices: Seq<DeviceModel>, id: Seq<char>, n: int)
    requires
        0 <= n <= devices.len(),
        device_with_id(devices.take(n), id) is Some,
    ensures
        device_with_id(devices, id) == device_with_id(devices.take(n), id),
    decreases devices.len(),
{
    if n < devices.len() {
        assert(devices.drop_last().take(n) =~= devices.take(n));
        lemma_device_with_id_stays(devices.drop_last(), id, n);
    } else {
        assert(devices.take(n) =~= devices);
    }
}

/// The first device with that id.
pub fn find_device<'a>(devices: &'a [DeviceRecord], id: &str) -> (r: Option<&'a DeviceRecord>)
    ensures
        r.deep_view() == device_with_id(devices.deep_view(), id@),
{
    let ghost all = devices.deep_view();
    let mut i: usize = 0;
    while i < devices.len()
        invariant
            i <= devices@.len(),
            all == devices.deep_view(),
            device_with_id(all.take(i as int), id@) is None,
        decreases devices@.len() - i,
    {
        assert(all.take(i + 1).drop_last() =~= all.take(i as int));
        assert(all.take(i + 1).last() == devices@[i as int].deep_view());
        if text::same(devices[i].device_id.as_str(), id) {
            proof {
                lemma_device_with_id_stays(all, id@, i + 1);
            }
            return Some(&devices[i]);
        }
        i = i + 1;
    }
    assert(all.take(i as int) =~= all);
    None
}

/// The device is switched by the Hue module.
pub open spec fn is_hue(d: DeviceModel) -> bool {
    d.module_id == "philips-hue"@ || d.meta("source"@) == Some("philips-hue"@)
}

/// The id of a light at the bridge.
pub open spec fn hue_light_id(d: DeviceModel) -> Seq<char> {
    match d.meta("hue_light_id"@) {
        Some(id) => id,
        None => text::replaced(d.device_id, "hue-light-"@, ""@),
    }
}

/// The path of a light at the Hue module.
pub open spec fn hue_path(d: DeviceModel) -> Seq<char> {
    "/api/lights/"@ + hue_light_id(d) + "/state"@
}

/// What the Hue module is told.
pub open spec fn hue_body(setting: LightSetting) -> Seq<char> {
    match setting {
        LightSetting::Power(on) => "{\"on\":"@ + text::bool_word(on) + "}"@,
        LightSetting::Brightness(percent) => "{\"on\":true,\"bri\":"@ + text::decimal(bridge_brightness(percent) as nat) + "}"@,
        LightSetting::Color(_, _, _) => "{\"on\":true}"@,
        LightSetting::Temperature(kelvin) => "{\"on\":true,\"ct\":"@ + text::decimal(mired(kelvin) as nat) + "}"@,
    }
}

/// The command to the light of a device at its address, where it has one that can be used.
pub open spec fn address_commands(d: DeviceModel, setting: LightSetting) -> Seq<CommandModel> {
    match d.meta("ip"@) {
        Some(ip) => if rooms::is_usable(ip) {
            seq![CommandModel::Govee { ip, setting }]
        } else {
            Seq::empty()
        },
        None => Seq::empty(),
    }
}

/// The command to a light of the bridge.
pub open spec fn hue_commands(d: DeviceModel, setting: LightSetting) -> Seq<CommandModel> {
    if is_hue(d) {
        seq![CommandModel::Hue { path: hue_path(d), body: hue_body(setting) }]
    } else {
        Seq::empty()
    }
}

/// The address that an id spells.
pub open spec fn ip_in_id(id: Seq<char>) -> Seq<char> {
    text::char_replaced(text::prefix_stripped(id, "net-"@), '-', "."@)
}

/// The command to the address that an id spells.
pub open spec fn id_commands(id: Seq<char>, setting: LightSetting) -> Seq<CommandModel> {
    if "net-"@.is_prefix_of(id) {
        seq![CommandModel::Govee { ip: ip_in_id(id), setting }]
    } else {
        Seq::empty()
    }
}

/// The commands for one device.
pub open spec fn commands_for(devices: Seq<DeviceModel>, id: Seq<char>, setting: LightSetting) -> Seq<CommandModel> {
    match device_with_id(devices, id) {
        Some(d) => address_commands(d, setting) + hue_commands(d, setting) + id_commands(id, setting),
        None => id_commands(id, setting),
    }
}

/// The commands for all devices `ids`, one after the other.
pub open spec fn commands(devices: Seq<DeviceModel>, ids: Seq<Seq<char>>, setting: LightSetting) -> Seq<CommandModel>
    decreases ids.len(),
{
    if ids.len() == 0 {
        Seq::empty()
    } else {
        commands(devices, ids.drop_last(), setting) + commands_for(devices, ids.last(), setting)
    }
}

fn hue_path_of(d: &DeviceRecord) -> (r: String)
    ensures
        r@ == hue_path(d.deep_view()),
{
    proof {
        reveal_strlit("hue-light-");
    }
    let id = match d.meta("hue_light_id") {
        Some(id) => id.clone(),
        None => text::replace(d.device_id.as_str(), "hue-light-", ""),
    };
    let mut out = "/api/lights/".to_owned();
    out.append(id.as_str());
    out.append("/state");
    out
}

/// What the Hue module is told.
pub fn hue_body_of(setting: LightSetting) -> (r: String)
    ensures
        r@ == hue_body(setting),
{
    match setting {
        LightSetting::Power(on) => {
            let mut out = "{\"on\":".to_owned();
            out.append(text::word(on));
            out.append("}");
            out
        },
        LightSetting::Brightness(percent) => {
            let mut out = "{\"on\":true,\"bri\":".to_owned();
            out.append(text::number(bridge_brightness_of(percent) as u64).as_str());
            out.append("}");
            out
        },
        LightSetting::Color(_, _, _) => "{\"on\":true}".to_owned(),
        LightSetting::Temperature(kelvin) => {
            let mut out = "{\"on\":true,\"ct\":".to_owned();
            out.append(text::number(mired_of(kelvin) as u64).as_str());
            out.append("}");
            out
        },
    }
}

fn ip_in_id_of(id: &str) -> (r: String)
    ensures
        r@ == ip_in_id(id@),
{
    proof {
        reveal_strlit("net-");
    }
    let rest = text::strip_prefix_repeatedly(id, "net-");
    text::replace_char(rest.as_str(), '-', ".")
}

fn push_command(list: &mut Vec<LightCommand>, command: LightCommand)
    ensures
        final(list).deep_view() == old(list).deep_view() + seq![command.deep_view()],
{
    let ghost before = list.deep_view();
    list.push(command);
    assert(list.deep_view() =~= before + seq![command.deep_view()]);
}

fn add_commands(list: &mut Vec<LightCommand>, devices: &[DeviceRecord], id: &str, setting: LightSetting)
    ensures
        final(list).deep_view() == old(list).deep_view() + commands_for(devices.deep_view(), id@, setting),
{
    let ghost first = list.deep_view();
    let ghost mut given = Seq::<CommandModel>::empty();
    match find_device(devices, id) {
        Some(d) => {
            match d.meta("ip") {
                Some(ip) => {
                    if rooms::is_usable_ip(ip.as_str()) {
                        push_command(list, LightCommand::Govee { ip: ip.clone(), setting });
                    }
                },
                None => {},
            }
            assert(list.deep_view() =~= first + address_commands(d.deep_view(), setting));
            let ghost mid = list.deep_view();
            if text::same(d.module_id.as_str(), "philips-hue") || d.meta_is("source", "philips-hue") {
                push_command(list, LightCommand::Hue { path: hue_path_of(d), body: hue_body_of(setting) });
            }
            assert(list.deep_view() =~= mid + hue_commands(d.deep_view(), setting));
            proof {
                given = address_commands(d.deep_view(), setting) + hue_commands(d.deep_view(), setting);
            }
        },
        None => {},
    }
    assert(list.deep_view() =~= first + given);
    if text::starts_with(id, "net-") {
        push_command(list, LightCommand::Govee { ip: ip_in_id_of(id), setting });
    }
    assert(list.deep_view() =~= first + (given + id_commands(id@, setting)));
    assert(commands_for(devices.deep_view(), id@, setting) =~= given + id_commands(id@, setting));
}

/// The commands that give all devices `ids` a setting.
pub fn light_commands(devices: &[DeviceRecord], ids: &[String], setting: LightSetting) -> (r: Vec<LightCommand>)
    ensures
        r.deep_view() == commands(devices.deep_view(), ids.deep_view(), setting),
{
    let ghost all = ids.deep_view();
    let mut r: Vec<LightCommand> = Vec::new();
    let mut i: usize = 0;
    assert(r.deep_view() =~= Seq::<CommandModel>::empty());
    while i < ids.len()
        invariant
            i <= ids@.len(),
            all == ids.deep_view(),
            r.deep_view() == commands(devices.deep_view(), all.take(i as int), setting),
        decreases ids@.len() - i,
    {
        assert(all.take(i + 1).drop_last() =~= all.take(i as int));
        add_commands(&mut r, devices, ids[i].as_str(), setting);
        i = i + 1;
    }
    assert(all.take(i as int) =~= all);
    r
}

/// The power that a light is switched to: the other one, or on where its state is not known.
pub fn toggled(current: Option<bool>) -> (on: bool)
    ensures
        on == match current {
            Some(now) => !now,
            None => true,
        },
{
    match current {
        Some(now) => !now,
        None => true,
    }
}

// ---------------------------------------------------------------------------------------
// Scenes
// ---------------------------------------------------------------------------------------

/// What the lights do in a scene, one thing after the other; nothing in an unknown one.
///
/// The light of the evening lies between that of `relax` and that of `night`: a quarter of the
/// brightness, at 2400 K. The two figures are this library's own choice.
pub open spec fn scene(name: Seq<char>) -> Seq<LightSetting> {
    if name == "all_off"@ {
        seq![LightSetting::Power(false)]
    } else if name == "all_on"@ {
        seq![LightSetting::Power(true), LightSetting::Brightness(100), LightSetting::Temperature(4000)]
    } else if name == "relax"@ {
        seq![LightSetting::Power(true), LightSetting::Brightness(40), LightSetting::Temperature(2700)]
    } else if name == "focus"@ {
        seq![LightSetting::Power(true), LightSetting::Brightness(100), LightSetting::Temperature(6500)]
    } else if name == "evening"@ {
        seq![LightSetting::Power(true), LightSetting::Brightness(25), LightSetting::Temperature(2400)]
    } else if name == "night"@ {
        seq![LightSetting::Power(true), LightSetting::Brightness(10), LightSetting::Temperature(2200)]
    } else if name == "cinema"@ {
        seq![LightSetting::Power(true), LightSetting::Brightness(20), LightSetting::Color(0, 100, 255)]
    } else {
        Seq::empty()
    }
}

fn three(brightness: u8, last: LightSetting) -> (r: Vec<LightSetting>)
    ensures
        r@ == seq![LightSetting::Power(true), LightSetting::Brightness(brightness), last],
{
    let mut r: Vec<LightSetting> = Vec::new();
    r.push(LightSetting::Power(true));
    r.push(LightSetting::Brightness(brightness));
    r.push(last);
    assert(r@ =~= seq![LightSetting::Power(true), LightSetting::Brightness(brightness), last]);
    r
}

/// What the lights do in a scene, one thing after the other.
pub fn scene_steps(name: &str) -> (r: Vec<LightSetting>)
    ensures
        r@ == scene(name@),
{
    if text::same(name, "all_off") {
        let mut r: Vec<LightSetting> = Vec::new();
        r.push(LightSetting::Power(false));
        assert(r@ =~= seq![LightSetting::Power(false)]);
        r
    } else if text::same(name, "all_on") {
        three(100, LightSetting::Temperature(4000))
    } else if text::same(name, "relax") {
        three(40, LightSetting::Temperature(2700))
    } else if text::same(name, "focus") {
        three(100, LightSetting::Temperature(6500))
    } else if text::same(name, "evening") {
        three(25, LightSetting::Temperature(2400))
    } else if text::same(name, "night") {
        three(10, LightSetting::Temperature(2200))
    } else if text::same(name, "cinema") {
        three(20, LightSetting::Color(0, 100, 255))
    } else {
        let r: Vec<LightSetting> = Vec::new();
        assert(r@ =~= Seq::<LightSetting>::empty());
        r
    }
}

/// The room of a device in small letters, without space around it.
pub open spec fn plain_room(docs: DocsModel, d: DeviceModel) -> Seq<char> {
    text::lowercase(text::trimmed(text::or_text(rooms::named_room(rooms::primary_doc(docs, d), d), ""@)))
}

/// The device is a button or a sensor.
pub open spec fn is_button_or_sensor(d: DeviceModel) -> bool {
    d.kind == "button"@ || d.meta("category"@) == Some("button"@) || d.kind == "sensor"@ || "hue-sensor-"@.is_prefix_of(
        d.device_id,
    )
}

/// The device is a light.
pub open spec fn is_light(d: DeviceModel) -> bool {
    !is_button_or_sensor(d) && (d.meta("category"@) == Some("lighting"@) || d.kind == "lighting"@ || (d.module_id
        == "philips-hue"@ && d.meta("hue_light_id"@) is Some) || text::has(text::lowercase(d.display_name), "govee"@)
        || rooms::meta_mentions(d, "hostname"@, "govee"@))
}

/// The device is a light in the room `room`.
pub open spec fn is_light_in(docs: DocsModel, d: DeviceModel, room: Seq<char>) -> bool {
    plain_room(docs, d) == text::lowercase(text::trimmed(room)) && is_light(d)
}

/// The ids of the lights in the room `room`.
pub open spec fn lights_in(docs: DocsModel, devices: Seq<DeviceModel>, room: Seq<char>) -> Seq<Seq<char>>
    decreases devices.len(),
{
    if devices.len() == 0 {
        Seq::empty()
    } else {
        let before = lights_in(docs, devices.drop_last(), room);
        if is_light_in(docs, devices.last(), room) {
            before.push(devices.last().device_id)
        } else {
            before
        }
    }
}

fn is_light_device(d: &DeviceRecord) -> (r: bool)
    ensures
        r == is_light(d.deep_view()),
{
    let kind = d.kind.as_str();
    if text::same(kind, "button") || d.meta_is("category", "button") || text::same(kind, "sensor") || text::starts_with(
        d.device_id.as_str(),
        "hue-sensor-",
    ) {
        return false;
    }
    d.meta_is("category", "lighting") || text::same(kind, "lighting") || (text::same(d.module_id.as_str(), "philips-hue")
        && d.meta("hue_light_id").is_some()) || text::contains(d.display_name.as_str().to_lowercase().as_str(), "govee")
        || rooms::meta_mentions_word(d, "hostname", "govee")
}

fn plain_room_of(store: &TextMap<DeviceDocumentation>, d: &DeviceRecord) -> (r: String)
    ensures
        r@ == plain_room(store@, d.deep_view()),
{
    let room = match rooms::named_room_of(rooms::primary_doc_of(store, d), d) {
        Some(s) => s,
        None => "".to_owned(),
    };
    text::trim(room.as_str()).as_str().to_lowercase()
}

/// The ids of the lights in a room.
pub fn scene_targets(store: &TextMap<DeviceDocumentation>, devices: &[DeviceRecord], room: &str) -> (r: Vec<String>)
    ensures
        r.deep_view() == lights_in(store@, devices.deep_view(), room@),
{
    let ghost all = devices.deep_view();
    let plain = text::trim(room).as_str().to_lowercase();
    let mut r: Vec<String> = Vec::new();
    let mut i: usize = 0;
    assert(r.deep_view() =~= Seq::<Seq<char>>::empty());
    while i < devices.len()
        invariant
            i <= devices@.len(),
            all == devices.deep_view(),
            plain@ == text::lowercase(text::trimmed(room@)),
            r.deep_view() == lights_in(store@, all.take(i as int), room@),
        decreases devices@.len() - i,
    {
        let d = &devices[i];
        let ghost before = r.deep_view();
        assert(all.take(i + 1).drop_last() =~= all.take(i as int));
        assert(all.take(i + 1).last() == d.deep_view());
        if text::same(plain_room_of(store, d).as_str(), plain.as_str()) && is_light_device(d) {
            r.push(d.device_id.clone());
            assert(r.deep_view() =~= before.push(d.device_id@));
        }
        i = i + 1;
    }
    assert(all.take(i as int) =~= all);
    r
}

/// Every known scene but the one that switches all off begins by switching on.
pub proof fn scenes_switch_on_first(name: Seq<char>)
    requires
        scene(name).len() > 0,
        name != "all_off"@,
    ensures
        scene(name)[0] == LightSetting::Power(true),
{
}

/// A scene reaches exactly the lights of its room.
pub proof fn scenes_reach_the_lights_of_the_room(
    docs: DocsModel,
    devices: Seq<DeviceModel>,
    room: Seq<char>,
    id: Seq<char>,
)
    ensures
        lights_in(docs, devices, room).contains(id) <==> exists|i: int|
            0 <= i < devices.len() && (#[trigger] devices[i]).device_id == id && is_light_in(docs, devices[i], room),
    decreases devices.len(),
{
    if devices.len() > 0 {
        let rest = devices.drop_last();
        let d = devices.last();
        let before = lights_in(docs, rest, room);
        scenes_reach_the_lights_of_the_room(docs, rest, room, id);
        text_map::lemma_push_contains(before, d.device_id);
        if before.contains(id) {
            let i = choose|i: int|
                0 <= i < rest.len() && (#[trigger] rest[i]).device_id == id && is_light_in(docs, rest[i], room);
            assert(devices[i] == rest[i]);
        }
        if d.device_id == id && is_light_in(docs, d, room) {
            assert(devices[devices.len() - 1] == d);
        }
        if exists|i: int|
            0 <= i < devices.len() && (#[trigger] devices[i]).device_id == id && is_light_in(docs, devices[i], room) {
            let i = choose|i: int|
                0 <= i < devices.len() && (#[trigger] devices[i]).device_id == id && is_light_in(docs, devices[i], room);
            if i < rest.len() {
                assert(rest[i] == devices[i]);
            }
        }
    } else {
        assert(!lights_in(docs, devices, room).contains(id));
    }
}

/// The commands for two lists of devices are those for the first and then those for the second.
pub proof fn commands_follow_the_ids(
    devices: Seq<DeviceModel>,
    one: Seq<Seq<char>>,
    two: Seq<Seq<char>>,
    setting: LightSetting,
)
    ensures
        commands(devices, one + two, setting) == commands(devices, one, setting) + commands(devices, two, setting),
    decreases two.len(),
{
    if two.len() == 0 {
        assert(one + two =~= one);
        assert(commands(devices, one, setting) + commands(devices, two, setting) =~= commands(devices, one, setting));
    } else {
        assert((one + two).drop_last() =~= one + two.drop_last());
        assert((one + two).last() == two.last());
        commands_follow_the_ids(devices, one, two.drop_last(), setting);
        let last = commands_for(devices, two.last(), setting);
        assert(commands(devices, one, setting) + commands(devices, two.drop_last(), setting) + last =~= commands(
            devices,
            one,
            setting,
        ) + (commands(devices, two.drop_last(), setting) + last));
    }
}

// ---------------------------------------------------------------------------------------
// Groups of lights
// ---------------------------------------------------------------------------------------

/// The id of a group of lights, from the short form of its name.
pub fn light_group_id(slug: &str) -> (r: String)
    ensures
        r@ == "group-"@ + slug@,
{
    let mut out = "group-".to_owned();
    out.append(slug);
    out
}

/// The icon of a group of lights.
pub fn light_group_icon(icon: &Option<String>) -> (r: String)
    ensures
        r@ == text::or_text(icon.deep_view(), "✨"@),
{
    match icon {
        Some(s) => s.clone(),
        None => "✨".to_owned(),
    }
}

}
