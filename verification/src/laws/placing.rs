//! Where the pages put what they are given: every value stands between the marks for it.

use vstd::prelude::*;

use crate::laws::texts;
use crate::pages::catalog_parts;
use crate::pages::device_parts;
use crate::pages::devices_frame;
use crate::pages::layout;
use crate::pages::matter_parts;
use crate::pages::overview;
use crate::pages::rooms_frame;
use crate::text;

verus! {

broadcast use vstd::string::group_string_axioms;

/// In the frame round every page, the part `frame` puts every value between its marks.
pub proof fn frame_puts_values_in_place_in_frame(
    title: Seq<char>,
    dashboard_active: Seq<char>,
    devices_active: Seq<char>,
    rooms_active: Seq<char>,
    energy_active: Seq<char>,
    matter_active: Seq<char>,
    catalog_active: Seq<char>,
    status_active: Seq<char>,
    content: Seq<char>,
)
    ensures
        ({
            let shown = layout::frame_html(title, dashboard_active, devices_active, rooms_active, energy_active,
                matter_active, catalog_active, status_active, content);
            &&& text::has(shown, layout::FRAME_0@ + title + layout::FRAME_1@)
            &&& text::has(shown, layout::FRAME_1@ + title + layout::FRAME_2@)
            &&& text::has(shown, layout::FRAME_2@ + dashboard_active + layout::FRAME_3@)
            &&& text::has(shown, layout::FRAME_3@ + devices_active + layout::FRAME_4@)
            &&& text::has(shown, layout::FRAME_4@ + rooms_active + layout::FRAME_5@)
            &&& text::has(shown, layout::FRAME_5@ + energy_active + layout::FRAME_6@)
            &&& text::has(shown, layout::FRAME_6@ + matter_active + layout::FRAME_7@)
            &&& text::has(shown, layout::FRAME_7@ + catalog_active + layout::FRAME_8@)
            &&& text::has(shown, layout::FRAME_8@ + status_active + layout::FRAME_9@)
            &&& text::has(shown, layout::FRAME_9@ + content + layout::FRAME_10@)
        }),
{
    let s0 = layout::FRAME_0@;
    let s1 = s0 + title;
    let s2 = s1 + layout::FRAME_1@;
    let s3 = s2 + title;
    let s4 = s3 + layout::FRAME_2@;
    let s5 = s4 + dashboard_active;
    let s6 = s5 + layout::FRAME_3@;
    let s7 = s6 + devices_active;
    let s8 = s7 + layout::FRAME_4@;
    let s9 = s8 + rooms_active;
    let s10 = s9 + layout::FRAME_5@;
    let s11 = s10 + energy_active;
    let s12 = s11 + layout::FRAME_6@;
    let s13 = s12 + matter_active;
    let s14 = s13 + layout::FRAME_7@;
    let s15 = s14 + catalog_active;
    let s16 = s15 + layout::FRAME_8@;
    let s17 = s16 + status_active;
    let s18 = s17 + layout::FRAME_9@;
    let s19 = s18 + content;
    let s20 = s19 + layout::FRAME_10@;
    texts::lemma_three_in_a_row(Seq::empty(), layout::FRAME_0@, title, layout::FRAME_1@);
    assert(Seq::<char>::empty() + layout::FRAME_0@ =~= layout::FRAME_0@);
    let x = layout::FRAME_0@ + title + layout::FRAME_1@;
    texts::lemma_stands_with_four(s2, title, layout::FRAME_2@, dashboard_active, layout::FRAME_3@, x);
    texts::lemma_stands_with_four(s6, devices_active, layout::FRAME_4@, rooms_active, layout::FRAME_5@, x);
    texts::lemma_stands_with_four(s10, energy_active, layout::FRAME_6@, matter_active, layout::FRAME_7@, x);
    texts::lemma_stands_with_four(s14, catalog_active, layout::FRAME_8@, status_active, layout::FRAME_9@, x);
    texts::lemma_stands_with_more(s18, content, x);
    texts::lemma_stands_with_more(s19, layout::FRAME_10@, x);
    texts::lemma_three_in_a_row(s1, layout::FRAME_1@, title, layout::FRAME_2@);
    let x = layout::FRAME_1@ + title + layout::FRAME_2@;
    texts::lemma_stands_with_four(s4, dashboard_active, layout::FRAME_3@, devices_active, layout::FRAME_4@, x);
    texts::lemma_stands_with_four(s8, rooms_active, layout::FRAME_5@, energy_active, layout::FRAME_6@, x);
    texts::lemma_stands_with_four(s12, matter_active, layout::FRAME_7@, catalog_active, layout::FRAME_8@, x);
    texts::lemma_stands_with_four(s16, status_active, layout::FRAME_9@, content, layout::FRAME_10@, x);
    texts::lemma_three_in_a_row(s3, layout::FRAME_2@, dashboard_active, layout::FRAME_3@);
    let x = layout::FRAME_2@ + dashboard_active + layout::FRAME_3@;
    texts::lemma_stands_with_four(s6, devices_active, layout::FRAME_4@, rooms_active, layout::FRAME_5@, x);
    texts::lemma_stands_with_four(s10, energy_active, layout::FRAME_6@, matter_active, layout::FRAME_7@, x);
    texts::lemma_stands_with_four(s14, catalog_active, layout::FRAME_8@, status_active, layout::FRAME_9@, x);
    texts::lemma_stands_with_more(s18, content, x);
    texts::lemma_stands_with_more(s19, layout::FRAME_10@, x);
    texts::lemma_three_in_a_row(s5, layout::FRAME_3@, devices_active, layout::FRAME_4@);
    let x = layout::FRAME_3@ + devices_active + layout::FRAME_4@;
    texts::lemma_stands_with_four(s8, rooms_active, layout::FRAME_5@, energy_active, layout::FRAME_6@, x);
    texts::lemma_stands_with_four(s12, matter_active, layout::FRAME_7@, catalog_active, layout::FRAME_8@, x);
    texts::lemma_stands_with_four(s16, status_active, layout::FRAME_9@, content, layout::FRAME_10@, x);
    texts::lemma_three_in_a_row(s7, layout::FRAME_4@, rooms_active, layout::FRAME_5@);
    let x = layout::FRAME_4@ + rooms_active + layout::FRAME_5@;
    texts::lemma_stands_with_four(s10, energy_active, layout::FRAME_6@, matter_active, layout::FRAME_7@, x);
    texts::lemma_stands_with_four(s14, catalog_active, layout::FRAME_8@, status_active, layout::FRAME_9@, x);
    texts::lemma_stands_with_more(s18, content, x);
    texts::lemma_stands_with_more(s19, layout::FRAME_10@, x);
    texts::lemma_three_in_a_row(s9, layout::FRAME_5@, energy_active, layout::FRAME_6@);
    let x = layout::FRAME_5@ + energy_active + layout::FRAME_6@;
    texts::lemma_stands_with_four(s12, matter_active, layout::FRAME_7@, catalog_active, layout::FRAME_8@, x);
    texts::lemma_stands_with_four(s16, status_active, layout::FRAME_9@, content, layout::FRAME_10@, x);
    texts::lemma_three_in_a_row(s11, layout::FRAME_6@, matter_active, layout::FRAME_7@);
    let x = layout::FRAME_6@ + matter_active + layout::FRAME_7@;
    texts::lemma_stands_with_four(s14, catalog_active, layout::FRAME_8@, status_active, layout::FRAME_9@, x);
    texts::lemma_stands_with_more(s18, content, x);
    texts::lemma_stands_with_more(s19, layout::FRAME_10@, x);
    texts::lemma_three_in_a_row(s13, layout::FRAME_7@, catalog_active, layout::FRAME_8@);
    let x = layout::FRAME_7@ + catalog_active + layout::FRAME_8@;
    texts::lemma_stands_with_four(s16, status_active, layout::FRAME_9@, content, layout::FRAME_10@, x);
    texts::lemma_three_in_a_row(s15, layout::FRAME_8@, status_active, layout::FRAME_9@);
    let x = layout::FRAME_8@ + status_active + layout::FRAME_9@;
    texts::lemma_stands_with_more(s18, content, x);
    texts::lemma_stands_with_more(s19, layout::FRAME_10@, x);
    texts::lemma_three_in_a_row(s17, layout::FRAME_9@, content, layout::FRAME_10@);
}

/// In the pages on the house, the part `dashboard` puts every value between its marks.
pub proof fn dashboard_puts_values_in_place_in_overview(total: Seq<char>, active: Seq<char>)
    ensures
        ({
            let shown = overview::dashboard_html(total, active);
            &&& text::has(shown, overview::DASHBOARD_1@ + total + overview::DASHBOARD_2@)
            &&& text::has(shown, overview::DASHBOARD_2@ + active + overview::DASHBOARD_3@)
        }),
{
    let s0 = overview::DASHBOARD_0@;
    let s1 = s0 + overview::DASHBOARD_1@;
    let s2 = s1 + total;
    let s3 = s2 + overview::DASHBOARD_2@;
    let s4 = s3 + active;
    let s5 = s4 + overview::DASHBOARD_3@;
    texts::lemma_three_in_a_row(s0, overview::DASHBOARD_1@, total, overview::DASHBOARD_2@);
    let x = overview::DASHBOARD_1@ + total + overview::DASHBOARD_2@;
    texts::lemma_stands_with_more(s3, active, x);
    texts::lemma_stands_with_more(s4, overview::DASHBOARD_3@, x);
    texts::lemma_three_in_a_row(s2, overview::DASHBOARD_2@, active, overview::DASHBOARD_3@);
}

/// In the pages on the house, the part `module_row` puts every value between its marks.
pub proof fn module_row_puts_values_in_place_in_overview(
    name: Seq<char>,
    id: Seq<char>,
    dot: Seq<char>,
    state: Seq<char>,
    version: Seq<char>,
    message: Seq<char>,
)
    ensures
        ({
            let shown = overview::module_row_html(name, id, dot, state, version, message);
            &&& text::has(shown, overview::MODULE_ROW_0@ + name + overview::MODULE_ROW_1@)
            &&& text::has(shown, overview::MODULE_ROW_1@ + id + overview::MODULE_ROW_2@)
            &&& text::has(shown, overview::MODULE_ROW_2@ + dot + overview::MODULE_ROW_3@)
            &&& text::has(shown, overview::MODULE_ROW_3@ + state + overview::MODULE_ROW_4@)
            &&& text::has(shown, overview::MODULE_ROW_4@ + version + overview::MODULE_ROW_5@)
            &&& text::has(shown, overview::MODULE_ROW_5@ + message + overview::MODULE_ROW_6@)
        }),
{
    let s0 = overview::MODULE_ROW_0@;
    let s1 = s0 + name;
    let s2 = s1 + overview::MODULE_ROW_1@;
    let s3 = s2 + id;
    let s4 = s3 + overview::MODULE_ROW_2@;
    let s5 = s4 + dot;
    let s6 = s5 + overview::MODULE_ROW_3@;
    let s7 = s6 + state;
    let s8 = s7 + overview::MODULE_ROW_4@;
    let s9 = s8 + version;
    let s10 = s9 + overview::MODULE_ROW_5@;
    let s11 = s10 + message;
    let s12 = s11 + overview::MODULE_ROW_6@;
    texts::lemma_three_in_a_row(Seq::empty(), overview::MODULE_ROW_0@, name, overview::MODULE_ROW_1@);
    assert(Seq::<char>::empty() + overview::MODULE_ROW_0@ =~= overview::MODULE_ROW_0@);
    let x = overview::MODULE_ROW_0@ + name + overview::MODULE_ROW_1@;
    texts::lemma_stands_with_four(s2, id, overview::MODULE_ROW_2@, dot, overview::MODULE_ROW_3@, x);
    texts::lemma_stands_with_four(s6, state, overview::MODULE_ROW_4@, version, overview::MODULE_ROW_5@, x);
    texts::lemma_stands_with_more(s10, message, x);
    texts::lemma_stands_with_more(s11, overview::MODULE_ROW_6@, x);
    texts::lemma_three_in_a_row(s1, overview::MODULE_ROW_1@, id, overview::MODULE_ROW_2@);
    let x = overview::MODULE_ROW_1@ + id + overview::MODULE_ROW_2@;
    texts::lemma_stands_with_four(s4, dot, overview::MODULE_ROW_3@, state, overview::MODULE_ROW_4@, x);
    texts::lemma_stands_with_four(s8, version, overview::MODULE_ROW_5@, message, overview::MODULE_ROW_6@, x);
    texts::lemma_three_in_a_row(s3, overview::MODULE_ROW_2@, dot, overview::MODULE_ROW_3@);
    let x = overview::MODULE_ROW_2@ + dot + overview::MODULE_ROW_3@;
    texts::lemma_stands_with_four(s6, state, overview::MODULE_ROW_4@, version, overview::MODULE_ROW_5@, x);
    texts::lemma_stands_with_more(s10, message, x);
    texts::lemma_stands_with_more(s11, overview::MODULE_ROW_6@, x);
    texts::lemma_three_in_a_row(s5, overview::MODULE_ROW_3@, state, overview::MODULE_ROW_4@);
    let x = overview::MODULE_ROW_3@ + state + overview::MODULE_ROW_4@;
    texts::lemma_stands_with_four(s8, version, overview::MODULE_ROW_5@, message, overview::MODULE_ROW_6@, x);
    texts::lemma_three_in_a_row(s7, overview::MODULE_ROW_4@, version, overview::MODULE_ROW_5@);
    let x = overview::MODULE_ROW_4@ + version + overview::MODULE_ROW_5@;
    texts::lemma_stands_with_more(s10, message, x);
    texts::lemma_stands_with_more(s11, overview::MODULE_ROW_6@, x);
    texts::lemma_three_in_a_row(s9, overview::MODULE_ROW_5@, message, overview::MODULE_ROW_6@);
}

/// In the pages on the house, the part `status` puts every value between its marks.
pub proof fn status_puts_values_in_place_in_overview(count: Seq<char>, rows: Seq<char>, hue_card: Seq<char>)
    ensures
        ({
            let shown = overview::status_html(count, rows, hue_card);
            &&& text::has(shown, overview::STATUS_0@ + count + overview::STATUS_1@)
            &&& text::has(shown, overview::STATUS_1@ + rows + overview::STATUS_2@)
            &&& text::has(shown, overview::STATUS_2@ + hue_card)
        }),
{
    let s0 = overview::STATUS_0@;
    let s1 = s0 + count;
    let s2 = s1 + overview::STATUS_1@;
    let s3 = s2 + rows;
    let s4 = s3 + overview::STATUS_2@;
    let s5 = s4 + hue_card;
    texts::lemma_three_in_a_row(Seq::empty(), overview::STATUS_0@, count, overview::STATUS_1@);
    assert(Seq::<char>::empty() + overview::STATUS_0@ =~= overview::STATUS_0@);
    let x = overview::STATUS_0@ + count + overview::STATUS_1@;
    texts::lemma_stands_with_more(s2, rows, x);
    texts::lemma_stands_with_more(s3, overview::STATUS_2@, x);
    texts::lemma_stands_with_more(s4, hue_card, x);
    texts::lemma_three_in_a_row(s1, overview::STATUS_1@, rows, overview::STATUS_2@);
    let x = overview::STATUS_1@ + rows + overview::STATUS_2@;
    texts::lemma_stands_with_more(s4, hue_card, x);
    texts::lemma_two_in_a_row(s3, overview::STATUS_2@, hue_card);
}

/// In the parts of the devices page, the part `fabric_badge` puts every value between its marks.
pub proof fn fabric_badge_puts_values_in_place_in_devices(
    fabric_id: Seq<char>,
    node_id: Seq<char>,
    fabric_icon: Seq<char>,
    fabric_name: Seq<char>,
)
    ensures
        ({
            let shown = device_parts::fabric_badge_html(fabric_id, node_id, fabric_icon, fabric_name);
            &&& text::has(shown, device_parts::FABRIC_BADGE_0@ + fabric_id + device_parts::FABRIC_BADGE_1@)
            &&& text::has(shown, device_parts::FABRIC_BADGE_1@ + node_id + device_parts::FABRIC_BADGE_2@)
            &&& text::has(shown, device_parts::FABRIC_BADGE_2@ + fabric_icon + device_parts::FABRIC_BADGE_3@)
            &&& text::has(shown, device_parts::FABRIC_BADGE_3@ + fabric_name + device_parts::FABRIC_BADGE_4@)
        }),
{
    let s0 = device_parts::FABRIC_BADGE_0@;
    let s1 = s0 + fabric_id;
    let s2 = s1 + device_parts::FABRIC_BADGE_1@;
    let s3 = s2 + node_id;
    let s4 = s3 + device_parts::FABRIC_BADGE_2@;
    let s5 = s4 + fabric_icon;
    let s6 = s5 + device_parts::FABRIC_BADGE_3@;
    let s7 = s6 + fabric_name;
    let s8 = s7 + device_parts::FABRIC_BADGE_4@;
    texts::lemma_three_in_a_row(Seq::empty(), device_parts::FABRIC_BADGE_0@, fabric_id,
        device_parts::FABRIC_BADGE_1@);
    assert(Seq::<char>::empty() + device_parts::FABRIC_BADGE_0@ =~= device_parts::FABRIC_BADGE_0@);
    let x = device_parts::FABRIC_BADGE_0@ + fabric_id + device_parts::FABRIC_BADGE_1@;
    texts::lemma_stands_with_four(s2, node_id, device_parts::FABRIC_BADGE_2@, fabric_icon,
        device_parts::FABRIC_BADGE_3@, x);
    texts::lemma_stands_with_more(s6, fabric_name, x);
    texts::lemma_stands_with_more(s7, device_parts::FABRIC_BADGE_4@, x);
    texts::lemma_three_in_a_row(s1, device_parts::FABRIC_BADGE_1@, node_id, device_parts::FABRIC_BADGE_2@);
    let x = device_parts::FABRIC_BADGE_1@ + node_id + device_parts::FABRIC_BADGE_2@;
    texts::lemma_stands_with_four(s4, fabric_icon, device_parts::FABRIC_BADGE_3@, fabric_name,
        device_parts::FABRIC_BADGE_4@, x);
    texts::lemma_three_in_a_row(s3, device_parts::FABRIC_BADGE_2@, fabric_icon, device_parts::FABRIC_BADGE_3@);
    let x = device_parts::FABRIC_BADGE_2@ + fabric_icon + device_parts::FABRIC_BADGE_3@;
    texts::lemma_stands_with_more(s6, fabric_name, x);
    texts::lemma_stands_with_more(s7, device_parts::FABRIC_BADGE_4@, x);
    texts::lemma_three_in_a_row(s5, device_parts::FABRIC_BADGE_3@, fabric_name, device_parts::FABRIC_BADGE_4@);
}

/// In the parts of the devices page, the part `interface_badge` puts every value between its marks.
pub proof fn interface_badge_puts_values_in_place_in_devices(total: Seq<char>, label: Seq<char>)
    ensures
        ({
            let shown = device_parts::interface_badge_html(total, label);
            &&& text::has(shown, device_parts::INTERFACE_BADGE_0@ + total + device_parts::INTERFACE_BADGE_1@)
            &&& text::has(shown, device_parts::INTERFACE_BADGE_1@ + label + device_parts::INTERFACE_BADGE_2@)
            &&& text::has(shown, device_parts::INTERFACE_BADGE_2@ + total + device_parts::INTERFACE_BADGE_3@)
        }),
{
    let s0 = device_parts::INTERFACE_BADGE_0@;
    let s1 = s0 + total;
    let s2 = s1 + device_parts::INTERFACE_BADGE_1@;
    let s3 = s2 + label;
    let s4 = s3 + device_parts::INTERFACE_BADGE_2@;
    let s5 = s4 + total;
    let s6 = s5 + device_parts::INTERFACE_BADGE_3@;
    texts::lemma_three_in_a_row(Seq::empty(), device_parts::INTERFACE_BADGE_0@, total,
        device_parts::INTERFACE_BADGE_1@);
    assert(Seq::<char>::empty() + device_parts::INTERFACE_BADGE_0@ =~= device_parts::INTERFACE_BADGE_0@);
    let x = device_parts::INTERFACE_BADGE_0@ + total + device_parts::INTERFACE_BADGE_1@;
    texts::lemma_stands_with_four(s2, label, device_parts::INTERFACE_BADGE_2@, total,
        device_parts::INTERFACE_BADGE_3@, x);
    texts::lemma_three_in_a_row(s1, device_parts::INTERFACE_BADGE_1@, label, device_parts::INTERFACE_BADGE_2@);
    let x = device_parts::INTERFACE_BADGE_1@ + label + device_parts::INTERFACE_BADGE_2@;
    texts::lemma_stands_with_more(s4, total, x);
    texts::lemma_stands_with_more(s5, device_parts::INTERFACE_BADGE_3@, x);
    texts::lemma_three_in_a_row(s3, device_parts::INTERFACE_BADGE_2@, total, device_parts::INTERFACE_BADGE_3@);
}

/// In the parts of the devices page, the part `source_badge` puts every value between its marks.
pub proof fn source_badge_puts_values_in_place_in_devices(color: Seq<char>, source: Seq<char>, label: Seq<char>)
    ensures
        ({
            let shown = device_parts::source_badge_html(color, source, label);
            &&& text::has(shown, device_parts::SOURCE_BADGE_0@ + color + device_parts::SOURCE_BADGE_1@)
            &&& text::has(shown, device_parts::SOURCE_BADGE_1@ + source + device_parts::SOURCE_BADGE_2@)
            &&& text::has(shown, device_parts::SOURCE_BADGE_2@ + label + device_parts::SOURCE_BADGE_3@)
        }),
{
    let s0 = device_parts::SOURCE_BADGE_0@;
    let s1 = s0 + color;
    let s2 = s1 + device_parts::SOURCE_BADGE_1@;
    let s3 = s2 + source;
    let s4 = s3 + device_parts::SOURCE_BADGE_2@;
    let s5 = s4 + label;
    let s6 = s5 + device_parts::SOURCE_BADGE_3@;
    texts::lemma_three_in_a_row(Seq::empty(), device_parts::SOURCE_BADGE_0@, color, device_parts::SOURCE_BADGE_1@);
    assert(Seq::<char>::empty() + device_parts::SOURCE_BADGE_0@ =~= device_parts::SOURCE_BADGE_0@);
    let x = device_parts::SOURCE_BADGE_0@ + color + device_parts::SOURCE_BADGE_1@;
    texts::lemma_stands_with_four(s2, source, device_parts::SOURCE_BADGE_2@, label, device_parts::SOURCE_BADGE_3@, x);
    texts::lemma_three_in_a_row(s1, device_parts::SOURCE_BADGE_1@, source, device_parts::SOURCE_BADGE_2@);
    let x = device_parts::SOURCE_BADGE_1@ + source + device_parts::SOURCE_BADGE_2@;
    texts::lemma_stands_with_more(s4, label, x);
    texts::lemma_stands_with_more(s5, device_parts::SOURCE_BADGE_3@, x);
    texts::lemma_three_in_a_row(s3, device_parts::SOURCE_BADGE_2@, label, device_parts::SOURCE_BADGE_3@);
}

/// In the parts of the devices page, the part `light_button` puts every value between its marks.
pub proof fn light_button_puts_values_in_place_in_devices(
    color: Seq<char>,
    border: Seq<char>,
    light_id: Seq<char>,
    label: Seq<char>,
)
    ensures
        ({
            let shown = device_parts::light_button_html(color, border, light_id, label);
            &&& text::has(shown, device_parts::LIGHT_BUTTON_0@ + color + device_parts::LIGHT_BUTTON_1@)
            &&& text::has(shown, device_parts::LIGHT_BUTTON_1@ + border + device_parts::LIGHT_BUTTON_2@)
            &&& text::has(shown, device_parts::LIGHT_BUTTON_2@ + light_id + device_parts::LIGHT_BUTTON_3@)
            &&& text::has(shown, device_parts::LIGHT_BUTTON_3@ + label + device_parts::LIGHT_BUTTON_4@)
        }),
{
    let s0 = device_parts::LIGHT_BUTTON_0@;
    let s1 = s0 + color;
    let s2 = s1 + device_parts::LIGHT_BUTTON_1@;
    let s3 = s2 + border;
    let s4 = s3 + device_parts::LIGHT_BUTTON_2@;
    let s5 = s4 + light_id;
    let s6 = s5 + device_parts::LIGHT_BUTTON_3@;
    let s7 = s6 + label;
    let s8 = s7 + device_parts::LIGHT_BUTTON_4@;
    texts::lemma_three_in_a_row(Seq::empty(), device_parts::LIGHT_BUTTON_0@, color, device_parts::LIGHT_BUTTON_1@);
    assert(Seq::<char>::empty() + device_parts::LIGHT_BUTTON_0@ =~= device_parts::LIGHT_BUTTON_0@);
    let x = device_parts::LIGHT_BUTTON_0@ + color + device_parts::LIGHT_BUTTON_1@;
    texts::lemma_stands_with_four(s2, border, device_parts::LIGHT_BUTTON_2@, light_id, device_parts::LIGHT_BUTTON_3@,
        x);
    texts::lemma_stands_with_more(s6, label, x);
    texts::lemma_stands_with_more(s7, device_parts::LIGHT_BUTTON_4@, x);
    texts::lemma_three_in_a_row(s1, device_parts::LIGHT_BUTTON_1@, border, device_parts::LIGHT_BUTTON_2@);
    let x = device_parts::LIGHT_BUTTON_1@ + border + device_parts::LIGHT_BUTTON_2@;
    texts::lemma_stands_with_four(s4, light_id, device_parts::LIGHT_BUTTON_3@, label, device_parts::LIGHT_BUTTON_4@,
        x);
    texts::lemma_three_in_a_row(s3, device_parts::LIGHT_BUTTON_2@, light_id, device_parts::LIGHT_BUTTON_3@);
    let x = device_parts::LIGHT_BUTTON_2@ + light_id + device_parts::LIGHT_BUTTON_3@;
    texts::lemma_stands_with_more(s6, label, x);
    texts::lemma_stands_with_more(s7, device_parts::LIGHT_BUTTON_4@, x);
    texts::lemma_three_in_a_row(s5, device_parts::LIGHT_BUTTON_3@, label, device_parts::LIGHT_BUTTON_4@);
}

/// In the parts of the devices page, the part `light_and_ping` puts every value between its marks.
pub proof fn light_and_ping_puts_values_in_place_in_devices(light: Seq<char>, ping: Seq<char>)
    ensures
        ({
            let shown = device_parts::light_and_ping_html(light, ping);
            &&& text::has(shown, device_parts::LIGHT_AND_PING_0@ + light + ping + device_parts::LIGHT_AND_PING_1@)
        }),
{
    let s0 = device_parts::LIGHT_AND_PING_0@;
    let s1 = s0 + light;
    let s2 = s1 + ping;
    let s3 = s2 + device_parts::LIGHT_AND_PING_1@;
    texts::lemma_four_in_a_row(Seq::empty(), device_parts::LIGHT_AND_PING_0@, light, ping,
        device_parts::LIGHT_AND_PING_1@);
    assert(Seq::<char>::empty() + device_parts::LIGHT_AND_PING_0@ =~= device_parts::LIGHT_AND_PING_0@);
}

/// In the parts of the devices page, the part `ping_and_web` puts every value between its marks.
pub proof fn ping_and_web_puts_values_in_place_in_devices(ping: Seq<char>, web: Seq<char>)
    ensures
        ({
            let shown = device_parts::ping_and_web_html(ping, web);
            &&& text::has(shown, device_parts::PING_AND_WEB_0@ + ping + web + device_parts::PING_AND_WEB_1@)
        }),
{
    let s0 = device_parts::PING_AND_WEB_0@;
    let s1 = s0 + ping;
    let s2 = s1 + web;
    let s3 = s2 + device_parts::PING_AND_WEB_1@;
    texts::lemma_four_in_a_row(Seq::empty(), device_parts::PING_AND_WEB_0@, ping, web, device_parts::PING_AND_WEB_1@);
    assert(Seq::<char>::empty() + device_parts::PING_AND_WEB_0@ =~= device_parts::PING_AND_WEB_0@);
}

/// In the parts of the devices page, the part `room_badge` puts every value between its marks.
pub proof fn room_badge_puts_values_in_place_in_devices(room: Seq<char>, icon: Seq<char>)
    ensures
        ({
            let shown = device_parts::room_badge_html(room, icon);
            &&& text::has(shown, device_parts::ROOM_BADGE_0@ + room + device_parts::ROOM_BADGE_1@)
            &&& text::has(shown, device_parts::ROOM_BADGE_1@ + icon + device_parts::ROOM_BADGE_2@)
            &&& text::has(shown, device_parts::ROOM_BADGE_2@ + room + device_parts::ROOM_BADGE_3@)
        }),
{
    let s0 = device_parts::ROOM_BADGE_0@;
    let s1 = s0 + room;
    let s2 = s1 + device_parts::ROOM_BADGE_1@;
    let s3 = s2 + icon;
    let s4 = s3 + device_parts::ROOM_BADGE_2@;
    let s5 = s4 + room;
    let s6 = s5 + device_parts::ROOM_BADGE_3@;
    texts::lemma_three_in_a_row(Seq::empty(), device_parts::ROOM_BADGE_0@, room, device_parts::ROOM_BADGE_1@);
    assert(Seq::<char>::empty() + device_parts::ROOM_BADGE_0@ =~= device_parts::ROOM_BADGE_0@);
    let x = device_parts::ROOM_BADGE_0@ + room + device_parts::ROOM_BADGE_1@;
    texts::lemma_stands_with_four(s2, icon, device_parts::ROOM_BADGE_2@, room, device_parts::ROOM_BADGE_3@, x);
    texts::lemma_three_in_a_row(s1, device_parts::ROOM_BADGE_1@, icon, device_parts::ROOM_BADGE_2@);
    let x = device_parts::ROOM_BADGE_1@ + icon + device_parts::ROOM_BADGE_2@;
    texts::lemma_stands_with_more(s4, room, x);
    texts::lemma_stands_with_more(s5, device_parts::ROOM_BADGE_3@, x);
    texts::lemma_three_in_a_row(s3, device_parts::ROOM_BADGE_2@, room, device_parts::ROOM_BADGE_3@);
}

/// In the parts of the devices page, the part `network_cell` puts every value between its marks.
pub proof fn network_cell_puts_values_in_place_in_devices(address: Seq<char>, badges: Seq<char>)
    ensures
        ({
            let shown = device_parts::network_cell_html(address, badges);
            &&& text::has(shown, device_parts::NETWORK_CELL_0@ + address + device_parts::NETWORK_CELL_1@)
            &&& text::has(shown, device_parts::NETWORK_CELL_1@ + badges)
        }),
{
    let s0 = device_parts::NETWORK_CELL_0@;
    let s1 = s0 + address;
    let s2 = s1 + device_parts::NETWORK_CELL_1@;
    let s3 = s2 + badges;
    texts::lemma_three_in_a_row(Seq::empty(), device_parts::NETWORK_CELL_0@, address, device_parts::NETWORK_CELL_1@);
    assert(Seq::<char>::empty() + device_parts::NETWORK_CELL_0@ =~= device_parts::NETWORK_CELL_0@);
    let x = device_parts::NETWORK_CELL_0@ + address + device_parts::NETWORK_CELL_1@;
    texts::lemma_stands_with_more(s2, badges, x);
    texts::lemma_two_in_a_row(s1, device_parts::NETWORK_CELL_1@, badges);
}

/// In the parts of the devices page, the part `network_mac_cell` puts every value between its marks.
pub proof fn network_mac_cell_puts_values_in_place_in_devices(address: Seq<char>, badges: Seq<char>, mac: Seq<char>)
    ensures
        ({
            let shown = device_parts::network_mac_cell_html(address, badges, mac);
            &&& text::has(shown, device_parts::NETWORK_MAC_CELL_0@ + address + device_parts::NETWORK_MAC_CELL_1@)
            &&& text::has(shown, device_parts::NETWORK_MAC_CELL_1@ + badges + device_parts::NETWORK_MAC_CELL_2@)
            &&& text::has(shown, device_parts::NETWORK_MAC_CELL_2@ + mac + device_parts::NETWORK_MAC_CELL_3@)
        }),
{
    let s0 = device_parts::NETWORK_MAC_CELL_0@;
    let s1 = s0 + address;
    let s2 = s1 + device_parts::NETWORK_MAC_CELL_1@;
    let s3 = s2 + badges;
    let s4 = s3 + device_parts::NETWORK_MAC_CELL_2@;
    let s5 = s4 + mac;
    let s6 = s5 + device_parts::NETWORK_MAC_CELL_3@;
    texts::lemma_three_in_a_row(Seq::empty(), device_parts::NETWORK_MAC_CELL_0@, address,
        device_parts::NETWORK_MAC_CELL_1@);
    assert(Seq::<char>::empty() + device_parts::NETWORK_MAC_CELL_0@ =~= device_parts::NETWORK_MAC_CELL_0@);
    let x = device_parts::NETWORK_MAC_CELL_0@ + address + device_parts::NETWORK_MAC_CELL_1@;
    texts::lemma_stands_with_four(s2, badges, device_parts::NETWORK_MAC_CELL_2@, mac,
        device_parts::NETWORK_MAC_CELL_3@, x);
    texts::lemma_three_in_a_row(s1, device_parts::NETWORK_MAC_CELL_1@, badges, device_parts::NETWORK_MAC_CELL_2@);
    let x = device_parts::NETWORK_MAC_CELL_1@ + badges + device_parts::NETWORK_MAC_CELL_2@;
    texts::lemma_stands_with_more(s4, mac, x);
    texts::lemma_stands_with_more(s5, device_parts::NETWORK_MAC_CELL_3@, x);
    texts::lemma_three_in_a_row(s3, device_parts::NETWORK_MAC_CELL_2@, mac, device_parts::NETWORK_MAC_CELL_3@);
}

/// In the parts of the devices page, the part `network_vendor_cell` puts every value between its marks.
pub proof fn network_vendor_cell_puts_values_in_place_in_devices(
    address: Seq<char>,
    badges: Seq<char>,
    mac: Seq<char>,
    vendor: Seq<char>,
)
    ensures
        ({
            let shown = device_parts::network_vendor_cell_html(address, badges, mac, vendor);
            &&& text::has(shown, device_parts::NETWORK_VENDOR_CELL_0@ + address +
                device_parts::NETWORK_VENDOR_CELL_1@)
            &&& text::has(shown, device_parts::NETWORK_VENDOR_CELL_1@ + badges + device_parts::NETWORK_VENDOR_CELL_2@)
            &&& text::has(shown, device_parts::NETWORK_VENDOR_CELL_2@ + mac + device_parts::NETWORK_VENDOR_CELL_3@)
            &&& text::has(shown, device_parts::NETWORK_VENDOR_CELL_3@ + vendor + device_parts::NETWORK_VENDOR_CELL_4@)
        }),
{
    let s0 = device_parts::NETWORK_VENDOR_CELL_0@;
    let s1 = s0 + address;
    let s2 = s1 + device_parts::NETWORK_VENDOR_CELL_1@;
    let s3 = s2 + badges;
    let s4 = s3 + device_parts::NETWORK_VENDOR_CELL_2@;
    let s5 = s4 + mac;
    let s6 = s5 + device_parts::NETWORK_VENDOR_CELL_3@;
    let s7 = s6 + vendor;
    let s8 = s7 + device_parts::NETWORK_VENDOR_CELL_4@;
    texts::lemma_three_in_a_row(Seq::empty(), device_parts::NETWORK_VENDOR_CELL_0@, address,
        device_parts::NETWORK_VENDOR_CELL_1@);
    assert(Seq::<char>::empty() + device_parts::NETWORK_VENDOR_CELL_0@ =~= device_parts::NETWORK_VENDOR_CELL_0@);
    let x = device_parts::NETWORK_VENDOR_CELL_0@ + address + device_parts::NETWORK_VENDOR_CELL_1@;
    texts::lemma_stands_with_four(s2, badges, device_parts::NETWORK_VENDOR_CELL_2@, mac,
        device_parts::NETWORK_VENDOR_CELL_3@, x);
    texts::lemma_stands_with_more(s6, vendor, x);
    texts::lemma_stands_with_more(s7, device_parts::NETWORK_VENDOR_CELL_4@, x);
    texts::lemma_three_in_a_row(s1, device_parts::NETWORK_VENDOR_CELL_1@, badges,
        device_parts::NETWORK_VENDOR_CELL_2@);
    let x = device_parts::NETWORK_VENDOR_CELL_1@ + badges + device_parts::NETWORK_VENDOR_CELL_2@;
    texts::lemma_stands_with_four(s4, mac, device_parts::NETWORK_VENDOR_CELL_3@, vendor,
        device_parts::NETWORK_VENDOR_CELL_4@, x);
    texts::lemma_three_in_a_row(s3, device_parts::NETWORK_VENDOR_CELL_2@, mac, device_parts::NETWORK_VENDOR_CELL_3@);
    let x = device_parts::NETWORK_VENDOR_CELL_2@ + mac + device_parts::NETWORK_VENDOR_CELL_3@;
    texts::lemma_stands_with_more(s6, vendor, x);
    texts::lemma_stands_with_more(s7, device_parts::NETWORK_VENDOR_CELL_4@, x);
    texts::lemma_three_in_a_row(s5, device_parts::NETWORK_VENDOR_CELL_3@, vendor,
        device_parts::NETWORK_VENDOR_CELL_4@);
}

/// In the parts of the devices page, the part `row` puts every value between its marks.
pub proof fn row_first_puts_values_in_place_in_devices(
    id: Seq<char>,
    status: Seq<char>,
    active: Seq<char>,
    ignored: Seq<char>,
    sources: Seq<char>,
    room: Seq<char>,
    floor: Seq<char>,
    dot: Seq<char>,
    name: Seq<char>,
    offline: Seq<char>,
    ignored_mark: Seq<char>,
    room_mark: Seq<char>,
    doc_mark: Seq<char>,
    fabric_marks: Seq<char>,
    module: Seq<char>,
    source_marks: Seq<char>,
    network: Seq<char>,
    actions: Seq<char>,
)
    ensures
        ({
            let shown = device_parts::row_html(id, status, active, ignored, sources, room, floor, dot, name, offline,
                ignored_mark, room_mark, doc_mark, fabric_marks, module, source_marks, network, actions);
            &&& text::has(shown, device_parts::ROW_0@ + id + device_parts::ROW_1@)
            &&& text::has(shown, device_parts::ROW_1@ + status + device_parts::ROW_2@)
            &&& text::has(shown, device_parts::ROW_2@ + active + device_parts::ROW_3@)
            &&& text::has(shown, device_parts::ROW_3@ + ignored + device_parts::ROW_4@)
            &&& text::has(shown, device_parts::ROW_4@ + sources + device_parts::ROW_5@)
        }),
{
    let s0 = device_parts::ROW_0@;
    let s1 = s0 + id;
    let s2 = s1 + device_parts::ROW_1@;
    let s3 = s2 + status;
    let s4 = s3 + device_parts::ROW_2@;
    let s5 = s4 + active;
    let s6 = s5 + device_parts::ROW_3@;
    let s7 = s6 + ignored;
    let s8 = s7 + device_parts::ROW_4@;
    let s9 = s8 + sources;
    let s10 = s9 + device_parts::ROW_5@;
    let s11 = s10 + room;
    let s12 = s11 + device_parts::ROW_6@;
    let s13 = s12 + floor;
    let s14 = s13 + device_parts::ROW_7@;
    let s15 = s14 + id;
    let s16 = s15 + device_parts::ROW_8@;
    let s17 = s16 + dot;
    let s18 = s17 + device_parts::ROW_9@;
    let s19 = s18 + name;
    let s20 = s19 + device_parts::ROW_10@;
    let s21 = s20 + offline;
    let s22 = s21 + ignored_mark;
    let s23 = s22 + room_mark;
    let s24 = s23 + doc_mark;
    let s25 = s24 + fabric_marks;
    let s26 = s25 + device_parts::ROW_11@;
    let s27 = s26 + id;
    let s28 = s27 + device_parts::ROW_12@;
    let s29 = s28 + module;
    let s30 = s29 + device_parts::ROW_13@;
    let s31 = s30 + source_marks;
    let s32 = s31 + device_parts::ROW_14@;
    let s33 = s32 + network;
    let s34 = s33 + device_parts::ROW_15@;
    let s35 = s34 + actions;
    let s36 = s35 + device_parts::ROW_16@;
    texts::lemma_three_in_a_row(Seq::empty(), device_parts::ROW_0@, id, device_parts::ROW_1@);
    assert(Seq::<char>::empty() + device_parts::ROW_0@ =~= device_parts::ROW_0@);
    let x = device_parts::ROW_0@ + id + device_parts::ROW_1@;
    texts::lemma_stands_with_four(s2, status, device_parts::ROW_2@, active, device_parts::ROW_3@, x);
    texts::lemma_stands_with_four(s6, ignored, device_parts::ROW_4@, sources, device_parts::ROW_5@, x);
    texts::lemma_stands_with_four(s10, room, device_parts::ROW_6@, floor, device_parts::ROW_7@, x);
    texts::lemma_stands_with_four(s14, id, device_parts::ROW_8@, dot, device_parts::ROW_9@, x);
    texts::lemma_stands_with_four(s18, name, device_parts::ROW_10@, offline, ignored_mark, x);
    texts::lemma_stands_with_four(s22, room_mark, doc_mark, fabric_marks, device_parts::ROW_11@, x);
    texts::lemma_stands_with_four(s26, id, device_parts::ROW_12@, module, device_parts::ROW_13@, x);
    texts::lemma_stands_with_four(s30, source_marks, device_parts::ROW_14@, network, device_parts::ROW_15@, x);
    texts::lemma_stands_with_more(s34, actions, x);
    texts::lemma_stands_with_more(s35, device_parts::ROW_16@, x);
    texts::lemma_three_in_a_row(s1, device_parts::ROW_1@, status, device_parts::ROW_2@);
    let x = device_parts::ROW_1@ + status + device_parts::ROW_2@;
    texts::lemma_stands_with_four(s4, active, device_parts::ROW_3@, ignored, device_parts::ROW_4@, x);
    texts::lemma_stands_with_four(s8, sources, device_parts::ROW_5@, room, device_parts::ROW_6@, x);
    texts::lemma_stands_with_four(s12, floor, device_parts::ROW_7@, id, device_parts::ROW_8@, x);
    texts::lemma_stands_with_four(s16, dot, device_parts::ROW_9@, name, device_parts::ROW_10@, x);
    texts::lemma_stands_with_four(s20, offline, ignored_mark, room_mark, doc_mark, x);
    texts::lemma_stands_with_four(s24, fabric_marks, device_parts::ROW_11@, id, device_parts::ROW_12@, x);
    texts::lemma_stands_with_four(s28, module, device_parts::ROW_13@, source_marks, device_parts::ROW_14@, x);
    texts::lemma_stands_with_four(s32, network, device_parts::ROW_15@, actions, device_parts::ROW_16@, x);
    texts::lemma_three_in_a_row(s3, device_parts::ROW_2@, active, device_parts::ROW_3@);
    let x = device_parts::ROW_2@ + active + device_parts::ROW_3@;
    texts::lemma_stands_with_four(s6, ignored, device_parts::ROW_4@, sources, device_parts::ROW_5@, x);
    texts::lemma_stands_with_four(s10, room, device_parts::ROW_6@, floor, device_parts::ROW_7@, x);
    texts::lemma_stands_with_four(s14, id, device_parts::ROW_8@, dot, device_parts::ROW_9@, x);
    texts::lemma_stands_with_four(s18, name, device_parts::ROW_10@, offline, ignored_mark, x);
    texts::lemma_stands_with_four(s22, room_mark, doc_mark, fabric_marks, device_parts::ROW_11@, x);
    texts::lemma_stands_with_four(s26, id, device_parts::ROW_12@, module, device_parts::ROW_13@, x);
    texts::lemma_stands_with_four(s30, source_marks, device_parts::ROW_14@, network, device_parts::ROW_15@, x);
    texts::lemma_stands_with_more(s34, actions, x);
    texts::lemma_stands_with_more(s35, device_parts::ROW_16@, x);
    texts::lemma_three_in_a_row(s5, device_parts::ROW_3@, ignored, device_parts::ROW_4@);
    let x = device_parts::ROW_3@ + ignored + device_parts::ROW_4@;
    texts::lemma_stands_with_four(s8, sources, device_parts::ROW_5@, room, device_parts::ROW_6@, x);
    texts::lemma_stands_with_four(s12, floor, device_parts::ROW_7@, id, device_parts::ROW_8@, x);
    texts::lemma_stands_with_four(s16, dot, device_parts::ROW_9@, name, device_parts::ROW_10@, x);
    texts::lemma_stands_with_four(s20, offline, ignored_mark, room_mark, doc_mark, x);
    texts::lemma_stands_with_four(s24, fabric_marks, device_parts::ROW_11@, id, device_parts::ROW_12@, x);
    texts::lemma_stands_with_four(s28, module, device_parts::ROW_13@, source_marks, device_parts::ROW_14@, x);
    texts::lemma_stands_with_four(s32, network, device_parts::ROW_15@, actions, device_parts::ROW_16@, x);
    texts::lemma_three_in_a_row(s7, device_parts::ROW_4@, sources, device_parts::ROW_5@);
    let x = device_parts::ROW_4@ + sources + device_parts::ROW_5@;
    texts::lemma_stands_with_four(s10, room, device_parts::ROW_6@, floor, device_parts::ROW_7@, x);
    texts::lemma_stands_with_four(s14, id, device_parts::ROW_8@, dot, device_parts::ROW_9@, x);
    texts::lemma_stands_with_four(s18, name, device_parts::ROW_10@, offline, ignored_mark, x);
    texts::lemma_stands_with_four(s22, room_mark, doc_mark, fabric_marks, device_parts::ROW_11@, x);
    texts::lemma_stands_with_four(s26, id, device_parts::ROW_12@, module, device_parts::ROW_13@, x);
    texts::lemma_stands_with_four(s30, source_marks, device_parts::ROW_14@, network, device_parts::ROW_15@, x);
    texts::lemma_stands_with_more(s34, actions, x);
    texts::lemma_stands_with_more(s35, device_parts::ROW_16@, x);
}

/// In the parts of the devices page, the part `row` puts every value between its marks.
pub proof fn row_then_puts_values_in_place_in_devices(
    id: Seq<char>,
    status: Seq<char>,
    active: Seq<char>,
    ignored: Seq<char>,
    sources: Seq<char>,
    room: Seq<char>,
    floor: Seq<char>,
    dot: Seq<char>,
    name: Seq<char>,
    offline: Seq<char>,
    ignored_mark: Seq<char>,
    room_mark: Seq<char>,
    doc_mark: Seq<char>,
    fabric_marks: Seq<char>,
    module: Seq<char>,
    source_marks: Seq<char>,
    network: Seq<char>,
    actions: Seq<char>,
)
    ensures
        ({
            let shown = device_parts::row_html(id, status, active, ignored, sources, room, floor, dot, name, offline,
                ignored_mark, room_mark, doc_mark, fabric_marks, module, source_marks, network, actions);
            &&& text::has(shown, device_parts::ROW_5@ + room + device_parts::ROW_6@)
            &&& text::has(shown, device_parts::ROW_6@ + floor + device_parts::ROW_7@)
            &&& text::has(shown, device_parts::ROW_7@ + id + device_parts::ROW_8@)
            &&& text::has(shown, device_parts::ROW_8@ + dot + device_parts::ROW_9@)
            &&& text::has(shown, device_parts::ROW_9@ + name + device_parts::ROW_10@)
        }),
{
    let s0 = device_parts::ROW_0@;
    let s1 = s0 + id;
    let s2 = s1 + device_parts::ROW_1@;
    let s3 = s2 + status;
    let s4 = s3 + device_parts::ROW_2@;
    let s5 = s4 + active;
    let s6 = s5 + device_parts::ROW_3@;
    let s7 = s6 + ignored;
    let s8 = s7 + device_parts::ROW_4@;
    let s9 = s8 + sources;
    let s10 = s9 + device_parts::ROW_5@;
    let s11 = s10 + room;
    let s12 = s11 + device_parts::ROW_6@;
    let s13 = s12 + floor;
    let s14 = s13 + device_parts::ROW_7@;
    let s15 = s14 + id;
    let s16 = s15 + device_parts::ROW_8@;
    let s17 = s16 + dot;
    let s18 = s17 + device_parts::ROW_9@;
    let s19 = s18 + name;
    let s20 = s19 + device_parts::ROW_10@;
    let s21 = s20 + offline;
    let s22 = s21 + ignored_mark;
    let s23 = s22 + room_mark;
    let s24 = s23 + doc_mark;
    let s25 = s24 + fabric_marks;
    let s26 = s25 + device_parts::ROW_11@;
    let s27 = s26 + id;
    let s28 = s27 + device_parts::ROW_12@;
    let s29 = s28 + module;
    let s30 = s29 + device_parts::ROW_13@;
    let s31 = s30 + source_marks;
    let s32 = s31 + device_parts::ROW_14@;
    let s33 = s32 + network;
    let s34 = s33 + device_parts::ROW_15@;
    let s35 = s34 + actions;
    let s36 = s35 + device_parts::ROW_16@;
    texts::lemma_three_in_a_row(s9, device_parts::ROW_5@, room, device_parts::ROW_6@);
    let x = device_parts::ROW_5@ + room + device_parts::ROW_6@;
    texts::lemma_stands_with_four(s12, floor, device_parts::ROW_7@, id, device_parts::ROW_8@, x);
    texts::lemma_stands_with_four(s16, dot, device_parts::ROW_9@, name, device_parts::ROW_10@, x);
    texts::lemma_stands_with_four(s20, offline, ignored_mark, room_mark, doc_mark, x);
    texts::lemma_stands_with_four(s24, fabric_marks, device_parts::ROW_11@, id, device_parts::ROW_12@, x);
    texts::lemma_stands_with_four(s28, module, device_parts::ROW_13@, source_marks, device_parts::ROW_14@, x);
    texts::lemma_stands_with_four(s32, network, device_parts::ROW_15@, actions, device_parts::ROW_16@, x);
    texts::lemma_three_in_a_row(s11, device_parts::ROW_6@, floor, device_parts::ROW_7@);
    let x = device_parts::ROW_6@ + floor + device_parts::ROW_7@;
    texts::lemma_stands_with_four(s14, id, device_parts::ROW_8@, dot, device_parts::ROW_9@, x);
    texts::lemma_stands_with_four(s18, name, device_parts::ROW_10@, offline, ignored_mark, x);
    texts::lemma_stands_with_four(s22, room_mark, doc_mark, fabric_marks, device_parts::ROW_11@, x);
    texts::lemma_stands_with_four(s26, id, device_parts::ROW_12@, module, device_parts::ROW_13@, x);
    texts::lemma_stands_with_four(s30, source_marks, device_parts::ROW_14@, network, device_parts::ROW_15@, x);
    texts::lemma_stands_with_more(s34, actions, x);
    texts::lemma_stands_with_more(s35, device_parts::ROW_16@, x);
    texts::lemma_three_in_a_row(s13, device_parts::ROW_7@, id, device_parts::ROW_8@);
    let x = device_parts::ROW_7@ + id + device_parts::ROW_8@;
    texts::lemma_stands_with_four(s16, dot, device_parts::ROW_9@, name, device_parts::ROW_10@, x);
    texts::lemma_stands_with_four(s20, offline, ignored_mark, room_mark, doc_mark, x);
    texts::lemma_stands_with_four(s24, fabric_marks, device_parts::ROW_11@, id, device_parts::ROW_12@, x);
    texts::lemma_stands_with_four(s28, module, device_parts::ROW_13@, source_marks, device_parts::ROW_14@, x);
    texts::lemma_stands_with_four(s32, network, device_parts::ROW_15@, actions, device_parts::ROW_16@, x);
    texts::lemma_three_in_a_row(s15, device_parts::ROW_8@, dot, device_parts::ROW_9@);
    let x = device_parts::ROW_8@ + dot + device_parts::ROW_9@;
    texts::lemma_stands_with_four(s18, name, device_parts::ROW_10@, offline, ignored_mark, x);
    texts::lemma_stands_with_four(s22, room_mark, doc_mark, fabric_marks, device_parts::ROW_11@, x);
    texts::lemma_stands_with_four(s26, id, device_parts::ROW_12@, module, device_parts::ROW_13@, x);
    texts::lemma_stands_with_four(s30, source_marks, device_parts::ROW_14@, network, device_parts::ROW_15@, x);
    texts::lemma_stands_with_more(s34, actions, x);
    texts::lemma_stands_with_more(s35, device_parts::ROW_16@, x);
    texts::lemma_three_in_a_row(s17, device_parts::ROW_9@, name, device_parts::ROW_10@);
    let x = device_parts::ROW_9@ + name + device_parts::ROW_10@;
    texts::lemma_stands_with_four(s20, offline, ignored_mark, room_mark, doc_mark, x);
    texts::lemma_stands_with_four(s24, fabric_marks, device_parts::ROW_11@, id, device_parts::ROW_12@, x);
    texts::lemma_stands_with_four(s28, module, device_parts::ROW_13@, source_marks, device_parts::ROW_14@, x);
    texts::lemma_stands_with_four(s32, network, device_parts::ROW_15@, actions, device_parts::ROW_16@, x);
}

/// In the parts of the devices page, the part `row` puts every value between its marks.
pub proof fn row_last_puts_values_in_place_in_devices(
    id: Seq<char>,
    status: Seq<char>,
    active: Seq<char>,
    ignored: Seq<char>,
    sources: Seq<char>,
    room: Seq<char>,
    floor: Seq<char>,
    dot: Seq<char>,
    name: Seq<char>,
    offline: Seq<char>,
    ignored_mark: Seq<char>,
    room_mark: Seq<char>,
    doc_mark: Seq<char>,
    fabric_marks: Seq<char>,
    module: Seq<char>,
    source_marks: Seq<char>,
    network: Seq<char>,
    actions: Seq<char>,
)
    ensures
        ({
            let shown = device_parts::row_html(id, status, active, ignored, sources, room, floor, dot, name, offline,
                ignored_mark, room_mark, doc_mark, fabric_marks, module, source_marks, network, actions);
            &&& text::has(shown, device_parts::ROW_10@ + offline + ignored_mark + room_mark + doc_mark +
                fabric_marks + device_parts::ROW_11@)
            &&& text::has(shown, device_parts::ROW_11@ + id + device_parts::ROW_12@)
            &&& text::has(shown, device_parts::ROW_12@ + module + device_parts::ROW_13@)
            &&& text::has(shown, device_parts::ROW_13@ + source_marks + device_parts::ROW_14@)
            &&& text::has(shown, device_parts::ROW_14@ + network + device_parts::ROW_15@)
            &&& text::has(shown, device_parts::ROW_15@ + actions + device_parts::ROW_16@)
        }),
{
    let s0 = device_parts::ROW_0@;
    let s1 = s0 + id;
    let s2 = s1 + device_parts::ROW_1@;
    let s3 = s2 + status;
    let s4 = s3 + device_parts::ROW_2@;
    let s5 = s4 + active;
    let s6 = s5 + device_parts::ROW_3@;
    let s7 = s6 + ignored;
    let s8 = s7 + device_parts::ROW_4@;
    let s9 = s8 + sources;
    let s10 = s9 + device_parts::ROW_5@;
    let s11 = s10 + room;
    let s12 = s11 + device_parts::ROW_6@;
    let s13 = s12 + floor;
    let s14 = s13 + device_parts::ROW_7@;
    let s15 = s14 + id;
    let s16 = s15 + device_parts::ROW_8@;
    let s17 = s16 + dot;
    let s18 = s17 + device_parts::ROW_9@;
    let s19 = s18 + name;
    let s20 = s19 + device_parts::ROW_10@;
    let s21 = s20 + offline;
    let s22 = s21 + ignored_mark;
    let s23 = s22 + room_mark;
    let s24 = s23 + doc_mark;
    let s25 = s24 + fabric_marks;
    let s26 = s25 + device_parts::ROW_11@;
    let s27 = s26 + id;
    let s28 = s27 + device_parts::ROW_12@;
    let s29 = s28 + module;
    let s30 = s29 + device_parts::ROW_13@;
    let s31 = s30 + source_marks;
    let s32 = s31 + device_parts::ROW_14@;
    let s33 = s32 + network;
    let s34 = s33 + device_parts::ROW_15@;
    let s35 = s34 + actions;
    let s36 = s35 + device_parts::ROW_16@;
    texts::lemma_seven_in_a_row(s19, device_parts::ROW_10@, offline, ignored_mark, room_mark, doc_mark, fabric_marks,
        device_parts::ROW_11@);
    let x = device_parts::ROW_10@ + offline + ignored_mark + room_mark + doc_mark + fabric_marks +
        device_parts::ROW_11@;
    texts::lemma_stands_with_four(s26, id, device_parts::ROW_12@, module, device_parts::ROW_13@, x);
    texts::lemma_stands_with_four(s30, source_marks, device_parts::ROW_14@, network, device_parts::ROW_15@, x);
    texts::lemma_stands_with_more(s34, actions, x);
    texts::lemma_stands_with_more(s35, device_parts::ROW_16@, x);
    texts::lemma_three_in_a_row(s25, device_parts::ROW_11@, id, device_parts::ROW_12@);
    let x = device_parts::ROW_11@ + id + device_parts::ROW_12@;
    texts::lemma_stands_with_four(s28, module, device_parts::ROW_13@, source_marks, device_parts::ROW_14@, x);
    texts::lemma_stands_with_four(s32, network, device_parts::ROW_15@, actions, device_parts::ROW_16@, x);
    texts::lemma_three_in_a_row(s27, device_parts::ROW_12@, module, device_parts::ROW_13@);
    let x = device_parts::ROW_12@ + module + device_parts::ROW_13@;
    texts::lemma_stands_with_four(s30, source_marks, device_parts::ROW_14@, network, device_parts::ROW_15@, x);
    texts::lemma_stands_with_more(s34, actions, x);
    texts::lemma_stands_with_more(s35, device_parts::ROW_16@, x);
    texts::lemma_three_in_a_row(s29, device_parts::ROW_13@, source_marks, device_parts::ROW_14@);
    let x = device_parts::ROW_13@ + source_marks + device_parts::ROW_14@;
    texts::lemma_stands_with_four(s32, network, device_parts::ROW_15@, actions, device_parts::ROW_16@, x);
    texts::lemma_three_in_a_row(s31, device_parts::ROW_14@, network, device_parts::ROW_15@);
    let x = device_parts::ROW_14@ + network + device_parts::ROW_15@;
    texts::lemma_stands_with_more(s34, actions, x);
    texts::lemma_stands_with_more(s35, device_parts::ROW_16@, x);
    texts::lemma_three_in_a_row(s33, device_parts::ROW_15@, actions, device_parts::ROW_16@);
}

/// In the parts of the devices page, the part `group_card` puts every value between its marks.
pub proof fn group_card_puts_values_in_place_in_devices(
    key: Seq<char>,
    icon: Seq<char>,
    title: Seq<char>,
    count: Seq<char>,
    rows: Seq<char>,
)
    ensures
        ({
            let shown = device_parts::group_card_html(key, icon, title, count, rows);
            &&& text::has(shown, device_parts::GROUP_CARD_0@ + key + device_parts::GROUP_CARD_1@)
            &&& text::has(shown, device_parts::GROUP_CARD_1@ + icon + device_parts::GROUP_CARD_2@)
            &&& text::has(shown, device_parts::GROUP_CARD_2@ + title + device_parts::GROUP_CARD_3@)
            &&& text::has(shown, device_parts::GROUP_CARD_3@ + count + device_parts::GROUP_CARD_4@)
            &&& text::has(shown, device_parts::GROUP_CARD_4@ + rows + device_parts::GROUP_CARD_5@)
        }),
{
    let s0 = device_parts::GROUP_CARD_0@;
    let s1 = s0 + key;
    let s2 = s1 + device_parts::GROUP_CARD_1@;
    let s3 = s2 + icon;
    let s4 = s3 + device_parts::GROUP_CARD_2@;
    let s5 = s4 + title;
    let s6 = s5 + device_parts::GROUP_CARD_3@;
    let s7 = s6 + count;
    let s8 = s7 + device_parts::GROUP_CARD_4@;
    let s9 = s8 + rows;
    let s10 = s9 + device_parts::GROUP_CARD_5@;
    texts::lemma_three_in_a_row(Seq::empty(), device_parts::GROUP_CARD_0@, key, device_parts::GROUP_CARD_1@);
    assert(Seq::<char>::empty() + device_parts::GROUP_CARD_0@ =~= device_parts::GROUP_CARD_0@);
    let x = device_parts::GROUP_CARD_0@ + key + device_parts::GROUP_CARD_1@;
    texts::lemma_stands_with_four(s2, icon, device_parts::GROUP_CARD_2@, title, device_parts::GROUP_CARD_3@, x);
    texts::lemma_stands_with_four(s6, count, device_parts::GROUP_CARD_4@, rows, device_parts::GROUP_CARD_5@, x);
    texts::lemma_three_in_a_row(s1, device_parts::GROUP_CARD_1@, icon, device_parts::GROUP_CARD_2@);
    let x = device_parts::GROUP_CARD_1@ + icon + device_parts::GROUP_CARD_2@;
    texts::lemma_stands_with_four(s4, title, device_parts::GROUP_CARD_3@, count, device_parts::GROUP_CARD_4@, x);
    texts::lemma_stands_with_more(s8, rows, x);
    texts::lemma_stands_with_more(s9, device_parts::GROUP_CARD_5@, x);
    texts::lemma_three_in_a_row(s3, device_parts::GROUP_CARD_2@, title, device_parts::GROUP_CARD_3@);
    let x = device_parts::GROUP_CARD_2@ + title + device_parts::GROUP_CARD_3@;
    texts::lemma_stands_with_four(s6, count, device_parts::GROUP_CARD_4@, rows, device_parts::GROUP_CARD_5@, x);
    texts::lemma_three_in_a_row(s5, device_parts::GROUP_CARD_3@, count, device_parts::GROUP_CARD_4@);
    let x = device_parts::GROUP_CARD_3@ + count + device_parts::GROUP_CARD_4@;
    texts::lemma_stands_with_more(s8, rows, x);
    texts::lemma_stands_with_more(s9, device_parts::GROUP_CARD_5@, x);
    texts::lemma_three_in_a_row(s7, device_parts::GROUP_CARD_4@, rows, device_parts::GROUP_CARD_5@);
}

/// In the parts of the devices page, the part `category_pill` puts every value between its marks.
pub proof fn category_pill_puts_values_in_place_in_devices(
    key: Seq<char>,
    icon: Seq<char>,
    title: Seq<char>,
    count: Seq<char>,
)
    ensures
        ({
            let shown = device_parts::category_pill_html(key, icon, title, count);
            &&& text::has(shown, device_parts::CATEGORY_PILL_0@ + key + device_parts::CATEGORY_PILL_1@)
            &&& text::has(shown, device_parts::CATEGORY_PILL_1@ + icon + device_parts::CATEGORY_PILL_2@)
            &&& text::has(shown, device_parts::CATEGORY_PILL_2@ + title + device_parts::CATEGORY_PILL_3@)
            &&& text::has(shown, device_parts::CATEGORY_PILL_3@ + count + device_parts::CATEGORY_PILL_4@)
        }),
{
    let s0 = device_parts::CATEGORY_PILL_0@;
    let s1 = s0 + key;
    let s2 = s1 + device_parts::CATEGORY_PILL_1@;
    let s3 = s2 + icon;
    let s4 = s3 + device_parts::CATEGORY_PILL_2@;
    let s5 = s4 + title;
    let s6 = s5 + device_parts::CATEGORY_PILL_3@;
    let s7 = s6 + count;
    let s8 = s7 + device_parts::CATEGORY_PILL_4@;
    texts::lemma_three_in_a_row(Seq::empty(), device_parts::CATEGORY_PILL_0@, key, device_parts::CATEGORY_PILL_1@);
    assert(Seq::<char>::empty() + device_parts::CATEGORY_PILL_0@ =~= device_parts::CATEGORY_PILL_0@);
    let x = device_parts::CATEGORY_PILL_0@ + key + device_parts::CATEGORY_PILL_1@;
    texts::lemma_stands_with_four(s2, icon, device_parts::CATEGORY_PILL_2@, title, device_parts::CATEGORY_PILL_3@, x);
    texts::lemma_stands_with_more(s6, count, x);
    texts::lemma_stands_with_more(s7, device_parts::CATEGORY_PILL_4@, x);
    texts::lemma_three_in_a_row(s1, device_parts::CATEGORY_PILL_1@, icon, device_parts::CATEGORY_PILL_2@);
    let x = device_parts::CATEGORY_PILL_1@ + icon + device_parts::CATEGORY_PILL_2@;
    texts::lemma_stands_with_four(s4, title, device_parts::CATEGORY_PILL_3@, count, device_parts::CATEGORY_PILL_4@,
        x);
    texts::lemma_three_in_a_row(s3, device_parts::CATEGORY_PILL_2@, title, device_parts::CATEGORY_PILL_3@);
    let x = device_parts::CATEGORY_PILL_2@ + title + device_parts::CATEGORY_PILL_3@;
    texts::lemma_stands_with_more(s6, count, x);
    texts::lemma_stands_with_more(s7, device_parts::CATEGORY_PILL_4@, x);
    texts::lemma_three_in_a_row(s5, device_parts::CATEGORY_PILL_3@, count, device_parts::CATEGORY_PILL_4@);
}

/// In the parts of the devices page, the part `room_option` puts every value between its marks.
pub proof fn room_option_puts_values_in_place_in_devices(name: Seq<char>, icon: Seq<char>)
    ensures
        ({
            let shown = device_parts::room_option_html(name, icon);
            &&& text::has(shown, device_parts::ROOM_OPTION_0@ + name + device_parts::ROOM_OPTION_1@)
            &&& text::has(shown, device_parts::ROOM_OPTION_1@ + icon + device_parts::ROOM_OPTION_2@)
            &&& text::has(shown, device_parts::ROOM_OPTION_2@ + name + device_parts::ROOM_OPTION_3@)
        }),
{
    let s0 = device_parts::ROOM_OPTION_0@;
    let s1 = s0 + name;
    let s2 = s1 + device_parts::ROOM_OPTION_1@;
    let s3 = s2 + icon;
    let s4 = s3 + device_parts::ROOM_OPTION_2@;
    let s5 = s4 + name;
    let s6 = s5 + device_parts::ROOM_OPTION_3@;
    texts::lemma_three_in_a_row(Seq::empty(), device_parts::ROOM_OPTION_0@, name, device_parts::ROOM_OPTION_1@);
    assert(Seq::<char>::empty() + device_parts::ROOM_OPTION_0@ =~= device_parts::ROOM_OPTION_0@);
    let x = device_parts::ROOM_OPTION_0@ + name + device_parts::ROOM_OPTION_1@;
    texts::lemma_stands_with_four(s2, icon, device_parts::ROOM_OPTION_2@, name, device_parts::ROOM_OPTION_3@, x);
    texts::lemma_three_in_a_row(s1, device_parts::ROOM_OPTION_1@, icon, device_parts::ROOM_OPTION_2@);
    let x = device_parts::ROOM_OPTION_1@ + icon + device_parts::ROOM_OPTION_2@;
    texts::lemma_stands_with_more(s4, name, x);
    texts::lemma_stands_with_more(s5, device_parts::ROOM_OPTION_3@, x);
    texts::lemma_three_in_a_row(s3, device_parts::ROOM_OPTION_2@, name, device_parts::ROOM_OPTION_3@);
}

/// In the devices page, the part `script` puts every value between its marks.
pub proof fn script_puts_values_in_place_in_devices_page(
    devices: Seq<char>,
    products: Seq<char>,
    rooms: Seq<char>,
    govee: Seq<char>,
)
    ensures
        ({
            let shown = devices_frame::script_html(devices, products, rooms, govee);
            &&& text::has(shown, devices_frame::SCRIPT_0@ + devices + devices_frame::SCRIPT_1@)
            &&& text::has(shown, devices_frame::SCRIPT_1@ + products + devices_frame::SCRIPT_2@)
            &&& text::has(shown, devices_frame::SCRIPT_2@ + rooms + devices_frame::SCRIPT_3@)
            &&& text::has(shown, devices_frame::SCRIPT_3@ + govee + devices_frame::SCRIPT_4@)
        }),
{
    let s0 = devices_frame::SCRIPT_0@;
    let s1 = s0 + devices;
    let s2 = s1 + devices_frame::SCRIPT_1@;
    let s3 = s2 + products;
    let s4 = s3 + devices_frame::SCRIPT_2@;
    let s5 = s4 + rooms;
    let s6 = s5 + devices_frame::SCRIPT_3@;
    let s7 = s6 + govee;
    let s8 = s7 + devices_frame::SCRIPT_4@;
    let s9 = s8 + devices_frame::SCRIPT_5@;
    let s10 = s9 + devices_frame::SCRIPT_6@;
    let s11 = s10 + devices_frame::SCRIPT_7@;
    let s12 = s11 + devices_frame::SCRIPT_8@;
    let s13 = s12 + devices_frame::SCRIPT_9@;
    texts::lemma_three_in_a_row(Seq::empty(), devices_frame::SCRIPT_0@, devices, devices_frame::SCRIPT_1@);
    assert(Seq::<char>::empty() + devices_frame::SCRIPT_0@ =~= devices_frame::SCRIPT_0@);
    let x = devices_frame::SCRIPT_0@ + devices + devices_frame::SCRIPT_1@;
    texts::lemma_stands_with_four(s2, products, devices_frame::SCRIPT_2@, rooms, devices_frame::SCRIPT_3@, x);
    texts::lemma_stands_with_four(s6, govee, devices_frame::SCRIPT_4@, devices_frame::SCRIPT_5@,
        devices_frame::SCRIPT_6@, x);
    texts::lemma_stands_with_more(s10, devices_frame::SCRIPT_7@, x);
    texts::lemma_stands_with_more(s11, devices_frame::SCRIPT_8@, x);
    texts::lemma_stands_with_more(s12, devices_frame::SCRIPT_9@, x);
    texts::lemma_three_in_a_row(s1, devices_frame::SCRIPT_1@, products, devices_frame::SCRIPT_2@);
    let x = devices_frame::SCRIPT_1@ + products + devices_frame::SCRIPT_2@;
    texts::lemma_stands_with_four(s4, rooms, devices_frame::SCRIPT_3@, govee, devices_frame::SCRIPT_4@, x);
    texts::lemma_stands_with_four(s8, devices_frame::SCRIPT_5@, devices_frame::SCRIPT_6@, devices_frame::SCRIPT_7@,
        devices_frame::SCRIPT_8@, x);
    texts::lemma_stands_with_more(s12, devices_frame::SCRIPT_9@, x);
    texts::lemma_three_in_a_row(s3, devices_frame::SCRIPT_2@, rooms, devices_frame::SCRIPT_3@);
    let x = devices_frame::SCRIPT_2@ + rooms + devices_frame::SCRIPT_3@;
    texts::lemma_stands_with_four(s6, govee, devices_frame::SCRIPT_4@, devices_frame::SCRIPT_5@,
        devices_frame::SCRIPT_6@, x);
    texts::lemma_stands_with_more(s10, devices_frame::SCRIPT_7@, x);
    texts::lemma_stands_with_more(s11, devices_frame::SCRIPT_8@, x);
    texts::lemma_stands_with_more(s12, devices_frame::SCRIPT_9@, x);
    texts::lemma_three_in_a_row(s5, devices_frame::SCRIPT_3@, govee, devices_frame::SCRIPT_4@);
    let x = devices_frame::SCRIPT_3@ + govee + devices_frame::SCRIPT_4@;
    texts::lemma_stands_with_four(s8, devices_frame::SCRIPT_5@, devices_frame::SCRIPT_6@, devices_frame::SCRIPT_7@,
        devices_frame::SCRIPT_8@, x);
    texts::lemma_stands_with_more(s12, devices_frame::SCRIPT_9@, x);
}

/// In the devices page, the part `content` puts every value between its marks.
pub proof fn content_puts_values_in_place_in_devices_page(
    count: Seq<char>,
    total: Seq<char>,
    active: Seq<char>,
    former: Seq<char>,
    archived: Seq<char>,
    ignored: Seq<char>,
    room_options: Seq<char>,
    pills: Seq<char>,
    groups: Seq<char>,
    script: Seq<char>,
)
    ensures
        ({
            let shown = devices_frame::content_html(count, total, active, former, archived, ignored, room_options, pills,
                groups, script);
            &&& text::has(shown, devices_frame::CONTENT_0@ + count + devices_frame::CONTENT_1@)
            &&& text::has(shown, devices_frame::CONTENT_1@ + total + devices_frame::CONTENT_2@)
            &&& text::has(shown, devices_frame::CONTENT_2@ + active + devices_frame::CONTENT_3@)
            &&& text::has(shown, devices_frame::CONTENT_3@ + former + devices_frame::CONTENT_4@)
            &&& text::has(shown, devices_frame::CONTENT_4@ + archived + devices_frame::CONTENT_5@)
            &&& text::has(shown, devices_frame::CONTENT_5@ + ignored + devices_frame::CONTENT_6@)
            &&& text::has(shown, devices_frame::CONTENT_6@ + room_options + devices_frame::CONTENT_7@)
            &&& text::has(shown, devices_frame::CONTENT_7@ + pills + devices_frame::CONTENT_8@)
            &&& text::has(shown, devices_frame::CONTENT_8@ + groups + devices_frame::CONTENT_9@)
            &&& text::has(shown, devices_frame::CONTENT_9@ + script)
        }),
{
    let s0 = devices_frame::CONTENT_0@;
    let s1 = s0 + count;
    let s2 = s1 + devices_frame::CONTENT_1@;
    let s3 = s2 + total;
    let s4 = s3 + devices_frame::CONTENT_2@;
    let s5 = s4 + active;
    let s6 = s5 + devices_frame::CONTENT_3@;
    let s7 = s6 + former;
    let s8 = s7 + devices_frame::CONTENT_4@;
    let s9 = s8 + archived;
    let s10 = s9 + devices_frame::CONTENT_5@;
    let s11 = s10 + ignored;
    let s12 = s11 + devices_frame::CONTENT_6@;
    let s13 = s12 + room_options;
    let s14 = s13 + devices_frame::CONTENT_7@;
    let s15 = s14 + pills;
    let s16 = s15 + devices_frame::CONTENT_8@;
    let s17 = s16 + groups;
    let s18 = s17 + devices_frame::CONTENT_9@;
    let s19 = s18 + script;
    texts::lemma_three_in_a_row(Seq::empty(), devices_frame::CONTENT_0@, count, devices_frame::CONTENT_1@);
    assert(Seq::<char>::empty() + devices_frame::CONTENT_0@ =~= devices_frame::CONTENT_0@);
    let x = devices_frame::CONTENT_0@ + count + devices_frame::CONTENT_1@;
    texts::lemma_stands_with_four(s2, total, devices_frame::CONTENT_2@, active, devices_frame::CONTENT_3@, x);
    texts::lemma_stands_with_four(s6, former, devices_frame::CONTENT_4@, archived, devices_frame::CONTENT_5@, x);
    texts::lemma_stands_with_four(s10, ignored, devices_frame::CONTENT_6@, room_options, devices_frame::CONTENT_7@,
        x);
    texts::lemma_stands_with_four(s14, pills, devices_frame::CONTENT_8@, groups, devices_frame::CONTENT_9@, x);
    texts::lemma_stands_with_more(s18, script, x);
    texts::lemma_three_in_a_row(s1, devices_frame::CONTENT_1@, total, devices_frame::CONTENT_2@);
    let x = devices_frame::CONTENT_1@ + total + devices_frame::CONTENT_2@;
    texts::lemma_stands_with_four(s4, active, devices_frame::CONTENT_3@, former, devices_frame::CONTENT_4@, x);
    texts::lemma_stands_with_four(s8, archived, devices_frame::CONTENT_5@, ignored, devices_frame::CONTENT_6@, x);
    texts::lemma_stands_with_four(s12, room_options, devices_frame::CONTENT_7@, pills, devices_frame::CONTENT_8@, x);
    texts::lemma_stands_with_more(s16, groups, x);
    texts::lemma_stands_with_more(s17, devices_frame::CONTENT_9@, x);
    texts::lemma_stands_with_more(s18, script, x);
    texts::lemma_three_in_a_row(s3, devices_frame::CONTENT_2@, active, devices_frame::CONTENT_3@);
    let x = devices_frame::CONTENT_2@ + active + devices_frame::CONTENT_3@;
    texts::lemma_stands_with_four(s6, former, devices_frame::CONTENT_4@, archived, devices_frame::CONTENT_5@, x);
    texts::lemma_stands_with_four(s10, ignored, devices_frame::CONTENT_6@, room_options, devices_frame::CONTENT_7@,
        x);
    texts::lemma_stands_with_four(s14, pills, devices_frame::CONTENT_8@, groups, devices_frame::CONTENT_9@, x);
    texts::lemma_stands_with_more(s18, script, x);
    texts::lemma_three_in_a_row(s5, devices_frame::CONTENT_3@, former, devices_frame::CONTENT_4@);
    let x = devices_frame::CONTENT_3@ + former + devices_frame::CONTENT_4@;
    texts::lemma_stands_with_four(s8, archived, devices_frame::CONTENT_5@, ignored, devices_frame::CONTENT_6@, x);
    texts::lemma_stands_with_four(s12, room_options, devices_frame::CONTENT_7@, pills, devices_frame::CONTENT_8@, x);
    texts::lemma_stands_with_more(s16, groups, x);
    texts::lemma_stands_with_more(s17, devices_frame::CONTENT_9@, x);
    texts::lemma_stands_with_more(s18, script, x);
    texts::lemma_three_in_a_row(s7, devices_frame::CONTENT_4@, archived, devices_frame::CONTENT_5@);
    let x = devices_frame::CONTENT_4@ + archived + devices_frame::CONTENT_5@;
    texts::lemma_stands_with_four(s10, ignored, devices_frame::CONTENT_6@, room_options, devices_frame::CONTENT_7@,
        x);
    texts::lemma_stands_with_four(s14, pills, devices_frame::CONTENT_8@, groups, devices_frame::CONTENT_9@, x);
    texts::lemma_stands_with_more(s18, script, x);
    texts::lemma_three_in_a_row(s9, devices_frame::CONTENT_5@, ignored, devices_frame::CONTENT_6@);
    let x = devices_frame::CONTENT_5@ + ignored + devices_frame::CONTENT_6@;
    texts::lemma_stands_with_four(s12, room_options, devices_frame::CONTENT_7@, pills, devices_frame::CONTENT_8@, x);
    texts::lemma_stands_with_more(s16, groups, x);
    texts::lemma_stands_with_more(s17, devices_frame::CONTENT_9@, x);
    texts::lemma_stands_with_more(s18, script, x);
    texts::lemma_three_in_a_row(s11, devices_frame::CONTENT_6@, room_options, devices_frame::CONTENT_7@);
    let x = devices_frame::CONTENT_6@ + room_options + devices_frame::CONTENT_7@;
    texts::lemma_stands_with_four(s14, pills, devices_frame::CONTENT_8@, groups, devices_frame::CONTENT_9@, x);
    texts::lemma_stands_with_more(s18, script, x);
    texts::lemma_three_in_a_row(s13, devices_frame::CONTENT_7@, pills, devices_frame::CONTENT_8@);
    let x = devices_frame::CONTENT_7@ + pills + devices_frame::CONTENT_8@;
    texts::lemma_stands_with_more(s16, groups, x);
    texts::lemma_stands_with_more(s17, devices_frame::CONTENT_9@, x);
    texts::lemma_stands_with_more(s18, script, x);
    texts::lemma_three_in_a_row(s15, devices_frame::CONTENT_8@, groups, devices_frame::CONTENT_9@);
    let x = devices_frame::CONTENT_8@ + groups + devices_frame::CONTENT_9@;
    texts::lemma_stands_with_more(s18, script, x);
    texts::lemma_two_in_a_row(s17, devices_frame::CONTENT_9@, script);
}

/// In the Matter page, the part `summary` puts every value between its marks.
pub proof fn summary_puts_values_in_place_in_matter(
    fabrics: Seq<char>,
    nodes: Seq<char>,
    devices: Seq<char>,
    shared: Seq<char>,
    percent: Seq<char>,
)
    ensures
        ({
            let shown = matter_parts::summary_html(fabrics, nodes, devices, shared, percent);
            &&& text::has(shown, matter_parts::SUMMARY_0@ + fabrics + matter_parts::SUMMARY_1@)
            &&& text::has(shown, matter_parts::SUMMARY_1@ + nodes + matter_parts::SUMMARY_2@)
            &&& text::has(shown, matter_parts::SUMMARY_2@ + devices + matter_parts::SUMMARY_3@)
            &&& text::has(shown, matter_parts::SUMMARY_3@ + shared + matter_parts::SUMMARY_4@)
            &&& text::has(shown, matter_parts::SUMMARY_4@ + percent + matter_parts::SUMMARY_5@)
        }),
{
    let s0 = matter_parts::SUMMARY_0@;
    let s1 = s0 + fabrics;
    let s2 = s1 + matter_parts::SUMMARY_1@;
    let s3 = s2 + nodes;
    let s4 = s3 + matter_parts::SUMMARY_2@;
    let s5 = s4 + devices;
    let s6 = s5 + matter_parts::SUMMARY_3@;
    let s7 = s6 + shared;
    let s8 = s7 + matter_parts::SUMMARY_4@;
    let s9 = s8 + percent;
    let s10 = s9 + matter_parts::SUMMARY_5@;
    texts::lemma_three_in_a_row(Seq::empty(), matter_parts::SUMMARY_0@, fabrics, matter_parts::SUMMARY_1@);
    assert(Seq::<char>::empty() + matter_parts::SUMMARY_0@ =~= matter_parts::SUMMARY_0@);
    let x = matter_parts::SUMMARY_0@ + fabrics + matter_parts::SUMMARY_1@;
    texts::lemma_stands_with_four(s2, nodes, matter_parts::SUMMARY_2@, devices, matter_parts::SUMMARY_3@, x);
    texts::lemma_stands_with_four(s6, shared, matter_parts::SUMMARY_4@, percent, matter_parts::SUMMARY_5@, x);
    texts::lemma_three_in_a_row(s1, matter_parts::SUMMARY_1@, nodes, matter_parts::SUMMARY_2@);
    let x = matter_parts::SUMMARY_1@ + nodes + matter_parts::SUMMARY_2@;
    texts::lemma_stands_with_four(s4, devices, matter_parts::SUMMARY_3@, shared, matter_parts::SUMMARY_4@, x);
    texts::lemma_stands_with_more(s8, percent, x);
    texts::lemma_stands_with_more(s9, matter_parts::SUMMARY_5@, x);
    texts::lemma_three_in_a_row(s3, matter_parts::SUMMARY_2@, devices, matter_parts::SUMMARY_3@);
    let x = matter_parts::SUMMARY_2@ + devices + matter_parts::SUMMARY_3@;
    texts::lemma_stands_with_four(s6, shared, matter_parts::SUMMARY_4@, percent, matter_parts::SUMMARY_5@, x);
    texts::lemma_three_in_a_row(s5, matter_parts::SUMMARY_3@, shared, matter_parts::SUMMARY_4@);
    let x = matter_parts::SUMMARY_3@ + shared + matter_parts::SUMMARY_4@;
    texts::lemma_stands_with_more(s8, percent, x);
    texts::lemma_stands_with_more(s9, matter_parts::SUMMARY_5@, x);
    texts::lemma_three_in_a_row(s7, matter_parts::SUMMARY_4@, percent, matter_parts::SUMMARY_5@);
}

/// In the Matter page, the part `chip` puts every value between its marks.
pub proof fn chip_puts_values_in_place_in_matter(
    icon: Seq<char>,
    name: Seq<char>,
    node_id: Seq<char>,
    port: Seq<char>,
    interface: Seq<char>,
)
    ensures
        ({
            let shown = matter_parts::chip_html(icon, name, node_id, port, interface);
            &&& text::has(shown, matter_parts::CHIP_0@ + icon + matter_parts::CHIP_1@)
            &&& text::has(shown, matter_parts::CHIP_1@ + name + matter_parts::CHIP_2@)
            &&& text::has(shown, matter_parts::CHIP_2@ + node_id + matter_parts::CHIP_3@)
            &&& text::has(shown, matter_parts::CHIP_3@ + port + matter_parts::CHIP_4@)
            &&& text::has(shown, matter_parts::CHIP_4@ + interface + matter_parts::CHIP_5@)
        }),
{
    let s0 = matter_parts::CHIP_0@;
    let s1 = s0 + icon;
    let s2 = s1 + matter_parts::CHIP_1@;
    let s3 = s2 + name;
    let s4 = s3 + matter_parts::CHIP_2@;
    let s5 = s4 + node_id;
    let s6 = s5 + matter_parts::CHIP_3@;
    let s7 = s6 + port;
    let s8 = s7 + matter_parts::CHIP_4@;
    let s9 = s8 + interface;
    let s10 = s9 + matter_parts::CHIP_5@;
    texts::lemma_three_in_a_row(Seq::empty(), matter_parts::CHIP_0@, icon, matter_parts::CHIP_1@);
    assert(Seq::<char>::empty() + matter_parts::CHIP_0@ =~= matter_parts::CHIP_0@);
    let x = matter_parts::CHIP_0@ + icon + matter_parts::CHIP_1@;
    texts::lemma_stands_with_four(s2, name, matter_parts::CHIP_2@, node_id, matter_parts::CHIP_3@, x);
    texts::lemma_stands_with_four(s6, port, matter_parts::CHIP_4@, interface, matter_parts::CHIP_5@, x);
    texts::lemma_three_in_a_row(s1, matter_parts::CHIP_1@, name, matter_parts::CHIP_2@);
    let x = matter_parts::CHIP_1@ + name + matter_parts::CHIP_2@;
    texts::lemma_stands_with_four(s4, node_id, matter_parts::CHIP_3@, port, matter_parts::CHIP_4@, x);
    texts::lemma_stands_with_more(s8, interface, x);
    texts::lemma_stands_with_more(s9, matter_parts::CHIP_5@, x);
    texts::lemma_three_in_a_row(s3, matter_parts::CHIP_2@, node_id, matter_parts::CHIP_3@);
    let x = matter_parts::CHIP_2@ + node_id + matter_parts::CHIP_3@;
    texts::lemma_stands_with_four(s6, port, matter_parts::CHIP_4@, interface, matter_parts::CHIP_5@, x);
    texts::lemma_three_in_a_row(s5, matter_parts::CHIP_3@, port, matter_parts::CHIP_4@);
    let x = matter_parts::CHIP_3@ + port + matter_parts::CHIP_4@;
    texts::lemma_stands_with_more(s8, interface, x);
    texts::lemma_stands_with_more(s9, matter_parts::CHIP_5@, x);
    texts::lemma_three_in_a_row(s7, matter_parts::CHIP_4@, interface, matter_parts::CHIP_5@);
}

/// In the Matter page, the part `fabric_card` puts every value between its marks.
pub proof fn fabric_card_puts_values_in_place_in_matter(
    icon: Seq<char>,
    name: Seq<char>,
    fabric_id: Seq<char>,
    count: Seq<char>,
    description: Seq<char>,
    quoted_name: Seq<char>,
    quoted_icon: Seq<char>,
    chips: Seq<char>,
)
    ensures
        ({
            let shown = matter_parts::fabric_card_html(icon, name, fabric_id, count, description, quoted_name, quoted_icon,
                chips);
            &&& text::has(shown, matter_parts::FABRIC_CARD_0@ + icon + matter_parts::FABRIC_CARD_1@)
            &&& text::has(shown, matter_parts::FABRIC_CARD_1@ + name + matter_parts::FABRIC_CARD_2@)
            &&& text::has(shown, matter_parts::FABRIC_CARD_2@ + fabric_id + matter_parts::FABRIC_CARD_3@)
            &&& text::has(shown, matter_parts::FABRIC_CARD_3@ + count + matter_parts::FABRIC_CARD_4@)
            &&& text::has(shown, matter_parts::FABRIC_CARD_4@ + description + matter_parts::FABRIC_CARD_5@)
            &&& text::has(shown, matter_parts::FABRIC_CARD_5@ + fabric_id + matter_parts::FABRIC_CARD_6@)
            &&& text::has(shown, matter_parts::FABRIC_CARD_6@ + quoted_name + matter_parts::FABRIC_CARD_7@)
            &&& text::has(shown, matter_parts::FABRIC_CARD_7@ + quoted_icon + matter_parts::FABRIC_CARD_8@)
            &&& text::has(shown, matter_parts::FABRIC_CARD_8@ + chips + matter_parts::FABRIC_CARD_9@)
        }),
{
    let s0 = matter_parts::FABRIC_CARD_0@;
    let s1 = s0 + icon;
    let s2 = s1 + matter_parts::FABRIC_CARD_1@;
    let s3 = s2 + name;
    let s4 = s3 + matter_parts::FABRIC_CARD_2@;
    let s5 = s4 + fabric_id;
    let s6 = s5 + matter_parts::FABRIC_CARD_3@;
    let s7 = s6 + count;
    let s8 = s7 + matter_parts::FABRIC_CARD_4@;
    let s9 = s8 + description;
    let s10 = s9 + matter_parts::FABRIC_CARD_5@;
    let s11 = s10 + fabric_id;
    let s12 = s11 + matter_parts::FABRIC_CARD_6@;
    let s13 = s12 + quoted_name;
    let s14 = s13 + matter_parts::FABRIC_CARD_7@;
    let s15 = s14 + quoted_icon;
    let s16 = s15 + matter_parts::FABRIC_CARD_8@;
    let s17 = s16 + chips;
    let s18 = s17 + matter_parts::FABRIC_CARD_9@;
    texts::lemma_three_in_a_row(Seq::empty(), matter_parts::FABRIC_CARD_0@, icon, matter_parts::FABRIC_CARD_1@);
    assert(Seq::<char>::empty() + matter_parts::FABRIC_CARD_0@ =~= matter_parts::FABRIC_CARD_0@);
    let x = matter_parts::FABRIC_CARD_0@ + icon + matter_parts::FABRIC_CARD_1@;
    texts::lemma_stands_with_four(s2, name, matter_parts::FABRIC_CARD_2@, fabric_id, matter_parts::FABRIC_CARD_3@, x);
    texts::lemma_stands_with_four(s6, count, matter_parts::FABRIC_CARD_4@, description, matter_parts::FABRIC_CARD_5@,
        x);
    texts::lemma_stands_with_four(s10, fabric_id, matter_parts::FABRIC_CARD_6@, quoted_name,
        matter_parts::FABRIC_CARD_7@, x);
    texts::lemma_stands_with_four(s14, quoted_icon, matter_parts::FABRIC_CARD_8@, chips, matter_parts::FABRIC_CARD_9@,
        x);
    texts::lemma_three_in_a_row(s1, matter_parts::FABRIC_CARD_1@, name, matter_parts::FABRIC_CARD_2@);
    let x = matter_parts::FABRIC_CARD_1@ + name + matter_parts::FABRIC_CARD_2@;
    texts::lemma_stands_with_four(s4, fabric_id, matter_parts::FABRIC_CARD_3@, count, matter_parts::FABRIC_CARD_4@,
        x);
    texts::lemma_stands_with_four(s8, description, matter_parts::FABRIC_CARD_5@, fabric_id,
        matter_parts::FABRIC_CARD_6@, x);
    texts::lemma_stands_with_four(s12, quoted_name, matter_parts::FABRIC_CARD_7@, quoted_icon,
        matter_parts::FABRIC_CARD_8@, x);
    texts::lemma_stands_with_more(s16, chips, x);
    texts::lemma_stands_with_more(s17, matter_parts::FABRIC_CARD_9@, x);
    texts::lemma_three_in_a_row(s3, matter_parts::FABRIC_CARD_2@, fabric_id, matter_parts::FABRIC_CARD_3@);
    let x = matter_parts::FABRIC_CARD_2@ + fabric_id + matter_parts::FABRIC_CARD_3@;
    texts::lemma_stands_with_four(s6, count, matter_parts::FABRIC_CARD_4@, description, matter_parts::FABRIC_CARD_5@,
        x);
    texts::lemma_stands_with_four(s10, fabric_id, matter_parts::FABRIC_CARD_6@, quoted_name,
        matter_parts::FABRIC_CARD_7@, x);
    texts::lemma_stands_with_four(s14, quoted_icon, matter_parts::FABRIC_CARD_8@, chips, matter_parts::FABRIC_CARD_9@,
        x);
    texts::lemma_three_in_a_row(s5, matter_parts::FABRIC_CARD_3@, count, matter_parts::FABRIC_CARD_4@);
    let x = matter_parts::FABRIC_CARD_3@ + count + matter_parts::FABRIC_CARD_4@;
    texts::lemma_stands_with_four(s8, description, matter_parts::FABRIC_CARD_5@, fabric_id,
        matter_parts::FABRIC_CARD_6@, x);
    texts::lemma_stands_with_four(s12, quoted_name, matter_parts::FABRIC_CARD_7@, quoted_icon,
        matter_parts::FABRIC_CARD_8@, x);
    texts::lemma_stands_with_more(s16, chips, x);
    texts::lemma_stands_with_more(s17, matter_parts::FABRIC_CARD_9@, x);
    texts::lemma_three_in_a_row(s7, matter_parts::FABRIC_CARD_4@, description, matter_parts::FABRIC_CARD_5@);
    let x = matter_parts::FABRIC_CARD_4@ + description + matter_parts::FABRIC_CARD_5@;
    texts::lemma_stands_with_four(s10, fabric_id, matter_parts::FABRIC_CARD_6@, quoted_name,
        matter_parts::FABRIC_CARD_7@, x);
    texts::lemma_stands_with_four(s14, quoted_icon, matter_parts::FABRIC_CARD_8@, chips, matter_parts::FABRIC_CARD_9@,
        x);
    texts::lemma_three_in_a_row(s9, matter_parts::FABRIC_CARD_5@, fabric_id, matter_parts::FABRIC_CARD_6@);
    let x = matter_parts::FABRIC_CARD_5@ + fabric_id + matter_parts::FABRIC_CARD_6@;
    texts::lemma_stands_with_four(s12, quoted_name, matter_parts::FABRIC_CARD_7@, quoted_icon,
        matter_parts::FABRIC_CARD_8@, x);
    texts::lemma_stands_with_more(s16, chips, x);
    texts::lemma_stands_with_more(s17, matter_parts::FABRIC_CARD_9@, x);
    texts::lemma_three_in_a_row(s11, matter_parts::FABRIC_CARD_6@, quoted_name, matter_parts::FABRIC_CARD_7@);
    let x = matter_parts::FABRIC_CARD_6@ + quoted_name + matter_parts::FABRIC_CARD_7@;
    texts::lemma_stands_with_four(s14, quoted_icon, matter_parts::FABRIC_CARD_8@, chips, matter_parts::FABRIC_CARD_9@,
        x);
    texts::lemma_three_in_a_row(s13, matter_parts::FABRIC_CARD_7@, quoted_icon, matter_parts::FABRIC_CARD_8@);
    let x = matter_parts::FABRIC_CARD_7@ + quoted_icon + matter_parts::FABRIC_CARD_8@;
    texts::lemma_stands_with_more(s16, chips, x);
    texts::lemma_stands_with_more(s17, matter_parts::FABRIC_CARD_9@, x);
    texts::lemma_three_in_a_row(s15, matter_parts::FABRIC_CARD_8@, chips, matter_parts::FABRIC_CARD_9@);
}

/// In the Matter page, the part `fabric_head` puts every value between its marks.
pub proof fn fabric_head_puts_values_in_place_in_matter(icon: Seq<char>, name: Seq<char>)
    ensures
        ({
            let shown = matter_parts::fabric_head_html(icon, name);
            &&& text::has(shown, matter_parts::FABRIC_HEAD_0@ + icon + matter_parts::FABRIC_HEAD_1@)
            &&& text::has(shown, matter_parts::FABRIC_HEAD_1@ + name + matter_parts::FABRIC_HEAD_2@)
        }),
{
    let s0 = matter_parts::FABRIC_HEAD_0@;
    let s1 = s0 + icon;
    let s2 = s1 + matter_parts::FABRIC_HEAD_1@;
    let s3 = s2 + name;
    let s4 = s3 + matter_parts::FABRIC_HEAD_2@;
    texts::lemma_three_in_a_row(Seq::empty(), matter_parts::FABRIC_HEAD_0@, icon, matter_parts::FABRIC_HEAD_1@);
    assert(Seq::<char>::empty() + matter_parts::FABRIC_HEAD_0@ =~= matter_parts::FABRIC_HEAD_0@);
    let x = matter_parts::FABRIC_HEAD_0@ + icon + matter_parts::FABRIC_HEAD_1@;
    texts::lemma_stands_with_more(s2, name, x);
    texts::lemma_stands_with_more(s3, matter_parts::FABRIC_HEAD_2@, x);
    texts::lemma_three_in_a_row(s1, matter_parts::FABRIC_HEAD_1@, name, matter_parts::FABRIC_HEAD_2@);
}

/// In the Matter page, the part `member_cell` puts every value between its marks.
pub proof fn member_cell_puts_values_in_place_in_matter(node_id: Seq<char>, port: Seq<char>, interface: Seq<char>)
    ensures
        ({
            let shown = matter_parts::member_cell_html(node_id, port, interface);
            &&& text::has(shown, matter_parts::MEMBER_CELL_0@ + node_id + matter_parts::MEMBER_CELL_1@)
            &&& text::has(shown, matter_parts::MEMBER_CELL_1@ + port + matter_parts::MEMBER_CELL_2@)
            &&& text::has(shown, matter_parts::MEMBER_CELL_2@ + interface + matter_parts::MEMBER_CELL_3@)
        }),
{
    let s0 = matter_parts::MEMBER_CELL_0@;
    let s1 = s0 + node_id;
    let s2 = s1 + matter_parts::MEMBER_CELL_1@;
    let s3 = s2 + port;
    let s4 = s3 + matter_parts::MEMBER_CELL_2@;
    let s5 = s4 + interface;
    let s6 = s5 + matter_parts::MEMBER_CELL_3@;
    texts::lemma_three_in_a_row(Seq::empty(), matter_parts::MEMBER_CELL_0@, node_id, matter_parts::MEMBER_CELL_1@);
    assert(Seq::<char>::empty() + matter_parts::MEMBER_CELL_0@ =~= matter_parts::MEMBER_CELL_0@);
    let x = matter_parts::MEMBER_CELL_0@ + node_id + matter_parts::MEMBER_CELL_1@;
    texts::lemma_stands_with_four(s2, port, matter_parts::MEMBER_CELL_2@, interface, matter_parts::MEMBER_CELL_3@, x);
    texts::lemma_three_in_a_row(s1, matter_parts::MEMBER_CELL_1@, port, matter_parts::MEMBER_CELL_2@);
    let x = matter_parts::MEMBER_CELL_1@ + port + matter_parts::MEMBER_CELL_2@;
    texts::lemma_stands_with_more(s4, interface, x);
    texts::lemma_stands_with_more(s5, matter_parts::MEMBER_CELL_3@, x);
    texts::lemma_three_in_a_row(s3, matter_parts::MEMBER_CELL_2@, interface, matter_parts::MEMBER_CELL_3@);
}

/// In the Matter page, the part `addresses` puts every value between its marks.
pub proof fn addresses_puts_values_in_place_in_matter(ip: Seq<char>, mac: Seq<char>)
    ensures
        ({
            let shown = matter_parts::addresses_html(ip, mac);
            &&& text::has(shown, matter_parts::ADDRESSES_0@ + ip + matter_parts::ADDRESSES_1@)
            &&& text::has(shown, matter_parts::ADDRESSES_1@ + mac + matter_parts::ADDRESSES_2@)
        }),
{
    let s0 = matter_parts::ADDRESSES_0@;
    let s1 = s0 + ip;
    let s2 = s1 + matter_parts::ADDRESSES_1@;
    let s3 = s2 + mac;
    let s4 = s3 + matter_parts::ADDRESSES_2@;
    texts::lemma_three_in_a_row(Seq::empty(), matter_parts::ADDRESSES_0@, ip, matter_parts::ADDRESSES_1@);
    assert(Seq::<char>::empty() + matter_parts::ADDRESSES_0@ =~= matter_parts::ADDRESSES_0@);
    let x = matter_parts::ADDRESSES_0@ + ip + matter_parts::ADDRESSES_1@;
    texts::lemma_stands_with_more(s2, mac, x);
    texts::lemma_stands_with_more(s3, matter_parts::ADDRESSES_2@, x);
    texts::lemma_three_in_a_row(s1, matter_parts::ADDRESSES_1@, mac, matter_parts::ADDRESSES_2@);
}

/// In the Matter page, the part `device_row` puts every value between its marks.
pub proof fn device_row_puts_values_in_place_in_matter(
    name: Seq<char>,
    vendor: Seq<char>,
    network: Seq<char>,
    cells: Seq<char>,
    web: Seq<char>,
)
    ensures
        ({
            let shown = matter_parts::device_row_html(name, vendor, network, cells, web);
            &&& text::has(shown, matter_parts::DEVICE_ROW_0@ + name + matter_parts::DEVICE_ROW_1@)
            &&& text::has(shown, matter_parts::DEVICE_ROW_1@ + vendor + matter_parts::DEVICE_ROW_2@)
            &&& text::has(shown, matter_parts::DEVICE_ROW_2@ + network + matter_parts::DEVICE_ROW_3@)
            &&& text::has(shown, matter_parts::DEVICE_ROW_3@ + cells + matter_parts::DEVICE_ROW_4@)
            &&& text::has(shown, matter_parts::DEVICE_ROW_4@ + web + matter_parts::DEVICE_ROW_5@)
        }),
{
    let s0 = matter_parts::DEVICE_ROW_0@;
    let s1 = s0 + name;
    let s2 = s1 + matter_parts::DEVICE_ROW_1@;
    let s3 = s2 + vendor;
    let s4 = s3 + matter_parts::DEVICE_ROW_2@;
    let s5 = s4 + network;
    let s6 = s5 + matter_parts::DEVICE_ROW_3@;
    let s7 = s6 + cells;
    let s8 = s7 + matter_parts::DEVICE_ROW_4@;
    let s9 = s8 + web;
    let s10 = s9 + matter_parts::DEVICE_ROW_5@;
    texts::lemma_three_in_a_row(Seq::empty(), matter_parts::DEVICE_ROW_0@, name, matter_parts::DEVICE_ROW_1@);
    assert(Seq::<char>::empty() + matter_parts::DEVICE_ROW_0@ =~= matter_parts::DEVICE_ROW_0@);
    let x = matter_parts::DEVICE_ROW_0@ + name + matter_parts::DEVICE_ROW_1@;
    texts::lemma_stands_with_four(s2, vendor, matter_parts::DEVICE_ROW_2@, network, matter_parts::DEVICE_ROW_3@, x);
    texts::lemma_stands_with_four(s6, cells, matter_parts::DEVICE_ROW_4@, web, matter_parts::DEVICE_ROW_5@, x);
    texts::lemma_three_in_a_row(s1, matter_parts::DEVICE_ROW_1@, vendor, matter_parts::DEVICE_ROW_2@);
    let x = matter_parts::DEVICE_ROW_1@ + vendor + matter_parts::DEVICE_ROW_2@;
    texts::lemma_stands_with_four(s4, network, matter_parts::DEVICE_ROW_3@, cells, matter_parts::DEVICE_ROW_4@, x);
    texts::lemma_stands_with_more(s8, web, x);
    texts::lemma_stands_with_more(s9, matter_parts::DEVICE_ROW_5@, x);
    texts::lemma_three_in_a_row(s3, matter_parts::DEVICE_ROW_2@, network, matter_parts::DEVICE_ROW_3@);
    let x = matter_parts::DEVICE_ROW_2@ + network + matter_parts::DEVICE_ROW_3@;
    texts::lemma_stands_with_four(s6, cells, matter_parts::DEVICE_ROW_4@, web, matter_parts::DEVICE_ROW_5@, x);
    texts::lemma_three_in_a_row(s5, matter_parts::DEVICE_ROW_3@, cells, matter_parts::DEVICE_ROW_4@);
    let x = matter_parts::DEVICE_ROW_3@ + cells + matter_parts::DEVICE_ROW_4@;
    texts::lemma_stands_with_more(s8, web, x);
    texts::lemma_stands_with_more(s9, matter_parts::DEVICE_ROW_5@, x);
    texts::lemma_three_in_a_row(s7, matter_parts::DEVICE_ROW_4@, web, matter_parts::DEVICE_ROW_5@);
}

/// In the Matter page, the part `content` puts every value between its marks.
pub proof fn content_puts_values_in_place_in_matter(
    summary: Seq<char>,
    fabrics: Seq<char>,
    cards: Seq<char>,
    devices: Seq<char>,
    head: Seq<char>,
    rows: Seq<char>,
    script: Seq<char>,
)
    ensures
        ({
            let shown = matter_parts::content_html(summary, fabrics, cards, devices, head, rows, script);
            &&& text::has(shown, matter_parts::CONTENT_0@ + summary + matter_parts::CONTENT_1@)
            &&& text::has(shown, matter_parts::CONTENT_1@ + fabrics + matter_parts::CONTENT_2@)
            &&& text::has(shown, matter_parts::CONTENT_2@ + cards + matter_parts::CONTENT_3@)
            &&& text::has(shown, matter_parts::CONTENT_3@ + devices + matter_parts::CONTENT_4@)
            &&& text::has(shown, matter_parts::CONTENT_4@ + head + matter_parts::CONTENT_5@)
            &&& text::has(shown, matter_parts::CONTENT_5@ + rows + matter_parts::CONTENT_6@)
            &&& text::has(shown, matter_parts::CONTENT_6@ + script + matter_parts::CONTENT_7@)
        }),
{
    let s0 = matter_parts::CONTENT_0@;
    let s1 = s0 + summary;
    let s2 = s1 + matter_parts::CONTENT_1@;
    let s3 = s2 + fabrics;
    let s4 = s3 + matter_parts::CONTENT_2@;
    let s5 = s4 + cards;
    let s6 = s5 + matter_parts::CONTENT_3@;
    let s7 = s6 + devices;
    let s8 = s7 + matter_parts::CONTENT_4@;
    let s9 = s8 + head;
    let s10 = s9 + matter_parts::CONTENT_5@;
    let s11 = s10 + rows;
    let s12 = s11 + matter_parts::CONTENT_6@;
    let s13 = s12 + script;
    let s14 = s13 + matter_parts::CONTENT_7@;
    texts::lemma_three_in_a_row(Seq::empty(), matter_parts::CONTENT_0@, summary, matter_parts::CONTENT_1@);
    assert(Seq::<char>::empty() + matter_parts::CONTENT_0@ =~= matter_parts::CONTENT_0@);
    let x = matter_parts::CONTENT_0@ + summary + matter_parts::CONTENT_1@;
    texts::lemma_stands_with_four(s2, fabrics, matter_parts::CONTENT_2@, cards, matter_parts::CONTENT_3@, x);
    texts::lemma_stands_with_four(s6, devices, matter_parts::CONTENT_4@, head, matter_parts::CONTENT_5@, x);
    texts::lemma_stands_with_four(s10, rows, matter_parts::CONTENT_6@, script, matter_parts::CONTENT_7@, x);
    texts::lemma_three_in_a_row(s1, matter_parts::CONTENT_1@, fabrics, matter_parts::CONTENT_2@);
    let x = matter_parts::CONTENT_1@ + fabrics + matter_parts::CONTENT_2@;
    texts::lemma_stands_with_four(s4, cards, matter_parts::CONTENT_3@, devices, matter_parts::CONTENT_4@, x);
    texts::lemma_stands_with_four(s8, head, matter_parts::CONTENT_5@, rows, matter_parts::CONTENT_6@, x);
    texts::lemma_stands_with_more(s12, script, x);
    texts::lemma_stands_with_more(s13, matter_parts::CONTENT_7@, x);
    texts::lemma_three_in_a_row(s3, matter_parts::CONTENT_2@, cards, matter_parts::CONTENT_3@);
    let x = matter_parts::CONTENT_2@ + cards + matter_parts::CONTENT_3@;
    texts::lemma_stands_with_four(s6, devices, matter_parts::CONTENT_4@, head, matter_parts::CONTENT_5@, x);
    texts::lemma_stands_with_four(s10, rows, matter_parts::CONTENT_6@, script, matter_parts::CONTENT_7@, x);
    texts::lemma_three_in_a_row(s5, matter_parts::CONTENT_3@, devices, matter_parts::CONTENT_4@);
    let x = matter_parts::CONTENT_3@ + devices + matter_parts::CONTENT_4@;
    texts::lemma_stands_with_four(s8, head, matter_parts::CONTENT_5@, rows, matter_parts::CONTENT_6@, x);
    texts::lemma_stands_with_more(s12, script, x);
    texts::lemma_stands_with_more(s13, matter_parts::CONTENT_7@, x);
    texts::lemma_three_in_a_row(s7, matter_parts::CONTENT_4@, head, matter_parts::CONTENT_5@);
    let x = matter_parts::CONTENT_4@ + head + matter_parts::CONTENT_5@;
    texts::lemma_stands_with_four(s10, rows, matter_parts::CONTENT_6@, script, matter_parts::CONTENT_7@, x);
    texts::lemma_three_in_a_row(s9, matter_parts::CONTENT_5@, rows, matter_parts::CONTENT_6@);
    let x = matter_parts::CONTENT_5@ + rows + matter_parts::CONTENT_6@;
    texts::lemma_stands_with_more(s12, script, x);
    texts::lemma_stands_with_more(s13, matter_parts::CONTENT_7@, x);
    texts::lemma_three_in_a_row(s11, matter_parts::CONTENT_6@, script, matter_parts::CONTENT_7@);
}

/// In the catalog, the part `vendor_option` puts every value between its marks.
pub proof fn vendor_option_puts_values_in_place_in_catalog(id: Seq<char>, icon: Seq<char>, name: Seq<char>)
    ensures
        ({
            let shown = catalog_parts::vendor_option_html(id, icon, name);
            &&& text::has(shown, catalog_parts::VENDOR_OPTION_0@ + id + catalog_parts::VENDOR_OPTION_1@)
            &&& text::has(shown, catalog_parts::VENDOR_OPTION_1@ + icon + catalog_parts::VENDOR_OPTION_2@)
            &&& text::has(shown, catalog_parts::VENDOR_OPTION_2@ + name + catalog_parts::VENDOR_OPTION_3@)
        }),
{
    let s0 = catalog_parts::VENDOR_OPTION_0@;
    let s1 = s0 + id;
    let s2 = s1 + catalog_parts::VENDOR_OPTION_1@;
    let s3 = s2 + icon;
    let s4 = s3 + catalog_parts::VENDOR_OPTION_2@;
    let s5 = s4 + name;
    let s6 = s5 + catalog_parts::VENDOR_OPTION_3@;
    texts::lemma_three_in_a_row(Seq::empty(), catalog_parts::VENDOR_OPTION_0@, id, catalog_parts::VENDOR_OPTION_1@);
    assert(Seq::<char>::empty() + catalog_parts::VENDOR_OPTION_0@ =~= catalog_parts::VENDOR_OPTION_0@);
    let x = catalog_parts::VENDOR_OPTION_0@ + id + catalog_parts::VENDOR_OPTION_1@;
    texts::lemma_stands_with_four(s2, icon, catalog_parts::VENDOR_OPTION_2@, name, catalog_parts::VENDOR_OPTION_3@,
        x);
    texts::lemma_three_in_a_row(s1, catalog_parts::VENDOR_OPTION_1@, icon, catalog_parts::VENDOR_OPTION_2@);
    let x = catalog_parts::VENDOR_OPTION_1@ + icon + catalog_parts::VENDOR_OPTION_2@;
    texts::lemma_stands_with_more(s4, name, x);
    texts::lemma_stands_with_more(s5, catalog_parts::VENDOR_OPTION_3@, x);
    texts::lemma_three_in_a_row(s3, catalog_parts::VENDOR_OPTION_2@, name, catalog_parts::VENDOR_OPTION_3@);
}

/// In the catalog, the part `product_row` puts every value between its marks.
pub proof fn product_row_puts_values_in_place_in_catalog(
    icon: Seq<char>,
    name: Seq<char>,
    matter: Seq<char>,
    model: Seq<char>,
    category: Seq<char>,
    connectivity: Seq<char>,
    ports: Seq<char>,
    specs: Seq<char>,
    manual: Seq<char>,
)
    ensures
        ({
            let shown = catalog_parts::product_row_html(icon, name, matter, model, category, connectivity, ports, specs,
                manual);
            &&& text::has(shown, catalog_parts::PRODUCT_ROW_0@ + icon + catalog_parts::PRODUCT_ROW_1@)
            &&& text::has(shown, catalog_parts::PRODUCT_ROW_1@ + name + catalog_parts::PRODUCT_ROW_2@)
            &&& text::has(shown, catalog_parts::PRODUCT_ROW_2@ + matter + catalog_parts::PRODUCT_ROW_3@)
            &&& text::has(shown, catalog_parts::PRODUCT_ROW_3@ + model + catalog_parts::PRODUCT_ROW_4@)
            &&& text::has(shown, catalog_parts::PRODUCT_ROW_4@ + category + catalog_parts::PRODUCT_ROW_5@)
            &&& text::has(shown, catalog_parts::PRODUCT_ROW_5@ + connectivity + catalog_parts::PRODUCT_ROW_6@)
            &&& text::has(shown, catalog_parts::PRODUCT_ROW_6@ + ports + catalog_parts::PRODUCT_ROW_7@)
            &&& text::has(shown, catalog_parts::PRODUCT_ROW_7@ + specs + catalog_parts::PRODUCT_ROW_8@)
            &&& text::has(shown, catalog_parts::PRODUCT_ROW_8@ + manual + catalog_parts::PRODUCT_ROW_9@)
        }),
{
    let s0 = catalog_parts::PRODUCT_ROW_0@;
    let s1 = s0 + icon;
    let s2 = s1 + catalog_parts::PRODUCT_ROW_1@;
    let s3 = s2 + name;
    let s4 = s3 + catalog_parts::PRODUCT_ROW_2@;
    let s5 = s4 + matter;
    let s6 = s5 + catalog_parts::PRODUCT_ROW_3@;
    let s7 = s6 + model;
    let s8 = s7 + catalog_parts::PRODUCT_ROW_4@;
    let s9 = s8 + category;
    let s10 = s9 + catalog_parts::PRODUCT_ROW_5@;
    let s11 = s10 + connectivity;
    let s12 = s11 + catalog_parts::PRODUCT_ROW_6@;
    let s13 = s12 + ports;
    let s14 = s13 + catalog_parts::PRODUCT_ROW_7@;
    let s15 = s14 + specs;
    let s16 = s15 + catalog_parts::PRODUCT_ROW_8@;
    let s17 = s16 + manual;
    let s18 = s17 + catalog_parts::PRODUCT_ROW_9@;
    texts::lemma_three_in_a_row(Seq::empty(), catalog_parts::PRODUCT_ROW_0@, icon, catalog_parts::PRODUCT_ROW_1@);
    assert(Seq::<char>::empty() + catalog_parts::PRODUCT_ROW_0@ =~= catalog_parts::PRODUCT_ROW_0@);
    let x = catalog_parts::PRODUCT_ROW_0@ + icon + catalog_parts::PRODUCT_ROW_1@;
    texts::lemma_stands_with_four(s2, name, catalog_parts::PRODUCT_ROW_2@, matter, catalog_parts::PRODUCT_ROW_3@, x);
    texts::lemma_stands_with_four(s6, model, catalog_parts::PRODUCT_ROW_4@, category, catalog_parts::PRODUCT_ROW_5@,
        x);
    texts::lemma_stands_with_four(s10, connectivity, catalog_parts::PRODUCT_ROW_6@, ports,
        catalog_parts::PRODUCT_ROW_7@, x);
    texts::lemma_stands_with_four(s14, specs, catalog_parts::PRODUCT_ROW_8@, manual, catalog_parts::PRODUCT_ROW_9@,
        x);
    texts::lemma_three_in_a_row(s1, catalog_parts::PRODUCT_ROW_1@, name, catalog_parts::PRODUCT_ROW_2@);
    let x = catalog_parts::PRODUCT_ROW_1@ + name + catalog_parts::PRODUCT_ROW_2@;
    texts::lemma_stands_with_four(s4, matter, catalog_parts::PRODUCT_ROW_3@, model, catalog_parts::PRODUCT_ROW_4@, x);
    texts::lemma_stands_with_four(s8, category, catalog_parts::PRODUCT_ROW_5@, connectivity,
        catalog_parts::PRODUCT_ROW_6@, x);
    texts::lemma_stands_with_four(s12, ports, catalog_parts::PRODUCT_ROW_7@, specs, catalog_parts::PRODUCT_ROW_8@, x);
    texts::lemma_stands_with_more(s16, manual, x);
    texts::lemma_stands_with_more(s17, catalog_parts::PRODUCT_ROW_9@, x);
    texts::lemma_three_in_a_row(s3, catalog_parts::PRODUCT_ROW_2@, matter, catalog_parts::PRODUCT_ROW_3@);
    let x = catalog_parts::PRODUCT_ROW_2@ + matter + catalog_parts::PRODUCT_ROW_3@;
    texts::lemma_stands_with_four(s6, model, catalog_parts::PRODUCT_ROW_4@, category, catalog_parts::PRODUCT_ROW_5@,
        x);
    texts::lemma_stands_with_four(s10, connectivity, catalog_parts::PRODUCT_ROW_6@, ports,
        catalog_parts::PRODUCT_ROW_7@, x);
    texts::lemma_stands_with_four(s14, specs, catalog_parts::PRODUCT_ROW_8@, manual, catalog_parts::PRODUCT_ROW_9@,
        x);
    texts::lemma_three_in_a_row(s5, catalog_parts::PRODUCT_ROW_3@, model, catalog_parts::PRODUCT_ROW_4@);
    let x = catalog_parts::PRODUCT_ROW_3@ + model + catalog_parts::PRODUCT_ROW_4@;
    texts::lemma_stands_with_four(s8, category, catalog_parts::PRODUCT_ROW_5@, connectivity,
        catalog_parts::PRODUCT_ROW_6@, x);
    texts::lemma_stands_with_four(s12, ports, catalog_parts::PRODUCT_ROW_7@, specs, catalog_parts::PRODUCT_ROW_8@, x);
    texts::lemma_stands_with_more(s16, manual, x);
    texts::lemma_stands_with_more(s17, catalog_parts::PRODUCT_ROW_9@, x);
    texts::lemma_three_in_a_row(s7, catalog_parts::PRODUCT_ROW_4@, category, catalog_parts::PRODUCT_ROW_5@);
    let x = catalog_parts::PRODUCT_ROW_4@ + category + catalog_parts::PRODUCT_ROW_5@;
    texts::lemma_stands_with_four(s10, connectivity, catalog_parts::PRODUCT_ROW_6@, ports,
        catalog_parts::PRODUCT_ROW_7@, x);
    texts::lemma_stands_with_four(s14, specs, catalog_parts::PRODUCT_ROW_8@, manual, catalog_parts::PRODUCT_ROW_9@,
        x);
    texts::lemma_three_in_a_row(s9, catalog_parts::PRODUCT_ROW_5@, connectivity, catalog_parts::PRODUCT_ROW_6@);
    let x = catalog_parts::PRODUCT_ROW_5@ + connectivity + catalog_parts::PRODUCT_ROW_6@;
    texts::lemma_stands_with_four(s12, ports, catalog_parts::PRODUCT_ROW_7@, specs, catalog_parts::PRODUCT_ROW_8@, x);
    texts::lemma_stands_with_more(s16, manual, x);
    texts::lemma_stands_with_more(s17, catalog_parts::PRODUCT_ROW_9@, x);
    texts::lemma_three_in_a_row(s11, catalog_parts::PRODUCT_ROW_6@, ports, catalog_parts::PRODUCT_ROW_7@);
    let x = catalog_parts::PRODUCT_ROW_6@ + ports + catalog_parts::PRODUCT_ROW_7@;
    texts::lemma_stands_with_four(s14, specs, catalog_parts::PRODUCT_ROW_8@, manual, catalog_parts::PRODUCT_ROW_9@,
        x);
    texts::lemma_three_in_a_row(s13, catalog_parts::PRODUCT_ROW_7@, specs, catalog_parts::PRODUCT_ROW_8@);
    let x = catalog_parts::PRODUCT_ROW_7@ + specs + catalog_parts::PRODUCT_ROW_8@;
    texts::lemma_stands_with_more(s16, manual, x);
    texts::lemma_stands_with_more(s17, catalog_parts::PRODUCT_ROW_9@, x);
    texts::lemma_three_in_a_row(s15, catalog_parts::PRODUCT_ROW_8@, manual, catalog_parts::PRODUCT_ROW_9@);
}

/// In the catalog, the part `vendor_card` puts every value between its marks.
pub proof fn vendor_card_puts_values_in_place_in_catalog(
    small_name: Seq<char>,
    id: Seq<char>,
    icon: Seq<char>,
    name: Seq<char>,
    website: Seq<char>,
    support: Seq<char>,
    prefixes: Seq<char>,
    protocols: Seq<char>,
    description: Seq<char>,
    count: Seq<char>,
    products: Seq<char>,
)
    ensures
        ({
            let shown = catalog_parts::vendor_card_html(small_name, id, icon, name, website, support, prefixes, protocols,
                description, count, products);
            &&& text::has(shown, catalog_parts::VENDOR_CARD_0@ + small_name + catalog_parts::VENDOR_CARD_1@)
            &&& text::has(shown, catalog_parts::VENDOR_CARD_1@ + id + catalog_parts::VENDOR_CARD_2@)
            &&& text::has(shown, catalog_parts::VENDOR_CARD_2@ + icon + catalog_parts::VENDOR_CARD_3@)
            &&& text::has(shown, catalog_parts::VENDOR_CARD_3@ + name + catalog_parts::VENDOR_CARD_4@)
            &&& text::has(shown, catalog_parts::VENDOR_CARD_4@ + website + catalog_parts::VENDOR_CARD_5@)
            &&& text::has(shown, catalog_parts::VENDOR_CARD_5@ + support + catalog_parts::VENDOR_CARD_6@)
            &&& text::has(shown, catalog_parts::VENDOR_CARD_6@ + prefixes + catalog_parts::VENDOR_CARD_7@)
            &&& text::has(shown, catalog_parts::VENDOR_CARD_7@ + protocols + catalog_parts::VENDOR_CARD_8@)
            &&& text::has(shown, catalog_parts::VENDOR_CARD_8@ + description + catalog_parts::VENDOR_CARD_9@)
            &&& text::has(shown, catalog_parts::VENDOR_CARD_9@ + count + catalog_parts::VENDOR_CARD_10@)
            &&& text::has(shown, catalog_parts::VENDOR_CARD_10@ + products + catalog_parts::VENDOR_CARD_11@)
        }),
{
    let s0 = catalog_parts::VENDOR_CARD_0@;
    let s1 = s0 + small_name;
    let s2 = s1 + catalog_parts::VENDOR_CARD_1@;
    let s3 = s2 + id;
    let s4 = s3 + catalog_parts::VENDOR_CARD_2@;
    let s5 = s4 + icon;
    let s6 = s5 + catalog_parts::VENDOR_CARD_3@;
    let s7 = s6 + name;
    let s8 = s7 + catalog_parts::VENDOR_CARD_4@;
    let s9 = s8 + website;
    let s10 = s9 + catalog_parts::VENDOR_CARD_5@;
    let s11 = s10 + support;
    let s12 = s11 + catalog_parts::VENDOR_CARD_6@;
    let s13 = s12 + prefixes;
    let s14 = s13 + catalog_parts::VENDOR_CARD_7@;
    let s15 = s14 + protocols;
    let s16 = s15 + catalog_parts::VENDOR_CARD_8@;
    let s17 = s16 + description;
    let s18 = s17 + catalog_parts::VENDOR_CARD_9@;
    let s19 = s18 + count;
    let s20 = s19 + catalog_parts::VENDOR_CARD_10@;
    let s21 = s20 + products;
    let s22 = s21 + catalog_parts::VENDOR_CARD_11@;
    texts::lemma_three_in_a_row(Seq::empty(), catalog_parts::VENDOR_CARD_0@, small_name,
        catalog_parts::VENDOR_CARD_1@);
    assert(Seq::<char>::empty() + catalog_parts::VENDOR_CARD_0@ =~= catalog_parts::VENDOR_CARD_0@);
    let x = catalog_parts::VENDOR_CARD_0@ + small_name + catalog_parts::VENDOR_CARD_1@;
    texts::lemma_stands_with_four(s2, id, catalog_parts::VENDOR_CARD_2@, icon, catalog_parts::VENDOR_CARD_3@, x);
    texts::lemma_stands_with_four(s6, name, catalog_parts::VENDOR_CARD_4@, website, catalog_parts::VENDOR_CARD_5@, x);
    texts::lemma_stands_with_four(s10, support, catalog_parts::VENDOR_CARD_6@, prefixes,
        catalog_parts::VENDOR_CARD_7@, x);
    texts::lemma_stands_with_four(s14, protocols, catalog_parts::VENDOR_CARD_8@, description,
        catalog_parts::VENDOR_CARD_9@, x);
    texts::lemma_stands_with_four(s18, count, catalog_parts::VENDOR_CARD_10@, products,
        catalog_parts::VENDOR_CARD_11@, x);
    texts::lemma_three_in_a_row(s1, catalog_parts::VENDOR_CARD_1@, id, catalog_parts::VENDOR_CARD_2@);
    let x = catalog_parts::VENDOR_CARD_1@ + id + catalog_parts::VENDOR_CARD_2@;
    texts::lemma_stands_with_four(s4, icon, catalog_parts::VENDOR_CARD_3@, name, catalog_parts::VENDOR_CARD_4@, x);
    texts::lemma_stands_with_four(s8, website, catalog_parts::VENDOR_CARD_5@, support, catalog_parts::VENDOR_CARD_6@,
        x);
    texts::lemma_stands_with_four(s12, prefixes, catalog_parts::VENDOR_CARD_7@, protocols,
        catalog_parts::VENDOR_CARD_8@, x);
    texts::lemma_stands_with_four(s16, description, catalog_parts::VENDOR_CARD_9@, count,
        catalog_parts::VENDOR_CARD_10@, x);
    texts::lemma_stands_with_more(s20, products, x);
    texts::lemma_stands_with_more(s21, catalog_parts::VENDOR_CARD_11@, x);
    texts::lemma_three_in_a_row(s3, catalog_parts::VENDOR_CARD_2@, icon, catalog_parts::VENDOR_CARD_3@);
    let x = catalog_parts::VENDOR_CARD_2@ + icon + catalog_parts::VENDOR_CARD_3@;
    texts::lemma_stands_with_four(s6, name, catalog_parts::VENDOR_CARD_4@, website, catalog_parts::VENDOR_CARD_5@, x);
    texts::lemma_stands_with_four(s10, support, catalog_parts::VENDOR_CARD_6@, prefixes,
        catalog_parts::VENDOR_CARD_7@, x);
    texts::lemma_stands_with_four(s14, protocols, catalog_parts::VENDOR_CARD_8@, description,
        catalog_parts::VENDOR_CARD_9@, x);
    texts::lemma_stands_with_four(s18, count, catalog_parts::VENDOR_CARD_10@, products,
        catalog_parts::VENDOR_CARD_11@, x);
    texts::lemma_three_in_a_row(s5, catalog_parts::VENDOR_CARD_3@, name, catalog_parts::VENDOR_CARD_4@);
    let x = catalog_parts::VENDOR_CARD_3@ + name + catalog_parts::VENDOR_CARD_4@;
    texts::lemma_stands_with_four(s8, website, catalog_parts::VENDOR_CARD_5@, support, catalog_parts::VENDOR_CARD_6@,
        x);
    texts::lemma_stands_with_four(s12, prefixes, catalog_parts::VENDOR_CARD_7@, protocols,
        catalog_parts::VENDOR_CARD_8@, x);
    texts::lemma_stands_with_four(s16, description, catalog_parts::VENDOR_CARD_9@, count,
        catalog_parts::VENDOR_CARD_10@, x);
    texts::lemma_stands_with_more(s20, products, x);
    texts::lemma_stands_with_more(s21, catalog_parts::VENDOR_CARD_11@, x);
    texts::lemma_three_in_a_row(s7, catalog_parts::VENDOR_CARD_4@, website, catalog_parts::VENDOR_CARD_5@);
    let x = catalog_parts::VENDOR_CARD_4@ + website + catalog_parts::VENDOR_CARD_5@;
    texts::lemma_stands_with_four(s10, support, catalog_parts::VENDOR_CARD_6@, prefixes,
        catalog_parts::VENDOR_CARD_7@, x);
    texts::lemma_stands_with_four(s14, protocols, catalog_parts::VENDOR_CARD_8@, description,
        catalog_parts::VENDOR_CARD_9@, x);
    texts::lemma_stands_with_four(s18, count, catalog_parts::VENDOR_CARD_10@, products,
        catalog_parts::VENDOR_CARD_11@, x);
    texts::lemma_three_in_a_row(s9, catalog_parts::VENDOR_CARD_5@, support, catalog_parts::VENDOR_CARD_6@);
    let x = catalog_parts::VENDOR_CARD_5@ + support + catalog_parts::VENDOR_CARD_6@;
    texts::lemma_stands_with_four(s12, prefixes, catalog_parts::VENDOR_CARD_7@, protocols,
        catalog_parts::VENDOR_CARD_8@, x);
    texts::lemma_stands_with_four(s16, description, catalog_parts::VENDOR_CARD_9@, count,
        catalog_parts::VENDOR_CARD_10@, x);
    texts::lemma_stands_with_more(s20, products, x);
    texts::lemma_stands_with_more(s21, catalog_parts::VENDOR_CARD_11@, x);
    texts::lemma_three_in_a_row(s11, catalog_parts::VENDOR_CARD_6@, prefixes, catalog_parts::VENDOR_CARD_7@);
    let x = catalog_parts::VENDOR_CARD_6@ + prefixes + catalog_parts::VENDOR_CARD_7@;
    texts::lemma_stands_with_four(s14, protocols, catalog_parts::VENDOR_CARD_8@, description,
        catalog_parts::VENDOR_CARD_9@, x);
    texts::lemma_stands_with_four(s18, count, catalog_parts::VENDOR_CARD_10@, products,
        catalog_parts::VENDOR_CARD_11@, x);
    texts::lemma_three_in_a_row(s13, catalog_parts::VENDOR_CARD_7@, protocols, catalog_parts::VENDOR_CARD_8@);
    let x = catalog_parts::VENDOR_CARD_7@ + protocols + catalog_parts::VENDOR_CARD_8@;
    texts::lemma_stands_with_four(s16, description, catalog_parts::VENDOR_CARD_9@, count,
        catalog_parts::VENDOR_CARD_10@, x);
    texts::lemma_stands_with_more(s20, products, x);
    texts::lemma_stands_with_more(s21, catalog_parts::VENDOR_CARD_11@, x);
    texts::lemma_three_in_a_row(s15, catalog_parts::VENDOR_CARD_8@, description, catalog_parts::VENDOR_CARD_9@);
    let x = catalog_parts::VENDOR_CARD_8@ + description + catalog_parts::VENDOR_CARD_9@;
    texts::lemma_stands_with_four(s18, count, catalog_parts::VENDOR_CARD_10@, products,
        catalog_parts::VENDOR_CARD_11@, x);
    texts::lemma_three_in_a_row(s17, catalog_parts::VENDOR_CARD_9@, count, catalog_parts::VENDOR_CARD_10@);
    let x = catalog_parts::VENDOR_CARD_9@ + count + catalog_parts::VENDOR_CARD_10@;
    texts::lemma_stands_with_more(s20, products, x);
    texts::lemma_stands_with_more(s21, catalog_parts::VENDOR_CARD_11@, x);
    texts::lemma_three_in_a_row(s19, catalog_parts::VENDOR_CARD_10@, products, catalog_parts::VENDOR_CARD_11@);
}

/// In the catalog, the part `content` puts every value between its marks.
pub proof fn content_puts_values_in_place_in_catalog(
    vendors: Seq<char>,
    products: Seq<char>,
    matter: Seq<char>,
    cards: Seq<char>,
    options: Seq<char>,
)
    ensures
        ({
            let shown = catalog_parts::content_html(vendors, products, matter, cards, options);
            &&& text::has(shown, catalog_parts::CONTENT_0@ + vendors + catalog_parts::CONTENT_1@)
            &&& text::has(shown, catalog_parts::CONTENT_1@ + products + catalog_parts::CONTENT_2@)
            &&& text::has(shown, catalog_parts::CONTENT_2@ + matter + catalog_parts::CONTENT_3@)
            &&& text::has(shown, catalog_parts::CONTENT_3@ + cards + catalog_parts::CONTENT_4@)
            &&& text::has(shown, catalog_parts::CONTENT_4@ + options + catalog_parts::CONTENT_5@)
        }),
{
    let s0 = catalog_parts::CONTENT_0@;
    let s1 = s0 + vendors;
    let s2 = s1 + catalog_parts::CONTENT_1@;
    let s3 = s2 + products;
    let s4 = s3 + catalog_parts::CONTENT_2@;
    let s5 = s4 + matter;
    let s6 = s5 + catalog_parts::CONTENT_3@;
    let s7 = s6 + cards;
    let s8 = s7 + catalog_parts::CONTENT_4@;
    let s9 = s8 + options;
    let s10 = s9 + catalog_parts::CONTENT_5@;
    texts::lemma_three_in_a_row(Seq::empty(), catalog_parts::CONTENT_0@, vendors, catalog_parts::CONTENT_1@);
    assert(Seq::<char>::empty() + catalog_parts::CONTENT_0@ =~= catalog_parts::CONTENT_0@);
    let x = catalog_parts::CONTENT_0@ + vendors + catalog_parts::CONTENT_1@;
    texts::lemma_stands_with_four(s2, products, catalog_parts::CONTENT_2@, matter, catalog_parts::CONTENT_3@, x);
    texts::lemma_stands_with_four(s6, cards, catalog_parts::CONTENT_4@, options, catalog_parts::CONTENT_5@, x);
    texts::lemma_three_in_a_row(s1, catalog_parts::CONTENT_1@, products, catalog_parts::CONTENT_2@);
    let x = catalog_parts::CONTENT_1@ + products + catalog_parts::CONTENT_2@;
    texts::lemma_stands_with_four(s4, matter, catalog_parts::CONTENT_3@, cards, catalog_parts::CONTENT_4@, x);
    texts::lemma_stands_with_more(s8, options, x);
    texts::lemma_stands_with_more(s9, catalog_parts::CONTENT_5@, x);
    texts::lemma_three_in_a_row(s3, catalog_parts::CONTENT_2@, matter, catalog_parts::CONTENT_3@);
    let x = catalog_parts::CONTENT_2@ + matter + catalog_parts::CONTENT_3@;
    texts::lemma_stands_with_four(s6, cards, catalog_parts::CONTENT_4@, options, catalog_parts::CONTENT_5@, x);
    texts::lemma_three_in_a_row(s5, catalog_parts::CONTENT_3@, cards, catalog_parts::CONTENT_4@);
    let x = catalog_parts::CONTENT_3@ + cards + catalog_parts::CONTENT_4@;
    texts::lemma_stands_with_more(s8, options, x);
    texts::lemma_stands_with_more(s9, catalog_parts::CONTENT_5@, x);
    texts::lemma_three_in_a_row(s7, catalog_parts::CONTENT_4@, options, catalog_parts::CONTENT_5@);
}

/// In the rooms page, the part `content` puts every value between its marks.
pub proof fn content_puts_values_in_place_in_rooms_page(
    unassigned: Seq<char>,
    assigned: Seq<char>,
    total: Seq<char>,
    rooms: Seq<char>,
    devices: Seq<char>,
    light_groups: Seq<char>,
)
    ensures
        ({
            let shown = rooms_frame::content_html(unassigned, assigned, total, rooms, devices, light_groups);
            &&& text::has(shown, rooms_frame::CONTENT_0@ + unassigned + rooms_frame::CONTENT_1@)
            &&& text::has(shown, rooms_frame::CONTENT_1@ + assigned + rooms_frame::CONTENT_2@)
            &&& text::has(shown, rooms_frame::CONTENT_2@ + total + rooms_frame::CONTENT_3@)
            &&& text::has(shown, rooms_frame::CONTENT_4@ + rooms + rooms_frame::CONTENT_5@)
            &&& text::has(shown, rooms_frame::CONTENT_5@ + devices + rooms_frame::CONTENT_6@)
            &&& text::has(shown, rooms_frame::CONTENT_6@ + light_groups + rooms_frame::CONTENT_7@)
        }),
{
    let s0 = rooms_frame::CONTENT_0@;
    let s1 = s0 + unassigned;
    let s2 = s1 + rooms_frame::CONTENT_1@;
    let s3 = s2 + assigned;
    let s4 = s3 + rooms_frame::CONTENT_2@;
    let s5 = s4 + total;
    let s6 = s5 + rooms_frame::CONTENT_3@;
    let s7 = s6 + rooms_frame::CONTENT_4@;
    let s8 = s7 + rooms;
    let s9 = s8 + rooms_frame::CONTENT_5@;
    let s10 = s9 + devices;
    let s11 = s10 + rooms_frame::CONTENT_6@;
    let s12 = s11 + light_groups;
    let s13 = s12 + rooms_frame::CONTENT_7@;
    let s14 = s13 + rooms_frame::CONTENT_8@;
    let s15 = s14 + rooms_frame::CONTENT_9@;
    let s16 = s15 + rooms_frame::CONTENT_10@;
    texts::lemma_three_in_a_row(Seq::empty(), rooms_frame::CONTENT_0@, unassigned, rooms_frame::CONTENT_1@);
    assert(Seq::<char>::empty() + rooms_frame::CONTENT_0@ =~= rooms_frame::CONTENT_0@);
    let x = rooms_frame::CONTENT_0@ + unassigned + rooms_frame::CONTENT_1@;
    texts::lemma_stands_with_four(s2, assigned, rooms_frame::CONTENT_2@, total, rooms_frame::CONTENT_3@, x);
    texts::lemma_stands_with_four(s6, rooms_frame::CONTENT_4@, rooms, rooms_frame::CONTENT_5@, devices, x);
    texts::lemma_stands_with_four(s10, rooms_frame::CONTENT_6@, light_groups, rooms_frame::CONTENT_7@,
        rooms_frame::CONTENT_8@, x);
    texts::lemma_stands_with_more(s14, rooms_frame::CONTENT_9@, x);
    texts::lemma_stands_with_more(s15, rooms_frame::CONTENT_10@, x);
    texts::lemma_three_in_a_row(s1, rooms_frame::CONTENT_1@, assigned, rooms_frame::CONTENT_2@);
    let x = rooms_frame::CONTENT_1@ + assigned + rooms_frame::CONTENT_2@;
    texts::lemma_stands_with_four(s4, total, rooms_frame::CONTENT_3@, rooms_frame::CONTENT_4@, rooms, x);
    texts::lemma_stands_with_four(s8, rooms_frame::CONTENT_5@, devices, rooms_frame::CONTENT_6@, light_groups, x);
    texts::lemma_stands_with_four(s12, rooms_frame::CONTENT_7@, rooms_frame::CONTENT_8@, rooms_frame::CONTENT_9@,
        rooms_frame::CONTENT_10@, x);
    texts::lemma_three_in_a_row(s3, rooms_frame::CONTENT_2@, total, rooms_frame::CONTENT_3@);
    let x = rooms_frame::CONTENT_2@ + total + rooms_frame::CONTENT_3@;
    texts::lemma_stands_with_four(s6, rooms_frame::CONTENT_4@, rooms, rooms_frame::CONTENT_5@, devices, x);
    texts::lemma_stands_with_four(s10, rooms_frame::CONTENT_6@, light_groups, rooms_frame::CONTENT_7@,
        rooms_frame::CONTENT_8@, x);
    texts::lemma_stands_with_more(s14, rooms_frame::CONTENT_9@, x);
    texts::lemma_stands_with_more(s15, rooms_frame::CONTENT_10@, x);
    texts::lemma_three_in_a_row(s6, rooms_frame::CONTENT_4@, rooms, rooms_frame::CONTENT_5@);
    let x = rooms_frame::CONTENT_4@ + rooms + rooms_frame::CONTENT_5@;
    texts::lemma_stands_with_four(s9, devices, rooms_frame::CONTENT_6@, light_groups, rooms_frame::CONTENT_7@, x);
    texts::lemma_stands_with_more(s13, rooms_frame::CONTENT_8@, x);
    texts::lemma_stands_with_more(s14, rooms_frame::CONTENT_9@, x);
    texts::lemma_stands_with_more(s15, rooms_frame::CONTENT_10@, x);
    texts::lemma_three_in_a_row(s8, rooms_frame::CONTENT_5@, devices, rooms_frame::CONTENT_6@);
    let x = rooms_frame::CONTENT_5@ + devices + rooms_frame::CONTENT_6@;
    texts::lemma_stands_with_four(s11, light_groups, rooms_frame::CONTENT_7@, rooms_frame::CONTENT_8@,
        rooms_frame::CONTENT_9@, x);
    texts::lemma_stands_with_more(s15, rooms_frame::CONTENT_10@, x);
    texts::lemma_three_in_a_row(s10, rooms_frame::CONTENT_6@, light_groups, rooms_frame::CONTENT_7@);
    let x = rooms_frame::CONTENT_6@ + light_groups + rooms_frame::CONTENT_7@;
    texts::lemma_stands_with_more(s13, rooms_frame::CONTENT_8@, x);
    texts::lemma_stands_with_more(s14, rooms_frame::CONTENT_9@, x);
    texts::lemma_stands_with_more(s15, rooms_frame::CONTENT_10@, x);
}

}
