//! The frame round every page.

use vstd::prelude::*;

use crate::laws::texts;
use crate::pages::layout;
use crate::text;

verus! {

broadcast use vstd::string::group_string_axioms;

/// What stands in the content stands on the page, and so does the title.
pub proof fn pages_hold_their_content(title: Seq<char>, tab: Seq<char>, content: Seq<char>, part: Seq<char>)
    requires
        text::has(content, part),
    ensures
        text::has(layout::page(title, tab, content), part),
        text::has(layout::page(title, tab, content), title),
{
    let s0 = layout::FRAME_0@ + title;
    texts::lemma_stands_between(layout::FRAME_0@, title, Seq::empty());
    assert(s0 + Seq::<char>::empty() =~= s0);
    let s1 = s0 + layout::FRAME_1@;
    texts::lemma_stands_with_more(s0, layout::FRAME_1@, title);
    let s2 = s1 + title;
    texts::lemma_stands_with_more(s1, title, title);
    let s3 = s2 + layout::FRAME_2@;
    texts::lemma_stands_with_more(s2, layout::FRAME_2@, title);
    let s4 = s3 + layout::mark(tab, "dashboard"@);
    texts::lemma_stands_with_more(s3, layout::mark(tab, "dashboard"@), title);
    let s5 = s4 + layout::FRAME_3@;
    texts::lemma_stands_with_more(s4, layout::FRAME_3@, title);
    let s6 = s5 + layout::mark(tab, "devices"@);
    texts::lemma_stands_with_more(s5, layout::mark(tab, "devices"@), title);
    let s7 = s6 + layout::FRAME_4@;
    texts::lemma_stands_with_more(s6, layout::FRAME_4@, title);
    let s8 = s7 + layout::mark(tab, "rooms"@);
    texts::lemma_stands_with_more(s7, layout::mark(tab, "rooms"@), title);
    let s9 = s8 + layout::FRAME_5@;
    texts::lemma_stands_with_more(s8, layout::FRAME_5@, title);
    let s10 = s9 + layout::mark(tab, "energy"@);
    texts::lemma_stands_with_more(s9, layout::mark(tab, "energy"@), title);
    let s11 = s10 + layout::FRAME_6@;
    texts::lemma_stands_with_more(s10, layout::FRAME_6@, title);
    let s12 = s11 + layout::mark(tab, "matter"@);
    texts::lemma_stands_with_more(s11, layout::mark(tab, "matter"@), title);
    let s13 = s12 + layout::FRAME_7@;
    texts::lemma_stands_with_more(s12, layout::FRAME_7@, title);
    let s14 = s13 + layout::mark(tab, "catalog"@);
    texts::lemma_stands_with_more(s13, layout::mark(tab, "catalog"@), title);
    let s15 = s14 + layout::FRAME_8@;
    texts::lemma_stands_with_more(s14, layout::FRAME_8@, title);
    let s16 = s15 + layout::mark(tab, "status"@);
    texts::lemma_stands_with_more(s15, layout::mark(tab, "status"@), title);
    let s17 = s16 + layout::FRAME_9@;
    texts::lemma_stands_with_more(s16, layout::FRAME_9@, title);
    texts::lemma_stands_with_more(s17, content, title);
    texts::lemma_stands_with_more(s17 + content, layout::FRAME_10@, title);
    texts::lemma_stands_in_the_whole(s17, content, layout::FRAME_10@, part);
}

/// The entry of the navigation that is open is marked, and no other.
pub proof fn only_the_open_tab_is_marked(tab: Seq<char>, name: Seq<char>)
    ensures
        tab == name ==> layout::mark(tab, name) == "class=\"active\""@,
        tab != name ==> layout::mark(tab, name).len() == 0,
{
    reveal_strlit("");
}

}
