//! Reaching devices: which address is asked, in which ways, and what is answered.

use vstd::prelude::*;

use crate::device::DeviceModel;
use crate::history;
use crate::json;
use crate::laws::texts;
use crate::ping;
use crate::ping::{PingErrorModel, Probe, RunModel};
use crate::text;

verus! {

broadcast use vstd::string::group_string_axioms;

/// The address that four numbers make.
pub open spec fn address(a: nat, b: nat, c: nat, d: nat) -> Seq<char> {
    text::decimal(a) + seq!['.'] + text::decimal(b) + seq!['.'] + text::decimal(c) + seq!['.'] + text::decimal(d)
}

/// What counts as an address is four numbers of at most 255, with dots between them and without
/// leading zeros.
pub proof fn addresses_are_four_numbers(s: Seq<char>)
    requires
        text::is_ipv4(s),
    ensures
        exists|a: nat, b: nat, c: nat, d: nat|
            a <= 255 && b <= 255 && c <= 255 && d <= 255 && s == #[trigger] address(a, b, c, d),
{
    let parts = text::split_at_char(s, '.');
    texts::pieces_make_up_the_text(s, '.');
    let dot = seq!['.'];
    let a = text::digits_value(parts[0]);
    let b = text::digits_value(parts[1]);
    let c = text::digits_value(parts[2]);
    let d = text::digits_value(parts[3]);
    texts::octets_are_numbers(parts[0]);
    texts::octets_are_numbers(parts[1]);
    texts::octets_are_numbers(parts[2]);
    texts::octets_are_numbers(parts[3]);
    let three = parts.drop_last();
    let two = three.drop_last();
    let one = two.drop_last();
    assert(one.len() == 1 && one[0] == parts[0]);
    assert(text::joined(one, dot) == parts[0]);
    assert(two.last() == parts[1]);
    assert(text::joined(two, dot) == parts[0] + dot + parts[1]);
    assert(three.last() == parts[2]);
    assert(text::joined(three, dot) == parts[0] + dot + parts[1] + dot + parts[2]);
    assert(s == address(a, b, c, d));
}

/// Four numbers of at most 255 with dots between them are an address.
pub proof fn four_numbers_are_an_address(a: nat, b: nat, c: nat, d: nat)
    requires
        a <= 255,
        b <= 255,
        c <= 255,
        d <= 255,
    ensures
        text::is_ipv4(address(a, b, c, d)),
{
    let dot = seq!['.'];
    let (w, x, y, z) = (text::decimal(a), text::decimal(b), text::decimal(c), text::decimal(d));
    texts::numbers_are_octets(a);
    texts::numbers_are_octets(b);
    texts::numbers_are_octets(c);
    texts::numbers_are_octets(d);
    texts::lemma_split_piece(w, '.');
    texts::lemma_split_more(w, x, '.');
    texts::lemma_split_more(w + dot + x, y, '.');
    texts::lemma_split_more(w + dot + x + dot + y, z, '.');
}

/// `d` is the device that is asked for: by its id or by its MAC address.
pub open spec fn meant(d: DeviceModel, id: Seq<char>) -> bool {
    d.device_id == id || (d.metadata.contains_key("mac"@) && d.metadata["mac"@] == id)
}

/// The address that the first device that is meant reports is asked; only where none is reported the
/// one that is remembered, and only where none is remembered the one that the id spells.
pub proof fn reported_addresses_come_first(
    devices: Seq<DeviceModel>,
    id: Seq<char>,
    remembered: Option<Seq<char>>,
    j: int,
)
    requires
        0 <= j < devices.len(),
        meant(devices[j], id),
        forall|i: int| 0 <= i < j ==> !meant(#[trigger] devices[i], id),
    ensures
        ({
            let chosen = ping::ping_address(ping::reported_ip(devices, id), remembered, ping::spelled_ip(id));
            let d = devices[j];
            &&& d.metadata.contains_key("ip"@) ==> chosen == Some(d.metadata["ip"@])
            &&& !d.metadata.contains_key("ip"@) && remembered is Some ==> chosen == remembered
            &&& !d.metadata.contains_key("ip"@) && remembered is None ==> chosen == ping::spelled_ip(id)
        }),
{
    lemma_asked(devices, id, j);
}

proof fn lemma_asked(devices: Seq<DeviceModel>, id: Seq<char>, j: int)
    requires
        0 <= j < devices.len(),
        meant(devices[j], id),
        forall|i: int| 0 <= i < j ==> !meant(#[trigger] devices[i], id),
    ensures
        ping::asked_device(devices, id) == Some(devices[j]),
    decreases devices.len(),
{
    let rest = devices.drop_last();
    if j < devices.len() - 1 {
        assert(rest[j] == devices[j]);
        assert forall|i: int| 0 <= i < j implies !meant(#[trigger] rest[i], id) by {
            assert(rest[i] == devices[i]);
        }
        lemma_asked(rest, id, j);
    } else {
        assert forall|i: int| 0 <= i < rest.len() implies !meant(#[trigger] rest[i], id) by {
            assert(rest[i] == devices[i]);
        }
        lemma_nobody(rest, id);
    }
}

proof fn lemma_nobody(devices: Seq<DeviceModel>, id: Seq<char>)
    requires
        forall|i: int| 0 <= i < devices.len() ==> !meant(#[trigger] devices[i], id),
    ensures
        ping::asked_device(devices, id) is None,
    decreases devices.len(),
{
    if devices.len() > 0 {
        let rest = devices.drop_last();
        assert(devices[devices.len() - 1] == devices.last());
        assert forall|i: int| 0 <= i < rest.len() implies !meant(#[trigger] rest[i], id) by {
            assert(rest[i] == devices[i]);
        }
        lemma_nobody(rest, id);
    }
}

/// Of a device that nobody reports, the remembered address is asked, else the one that its id spells.
pub proof fn unreported_devices_are_asked_where_they_were(
    devices: Seq<DeviceModel>,
    id: Seq<char>,
    remembered: Option<Seq<char>>,
)
    requires
        forall|i: int| 0 <= i < devices.len() ==> !meant(#[trigger] devices[i], id),
    ensures
        ({
            let chosen = ping::ping_address(ping::reported_ip(devices, id), remembered, ping::spelled_ip(id));
            &&& remembered is Some ==> chosen == remembered
            &&& remembered is None ==> chosen == ping::spelled_ip(id)
        }),
{
    lemma_nobody(devices, id);
}

/// An id that spells an address, with hyphens in place of the dots, spells that address and no other.
pub proof fn ids_spell_addresses(id: Seq<char>, a: nat, b: nat, c: nat, d: nat)
    requires
        a <= 255,
        b <= 255,
        c <= 255,
        d <= 255,
        id == "net-"@ + text::decimal(a) + seq!['-'] + text::decimal(b) + seq!['-'] + text::decimal(c) + seq!['-']
            + text::decimal(d),
    ensures
        ping::spelled_ip(id) == Some(address(a, b, c, d)),
{
    let (w, x, y, z) = (text::decimal(a), text::decimal(b), text::decimal(c), text::decimal(d));
    let rest = w + seq!['-'] + x + seq!['-'] + y + seq!['-'] + z;
    let ip = address(a, b, c, d);
    reveal_strlit("net-");
    texts::numbers_are_octets(a);
    texts::numbers_are_octets(b);
    texts::numbers_are_octets(c);
    texts::numbers_are_octets(d);
    assert(id =~= "net-"@ + rest);
    assert(!rest.contains('n')) by {
        if rest.contains('n') {
            let i = rest.index_of('n');
            assert(rest[i] == 'n');
            lemma_no_letter(w, x, y, z, i);
        }
    }
    texts::lemma_mark_removed("net-"@, rest);
    assert("net-"@.is_prefix_of(id)) by {
        assert(id.subrange(0, 4) =~= "net-"@);
    }
    texts::lemma_hyphens(rest);
    let got = text::char_replaced(rest, '-', "."@);
    assert forall|i: int| 0 <= i < ip.len() implies got[i] == ip[i] by {
        lemma_spelled(w, x, y, z, i);
    }
    assert(got =~= ip);
    four_numbers_are_an_address(a, b, c, d);
}

proof fn lemma_no_letter(w: Seq<char>, x: Seq<char>, y: Seq<char>, z: Seq<char>, i: int)
    requires
        text::all_digits(w) && text::all_digits(x) && text::all_digits(y) && text::all_digits(z),
        0 <= i < (w + seq!['-'] + x + seq!['-'] + y + seq!['-'] + z).len(),
    ensures
        (w + seq!['-'] + x + seq!['-'] + y + seq!['-'] + z)[i] != 'n',
{
    let s = w + seq!['-'] + x + seq!['-'] + y + seq!['-'] + z;
    let n1 = w.len() as int;
    let n2 = n1 + 1 + x.len();
    let n3 = n2 + 1 + y.len();
    if i < n1 {
        assert(text::is_digit(w[i]));
    } else if n1 < i < n2 {
        assert(text::is_digit(x[i - n1 - 1]));
    } else if n2 < i < n3 {
        assert(text::is_digit(y[i - n2 - 1]));
    } else if n3 < i {
        assert(text::is_digit(z[i - n3 - 1]));
    }
}

proof fn lemma_spelled(w: Seq<char>, x: Seq<char>, y: Seq<char>, z: Seq<char>, i: int)
    requires
        text::all_digits(w) && text::all_digits(x) && text::all_digits(y) && text::all_digits(z),
        0 <= i < (w + seq!['-'] + x + seq!['-'] + y + seq!['-'] + z).len(),
    ensures
        ({
            let s = (w + seq!['-'] + x + seq!['-'] + y + seq!['-'] + z)[i];
            (w + seq!['.'] + x + seq!['.'] + y + seq!['.'] + z)[i] == (if s == '-' { '.' } else { s })
        }),
{
    let n1 = w.len() as int;
    let n2 = n1 + 1 + x.len();
    let n3 = n2 + 1 + y.len();
    if i < n1 {
        assert(text::is_digit(w[i]));
    } else if n1 < i < n2 {
        assert(text::is_digit(x[i - n1 - 1]));
    } else if n2 < i < n3 {
        assert(text::is_digit(y[i - n2 - 1]));
    } else if n3 < i {
        assert(text::is_digit(z[i - n3 - 1]));
    }
}

/// A device is asked by ping first, and only where that fails at ports, none of them twice.
pub proof fn ping_comes_first_and_no_way_twice(i: int, j: int)
    requires
        0 <= i < j < ping::probes().len(),
    ensures
        ping::probes()[0] == Probe::Echo,
        ping::probes()[j] is Tcp,
        ping::probes()[i] != ping::probes()[j],
        ping::probes().contains(Probe::Tcp(80)) && ping::probes().contains(Probe::Tcp(443)) && ping::probes().contains(
            Probe::Tcp(22),
        ),
{
    assert(ping::probes()[1] == Probe::Tcp(80));
    assert(ping::probes()[2] == Probe::Tcp(443));
    assert(ping::probes()[4] == Probe::Tcp(22));
}

/// A run that was answered asks no more; one that was not goes on with the next way.
pub proof fn runs_go_on_until_answered(run: RunModel, answered: bool)
    requires
        0 <= run.tried <= ping::probes().len(),
    ensures
        run.answered ==> ping::next_of(run) is None && ping::run_step(run, answered) == run,
        !run.answered && run.tried < ping::probes().len() ==> ping::next_of(run) == Some(ping::probes()[run.tried])
            && ping::run_step(run, answered) == (RunModel { tried: run.tried + 1, answered }),
        !run.answered && run.tried == ping::probes().len() ==> ping::next_of(run) is None,
        ping::run_start().tried == 0 && !ping::run_start().answered,
{
}

/// What is told of a device that answered names the way and the time; of one that did not, it says
/// that it did not respond.
pub proof fn answers_are_told(rtt: Seq<char>, method: Seq<char>)
    ensures
        text::has(ping::answer_message(true, Some(rtt), method), rtt),
        text::has(ping::answer_message(true, Some(rtt), method), method),
        text::has(ping::answer_message(true, None, method), method),
        text::has(ping::answer_message(true, Some(rtt), method), "Online"@),
        text::has(ping::answer_message(true, None, method), "Online"@),
        text::has(ping::answer_message(false, Some(rtt), method), "did not respond"@),
        text::has(ping::answer_message(false, None, method), "did not respond"@),
{
    reveal_strlit("Online (reply in ");
    reveal_strlit("Online (responded via ");
    reveal_strlit("Online");
    reveal_strlit("did not respond");
    reveal_strlit("Device did not respond to ping or TCP probes (100% packet loss)");
    let one = ping::answer_message(true, Some(rtt), method);
    let two = ping::answer_message(true, None, method);
    let no = "Device did not respond to ping or TCP probes (100% packet loss)"@;
    assert(one =~= "Online (reply in "@ + rtt + (" ms via "@ + method + ")"@));
    texts::lemma_stands_between("Online (reply in "@, rtt, " ms via "@ + method + ")"@);
    assert(one =~= ("Online (reply in "@ + rtt + " ms via "@) + method + ")"@);
    texts::lemma_stands_between("Online (reply in "@ + rtt + " ms via "@, method, ")"@);
    texts::lemma_stands_between("Online (responded via "@, method, ")"@);
    assert(one.subrange(0, 6) =~= "Online"@);
    assert(text::occurs_at(one, "Online"@, 0));
    assert(two.subrange(0, 6) =~= "Online"@);
    assert(text::occurs_at(two, "Online"@, 0));
    assert(no.subrange(7, 22) =~= "did not respond"@);
    assert(text::occurs_at(no, "did not respond"@, 7));
}

/// An address that is none is refused, and an unknown one is told as unknown.
pub proof fn only_addresses_are_asked(address: Option<Seq<char>>)
    ensures
        address is None ==> ping::checked_address(address) == Err::<Seq<char>, PingErrorModel>(PingErrorModel::IpNotFound),
        address is Some && text::is_ipv4(address->0) ==> ping::checked_address(address) == Ok::<
            Seq<char>,
            PingErrorModel,
        >(address->0),
        address is Some && !text::is_ipv4(address->0) ==> ping::checked_address(address) == Err::<Seq<char>, PingErrorModel>(
            PingErrorModel::InvalidIp(address->0),
        ),
{
}

/// The time of an answer is what stands behind the first mark for it, up to the unit and without the space
/// around it; an answer without the mark tells none.
pub proof fn the_time_of_an_answer_is_read(before: Seq<char>, time: Seq<char>, after: Seq<char>)
    requires
        forall|i: int|
            0 <= i < before.len() ==> !#[trigger] text::occurs_at(before + "time="@ + time + " ms"@ + after, "time="@, i),
        !time.contains(' '),
    ensures
        ping::round_trip(before + "time="@ + time + " ms"@ + after) == Some(text::trimmed(time)),
        !text::has(before, "time="@) ==> ping::round_trip(before) is None,
{
    reveal_strlit("time=");
    reveal_strlit(" ms");
    let output = before + "time="@ + time + " ms"@ + after;
    let n = before.len() as int;
    assert(output.subrange(n, n + 5) =~= "time="@);
    texts::lemma_first_place(output, "time="@, 0, n);
    let rest = output.skip(n + 5);
    let m = time.len() as int;
    assert(rest =~= time + " ms"@ + after);
    assert(rest.subrange(m, m + 3) =~= " ms"@);
    assert forall|i: int| 0 <= i < m implies !#[trigger] text::occurs_at(rest, " ms"@, i) by {
        if text::occurs_at(rest, " ms"@, i) {
            assert(rest.subrange(i, i + 3)[0] == ' ');
            assert(time[i] == ' ');
        }
    }
    texts::lemma_first_place(rest, " ms"@, 0, m);
    assert(rest.take(m) =~= time);
    text::lemma_found(before, "time="@, 0);
}

/// The history is asked under the device's plain id; without a history, and with a text that is none,
/// nothing is remembered.
pub proof fn addresses_are_looked_up_in_the_history(content: Seq<char>, id: Seq<char>)
    ensures
        ping::remembered_in(None, id) is None,
        json::parsed(content) is None ==> ping::remembered_in(Some(content), id) is None,
        json::parsed(content) is Some ==> ping::remembered_in(Some(content), id) == history::remembered_ip(
            json::parsed(content)->0,
            history::plain_id(id),
        ),
{
}

/// What is said of an address that is none names it.
pub proof fn refused_addresses_are_named(ip: Seq<char>)
    ensures
        text::has(ping::invalid_ip_message(ip), ip),
        text::has(ping::invalid_ip_message(ip), "Invalid IP address"@),
{
    reveal_strlit("Invalid IP address '");
    reveal_strlit("Invalid IP address");
    texts::lemma_stands_between("Invalid IP address '"@, ip, "'"@);
    let s = ping::invalid_ip_message(ip);
    assert(s.subrange(0, 18) =~= "Invalid IP address"@);
    assert(text::occurs_at(s, "Invalid IP address"@, 0));
}

/// A way to ask goes by its protocol, and by its port where it has one.
pub proof fn ways_go_by_their_protocol(port: u16)
    ensures
        ping::probe_name(Probe::Echo) == "icmp"@,
        ping::probe_name(Probe::Tcp(port)) == "tcp:"@ + text::decimal(port as nat),
        ping::probes() == seq![
            Probe::Echo,
            Probe::Tcp(80),
            Probe::Tcp(443),
            Probe::Tcp(8080),
            Probe::Tcp(22),
            Probe::Tcp(62078),
            Probe::Tcp(5000),
            Probe::Tcp(5353),
        ],
{
}

/// The way that was answered is the last one that was tried; without an answer there is none.
pub proof fn the_answered_way_is_told(run: RunModel)
    requires
        1 <= run.tried <= ping::probes().len(),
    ensures
        run.answered ==> ping::run_method(run) == ping::probe_name(ping::probes()[run.tried - 1]),
        !run.answered ==> ping::run_method(run).len() == 0,
{
}

}
