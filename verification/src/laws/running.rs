//! How the server and the daemon start, and what they keep.

use vstd::prelude::*;

use crate::html;
use crate::laws::texts;
use crate::matterd;
use crate::matterd::{OnOffPersistentState, StartUpOnOff};
use crate::startup;
use crate::text;

verus! {

broadcast use vstd::string::group_string_axioms;

/// An address of host and port is served at that port; one without a port at the usual one. The
/// message that the server is ready names the address and the port.
pub proof fn the_port_of_the_address_is_served(host: Seq<char>, port: Seq<char>, local: Seq<char>)
    requires
        !host.contains(':'),
        !port.contains(':'),
    ensures
        startup::listen_port(host + seq![':'] + port) == port,
        startup::listen_port(host) == "8080"@,
        text::has(startup::ready_message(host + seq![':'] + port, local), "http://"@ + local + ":"@ + port),
        text::has(startup::ready_message(host + seq![':'] + port, local), host + seq![':'] + port),
{
    let addr = host + seq![':'] + port;
    texts::lemma_split_piece(host, ':');
    texts::lemma_split_more(host, port, ':');
    reveal_strlit(" (http://");
    reveal_strlit("http://");
    reveal_strlit(" (");
    let place = "http://"@ + local + ":"@ + port;
    let message = startup::ready_message(addr, local);
    assert(" (http://"@ =~= " ("@ + "http://"@);
    assert(message =~= ("Serving status page on "@ + addr + " ("@) + place + ")"@);
    texts::lemma_stands_between("Serving status page on "@ + addr + " ("@, place, ")"@);
    assert(message =~= "Serving status page on "@ + addr + (" (http://"@ + local + ":"@ + port + ")"@));
    texts::lemma_stands_between("Serving status page on "@, addr, " (http://"@ + local + ":"@ + port + ")"@);
}

/// A setting that is a number is taken; anything else leaves the default.
pub proof fn settings_are_read(n: nat, default: nat, max: nat, junk: Seq<char>)
    requires
        forall|c: char| junk.contains(c) ==> !('0' <= c <= '9'),
    ensures
        n <= max ==> matterd::setting(Some(text::decimal(n)), default, max) == n,
        n > max ==> matterd::setting(Some(text::decimal(n)), default, max) == default,
        matterd::setting(Some(junk), default, max) == default,
        matterd::setting(None, default, max) == default,
{
    texts::written_numbers_are_read_back(n, n);
    if n <= max {
        texts::written_numbers_are_read_back(n, max);
    }
    let digits = if junk.len() > 0 && junk[0] == '+' {
        junk.drop_first()
    } else {
        junk
    };
    if digits.len() > 0 && text::all_digits(digits) {
        assert(text::is_digit(digits[0]));
        if digits == junk {
            assert(junk.contains(junk[0]));
        } else {
            assert(junk.contains(junk[1]));
        }
    }
}

/// The last bit of the byte says whether the light is on, the rest how it starts.
pub proof fn the_byte_tells_the_light(state: OnOffPersistentState)
    ensures
        matterd::encoded(state) % 2 == (if state.on_off {
            1int
        } else {
            0int
        }),
        matterd::encoded(state) / 2 == (match state.start_up_on_off {
            Some(StartUpOnOff::Off) => 0int,
            Some(StartUpOnOff::On) => 1int,
            Some(StartUpOnOff::Toggle) => 2int,
            None => 3int,
        }),
{
}

/// A light of which nothing usable was kept is off.
pub proof fn forgotten_lights_are_off(data: u8)
    ensures
        !matterd::restored(None).on_off,
        matterd::restored(None).start_up_on_off is None,
        data >= 8 ==> !matterd::restored(Some(data)).on_off && matterd::restored(Some(data)).start_up_on_off is None,
        data < 8 ==> matterd::restored(Some(data)).on_off == (data % 2 == 1),
{
    if data < 8 {
        let start_up = if data / 2 == 0 {
            Some(StartUpOnOff::Off)
        } else if data / 2 == 1 {
            Some(StartUpOnOff::On)
        } else if data / 2 == 2 {
            Some(StartUpOnOff::Toggle)
        } else {
            None
        };
        let state = OnOffPersistentState { on_off: data % 2 == 1, start_up_on_off: start_up };
        assert(matterd::encoded(state) == data);
        matterd::bytes_are_unambiguous(state, matterd::restored(Some(data)));
    }
}

/// A daemon that is not paired yet tells its pin and its discriminator; one that is paired tells
/// neither.
pub proof fn only_an_unpaired_daemon_tells_its_pin(
    dir: Seq<char>,
    file: Seq<char>,
    pin: u32,
    discriminator: u16,
    paired: bool,
)
    ensures
        ({
            let lines = matterd::startup_lines(dir, file, pin, discriminator, paired);
            &&& lines.contains("state directory: "@ + dir)
            &&& lines.contains("state file: "@ + file)
            &&& !paired ==> lines.contains("setup pin: "@ + text::decimal(pin as nat))
            &&& !paired ==> lines.contains("discriminator: "@ + text::decimal(discriminator as nat))
            &&& !paired ==> lines.contains("commissioned: false"@)
            &&& paired ==> lines.contains("commissioned: true"@)
            &&& paired ==> !lines.contains("setup pin: "@ + text::decimal(pin as nat))
            &&& paired ==> !lines.contains("discriminator: "@ + text::decimal(discriminator as nat))
        }),
{
    let lines = matterd::startup_lines(dir, file, pin, discriminator, paired);
    reveal_strlit("commissioned: false");
    reveal_strlit("commissioned: true");
    reveal_strlit("commissioned: ");
    reveal_strlit("true");
    reveal_strlit("false");
    reveal_strlit("setup pin: ");
    reveal_strlit("discriminator: ");
    reveal_strlit("state directory: ");
    reveal_strlit("state file: ");
    reveal_strlit("starting rs-matterd");
    reveal_strlit("device: vendor='HomeNode' product='rs-matterd' node='HomeNodeServer'");
    let told = "setup pin: "@ + text::decimal(pin as nat);
    let also = "discriminator: "@ + text::decimal(discriminator as nat);
    assert(lines[1] == "state directory: "@ + dir);
    assert(lines[2] == "state file: "@ + file);
    assert(lines[4] == "commissioned: "@ + text::bool_word(paired));
    if paired {
        assert("commissioned: "@ + "true"@ =~= "commissioned: true"@);
        assert(told[1] == 'e' && also[1] == 'i' && told[0] == 's' && also[0] == 'd');
        assert(lines[0][1] == 't' && lines[1][1] == 't' && lines[2][1] == 't' && lines[4][1] == 'o' && lines[4][0] == 'c');
        assert(lines[3][0] == 'd' && lines[3][1] == 'e');
        assert(lines.len() == 5);
        assert forall|k: int| 0 <= k < 5 implies lines[k] != told && lines[k] != also by {
            assert(k == 0 || k == 1 || k == 2 || k == 3 || k == 4);
        }
    } else {
        assert("commissioned: "@ + "false"@ =~= "commissioned: false"@);
        assert(lines[5] == told);
        assert(lines[6] == also);
    }
}

/// Characters that have a meaning in markup are written by their names, and every other character
/// stays as it is.
pub proof fn markup_is_written_by_name(s: Seq<char>, c: char)
    ensures
        html::escaped(Seq::empty()).len() == 0,
        html::escaped(s.push('&')) == html::escaped(s) + "&amp;"@,
        html::escaped(s.push('<')) == html::escaped(s) + "&lt;"@,
        html::escaped(s.push('>')) == html::escaped(s) + "&gt;"@,
        html::escaped(s.push('"')) == html::escaped(s) + "&quot;"@,
        c != '&' && c != '<' && c != '>' && c != '"' ==> html::escaped(s.push(c)) == html::escaped(s).push(c),
{
    assert(s.push('&').drop_last() =~= s);
    assert(s.push('<').drop_last() =~= s);
    assert(s.push('>').drop_last() =~= s);
    assert(s.push('"').drop_last() =~= s);
    assert(s.push(c).drop_last() =~= s);
    assert(Seq::<char>::empty().len() == 0);
    assert(html::escaped(s) + seq![c] =~= html::escaped(s).push(c));
}

/// What is not configured is as usual.
pub proof fn the_usual_configuration_serves_everywhere()
    ensures
        startup::default_config().listen_addr == "0.0.0.0:8080"@,
        startup::default_config().status_title == "HomeNode Server"@,
        startup::listen_port(startup::default_config().listen_addr) == "8080"@,
        startup::connect_tries() == 30,
{
    reveal_strlit("0.0.0.0:8080");
    reveal_strlit("0.0.0.0");
    reveal_strlit("8080");
    assert("0.0.0.0:8080"@ =~= "0.0.0.0"@ + seq![':'] + "8080"@);
    assert(!"0.0.0.0"@.contains(':'));
    assert(!"8080"@.contains(':'));
    the_port_of_the_address_is_served("0.0.0.0"@, "8080"@, ""@);
}

/// The first group joins two of the lights that are looked for, in one room.
pub proof fn the_first_group_joins_two_lights()
    ensures
        startup::first_group().id == "group-wohnzimmer-vorhaenge"@,
        startup::first_group().name == "Wohnzimmer Vorhänge"@,
        startup::first_group().room == "Wohnzimmer"@,
        startup::first_group().icon == Some("✨"@),
        startup::first_group().device_ids == seq!["net-192-168-178-42"@, "net-192-168-178-43"@],
        startup::light_addresses() == seq![
            "192.168.178.40"@,
            "192.168.178.41"@,
            "192.168.178.42"@,
            "192.168.178.43"@,
        ],
{
}

/// The first byte counts least: a byte more in front makes all others count more by its range.
pub proof fn the_first_byte_counts_least(a: u8, b: u8, c: u8, d: u8)
    ensures
        matterd::little_endian(seq![a, b, c, d]) % 256 == a,
        matterd::little_endian(seq![0u8, a, b, c]) == 256 * matterd::little_endian(seq![a, b, c, 0u8]),
        matterd::little_endian(seq![a, b, c, d]) == a + matterd::little_endian(seq![0u8, b, c, d]),
{
    let s = seq![a, b, c, d];
    assert(s[0] == a && s[1] == b && s[2] == c && s[3] == d);
    let t = seq![0u8, a, b, c];
    assert(t[0] == 0 && t[1] == a && t[2] == b && t[3] == c);
    let u = seq![a, b, c, 0u8];
    assert(u[0] == a && u[1] == b && u[2] == c && u[3] == 0);
    let v = seq![0u8, b, c, d];
    assert(v[0] == 0 && v[1] == b && v[2] == c && v[3] == d);
}

/// The lines of the daemon that only beats tell where it keeps its state, the port and the interval.
pub proof fn the_beating_daemon_tells_its_settings(dir: Seq<char>, port: u16, secs: u64)
    ensures
        ({
            let lines = matterd::heartbeat_lines(dir, port, secs);
            &&& lines.contains("state directory: "@ + dir)
            &&& text::has(lines[2], text::decimal(port as nat))
            &&& lines.contains("heartbeat interval: "@ + text::decimal(secs as nat) + "s"@)
        }),
{
    let lines = matterd::heartbeat_lines(dir, port, secs);
    assert(lines[1] == "state directory: "@ + dir);
    assert(lines[3] == "heartbeat interval: "@ + text::decimal(secs as nat) + "s"@);
    texts::lemma_stands_at_the_end("default Matter port reserved for future integration: "@, text::decimal(port as nat));
}

}
