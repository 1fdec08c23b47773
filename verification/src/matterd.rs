//! The Matter light daemon: its settings, its log and the state of its light.

use vstd::prelude::*;

use crate::text;

verus! {

broadcast use vstd::string::group_string_axioms;

// ---------------------------------------------------------------------------------------
// Settings
// ---------------------------------------------------------------------------------------

/// The pin with which the daemon is paired where no other is set.
pub const DEFAULT_SETUP_PIN: u32 = 20_202_021;

/// The discriminator of the daemon where no other is set.
pub const DEFAULT_DISCRIMINATOR: u16 = 3840;

/// The seconds between two signs of life where no other number is set.
pub const DEFAULT_HEARTBEAT_SECS: u64 = 60;

/// The number that a setting gives: what it says where it says a number of at most `max`, else
/// `default`.
pub open spec fn setting(value: Option<Seq<char>>, default: nat, max: nat) -> nat {
    match value {
        Some(s) => match text::parsed_unsigned(s, max) {
            Some(n) => n,
            None => default,
        },
        None => default,
    }
}

/// The number of a setting. `value` is what is set, if anything is.
pub fn read_u64(value: Option<&str>, default: u64) -> (r: u64)
    ensures
        r == setting(value.deep_view(), default as nat, u64::MAX as nat),
{
    match value {
        Some(s) => match text::parse_unsigned(s, u64::MAX) {
            Some(n) => n,
            None => default,
        },
        None => default,
    }
}

/// The number of a setting. `value` is what is set, if anything is.
pub fn read_u32(value: Option<&str>, default: u32) -> (r: u32)
    ensures
        r == setting(value.deep_view(), default as nat, u32::MAX as nat),
{
    match value {
        Some(s) => match text::parse_unsigned(s, 4294967295) {
            Some(n) => n as u32,
            None => default,
        },
        None => default,
    }
}

/// The number of a setting. `value` is what is set, if anything is.
pub fn read_u16(value: Option<&str>, default: u16) -> (r: u16)
    ensures
        r == setting(value.deep_view(), default as nat, u16::MAX as nat),
{
    match value {
        Some(s) => match text::parse_unsigned(s, 65535) {
            Some(n) => n as u16,
            None => default,
        },
        None => default,
    }
}

/// The directory in which the daemon keeps its state.
pub fn state_dir(value: Option<String>) -> (r: String)
    ensures
        r@ == text::or_text(value.deep_view(), "/var/lib/rs-matterd"@),
{
    match value {
        Some(s) => s,
        None => "/var/lib/rs-matterd".to_owned(),
    }
}

/// What a controller needs to pair with the daemon.
pub struct CommissioningData {
    pub password: [u8; 4],
    pub discriminator: u16,
}

/// The number that four bytes make, the lowest first.
pub open spec fn little_endian(bytes: Seq<u8>) -> int {
    bytes[0] + 256 * bytes[1] + 65536 * bytes[2] + 16777216 * bytes[3]
}

/// What a controller needs to pair with the daemon: the pin as four bytes, the lowest first, and
/// the discriminator.
pub fn build_commissioning_data(setup_pin: u32, discriminator: u16) -> (r: CommissioningData)
    ensures
        little_endian(r.password@) == setup_pin,
        r.discriminator == discriminator,
{
    let lowest: u8 = (setup_pin % 256) as u8;
    let second: u8 = ((setup_pin / 256) % 256) as u8;
    let third: u8 = ((setup_pin / 65536) % 256) as u8;
    let highest: u8 = (setup_pin / 16777216) as u8;
    CommissioningData { password: [lowest, second, third, highest], discriminator }
}

// ---------------------------------------------------------------------------------------
// Log
// ---------------------------------------------------------------------------------------

/// The lines that the daemon logs at its start.
pub open spec fn startup_lines(
    state_dir: Seq<char>,
    state_file: Seq<char>,
    setup_pin: u32,
    discriminator: u16,
    commissioned: bool,
) -> Seq<Seq<char>> {
    let always = seq![
        "starting rs-matterd"@,
        "state directory: "@ + state_dir,
        "state file: "@ + state_file,
        "device: vendor='HomeNode' product='rs-matterd' node='HomeNodeServer'"@,
        "commissioned: "@ + text::bool_word(commissioned),
    ];
    if commissioned {
        always
    } else {
        always.push("setup pin: "@ + text::decimal(setup_pin as nat)).push(
            "discriminator: "@ + text::decimal(discriminator as nat),
        )
    }
}

fn line(start: &str, rest: &str) -> (r: String)
    ensures
        r@ == start@ + rest@,
{
    let mut out = start.to_owned();
    out.append(rest);
    out
}

/// The lines that the daemon logs at its start.
pub fn log_startup(
    state_dir: &str,
    state_file: &str,
    setup_pin: u32,
    discriminator: u16,
    commissioned: bool,
) -> (lines: Vec<String>)
    ensures
        lines.deep_view() == startup_lines(state_dir@, state_file@, setup_pin, discriminator, commissioned),
{
    let mut lines: Vec<String> = Vec::new();
    lines.push("starting rs-matterd".to_owned());
    lines.push(line("state directory: ", state_dir));
    lines.push(line("state file: ", state_file));
    lines.push("device: vendor='HomeNode' product='rs-matterd' node='HomeNodeServer'".to_owned());
    lines.push(line("commissioned: ", text::word(commissioned)));
    if !commissioned {
        lines.push(line("setup pin: ", text::number(setup_pin as u64).as_str()));
        lines.push(line("discriminator: ", text::number(discriminator as u64).as_str()));
    }
    assert(lines.deep_view() =~= startup_lines(state_dir@, state_file@, setup_pin, discriminator, commissioned));
    lines
}

/// A daemon that is paired logs nothing with which it could be paired again.
pub proof fn paired_daemon_keeps_its_pin(
    state_dir: Seq<char>,
    state_file: Seq<char>,
    pin: u32,
    other_pin: u32,
    discriminator: u16,
    other_discriminator: u16,
)
    ensures
        startup_lines(state_dir, state_file, pin, discriminator, true) == startup_lines(
            state_dir,
            state_file,
            other_pin,
            other_discriminator,
            true,
        ),
{
}

/// The lines that a daemon without a light logs at its start.
pub open spec fn heartbeat_lines(state_dir: Seq<char>, matter_port: u16, secs: u64) -> Seq<Seq<char>> {
    seq![
        "starting rs-matterd skeleton"@,
        "state directory: "@ + state_dir,
        "default Matter port reserved for future integration: "@ + text::decimal(matter_port as nat),
        "heartbeat interval: "@ + text::decimal(secs as nat) + "s"@,
    ]
}

/// The lines that a daemon without a light logs at its start.
pub fn log_heartbeat_startup(state_dir: &str, matter_port: u16, secs: u64) -> (lines: Vec<String>)
    ensures
        lines.deep_view() == heartbeat_lines(state_dir@, matter_port, secs),
{
    let mut lines: Vec<String> = Vec::new();
    lines.push("starting rs-matterd skeleton".to_owned());
    lines.push(line("state directory: ", state_dir));
    lines.push(
        line("default Matter port reserved for future integration: ", text::number(matter_port as u64).as_str()),
    );
    let interval = line("heartbeat interval: ", text::number(secs).as_str());
    lines.push(line(interval.as_str(), "s"));
    assert(lines.deep_view() =~= heartbeat_lines(state_dir@, matter_port, secs));
    lines
}

// ---------------------------------------------------------------------------------------
// The light
// ---------------------------------------------------------------------------------------

/// What the light does when it gets power.
#[derive(Clone, Copy, Debug, PartialEq, Eq, Structural)]
pub enum StartUpOnOff {
    Off,
    On,
    Toggle,
}

/// What is kept of the light over a restart.
#[derive(Clone, Copy, Debug, PartialEq, Eq)]
pub struct OnOffPersistentState {
    pub on_off: bool,
    pub start_up_on_off: Option<StartUpOnOff>,
}

/// A byte that stands for no state.
#[derive(Clone, Copy, Debug, PartialEq, Eq, Structural)]
pub struct InvalidState;

/// The number of a setting for the start.
pub open spec fn start_up_number(start_up: Option<StartUpOnOff>) -> int {
    match start_up {
        Some(StartUpOnOff::Off) => 0,
        Some(StartUpOnOff::On) => 1,
        Some(StartUpOnOff::Toggle) => 2,
        None => 3,
    }
}

/// The byte that stands for a state.
pub open spec fn encoded(state: OnOffPersistentState) -> int {
    (if state.on_off {
        1int
    } else {
        0int
    }) + 2 * start_up_number(state.start_up_on_off)
}

/// The state of a light of which nothing was kept.
pub open spec fn initial_state() -> OnOffPersistentState {
    OnOffPersistentState { on_off: false, start_up_on_off: None }
}

impl Default for OnOffPersistentState {
    fn default() -> (r: Self)
        ensures
            r == initial_state(),
    {
        OnOffPersistentState { on_off: false, start_up_on_off: None }
    }
}

impl OnOffPersistentState {
    /// The byte that stands for a state.
    pub fn encode(on_off: bool, start_up_on_off: Option<StartUpOnOff>) -> (data: u8)
        ensures
            data == encoded(OnOffPersistentState { on_off, start_up_on_off }),
    {
        let power: u8 = if on_off { 1 } else { 0 };
        let start_up: u8 = match start_up_on_off {
            Some(StartUpOnOff::Off) => 0,
            Some(StartUpOnOff::On) => 1,
            Some(StartUpOnOff::Toggle) => 2,
            None => 3,
        };
        power + 2 * start_up
    }

    /// The state that a byte stands for.
    pub fn decode(data: u8) -> (r: Result<Self, InvalidState>)
        ensures
            match r {
                Ok(state) => encoded(state) == data,
                Err(_) => forall|state: OnOffPersistentState| encoded(state) != data,
            },
            r is Ok <==> data < 8,
    {
        let on_off = data % 2 != 0;
        let start_up_on_off = match data / 2 {
            0 => Some(StartUpOnOff::Off),
            1 => Some(StartUpOnOff::On),
            2 => Some(StartUpOnOff::Toggle),
            3 => None,
            _ => return Err(InvalidState),
        };
        Ok(OnOffPersistentState { on_off, start_up_on_off })
    }
}

/// Two states that one byte stands for are one state.
pub proof fn bytes_are_unambiguous(a: OnOffPersistentState, b: OnOffPersistentState)
    ensures
        encoded(a) == encoded(b) ==> a == b,
        0 <= encoded(a) < 8,
{
}

/// The state that is kept in a byte, or that of a light of which nothing usable was kept.
pub open spec fn restored(kept: Option<u8>) -> OnOffPersistentState {
    if exists|state: OnOffPersistentState| kept is Some && encoded(state) == kept.unwrap() {
        choose|state: OnOffPersistentState| kept is Some && encoded(state) == kept.unwrap()
    } else {
        initial_state()
    }
}

/// A light that can be switched, and that is kept over a restart.
pub struct HomeNodeOnOffLogic {
    pub state: OnOffPersistentState,
}

impl HomeNodeOnOffLogic {
    /// The light as it was kept. `kept` is the byte that the state file holds, where one could be
    /// read.
    pub fn load(kept: Option<u8>) -> (r: Self)
        ensures
            r.state == restored(kept),
    {
        let state = match kept {
            Some(data) => match OnOffPersistentState::decode(data) {
                Ok(state) => {
                    proof {
                        let found = choose|s: OnOffPersistentState| kept is Some && encoded(s) == kept.unwrap();
                        bytes_are_unambiguous(state, found);
                    }
                    state
                },
                Err(_) => OnOffPersistentState::default(),
            },
            None => OnOffPersistentState::default(),
        };
        HomeNodeOnOffLogic { state }
    }

    /// The byte that is kept of the light.
    pub fn save_state(&self) -> (data: u8)
        ensures
            data == encoded(self.state),
    {
        OnOffPersistentState::encode(self.state.on_off, self.state.start_up_on_off)
    }

    /// Whether the light is on.
    pub fn on_off(&self) -> (r: bool)
        ensures
            r == self.state.on_off,
    {
        self.state.on_off
    }

    /// Switches the light, and gives the byte that is then kept of it.
    pub fn set_on_off(&mut self, on: bool) -> (data: u8)
        ensures
            final(self).state == (OnOffPersistentState { on_off: on, start_up_on_off: old(self).state.start_up_on_off }),
            data == encoded(final(self).state),
    {
        self.state = OnOffPersistentState { on_off: on, start_up_on_off: self.state.start_up_on_off };
        self.save_state()
    }

    /// What the light does when it gets power.
    pub fn start_up_on_off(&self) -> (r: Option<StartUpOnOff>)
        ensures
            r == self.state.start_up_on_off,
    {
        self.state.start_up_on_off
    }

    /// Sets what the light does when it gets power, and gives the byte that is then kept of it.
    pub fn set_start_up_on_off(&mut self, value: Option<StartUpOnOff>) -> (data: u8)
        ensures
            final(self).state == (OnOffPersistentState { on_off: old(self).state.on_off, start_up_on_off: value }),
            data == encoded(final(self).state),
    {
        self.state = OnOffPersistentState { on_off: self.state.on_off, start_up_on_off: value };
        self.save_state()
    }
}

/// What is kept of a light is read back as it was.
pub proof fn restart_keeps_the_light(state: OnOffPersistentState)
    ensures
        restored(Some(encoded(state) as u8)) == state,
{
    let kept = Some(encoded(state) as u8);
    bytes_are_unambiguous(state, state);
    let found = choose|s: OnOffPersistentState| kept is Some && encoded(s) == kept.unwrap();
    assert(kept is Some && encoded(state) == kept.unwrap());
    bytes_are_unambiguous(state, found);
}

/// A light of which nothing was kept, or a byte that stands for no state, is off.
pub proof fn unreadable_state_is_off(data: u8)
    ensures
        restored(None) == initial_state(),
        data >= 8 ==> restored(Some(data)) == initial_state(),
{
    assert forall|s: OnOffPersistentState| encoded(s) < 8 by {
        bytes_are_unambiguous(s, s);
    }
}

}
