//! Asking whether a device answers.

use vstd::prelude::*;

use crate::device::{DeviceModel, DeviceRecord};
use crate::history;
use crate::text;

verus! {

broadcast use vstd::string::group_string_axioms;

/// The device is the one that is asked for, by its id or by its MAC address.
pub open spec fn is_asked_for(d: DeviceModel, id: Seq<char>) -> bool {
    d.device_id == id || d.meta("mac"@) == Some(id)
}

/// The first device that is asked for.
pub open spec fn asked_device(devices: Seq<DeviceModel>, id: Seq<char>) -> Option<DeviceModel>
    decreases devices.len(),
{
    if devices.len() == 0 {
        None
    } else {
        let before = asked_device(devices.drop_last(), id);
        if before is Some {
            before
        } else if is_asked_for(devices.last(), id) {
            Some(devices.last())
        } else {
            None
        }
    }
}

/// The address that the device reports.
pub open spec fn reported_ip(devices: Seq<DeviceModel>, id: Seq<char>) -> Option<Seq<char>> {
    match asked_device(devices, id) {
        Some(d) => d.meta("ip"@),
        None => None,
    }
}

/// The address that an id spells.
pub open spec fn spelled_ip(id: Seq<char>) -> Option<Seq<char>> {
    let ip = text::char_replaced(text::replaced(id, "net-"@, ""@), '-', "."@);
    if "net-"@.is_prefix_of(id) && text::is_ipv4(ip) {
        Some(ip)
    } else {
        None
    }
}

/// The address of a device: the one that it reports, else the one that the history remembers,
/// else the one that its id spells.
pub open spec fn ping_address(
    reported: Option<Seq<char>>,
    remembered: Option<Seq<char>>,
    spelled: Option<Seq<char>>,
) -> Option<
    Seq<char>,
> {
    if reported is Some {
        reported
    } else if remembered is Some {
        remembered
    } else {
        spelled
    }
}

/// Why a device cannot be asked.
#[derive(Debug)]
pub enum PingError {
    /// No address of the device is known.
    IpNotFound,
    /// What is known as its address is none.
    InvalidIp(String),
}

/// What a `PingError` stands for.
pub enum PingErrorModel {
    IpNotFound,
    InvalidIp(Seq<char>),
}

impl DeepView for PingError {
    type V = PingErrorModel;

    open spec fn deep_view(&self) -> PingErrorModel {
        match self {
            PingError::IpNotFound => PingErrorModel::IpNotFound,
            PingError::InvalidIp(ip) => PingErrorModel::InvalidIp(ip@),
        }
    }
}

/// The address that is asked.
pub open spec fn checked_address(address: Option<Seq<char>>) -> Result<Seq<char>, PingErrorModel> {
    match address {
        Some(ip) => if text::is_ipv4(ip) {
            Ok(ip)
        } else {
            Err(PingErrorModel::InvalidIp(ip))
        },
        None => Err(PingErrorModel::IpNotFound),
    }
}

proof fn lemma_asked_device_stays(devices: Seq<DeviceModel>, id: Seq<char>, n: int)
    requires
        0 <= n <= devices.len(),
        asked_device(devices.take(n), id) is Some,
    ensures
        asked_device(devices, id) == asked_device(devices.take(n), id),
    decreases devices.len(),
{
    if n < devices.len() {
        assert(devices.drop_last().take(n) =~= devices.take(n));
        lemma_asked_device_stays(devices.drop_last(), id, n);
    } else {
        assert(devices.take(n) =~= devices);
    }
}

fn reported_ip_of(devices: &[DeviceRecord], id: &str) -> (r: Option<String>)
    ensures
        r.deep_view() == reported_ip(devices.deep_view(), id@),
{
    let ghost all = devices.deep_view();
    let mut i: usize = 0;
    while i < devices.len()
        invariant
            i <= devices@.len(),
            all == devices.deep_view(),
            asked_device(all.take(i as int), id@) is None,
        decreases devices@.len() - i,
    {
        let d = &devices[i];
        assert(all.take(i + 1).drop_last() =~= all.take(i as int));
        assert(all.take(i + 1).last() == d.deep_view());
        if text::same(d.device_id.as_str(), id) || d.meta_is("mac", id) {
            proof {
                lemma_asked_device_stays(all, id@, i + 1);
            }
            return match d.meta("ip") {
                Some(ip) => Some(ip.clone()),
                None => None,
            };
        }
        i = i + 1;
    }
    assert(all.take(i as int) =~= all);
    None
}

fn spelled_ip_of(id: &str) -> (r: Option<String>)
    ensures
        r.deep_view() == spelled_ip(id@),
{
    proof {
        reveal_strlit("net-");
    }
    let rest = text::replace(id, "net-", "");
    let ip = text::replace_char(rest.as_str(), '-', ".");
    if text::starts_with(id, "net-") && text::ipv4(ip.as_str()) {
        Some(ip)
    } else {
        None
    }
}

/// The address that is asked, from what the device reports and what the history remembers.
pub fn resolve_address(
    devices: &[DeviceRecord],
    device_id: &str,
    remembered: Option<String>,
) -> (r: Result<String, PingError>)
    ensures
        match r {
            Ok(ip) => checked_address(
                ping_address(
                    reported_ip(devices.deep_view(), device_id@),
                    remembered.deep_view(),
                    spelled_ip(device_id@),
                ),
            ) == Ok::<Seq<char>, PingErrorModel>(ip@),
            Err(e) => checked_address(
                ping_address(
                    reported_ip(devices.deep_view(), device_id@),
                    remembered.deep_view(),
                    spelled_ip(device_id@),
                ),
            ) == Err::<Seq<char>, PingErrorModel>(e.deep_view()),
        },
{
    let reported = reported_ip_of(devices, device_id);
    let address = if reported.is_some() {
        reported
    } else if remembered.is_some() {
        remembered
    } else {
        spelled_ip_of(device_id)
    };
    match address {
        Some(ip) => if text::ipv4(ip.as_str()) {
            Ok(ip)
        } else {
            Err(PingError::InvalidIp(ip))
        },
        None => Err(PingError::IpNotFound),
    }
}

/// The address that the text of a history remembers; nothing without a text.
pub open spec fn remembered_in(content: Option<Seq<char>>, id: Seq<char>) -> Option<Seq<char>> {
    match content {
        Some(s) => history::ip_in_text(s, history::plain_id(id)),
        None => None,
    }
}

/// The address that is asked. `history_text` is what the history file holds.
pub fn find_address(
    devices: &[DeviceRecord],
    device_id: &str,
    history_text: Option<&str>,
) -> (r: Result<String, PingError>)
    ensures
        match r {
            Ok(ip) => checked_address(
                ping_address(
                    reported_ip(devices.deep_view(), device_id@),
                    remembered_in(history_text.deep_view(), device_id@),
                    spelled_ip(device_id@),
                ),
            ) == Ok::<Seq<char>, PingErrorModel>(ip@),
            Err(e) => checked_address(
                ping_address(
                    reported_ip(devices.deep_view(), device_id@),
                    remembered_in(history_text.deep_view(), device_id@),
                    spelled_ip(device_id@),
                ),
            ) == Err::<Seq<char>, PingErrorModel>(e.deep_view()),
        },
{
    let remembered = match history_text {
        Some(s) => history::ip_from_history_text(s, device_id),
        None => None,
    };
    resolve_address(devices, device_id, remembered)
}

/// What is said of an address that is none.
pub open spec fn invalid_ip_message(ip: Seq<char>) -> Seq<char> {
    "Invalid IP address '"@ + ip + "'"@
}

/// What is said where a device cannot be asked: a short code and a sentence.
pub fn describe_error(error: &PingError) -> (r: (&'static str, String))
    ensures
        match error.deep_view() {
            PingErrorModel::IpNotFound => r.0@ == "device_ip_not_found"@ && r.1@
                == "Device IP address could not be determined"@,
            PingErrorModel::InvalidIp(ip) => r.0@ == "invalid_ip"@ && r.1@ == invalid_ip_message(ip),
        },
{
    match error {
        PingError::IpNotFound => ("device_ip_not_found", "Device IP address could not be determined".to_owned()),
        PingError::InvalidIp(ip) => {
            let mut out = "Invalid IP address '".to_owned();
            out.append(ip.as_str());
            out.append("'");
            ("invalid_ip", out)
        },
    }
}

/// The time in the output of the ping program, as text: what stands between "time=" and the
/// next " ms", without space around it.
pub open spec fn round_trip(output: Seq<char>) -> Option<Seq<char>> {
    match text::find_from(output, "time="@, 0) {
        Some(i) => {
            let rest = output.skip(i + 5);
            match text::find_from(rest, " ms"@, 0) {
                Some(j) => Some(text::trimmed(rest.take(j))),
                None => None,
            }
        },
        None => None,
    }
}

/// The time in the output of the ping program, as text.
pub fn round_trip_text(output: &str) -> (r: Option<String>)
    ensures
        r.deep_view() == round_trip(output@),
{
    proof {
        reveal_strlit("time=");
        reveal_strlit(" ms");
    }
    match text::find(output, "time=") {
        Some(i) => {
            proof {
                text::lemma_found(output@, "time="@, 0);
            }
            let chars = text::chars_of(output);
            let size: usize = chars.len();
            assert(i + 5 <= size);
            let rest = text::text_of(&chars, i + 5, size);
            assert(rest@ =~= output@.skip(i + 5));
            match text::find(rest.as_str(), " ms") {
                Some(j) => {
                    proof {
                        text::lemma_found(rest@, " ms"@, 0);
                    }
                    let part = text::slice(rest.as_str(), 0, j);
                    assert(part@ =~= rest@.take(j as int));
                    Some(text::trim(part.as_str()))
                },
                None => None,
            }
        },
        None => None,
    }
}

/// One way to ask a device whether it is there.
#[derive(Clone, Copy, Debug, PartialEq, Eq, Structural)]
pub enum Probe {
    /// By the ping program.
    Echo,
    /// By a connection to a port.
    Tcp(u16),
}

/// The ways in which a device is asked, one after the other.
pub open spec fn probes() -> Seq<Probe> {
    seq![
        Probe::Echo,
        Probe::Tcp(80),
        Probe::Tcp(443),
        Probe::Tcp(8080),
        Probe::Tcp(22),
        Probe::Tcp(62078),
        Probe::Tcp(5000),
        Probe::Tcp(5353),
    ]
}

/// The name of a way to ask.
pub open spec fn probe_name(probe: Probe) -> Seq<char> {
    match probe {
        Probe::Echo => "icmp"@,
        Probe::Tcp(port) => "tcp:"@ + text::decimal(port as nat),
    }
}

/// How far the asking has come: how many ways were tried, and whether the last of them was
/// answered.
#[derive(Debug)]
pub struct PingRun {
    tried: usize,
    answered: bool,
}

/// What a `PingRun` stands for.
#[verifier::ext_equal]
pub struct RunModel {
    pub tried: int,
    pub answered: bool,
}

/// Asking has not begun.
pub open spec fn run_start() -> RunModel {
    RunModel { tried: 0, answered: false }
}

/// The next way to ask; none behind an answer, or where all were tried.
pub open spec fn next_of(run: RunModel) -> Option<Probe> {
    if !run.answered && 0 <= run.tried < probes().len() {
        Some(probes()[run.tried])
    } else {
        None
    }
}

/// The asking behind one more try, where there was one left.
pub open spec fn run_step(run: RunModel, answered: bool) -> RunModel {
    if next_of(run) is Some {
        RunModel { tried: run.tried + 1, answered }
    } else {
        run
    }
}

/// The name of the way that was answered; an empty one where none was.
pub open spec fn run_method(run: RunModel) -> Seq<char> {
    if run.answered {
        probe_name(probes()[run.tried - 1])
    } else {
        Seq::empty()
    }
}

impl PingRun {
    #[verifier::type_invariant]
    spec fn in_bounds(&self) -> bool {
        self.tried <= probes().len() && (self.answered ==> self.tried > 0)
    }

    pub closed spec fn model(&self) -> RunModel {
        RunModel { tried: self.tried as int, answered: self.answered }
    }

    /// Begins to ask.
    pub fn start() -> (r: PingRun)
        ensures
            r.model() == run_start(),
    {
        PingRun { tried: 0, answered: false }
    }

    /// The next way to ask.
    pub fn next_probe(&self) -> (r: Option<Probe>)
        ensures
            r == next_of(self.model()),
    {
        if self.answered || self.tried >= 8 {
            return None;
        }
        Some(probe_at(self.tried))
    }

    /// Notes whether the next way to ask was answered.
    pub fn note(&mut self, answered: bool)
        ensures
            final(self).model() == run_step(old(self).model(), answered),
    {
        if !self.answered && self.tried < 8 {
            *self = PingRun { tried: self.tried + 1, answered };
        }
    }

    /// Whether the device answered.
    pub fn reachable(&self) -> (r: bool)
        ensures
            r == self.model().answered,
    {
        self.answered
    }

    /// The name of the way that was answered.
    pub fn method(&self) -> (r: String)
        ensures
            r@ == run_method(self.model()),
    {
        proof {
            use_type_invariant(self);
        }
        if !self.answered {
            return text::empty();
        }
        match probe_at(self.tried - 1) {
            Probe::Echo => "icmp".to_owned(),
            Probe::Tcp(port) => {
                let mut out = "tcp:".to_owned();
                out.append(text::number(port as u64).as_str());
                out
            },
        }
    }
}

fn probe_at(i: usize) -> (r: Probe)
    requires
        i < probes().len(),
    ensures
        r == probes()[i as int],
{
    let all: Vec<Probe> = vec![
        Probe::Echo,
        Probe::Tcp(80),
        Probe::Tcp(443),
        Probe::Tcp(8080),
        Probe::Tcp(22),
        Probe::Tcp(62078),
        Probe::Tcp(5000),
        Probe::Tcp(5353),
    ];
    assert(all@ =~= probes());
    all[i]
}

/// The asking behind `n` tries of which `replies` says whether they were answered.
pub open spec fn run_after(replies: spec_fn(int) -> bool, n: int) -> RunModel
    decreases n,
{
    if n <= 0 {
        run_start()
    } else {
        run_step(run_after(replies, n - 1), replies(n - 1))
    }
}

/// What is said of the answer of a device. `rtt` is the time of the answer in milliseconds.
pub open spec fn answer_message(reachable: bool, rtt: Option<Seq<char>>, method: Seq<char>) -> Seq<char> {
    if !reachable {
        "Device did not respond to ping or TCP probes (100% packet loss)"@
    } else {
        match rtt {
            Some(t) => "Online (reply in "@ + t + " ms via "@ + method + ")"@,
            None => "Online (responded via "@ + method + ")"@,
        }
    }
}

/// What is said of the answer of a device.
pub fn ping_message(reachable: bool, rtt: Option<&str>, method: &str) -> (r: String)
    ensures
        r@ == answer_message(reachable, rtt.deep_view(), method@),
{
    if !reachable {
        return "Device did not respond to ping or TCP probes (100% packet loss)".to_owned();
    }
    match rtt {
        Some(t) => {
            let mut out = "Online (reply in ".to_owned();
            out.append(t);
            out.append(" ms via ");
            out.append(method);
            out.append(")");
            out
        },
        None => {
            let mut out = "Online (responded via ".to_owned();
            out.append(method);
            out.append(")");
            out
        },
    }
}

/// An address that is asked is an address.
pub proof fn asked_addresses_are_addresses(address: Option<Seq<char>>)
    ensures
        match checked_address(address) {
            Ok(ip) => text::is_ipv4(ip) && address == Some(ip),
            Err(_) => true,
        },
{
}

/// The first way that is answered is the one that is told, and none behind it is tried.
pub proof fn first_answer_ends_the_asking(replies: spec_fn(int) -> bool, first: int, n: int)
    requires
        0 <= first < probes().len(),
        replies(first),
        forall|i: int| 0 <= i < first ==> !#[trigger] replies(i),
        0 <= n,
    ensures
        n <= first ==> run_after(replies, n) == (RunModel { tried: n, answered: false }),
        n > first ==> run_after(replies, n) == (RunModel { tried: first + 1, answered: true }),
        n > first ==> run_method(run_after(replies, n)) == probe_name(probes()[first]),
    decreases n,
{
    if n > 0 {
        first_answer_ends_the_asking(replies, first, n - 1);
        if n - 1 < first {
            assert(!replies(n - 1));
        }
    }
}

/// A device that answers in no way is asked in every way once, and is then not reachable.
pub proof fn silence_is_told_behind_all_ways(replies: spec_fn(int) -> bool, n: int)
    requires
        forall|i: int| 0 <= i < probes().len() ==> !#[trigger] replies(i),
        0 <= n,
    ensures
        run_after(replies, n) == (RunModel {
            tried: if n < probes().len() {
                n
            } else {
                probes().len() as int
            },
            answered: false,
        }),
    decreases n,
{
    if n > 0 {
        silence_is_told_behind_all_ways(replies, n - 1);
        if n - 1 < probes().len() {
            assert(!replies(n - 1));
        }
    }
}

}
