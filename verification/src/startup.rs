//! How the web module starts: its configuration, what it begins with and what it reports.

use vstd::prelude::*;

use crate::text;

verus! {

broadcast use vstd::string::group_string_axioms;

// ---------------------------------------------------------------------------------------
// Configuration
// ---------------------------------------------------------------------------------------

/// How the web module is set up.
#[derive(Debug)]
pub struct WebConfig {
    pub listen_addr: String,
    pub status_title: String,
}

/// What a `WebConfig` stands for.
#[verifier::ext_equal]
pub struct ConfigModel {
    pub listen_addr: Seq<char>,
    pub status_title: Seq<char>,
}

impl DeepView for WebConfig {
    type V = ConfigModel;

    open spec fn deep_view(&self) -> ConfigModel {
        ConfigModel { listen_addr: self.listen_addr@, status_title: self.status_title@ }
    }
}

impl Clone for WebConfig {
    fn clone(&self) -> (r: Self)
        ensures
            r.deep_view() == self.deep_view(),
    {
        WebConfig { listen_addr: self.listen_addr.clone(), status_title: self.status_title.clone() }
    }
}

/// The setup of a module that nobody has set up.
pub open spec fn default_config() -> ConfigModel {
    ConfigModel { listen_addr: "0.0.0.0:8080"@, status_title: "HomeNode Server"@ }
}

/// Where the module listens where nothing else is said.
pub fn default_listen_addr() -> (r: String)
    ensures
        r@ == "0.0.0.0:8080"@,
{
    "0.0.0.0:8080".to_owned()
}

/// The title of the pages where nothing else is said.
pub fn default_status_title() -> (r: String)
    ensures
        r@ == "HomeNode Server"@,
{
    "HomeNode Server".to_owned()
}

impl Default for WebConfig {
    fn default() -> (r: Self)
        ensures
            r.deep_view() == default_config(),
    {
        WebConfig { listen_addr: default_listen_addr(), status_title: default_status_title() }
    }
}

/// The configuration with what the file leaves out filled in.
pub fn complete_config(listen_addr: Option<String>, status_title: Option<String>) -> (r: WebConfig)
    ensures
        r.deep_view().listen_addr == text::or_text(listen_addr.deep_view(), default_config().listen_addr),
        r.deep_view().status_title == text::or_text(status_title.deep_view(), default_config().status_title),
{
    WebConfig {
        listen_addr: match listen_addr {
            Some(s) => s,
            None => default_listen_addr(),
        },
        status_title: match status_title {
            Some(s) => s,
            None => default_status_title(),
        },
    }
}

/// The configuration that a file gives which says nothing; a file that says something is parsed.
pub fn config_of_blank(raw: &str) -> (r: Option<WebConfig>)
    ensures
        r.deep_view() == (if text::trimmed(raw@).len() == 0 {
            Some(default_config())
        } else {
            None
        }),
{
    let trimmed = text::trim(raw);
    if text::blank(trimmed.as_str()) {
        Some(WebConfig::default())
    } else {
        None
    }
}

// ---------------------------------------------------------------------------------------
// Where the pages are served
// ---------------------------------------------------------------------------------------

/// The port in an address: what stands between the first colon and the next.
pub open spec fn listen_port(addr: Seq<char>) -> Seq<char> {
    let parts = text::split_at_char(addr, ':');
    if parts.len() > 1 {
        parts[1]
    } else {
        "8080"@
    }
}

/// The port in an address.
pub fn listen_port_of(addr: &str) -> (r: String)
    ensures
        r@ == listen_port(addr@),
{
    let parts = text::split(addr, ':');
    assert(parts.deep_view().len() == parts@.len());
    if parts.len() > 1 {
        parts[1].clone()
    } else {
        "8080".to_owned()
    }
}

/// What the module reports once it serves its pages.
pub open spec fn ready_message(addr: Seq<char>, local_ip: Seq<char>) -> Seq<char> {
    "Serving status page on "@ + addr + " (http://"@ + local_ip + ":"@ + listen_port(addr) + ")"@
}

/// What the module reports once it serves its pages.
pub fn ready_message_of(addr: &str, local_ip: &str) -> (r: String)
    ensures
        r@ == ready_message(addr@, local_ip@),
{
    let mut out = "Serving status page on ".to_owned();
    out.append(addr);
    out.append(" (http://");
    out.append(local_ip);
    out.append(":");
    out.append(listen_port_of(addr).as_str());
    out.append(")");
    out
}

/// The address that is shown: the one that was given, else the one that was found, else the
/// machine's own.
pub fn local_address(given: Option<String>, found: Option<String>) -> (r: String)
    ensures
        r@ == text::or_text(given.deep_view(), text::or_text(found.deep_view(), "127.0.0.1"@)),
{
    match given {
        Some(s) => s,
        None => match found {
            Some(s) => s,
            None => "127.0.0.1".to_owned(),
        },
    }
}

// ---------------------------------------------------------------------------------------
// Reaching the supervisor
// ---------------------------------------------------------------------------------------

/// How often the module tries to reach the supervisor.
pub open spec fn connect_tries() -> nat {
    30
}

/// Whether the module tries once more behind `failed` tries that failed.
pub fn tries_again(failed: u32) -> (r: bool)
    ensures
        r == (failed < connect_tries()),
{
    failed < 30
}

// ---------------------------------------------------------------------------------------
// What the household starts with
// ---------------------------------------------------------------------------------------

/// A light group that is to be made.
#[derive(Debug)]
pub struct NewLightGroup {
    pub id: String,
    pub name: String,
    pub room: String,
    pub device_ids: Vec<String>,
    pub icon: Option<String>,
}

/// What a `NewLightGroup` stands for.
#[verifier::ext_equal]
pub struct NewGroupModel {
    pub id: Seq<char>,
    pub name: Seq<char>,
    pub room: Seq<char>,
    pub device_ids: Seq<Seq<char>>,
    pub icon: Option<Seq<char>>,
}

impl DeepView for NewLightGroup {
    type V = NewGroupModel;

    open spec fn deep_view(&self) -> NewGroupModel {
        NewGroupModel {
            id: self.id@,
            name: self.name@,
            room: self.room@,
            device_ids: self.device_ids.deep_view(),
            icon: self.icon.deep_view(),
        }
    }
}

/// The light group that a household without groups starts with.
pub open spec fn first_group() -> NewGroupModel {
    NewGroupModel {
        id: "group-wohnzimmer-vorhaenge"@,
        name: "Wohnzimmer Vorhänge"@,
        room: "Wohnzimmer"@,
        device_ids: seq!["net-192-168-178-42"@, "net-192-168-178-43"@],
        icon: Some("✨"@),
    }
}

/// The light group that is made at the start, where `known` groups are there.
pub fn group_to_seed(known: usize) -> (r: Option<NewLightGroup>)
    ensures
        r.deep_view() == (if known == 0 {
            Some(first_group())
        } else {
            None
        }),
{
    if known != 0 {
        return None;
    }
    let mut ids: Vec<String> = Vec::new();
    ids.push("net-192-168-178-42".to_owned());
    ids.push("net-192-168-178-43".to_owned());
    let group = NewLightGroup {
        id: "group-wohnzimmer-vorhaenge".to_owned(),
        name: "Wohnzimmer Vorhänge".to_owned(),
        room: "Wohnzimmer".to_owned(),
        device_ids: ids,
        icon: Some("✨".to_owned()),
    };
    assert(group.deep_view() =~= first_group()) by {
        assert(ids.deep_view() =~= first_group().device_ids);
    }
    Some(group)
}

/// The addresses at which lights are looked for.
pub open spec fn light_addresses() -> Seq<Seq<char>> {
    seq!["192.168.178.40"@, "192.168.178.41"@, "192.168.178.42"@, "192.168.178.43"@]
}

/// The addresses at which lights are looked for.
pub fn light_addresses_to_scan() -> (r: Vec<String>)
    ensures
        r.deep_view() == light_addresses(),
{
    let mut all: Vec<String> = Vec::new();
    all.push("192.168.178.40".to_owned());
    all.push("192.168.178.41".to_owned());
    all.push("192.168.178.42".to_owned());
    all.push("192.168.178.43".to_owned());
    assert(all.deep_view() =~= light_addresses());
    all
}

// ---------------------------------------------------------------------------------------
// Ignored devices
// ---------------------------------------------------------------------------------------

/// What is said of a device that is to be ignored.
#[derive(Debug)]
pub struct IgnoreDeviceRequest {
    pub name: Option<String>,
    pub reason: Option<String>,
}

/// The name and the reason that are kept of an ignored device; none without a request.
pub fn ignore_details(request: Option<IgnoreDeviceRequest>) -> (r: (Option<String>, Option<String>))
    ensures
        match request {
            Some(q) => r.0 == q.name && r.1 == q.reason,
            None => r.0 is None && r.1 is None,
        },
{
    match request {
        Some(q) => (q.name, q.reason),
        None => (None, None),
    }
}

}
