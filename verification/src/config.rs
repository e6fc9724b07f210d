//! The configuration model: a `[default]` base table plus one table per
//! profile, the defaults of each knob, the choice of profile, and which
//! config file is used.
use vstd::prelude::*;
use crate::error::{Error, ErrorView};
use crate::paths::{path_join, spec_path_join};
use crate::text::{cat3, join, join_strings, lemma_split_on_terminated, opt_view, owned, split_on, terminated};

verus! {

#[derive(Debug, Clone)]
pub struct Config {
    pub l4t: L4t,
    pub board: Board,
    pub identity: Identity,
    pub network: Network,
    pub services: Services,
}

#[derive(Debug, Clone)]
pub struct L4t {
    pub version: String,
    pub bsp_url: String,
    pub rootfs_url: String,
}

#[derive(Debug, Clone)]
pub struct Board {
    pub name: String,
    pub external_device: String,
}

#[derive(Debug, Clone)]
pub struct Identity {
    pub username: String,
    /// Kept out of the config file; supplied via `JETSON_IDENTITY_PASSWORD`.
    pub password: Option<String>,
    pub hostname: String,
    pub headless: bool,
    pub autologin: bool,
}

#[derive(Debug, Clone)]
pub struct Network {
    pub ethernet: Ethernet,
    pub wifi: Wifi,
}

#[derive(Debug, Clone)]
pub struct Ethernet {
    pub dev: String,
    pub static_ip: String,
    pub gateway: String,
    pub dns: Vec<String>,
}

#[derive(Debug, Clone)]
pub struct Wifi {
    pub dev: String,
    pub ssid: String,
    pub psk: String,
    pub dhcp: bool,
    pub static_ip: String,
    pub gateway: String,
}

#[derive(Debug, Clone)]
pub struct Services {
    pub avahi: bool,
}

/// The Orin Nano's onboard Ethernet interface.
pub open spec fn spec_nano_eth() -> Seq<char> {
    "enP8p1s0"@
}

/// The DNS servers used when none are configured.
pub open spec fn spec_default_dns() -> Seq<Seq<char>> {
    seq!["1.1.1.1"@, "8.8.8.8"@]
}

/// The default of the boolean knobs that are on unless turned off.
pub fn yes() -> (r: bool)
    ensures
        r,
{
    true
}

pub fn nano_eth() -> (r: String)
    ensures
        r@ == spec_nano_eth(),
{
    owned("enP8p1s0")
}

pub fn default_dns() -> (r: Vec<String>)
    ensures
        r.deep_view() == spec_default_dns(),
{
    let r = vec![owned("1.1.1.1"), owned("8.8.8.8")];
    assert(r.deep_view() =~= spec_default_dns());
    r
}

impl Default for Ethernet {
    fn default() -> (r: Ethernet)
        ensures
            r.dev@ == spec_nano_eth(),
            r.static_ip@ == Seq::<char>::empty(),
            r.gateway@ == Seq::<char>::empty(),
            r.dns.deep_view() == spec_default_dns(),
    {
        Ethernet { dev: nano_eth(), static_ip: String::new(), gateway: String::new(), dns: default_dns() }
    }
}

impl Default for Wifi {
    fn default() -> (r: Wifi)
        ensures
            r.dev@ == Seq::<char>::empty(),
            r.ssid@ == Seq::<char>::empty(),
            r.psk@ == Seq::<char>::empty(),
            r.dhcp,
            r.static_ip@ == Seq::<char>::empty(),
            r.gateway@ == Seq::<char>::empty(),
    {
        Wifi {
            dev: String::new(),
            ssid: String::new(),
            psk: String::new(),
            dhcp: true,
            static_ip: String::new(),
            gateway: String::new(),
        }
    }
}

impl Default for Network {
    fn default() -> (r: Network)
        ensures
            r.ethernet.dev@ == spec_nano_eth(),
            r.ethernet.static_ip@ == Seq::<char>::empty(),
            r.ethernet.gateway@ == Seq::<char>::empty(),
            r.ethernet.dns.deep_view() == spec_default_dns(),
            r.wifi.ssid@ == Seq::<char>::empty(),
            r.wifi.dev@ == Seq::<char>::empty(),
            r.wifi.psk@ == Seq::<char>::empty(),
            r.wifi.dhcp,
            r.wifi.static_ip@ == Seq::<char>::empty(),
            r.wifi.gateway@ == Seq::<char>::empty(),
    {
        Network { ethernet: Ethernet::default(), wifi: Wifi::default() }
    }
}

impl Default for Services {
    fn default() -> (r: Services)
        ensures
            r.avahi,
    {
        Services { avahi: true }
    }
}

/// A DNS server list in NetworkManager keyfile form: the servers joined
/// by `;`, with a trailing `;` unless that text is empty.
pub open spec fn nm_dns_list(dns: Seq<Seq<char>>) -> Seq<char> {
    let joined = join(dns, ";"@);
    if joined.len() == 0 {
        joined
    } else {
        joined + ";"@
    }
}

// ---------------------------------------------------------------------
// What a profile sets, and how it is completed
// ---------------------------------------------------------------------

/// The values a profile sets (the `[default]` table, the profile's table
/// and the `JETSON_` environment merged); `None` where nothing sets a knob.
#[derive(Debug, Clone)]
pub struct ProfileConfig {
    /// A JetPack release whose preset gives the L4T version and URLs.
    pub jetpack: Option<String>,
    pub l4t: L4tSource,
    pub board: Board,
    pub identity: IdentitySource,
    pub network: NetworkSource,
    pub services: ServicesSource,
}

/// Explicit `l4t.*` values; each overrides the JetPack preset.
#[derive(Debug, Clone)]
pub struct L4tSource {
    pub version: Option<String>,
    pub bsp_url: Option<String>,
    pub rootfs_url: Option<String>,
}

#[derive(Debug, Clone)]
pub struct IdentitySource {
    pub username: String,
    pub password: Option<String>,
    pub hostname: String,
    pub headless: Option<bool>,
    pub autologin: Option<bool>,
}

#[derive(Debug, Clone)]
pub struct NetworkSource {
    pub ethernet: EthernetSource,
    pub wifi: WifiSource,
}

#[derive(Debug, Clone)]
pub struct EthernetSource {
    pub dev: Option<String>,
    pub static_ip: Option<String>,
    pub gateway: Option<String>,
    pub dns: Option<Vec<String>>,
}

#[derive(Debug, Clone)]
pub struct WifiSource {
    pub dev: Option<String>,
    pub ssid: Option<String>,
    pub psk: Option<String>,
    pub dhcp: Option<bool>,
    pub static_ip: Option<String>,
    pub gateway: Option<String>,
}

#[derive(Debug, Clone)]
pub struct ServicesSource {
    pub avahi: Option<bool>,
}

/// The text of `o`, or `d` when it is unset.
pub open spec fn text_or(o: Option<String>, d: Seq<char>) -> Seq<char> {
    match o {
        Some(s) => s@,
        None => d,
    }
}

/// `o`, or `d` when it is unset.
pub open spec fn flag_or(o: Option<bool>, d: bool) -> bool {
    match o {
        Some(b) => b,
        None => d,
    }
}

/// The JetPack releases that have a preset.
pub open spec fn jetpack_names() -> Seq<Seq<char>> {
    seq!["6.2.1"@, "7.2"@]
}

/// The preset of a JetPack release: its L4T version, BSP URL and sample
/// rootfs URL.
pub open spec fn jetpack_preset(name: Seq<char>) -> Option<(Seq<char>, Seq<char>, Seq<char>)> {
    if name == "6.2.1"@ {
        Some((
            "36.4.4"@,
            "https://developer.nvidia.com/downloads/embedded/l4t/r36_release_v4.4/release/Jetson_Linux_R36.4.4_aarch64.tbz2"@,
            "https://developer.nvidia.com/downloads/embedded/l4t/r36_release_v4.4/release/Tegra_Linux_Sample-Root-Filesystem_R36.4.4_aarch64.tbz2"@,
        ))
    } else if name == "7.2"@ {
        Some((
            "39.2.0"@,
            "https://developer.nvidia.com/downloads/embedded/l4t/r39_release_v2.0/release/Jetson_Linux_R39.2.0_aarch64.tbz2"@,
            "https://developer.nvidia.com/downloads/embedded/l4t/r39_release_v2.0/release/Tegra_Linux_Sample-Root-Filesystem_R39.2.0_aarch64.tbz2"@,
        ))
    } else {
        None
    }
}

/// The message for an L4T value that neither the profile nor a JetPack
/// preset gives.
pub open spec fn l4t_unset_message(field: Seq<char>) -> Seq<char> {
    "missing l4t."@ + field + ": set it or choose a jetpack"@
}

/// The L4T release (version, BSP URL, rootfs URL): the JetPack preset
/// with each explicit `l4t.*` value overriding it; an unknown JetPack is
/// refused; without a JetPack every `l4t.*` value must be set (the first
/// unset one is reported).
pub open spec fn l4t_resolution(jetpack: Option<Seq<char>>, src: L4tSource) -> Result<(Seq<char>, Seq<char>, Seq<char>), ErrorView> {
    match jetpack {
        Some(j) => match jetpack_preset(j) {
            None => Err(ErrorView::UnknownJetpack { name: j, known: jetpack_names() }),
            Some((v, b, f)) => Ok((text_or(src.version, v), text_or(src.bsp_url, b), text_or(src.rootfs_url, f))),
        },
        None => match (src.version, src.bsp_url, src.rootfs_url) {
            (Some(v), Some(b), Some(f)) => Ok((v@, b@, f@)),
            (None, _, _) => Err(ErrorView::Config(l4t_unset_message("version"@))),
            (Some(_), None, _) => Err(ErrorView::Config(l4t_unset_message("bsp_url"@))),
            (Some(_), Some(_), None) => Err(ErrorView::Config(l4t_unset_message("rootfs_url"@))),
        },
    }
}

/// The identity a profile gets: headless and autologin default to on.
pub open spec fn identity_completed(s: IdentitySource, c: Identity) -> bool {
    &&& c.username == s.username
    &&& c.password == s.password
    &&& c.hostname == s.hostname
    &&& c.headless == flag_or(s.headless, true)
    &&& c.autologin == flag_or(s.autologin, true)
}

/// The network a profile gets: Ethernet on the Orin Nano's interface
/// with DHCP-free defaults and the default DNS servers; WiFi off (no SSID)
/// with DHCP on.
pub open spec fn network_completed(s: NetworkSource, c: Network) -> bool {
    &&& c.ethernet.dev@ == text_or(s.ethernet.dev, spec_nano_eth())
    &&& c.ethernet.static_ip@ == text_or(s.ethernet.static_ip, Seq::empty())
    &&& c.ethernet.gateway@ == text_or(s.ethernet.gateway, Seq::empty())
    &&& c.ethernet.dns.deep_view() == match s.ethernet.dns {
        Some(d) => d.deep_view(),
        None => spec_default_dns(),
    }
    &&& c.wifi.dev@ == text_or(s.wifi.dev, Seq::empty())
    &&& c.wifi.ssid@ == text_or(s.wifi.ssid, Seq::empty())
    &&& c.wifi.psk@ == text_or(s.wifi.psk, Seq::empty())
    &&& c.wifi.dhcp == flag_or(s.wifi.dhcp, true)
    &&& c.wifi.static_ip@ == text_or(s.wifi.static_ip, Seq::empty())
    &&& c.wifi.gateway@ == text_or(s.wifi.gateway, Seq::empty())
}

/// `r` is what the values `pc` of a profile give: the resolved L4T
/// release (or the error of its resolution) with every unset knob at its
/// default (avahi on).
pub open spec fn resolves_to(pc: ProfileConfig, r: Result<Config, Error>) -> bool {
    match l4t_resolution(opt_view(pc.jetpack), pc.l4t) {
        Err(e) => r matches Err(x) && x@ == e,
        Ok((v, b, f)) => r matches Ok(c) && {
            &&& c.l4t.version@ == v
            &&& c.l4t.bsp_url@ == b
            &&& c.l4t.rootfs_url@ == f
            &&& c.board == pc.board
            &&& identity_completed(pc.identity, c.identity)
            &&& network_completed(pc.network, c.network)
            &&& c.services.avahi == flag_or(pc.services.avahi, true)
        },
    }
}

/// `r` is what loading a listed profile gives when its extraction gave
/// `out`: a failed extraction is a config error with the extraction's
/// message; extracted values are completed as [`resolves_to`] says.
pub open spec fn loaded_from(out: Result<ProfileConfig, String>, r: Result<Config, Error>) -> bool {
    match out {
        Ok(pc) => resolves_to(pc, r),
        Err(msg) => r matches Err(x) && x@ == ErrorView::Config(msg@),
    }
}


/// `o`, or `d` when it is unset.
pub fn bool_or(o: Option<bool>, d: bool) -> (r: bool)
    ensures
        r == flag_or(o, d),
{
    match o {
        Some(b) => b,
        None => d,
    }
}

/// The text of `o`, or the empty text when it is unset.
pub fn text_or_empty(o: Option<String>) -> (r: String)
    ensures
        r@ == text_or(o, Seq::empty()),
{
    match o {
        Some(s) => s,
        None => String::new(),
    }
}

/// The preset of a JetPack release.
pub fn preset(name: &str) -> (r: Option<(String, String, String)>)
    ensures
        match r {
            Some((v, b, f)) => jetpack_preset(name@) == Some((v@, b@, f@)),
            None => jetpack_preset(name@) is None,
        },
{
    let n = owned(name);
    if n == owned("6.2.1") {
        Some((
            owned("36.4.4"),
            owned("https://developer.nvidia.com/downloads/embedded/l4t/r36_release_v4.4/release/Jetson_Linux_R36.4.4_aarch64.tbz2"),
            owned("https://developer.nvidia.com/downloads/embedded/l4t/r36_release_v4.4/release/Tegra_Linux_Sample-Root-Filesystem_R36.4.4_aarch64.tbz2"),
        ))
    } else if n == owned("7.2") {
        Some((
            owned("39.2.0"),
            owned("https://developer.nvidia.com/downloads/embedded/l4t/r39_release_v2.0/release/Jetson_Linux_R39.2.0_aarch64.tbz2"),
            owned("https://developer.nvidia.com/downloads/embedded/l4t/r39_release_v2.0/release/Tegra_Linux_Sample-Root-Filesystem_R39.2.0_aarch64.tbz2"),
        ))
    } else {
        None
    }
}

/// The JetPack releases that have a preset.
pub fn jetpack_releases() -> (r: Vec<String>)
    ensures
        r.deep_view() == jetpack_names(),
{
    let r = vec![owned("6.2.1"), owned("7.2")];
    assert(r.deep_view() =~= jetpack_names());
    r
}

/// Resolves the L4T release of a profile.
pub fn resolve_l4t(jetpack: Option<String>, src: L4tSource) -> (r: Result<L4t, Error>)
    ensures
        match l4t_resolution(opt_view(jetpack), src) {
            Err(e) => r matches Err(x) && x@ == e,
            Ok((v, b, f)) => r matches Ok(l) && l.version@ == v && l.bsp_url@ == b && l.rootfs_url@ == f,
        },
{
    match jetpack {
        Some(j) => match preset(j.as_str()) {
            None => Err(Error::UnknownJetpack { name: j, known: jetpack_releases() }),
            Some((v, b, f)) => {
                let L4tSource { version, bsp_url, rootfs_url } = src;
                Ok(L4t {
                    version: match version { Some(x) => x, None => v },
                    bsp_url: match bsp_url { Some(x) => x, None => b },
                    rootfs_url: match rootfs_url { Some(x) => x, None => f },
                })
            },
        },
        None => {
            let L4tSource { version, bsp_url, rootfs_url } = src;
            match version {
                None => Err(Error::Config(cat3("missing l4t.", "version", ": set it or choose a jetpack"))),
                Some(v) => match bsp_url {
                    None => Err(Error::Config(cat3("missing l4t.", "bsp_url", ": set it or choose a jetpack"))),
                    Some(b) => match rootfs_url {
                        None => Err(Error::Config(cat3("missing l4t.", "rootfs_url", ": set it or choose a jetpack"))),
                        Some(f) => Ok(L4t { version: v, bsp_url: b, rootfs_url: f }),
                    },
                },
            }
        },
    }
}

impl L4t {
    /// The L4T version.
    pub fn version(&self) -> (r: &str)
        ensures
            r@ == self.version@,
    {
        self.version.as_str()
    }
}

/// `names` without the entries equal to `name`, in their order.
pub open spec fn without(names: Seq<Seq<char>>, name: Seq<char>) -> Seq<Seq<char>>
    decreases names.len(),
{
    if names.len() == 0 {
        Seq::empty()
    } else {
        let rest = without(names.drop_last(), name);
        if names.last() == name {
            rest
        } else {
            rest.push(names.last())
        }
    }
}

/// The profiles a config file defines, from the profile names its data
/// holds: every name but `default`, which is the shared base.
pub open spec fn listed_profiles(raw: Seq<Seq<char>>) -> Seq<Seq<char>> {
    without(raw, "default"@)
}

/// What loading `profile` fails with before any value is extracted:
/// `None` when the profile is defined and extraction goes ahead.
pub open spec fn load_refusal(raw: Seq<Seq<char>>, profile: Seq<char>) -> Option<ErrorView> {
    if listed_profiles(raw).contains(profile) {
        None
    } else {
        Some(ErrorView::UnknownProfile { name: profile, known: listed_profiles(raw) })
    }
}

/// The profile names among `raw` (the profiles of a figment), without the
/// `default` base.
pub fn profile_names(raw: &Vec<String>) -> (r: Vec<String>)
    ensures
        r.deep_view() == listed_profiles(raw.deep_view()),
{
    let ghost views = raw.deep_view();
    let base = owned("default");
    let mut r: Vec<String> = Vec::new();
    let mut i: usize = 0;
    while i < raw.len()
        invariant
            i <= raw.len(),
            views == raw.deep_view(),
            base@ == "default"@,
            r.deep_view() == without(views.take(i as int), "default"@),
        decreases raw.len() - i,
    {
        assert(views.take(i + 1).drop_last() =~= views.take(i as int));
        assert(views.take(i + 1).last() == views[i as int]);
        if raw[i] != base {
            let ghost before = r.deep_view();
            r.push(raw[i].clone());
            assert(r.deep_view() =~= before.push(views[i as int]));
        }
        i = i + 1;
    }
    assert(views.take(i as int) =~= views);
    r
}

/// Does `names` hold `name`?
fn holds_name(names: &Vec<String>, name: &str) -> (r: bool)
    ensures
        r == names.deep_view().contains(name@),
{
    let wanted = owned(name);
    let mut i: usize = 0;
    while i < names.len()
        invariant
            i <= names.len(),
            wanted@ == name@,
            forall|k: int| 0 <= k < i ==> names.deep_view()[k] != name@,
        decreases names.len() - i,
    {
        if names[i] == wanted {
            assert(names.deep_view()[i as int] == name@);
            return true;
        }
        i = i + 1;
    }
    false
}

impl Config {
    /// Loads `profile`: `raw` are the profile names the merged config data
    /// defines, and `extract` selects a profile and extracts the values it
    /// sets, or gives the message of why it could not. A profile that the
    /// config does not define is refused without extracting anything;
    /// otherwise a failed extraction is a config error with its message,
    /// and the extracted values are completed with the defaults and the
    /// JetPack preset (see [`loaded_from`]).
    pub fn load<F: FnOnce(&str) -> Result<ProfileConfig, String>>(
        raw: &Vec<String>,
        profile: &str,
        extract: F,
    ) -> (r: Result<Config, Error>)
        requires
            call_requires(extract, (profile,)),
        ensures
            match load_refusal(raw.deep_view(), profile@) {
                None => exists|out: Result<ProfileConfig, String>|
                    call_ensures(extract, (profile,), out) && loaded_from(out, r),
                Some(e) => r matches Err(err) && err@ == e,
            },
    {
        let known = profile_names(raw);
        if !holds_name(&known, profile) {
            return Err(Error::UnknownProfile { name: owned(profile), known });
        }
        let out = extract(profile);
        let ghost got = out;
        let r = match out {
            Ok(pc) => Config::from_profile(pc),
            Err(msg) => Err(Error::Config(msg)),
        };
        assert(loaded_from(got, r));
        r
    }

    /// Completes the values a profile sets with the defaults, and resolves
    /// the L4T release from the JetPack preset and the explicit `l4t.*`
    /// values.
    pub fn from_profile(pc: ProfileConfig) -> (r: Result<Config, Error>)
        ensures
            resolves_to(pc, r),
            r matches Ok(c) ==> {
                &&& c.identity.username@ == pc.identity.username@
                &&& c.identity.hostname@ == pc.identity.hostname@
                &&& c.identity.password == pc.identity.password
                &&& c.board.name@ == pc.board.name@
                &&& c.board.external_device@ == pc.board.external_device@
            },
    {
        let ProfileConfig { jetpack, l4t, board, identity, network, services } = pc;
        let l4t = match resolve_l4t(jetpack, l4t) {
            Ok(l) => l,
            Err(e) => return Err(e),
        };
        let identity = Identity {
            username: identity.username,
            password: identity.password,
            hostname: identity.hostname,
            headless: bool_or(identity.headless, true),
            autologin: bool_or(identity.autologin, true),
        };
        let e = network.ethernet;
        let w = network.wifi;
        let dns = match e.dns {
            Some(d) => d,
            None => default_dns(),
        };
        let ethernet = Ethernet {
            dev: match e.dev {
                Some(d) => d,
                None => nano_eth(),
            },
            static_ip: text_or_empty(e.static_ip),
            gateway: text_or_empty(e.gateway),
            dns,
        };
        let wifi = Wifi {
            dev: text_or_empty(w.dev),
            ssid: text_or_empty(w.ssid),
            psk: text_or_empty(w.psk),
            dhcp: bool_or(w.dhcp, true),
            static_ip: text_or_empty(w.static_ip),
            gateway: text_or_empty(w.gateway),
        };
        let services = Services { avahi: bool_or(services.avahi, true) };
        Ok(Config { l4t, board, identity, network: Network { ethernet, wifi }, services })
    }

    /// Profile names defined in the config (excludes `default`).
    pub fn profiles(raw: &Vec<String>) -> (r: Vec<String>)
        ensures
            r.deep_view() == listed_profiles(raw.deep_view()),
    {
        profile_names(raw)
    }

    /// DNS as a NetworkManager keyfile list ("1.1.1.1;8.8.8.8;").
    pub fn dns_nm(&self) -> (r: String)
        ensures
            r@ == nm_dns_list(self.network.ethernet.dns.deep_view()),
    {
        let mut s = join_strings(&self.network.ethernet.dns, ";");
        if s.unicode_len() != 0 {
            s.append(";");
        }
        s
    }
}

/// The file name of the config file.
pub open spec fn config_file_name() -> Seq<char> {
    "jetson-flash.toml"@
}

/// `<repo_root>/jetson-flash.toml`.
pub open spec fn spec_default_config_path(repo_root: Seq<char>) -> Seq<char> {
    spec_path_join(repo_root, config_file_name())
}

/// `<base>/jetson-flash/jetson-flash.toml`, where the base is
/// `$XDG_CONFIG_HOME`, else `$HOME/.config`; `None` when neither is set.
pub open spec fn spec_xdg_config_path(xdg_config_home: Option<Seq<char>>, home: Option<Seq<char>>) -> Option<Seq<char>> {
    let base = match xdg_config_home {
        Some(x) => Some(x),
        None => match home {
            Some(h) => Some(spec_path_join(h, ".config"@)),
            None => None,
        },
    };
    match base {
        Some(b) => Some(spec_path_join(spec_path_join(b, "jetson-flash"@), config_file_name())),
        None => None,
    }
}

/// Default config path: `./jetson-flash.toml` under the given repo root.
pub fn default_config_path(repo_root: &str) -> (r: String)
    ensures
        r@ == spec_default_config_path(repo_root@),
{
    path_join(repo_root, "jetson-flash.toml")
}

/// `$XDG_CONFIG_HOME/jetson-flash/jetson-flash.toml`, falling back to
/// `$HOME/.config/...`; `None` if neither variable is set. The variables'
/// values are the arguments.
pub fn xdg_config_path(xdg_config_home: Option<String>, home: Option<String>) -> (r: Option<String>)
    ensures
        opt_view(r) == spec_xdg_config_path(opt_view(xdg_config_home), opt_view(home)),
{
    let base = match xdg_config_home {
        Some(x) => x,
        None => match home {
            Some(h) => path_join(h.as_str(), ".config"),
            None => return None,
        },
    };
    let dir = path_join(base.as_str(), "jetson-flash");
    Some(path_join(dir.as_str(), "jetson-flash.toml"))
}

/// Which config file to use: the explicit one, else
/// `<repo_root>/jetson-flash.toml` if it exists, else the XDG path if it
/// exists; the local path when nothing exists, so callers can report it.
pub open spec fn spec_resolve_config_path(
    explicit: Option<Seq<char>>,
    repo_root: Seq<char>,
    local_exists: bool,
    xdg: Option<Seq<char>>,
    xdg_exists: bool,
) -> Seq<char> {
    match explicit {
        Some(p) => p,
        None => if local_exists {
            spec_default_config_path(repo_root)
        } else {
            match xdg {
                Some(x) => if xdg_exists { x } else { spec_default_config_path(repo_root) },
                None => spec_default_config_path(repo_root),
            }
        },
    }
}

/// Resolves which config file to use. `local_exists` tells whether
/// `default_config_path(repo_root)` exists, `xdg` is `xdg_config_path()`
/// and `xdg_exists` whether that path exists.
pub fn resolve_config_path(
    explicit: Option<String>,
    repo_root: &str,
    local_exists: bool,
    xdg: Option<String>,
    xdg_exists: bool,
) -> (r: String)
    ensures
        r@ == spec_resolve_config_path(opt_view(explicit), repo_root@, local_exists, opt_view(xdg), xdg_exists),
{
    if let Some(p) = explicit {
        return p;
    }
    let local = default_config_path(repo_root);
    if local_exists {
        return local;
    }
    match xdg {
        Some(x) if xdg_exists => x,
        _ => local,
    }
}

/// Joining with `;` and then ending with `;` is the same as ending every
/// entry with `;`, for any non-empty list.
pub proof fn lemma_join_then_terminate(dns: Seq<Seq<char>>)
    requires
        dns.len() > 0,
    ensures
        join(dns, seq![';']) + seq![';'] == terminated(dns, seq![';']),
    decreases dns.len(),
{
    if dns.len() == 1 {
        assert(terminated(dns.drop_last(), seq![';']) =~= Seq::<char>::empty());
        assert(join(dns, seq![';']) + seq![';'] =~= terminated(dns, seq![';']));
    } else {
        lemma_join_then_terminate(dns.drop_last());
        assert(join(dns, seq![';']) + seq![';'] =~= terminated(dns, seq![';']));
    }
}

/// The DNS list in keyfile form is every server followed by `;`, unless
/// the list is a single empty entry, which gives the empty text.
pub proof fn law_dns_nm_terminates_each_server(dns: Seq<Seq<char>>)
    requires
        !(dns.len() == 1 && dns[0].len() == 0),
    ensures
        nm_dns_list(dns) == terminated(dns, seq![';']),
{
    reveal_strlit(";");
    assert(";"@ =~= seq![';']);
    if dns.len() == 0 {
        assert(terminated(dns, seq![';']) =~= Seq::<char>::empty());
    } else {
        lemma_join_then_terminate(dns);
        if dns.len() >= 2 {
            assert(join(dns, seq![';']).len() > 0);
        }
    }
}

/// Reading the keyfile DNS list back by splitting on `;` gives the servers
/// in order, then the empty piece after the final `;`; the list is empty
/// exactly when there are no servers. Holds when no server contains `;`
/// and the list is not a single empty entry.
pub proof fn law_dns_nm_round_trip(dns: Seq<Seq<char>>)
    requires
        forall|i: int| 0 <= i < dns.len() ==> !(#[trigger] dns[i]).contains(';'),
        !(dns.len() == 1 && dns[0].len() == 0),
    ensures
        split_on(nm_dns_list(dns), ';') == dns.push(Seq::empty()),
        nm_dns_list(dns).len() == 0 <==> dns.len() == 0,
{
    law_dns_nm_terminates_each_server(dns);
    lemma_split_on_terminated(dns, ';');
    if dns.len() > 0 {
        assert(terminated(dns, seq![';']).len() > 0);
    }
}

/// `default` is never listed as a profile: it is the shared base.
pub proof fn law_default_is_not_a_profile(raw: Seq<Seq<char>>)
    ensures
        !listed_profiles(raw).contains("default"@),
    decreases raw.len(),
{
    if raw.len() > 0 {
        law_default_is_not_a_profile(raw.drop_last());
        let rest = listed_profiles(raw.drop_last());
        if raw.last() != "default"@ {
            assert forall|i: int| 0 <= i < rest.push(raw.last()).len() implies rest.push(raw.last())[i] != "default"@ by {
                if i < rest.len() {
                    assert(rest.push(raw.last())[i] == rest[i]);
                }
            }
        }
    }
}

/// Dropping `name` keeps the other names in their order, removes exactly
/// `name`, and keeps a list free of repeats free of repeats.
proof fn lemma_without(names: Seq<Seq<char>>, name: Seq<char>)
    ensures
        without(names, name) == names.filter(|p: Seq<char>| p != name),
        forall|p: Seq<char>| #[trigger] without(names, name).contains(p) <==> (names.contains(p) && p != name),
        names.no_duplicates() ==> without(names, name).no_duplicates(),
    decreases names.len(),
{
    reveal(Seq::filter);
    if names.len() > 0 {
        let init = names.drop_last();
        let last = names.last();
        lemma_without(init, name);
        let rest = without(init, name);
        assert(init.filter(|p: Seq<char>| p != name) == rest);
        assert forall|p: Seq<char>| #[trigger] without(names, name).contains(p) <==> (names.contains(p) && p != name) by {
            if names.contains(p) && p != name {
                let k = choose|k: int| 0 <= k < names.len() && names[k] == p;
                if k < names.len() - 1 {
                    assert(init[k] == p);
                    assert(rest.contains(p));
                    if last != name {
                        let j = choose|j: int| 0 <= j < rest.len() && rest[j] == p;
                        assert(rest.push(last)[j] == p);
                    }
                } else {
                    assert(rest.push(last)[rest.len() as int] == p);
                }
            }
            if without(names, name).contains(p) {
                if last != name && p == last {
                    assert(names[names.len() - 1] == p);
                } else {
                    assert(rest.contains(p)) by {
                        if last != name {
                            let j = choose|j: int| 0 <= j < rest.push(last).len() && rest.push(last)[j] == p;
                            assert(j < rest.len());
                            assert(rest[j] == p);
                        }
                    }
                    let k = choose|k: int| 0 <= k < init.len() && init[k] == p;
                    assert(names[k] == p);
                }
            }
        }
        if names.no_duplicates() {
            assert(init.no_duplicates()) by {
                assert forall|i: int, j: int| 0 <= i < init.len() && 0 <= j < init.len() && i != j implies init[i] != init[j] by {
                    assert(init[i] == names[i] && init[j] == names[j]);
                }
            }
            if last != name {
                assert(!rest.contains(last)) by {
                    if rest.contains(last) {
                        let k = choose|k: int| 0 <= k < init.len() && init[k] == last;
                        assert(names[k] == names[names.len() - 1]);
                    }
                }
                let r = rest.push(last);
                assert forall|i: int, j: int| 0 <= i < r.len() && 0 <= j < r.len() && i != j implies r[i] != r[j] by {
                    if i < rest.len() && j < rest.len() {
                        assert(r[i] == rest[i] && r[j] == rest[j]);
                    } else if i < rest.len() {
                        assert(r[i] == rest[i]);
                    } else if j < rest.len() {
                        assert(r[j] == rest[j]);
                    }
                }
            }
        }
    }
}

/// The profiles are the given names without `default`, in the given
/// order; a name is a profile exactly when it is given and is not
/// `default`; names given once each are listed once each.
pub proof fn law_profiles_keep_order_and_uniqueness(raw: Seq<Seq<char>>)
    ensures
        listed_profiles(raw) == raw.filter(|p: Seq<char>| p != "default"@),
        forall|p: Seq<char>| #[trigger] listed_profiles(raw).contains(p) <==> (raw.contains(p) && p != "default"@),
        raw.no_duplicates() ==> listed_profiles(raw).no_duplicates(),
{
    let name = "default"@;
    lemma_without(raw, name);
    assert((|p: Seq<char>| p != "default"@) =~= (|p: Seq<char>| p != name));
}

/// Completing a profile keeps each identity and board text in its own
/// field: the user created on the board is the profile's `username`, its
/// hostname the profile's `hostname`, and the board and device are the
/// profile's.
pub proof fn law_completion_keeps_identity_and_board(pc: ProfileConfig, r: Result<Config, Error>)
    requires
        resolves_to(pc, r),
    ensures
        r matches Ok(c) ==> {
            &&& c.identity.username@ == pc.identity.username@
            &&& c.identity.hostname@ == pc.identity.hostname@
            &&& c.identity.password == pc.identity.password
            &&& c.board.name@ == pc.board.name@
            &&& c.board.external_device@ == pc.board.external_device@
        },
{
}

/// Completing a profile keeps every network and service value the
/// profile sets in its own field, and fills the rest: Ethernet on
/// `enP8p1s0` with DNS 1.1.1.1 and 8.8.8.8 and no static address or
/// gateway, WiFi with DHCP on and no SSID, PSK, device, address or
/// gateway, headless, autologin and avahi on.
pub proof fn law_completion_fills_each_field(pc: ProfileConfig, r: Result<Config, Error>)
    requires
        resolves_to(pc, r),
    ensures
        r matches Ok(c) ==> {
            let e = pc.network.ethernet;
            let w = pc.network.wifi;
            &&& c.network.ethernet.dev@ == (match e.dev { Some(d) => d@, None => "enP8p1s0"@ })
            &&& c.network.ethernet.static_ip@ == (match e.static_ip { Some(d) => d@, None => ""@ })
            &&& c.network.ethernet.gateway@ == (match e.gateway { Some(d) => d@, None => ""@ })
            &&& c.network.ethernet.dns.deep_view() == (match e.dns {
                Some(d) => d.deep_view(),
                None => seq!["1.1.1.1"@, "8.8.8.8"@],
            })
            &&& c.network.wifi.dev@ == (match w.dev { Some(d) => d@, None => ""@ })
            &&& c.network.wifi.ssid@ == (match w.ssid { Some(d) => d@, None => ""@ })
            &&& c.network.wifi.psk@ == (match w.psk { Some(d) => d@, None => ""@ })
            &&& c.network.wifi.static_ip@ == (match w.static_ip { Some(d) => d@, None => ""@ })
            &&& c.network.wifi.gateway@ == (match w.gateway { Some(d) => d@, None => ""@ })
            &&& c.network.wifi.dhcp == (match w.dhcp { Some(b) => b, None => true })
            &&& c.identity.headless == (match pc.identity.headless { Some(b) => b, None => true })
            &&& c.identity.autologin == (match pc.identity.autologin { Some(b) => b, None => true })
            &&& c.services.avahi == (match pc.services.avahi { Some(b) => b, None => true })
        },
{
    reveal_strlit("");
    assert(""@ =~= Seq::<char>::empty());
}

/// The L4T release of a profile: every explicit `l4t.*` value is kept;
/// JetPack 7.2 gives L4T 39.2.0 and 6.2.1 gives 36.4.4 with NVIDIA's BSP
/// and sample rootfs of that release for what is not set explicitly; any
/// other JetPack release is refused, naming the known ones; and without a
/// JetPack an unset version is a config error.
pub proof fn law_l4t_release(pc: ProfileConfig, r: Result<Config, Error>)
    requires
        resolves_to(pc, r),
    ensures
        match r {
            Ok(c) => {
                &&& (pc.l4t.version matches Some(v) ==> c.l4t.version@ == v@)
                &&& (pc.l4t.bsp_url matches Some(b) ==> c.l4t.bsp_url@ == b@)
                &&& (pc.l4t.rootfs_url matches Some(f) ==> c.l4t.rootfs_url@ == f@)
            },
            Err(_) => true,
        },
        opt_view(pc.jetpack) == Some("7.2"@) ==> match r {
            Ok(c) => {
                &&& pc.l4t.version is None ==> c.l4t.version@ == "39.2.0"@
                &&& pc.l4t.bsp_url is None ==> c.l4t.bsp_url@
                    == "https://developer.nvidia.com/downloads/embedded/l4t/r39_release_v2.0/release/Jetson_Linux_R39.2.0_aarch64.tbz2"@
                &&& pc.l4t.rootfs_url is None ==> c.l4t.rootfs_url@
                    == "https://developer.nvidia.com/downloads/embedded/l4t/r39_release_v2.0/release/Tegra_Linux_Sample-Root-Filesystem_R39.2.0_aarch64.tbz2"@
            },
            Err(_) => false,
        },
        opt_view(pc.jetpack) == Some("6.2.1"@) ==> match r {
            Ok(c) => {
                &&& pc.l4t.version is None ==> c.l4t.version@ == "36.4.4"@
                &&& pc.l4t.bsp_url is None ==> c.l4t.bsp_url@
                    == "https://developer.nvidia.com/downloads/embedded/l4t/r36_release_v4.4/release/Jetson_Linux_R36.4.4_aarch64.tbz2"@
                &&& pc.l4t.rootfs_url is None ==> c.l4t.rootfs_url@
                    == "https://developer.nvidia.com/downloads/embedded/l4t/r36_release_v4.4/release/Tegra_Linux_Sample-Root-Filesystem_R36.4.4_aarch64.tbz2"@
            },
            Err(_) => false,
        },
        match opt_view(pc.jetpack) {
            Some(j) => (j != "7.2"@ && j != "6.2.1"@) ==> match r {
                Err(e) => e@ == (ErrorView::UnknownJetpack { name: j, known: seq!["6.2.1"@, "7.2"@] }),
                Ok(_) => false,
            },
            None => pc.l4t.version is None ==> match r {
                Err(e) => e@ == ErrorView::Config("missing l4t.version: set it or choose a jetpack"@),
                Ok(_) => false,
            },
        },
{
    reveal_strlit("7.2");
    reveal_strlit("6.2.1");
    assert("7.2"@ != "6.2.1"@) by {
        assert("7.2"@.len() != "6.2.1"@.len());
    }
    reveal_strlit("missing l4t.");
    reveal_strlit("version");
    reveal_strlit(": set it or choose a jetpack");
    reveal_strlit("missing l4t.version: set it or choose a jetpack");
    assert("missing l4t."@ + "version"@ + ": set it or choose a jetpack"@ =~= "missing l4t.version: set it or choose a jetpack"@);
}

/// A listed profile is never refused as unknown: whatever its extraction
/// gives, loading it fails only with a config error (a failed extraction
/// or an unset `l4t.*` value) or an unknown JetPack release.
pub proof fn law_listed_profile_is_never_unknown(out: Result<ProfileConfig, String>, r: Result<Config, Error>)
    requires
        loaded_from(out, r),
    ensures
        r matches Err(e) ==> (e@ is Config || e@ is UnknownJetpack),
        r matches Err(e) ==> !(e@ is UnknownProfile),
{
}

/// A profile is loaded (its values extracted) exactly when the config
/// lists it; otherwise loading is refused with the list of profiles.
pub proof fn law_load_accepts_exactly_the_listed_profiles(raw: Seq<Seq<char>>, profile: Seq<char>)
    ensures
        load_refusal(raw, profile) is None <==> listed_profiles(raw).contains(profile),
        load_refusal(raw, profile) is Some ==> load_refusal(raw, profile) == Some(
            ErrorView::UnknownProfile { name: profile, known: listed_profiles(raw) },
        ),
{
}

} // verus!
