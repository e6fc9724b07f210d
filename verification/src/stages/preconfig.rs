//! Baking first-boot identity, the headless target, static IPs, WiFi and
//! mDNS into the staged rootfs before flashing. Networking uses
//! NetworkManager keyfiles (stock Jetson L4T runs NetworkManager).
use vstd::prelude::*;
use crate::config::{nm_dns_list, Config, Identity, Wifi};
use crate::error::{Error, ErrorView};
use crate::logging::Level;
use crate::paths::{path_join, spec_path_join, Paths};
use crate::plan::{
    flag_after, next_live, passed_over, add_guarded, add_log, add_probe, add_step, cmd_in, guarded, plan_view, push_instr, step, sudo,
    Command, CommandView, Effect, EffectView, Guard, Instr, InstrView, OnFailure, Probe, ProbeView,
};
use crate::text::{cat, cat3, has_substring, occurs_at, owned};

verus! {

// ---------------------------------------------------------------------
// Fresh identifiers
// ---------------------------------------------------------------------

pub open spec fn is_lower_hex(c: char) -> bool {
    ('0' <= c && c <= '9') || ('a' <= c && c <= 'f')
}

/// The text of a random (version 4) UUID: 36 characters, lower-case hex
/// digits in groups of 8-4-4-4-12 separated by `-`, version digit `4` and
/// variant digit one of `8`, `9`, `a`, `b`.
pub open spec fn is_uuid_v4_text(u: Seq<char>) -> bool {
    &&& u.len() == 36
    &&& forall|i: int|
        0 <= i < 36 ==> if i == 8 || i == 13 || i == 18 || i == 23 {
            u[i] == '-'
        } else {
            is_lower_hex(#[trigger] u[i])
        }
    &&& u[14] == '4'
    &&& (u[19] == '8' || u[19] == '9' || u[19] == 'a' || u[19] == 'b')
}

/// A fresh random UUID, as text.
///
/// Trusted: calls `uuid::Uuid::new_v4` and formats it with `to_string`.
/// In uuid's source, `new_v4` sets the version nibble to 4 and the variant
/// bits to `10`, and `Display` writes the lower-case hyphenated form
/// (`format_hyphenated` with `upper == false`). Which UUID comes back is
/// left open: it is random.
#[verifier::external_body]
fn new_uuid() -> (u: String)
    ensures
        is_uuid_v4_text(u@),
{
    uuid::Uuid::new_v4().to_string()
}

/// The name of a temporary file for one root-owned write,
/// `jetson-flash-<uuid>.tmp`.
pub fn temp_file_name() -> (r: String)
    ensures
        exists|u: Seq<char>| is_uuid_v4_text(u) && r@ == "jetson-flash-"@ + u + ".tmp"@,
{
    let u = new_uuid();
    cat3("jetson-flash-", u.as_str(), ".tmp")
}

/// What a failure to write the temporary file is reported with.
pub fn write_temp_context(tmp: &str) -> (r: String)
    ensures
        r@ == "write temp "@ + tmp@,
{
    cat("write temp ", tmp)
}

/// `sudo install -m <mode> -o root -g root <tmp> <dst>`: puts the
/// temporary file in place as a root-owned file.
pub open spec fn spec_install_command(tmp: Seq<char>, dst: Seq<char>, mode: Seq<char>) -> CommandView {
    sudo(seq!["install"@, "-m"@, mode, "-o"@, "root"@, "-g"@, "root"@, tmp, dst])
}

pub fn install_command(tmp: &str, dst: &str, mode: &str) -> (r: Command)
    ensures
        r@ == spec_install_command(tmp@, dst@, mode@),
{
    let args = vec![owned("install"), owned("-m"), owned(mode), owned("-o"), owned("root"), owned("-g"), owned("root"), owned(tmp), owned(dst)];
    assert(args.deep_view() =~= seq!["install"@, "-m"@, mode@, "-o"@, "root"@, "-g"@, "root"@, tmp@, dst@]);
    Command::new("sudo", args)
}

// ---------------------------------------------------------------------
// Files baked into the rootfs
// ---------------------------------------------------------------------

/// The getty drop-in that logs `user` in on tty1.
pub open spec fn spec_autologin_override(user: Seq<char>) -> Seq<char> {
    "[Service]\nExecStart=\nExecStart=-/sbin/agetty --autologin "@ + user + " --noclear %I $TERM\n"@
}

/// An `address1` value: the CIDR address, then `,gateway` when a gateway
/// is set.
pub open spec fn spec_keyfile_address(static_ip: Seq<char>, gateway: Seq<char>) -> Seq<char> {
    if gateway.len() == 0 {
        static_ip
    } else {
        static_ip + ","@ + gateway
    }
}

/// The line that keeps a connection from owning the default route when it
/// has no gateway (empty otherwise).
pub open spec fn spec_never_default(gateway: Seq<char>) -> Seq<char> {
    if gateway.len() == 0 {
        "never-default=true"@
    } else {
        Seq::empty()
    }
}

/// The static Ethernet keyfile (`eth-static.nmconnection`).
pub open spec fn spec_eth_keyfile(
    uuid: Seq<char>,
    dev: Seq<char>,
    static_ip: Seq<char>,
    gateway: Seq<char>,
    dns_nm: Seq<char>,
) -> Seq<char> {
    "[connection]\nid=eth-static\ntype=ethernet\nuuid="@ + uuid + "\ninterface-name="@ + dev
        + "\nautoconnect=true\n\n[ethernet]\n\n[ipv4]\nmethod=manual\naddress1="@
        + spec_keyfile_address(static_ip, gateway) + "\ndns="@ + dns_nm + "\n"@
        + spec_never_default(gateway) + "\n\n[ipv6]\nmethod=auto\n"@
}

/// The `[ipv4]` block of the WiFi keyfile: static when a static IP is set
/// (DHCP is then ignored), else DHCP, else disabled. Routes over WiFi get
/// metric 200 so that Ethernet stays primary.
pub open spec fn spec_wifi_ipv4(w: Wifi, dns_nm: Seq<char>) -> Seq<char> {
    if w.static_ip@.len() != 0 {
        "[ipv4]\nmethod=manual\naddress1="@ + spec_keyfile_address(w.static_ip@, w.gateway@) + "\ndns="@
            + dns_nm + "\nroute-metric=200"@
    } else if w.dhcp {
        "[ipv4]\nmethod=auto\nroute-metric=200"@
    } else {
        "[ipv4]\nmethod=disabled"@
    }
}

/// The interface line of the WiFi keyfile: empty when no device is set,
/// so that NetworkManager matches by SSID only.
pub open spec fn spec_wifi_iface_line(dev: Seq<char>) -> Seq<char> {
    if dev.len() == 0 {
        Seq::empty()
    } else {
        "interface-name="@ + dev
    }
}

/// The WiFi keyfile (`wifi-home.nmconnection`).
pub open spec fn spec_wifi_keyfile(uuid: Seq<char>, w: Wifi, dns_nm: Seq<char>) -> Seq<char> {
    "[connection]\nid=wifi-home\ntype=wifi\nuuid="@ + uuid + "\n"@ + spec_wifi_iface_line(w.dev@)
        + "\nautoconnect=true\n\n[wifi]\nmode=infrastructure\nssid="@ + w.ssid@
        + "\n\n[wifi-security]\nkey-mgmt=wpa-psk\npsk="@ + w.psk@ + "\n\n"@ + spec_wifi_ipv4(w, dns_nm)
        + "\n\n[ipv6]\nmethod=auto\n"@
}

pub fn autologin_override(user: &str) -> (r: String)
    ensures
        r@ == spec_autologin_override(user@),
{
    cat3("[Service]\nExecStart=\nExecStart=-/sbin/agetty --autologin ", user, " --noclear %I $TERM\n")
}

fn keyfile_address(static_ip: &str, gateway: &str) -> (r: String)
    ensures
        r@ == spec_keyfile_address(static_ip@, gateway@),
{
    if gateway.unicode_len() == 0 {
        owned(static_ip)
    } else {
        cat3(static_ip, ",", gateway)
    }
}

/// The static Ethernet keyfile.
pub fn eth_keyfile(uuid: &str, dev: &str, static_ip: &str, gateway: &str, dns_nm: &str) -> (r: String)
    ensures
        r@ == spec_eth_keyfile(uuid@, dev@, static_ip@, gateway@, dns_nm@),
{
    let addr = keyfile_address(static_ip, gateway);
    let never_default = if gateway.unicode_len() == 0 { "never-default=true" } else { "" };
    proof {
        if gateway@.len() != 0 {
            reveal_strlit("");
        }
    }
    let r = cat3("[connection]\nid=eth-static\ntype=ethernet\nuuid=", uuid, "\ninterface-name=");
    let r = r.concat(dev);
    let r = r.concat("\nautoconnect=true\n\n[ethernet]\n\n[ipv4]\nmethod=manual\naddress1=");
    let r = r.concat(addr.as_str());
    let r = r.concat("\ndns=");
    let r = r.concat(dns_nm);
    let r = r.concat("\n");
    let r = r.concat(never_default);
    let r = r.concat("\n\n[ipv6]\nmethod=auto\n");
    assert(r@ =~= spec_eth_keyfile(uuid@, dev@, static_ip@, gateway@, dns_nm@));
    r
}

fn wifi_ipv4(w: &Wifi, dns_nm: &str) -> (r: String)
    ensures
        r@ == spec_wifi_ipv4(*w, dns_nm@),
{
    if w.static_ip.unicode_len() != 0 {
        let addr = keyfile_address(w.static_ip.as_str(), w.gateway.as_str());
        let r = cat3("[ipv4]\nmethod=manual\naddress1=", addr.as_str(), "\ndns=");
        let r = r.concat(dns_nm);
        r.concat("\nroute-metric=200")
    } else if w.dhcp {
        owned("[ipv4]\nmethod=auto\nroute-metric=200")
    } else {
        owned("[ipv4]\nmethod=disabled")
    }
}

/// The WiFi keyfile.
pub fn wifi_keyfile(uuid: &str, w: &Wifi, dns_nm: &str) -> (r: String)
    ensures
        r@ == spec_wifi_keyfile(uuid@, *w, dns_nm@),
{
    let iface = if w.dev.unicode_len() == 0 { String::new() } else { cat("interface-name=", w.dev.as_str()) };
    let ipv4 = wifi_ipv4(w, dns_nm);
    let r = cat3("[connection]\nid=wifi-home\ntype=wifi\nuuid=", uuid, "\n");
    let r = r.concat(iface.as_str());
    let r = r.concat("\nautoconnect=true\n\n[wifi]\nmode=infrastructure\nssid=");
    let r = r.concat(w.ssid.as_str());
    let r = r.concat("\n\n[wifi-security]\nkey-mgmt=wpa-psk\npsk=");
    let r = r.concat(w.psk.as_str());
    let r = r.concat("\n\n");
    let r = r.concat(ipv4.as_str());
    let r = r.concat("\n\n[ipv6]\nmethod=auto\n");
    assert(r@ =~= spec_wifi_keyfile(uuid@, *w, dns_nm@));
    r
}

// ---------------------------------------------------------------------
// The plan
// ---------------------------------------------------------------------

/// `sudo ln -sf <target> <link>`.
pub open spec fn spec_symlink(target: Seq<char>, link: Seq<char>) -> CommandView {
    sudo(seq!["ln"@, "-sf"@, target, link])
}

/// `sudo mkdir -p <dir>`.
pub open spec fn spec_mkdir(dir: Seq<char>) -> CommandView {
    sudo(seq!["mkdir"@, "-p"@, dir])
}

/// Refuse when the rootfs is not staged, then refresh sudo.
pub open spec fn preamble_plan(rootfs: Seq<char>) -> Seq<InstrView> {
    seq![
        InstrView::Probe(ProbeView::IsDir(spec_path_join(rootfs, "etc"@))),
        guarded(Guard::UnlessFlag, EffectView::Fail(ErrorView::Missing(rootfs + " not staged. Run `stage` first."@))),
        step(EffectView::SudoValidate),
    ]
}

/// How the default user is created (when it is not already in the
/// rootfs): with the password when one is supplied, else the stage fails
/// for want of it.
pub open spec fn create_user_effect(id: Identity, l4t: Seq<char>) -> EffectView {
    match id.password {
        Some(p) => EffectView::Run(cmd_in(
            "sudo"@,
            seq!["./tools/l4t_create_default_user.sh"@, "-u"@, id.username@, "-p"@, p@, "-n"@, id.hostname@, "--accept-license"@],
            l4t,
        )),
        None => EffectView::Fail(ErrorView::MissingSecret("identity.password"@)),
    }
}

/// Create the default user unless it is already baked into the rootfs
/// (not idempotent, so guarded on `/etc/passwd`).
pub open spec fn user_plan(id: Identity, rootfs: Seq<char>, l4t: Seq<char>) -> Seq<InstrView> {
    seq![
        InstrView::Probe(ProbeView::Succeeds(sudo(
            seq!["grep"@, "-q"@, "^"@ + id.username@ + ":"@, spec_path_join(rootfs, "etc/passwd"@)],
        ))),
        guarded(Guard::IfFlag, EffectView::Log(
            Level::Info,
            "user "@ + id.username@ + " already baked into rootfs; skipping create_default_user"@,
        )),
        guarded(Guard::UnlessFlag, EffectView::Log(
            Level::Heading,
            "creating default user "@ + id.username@ + " on host "@ + id.hostname@,
        )),
        guarded(Guard::UnlessFlag, create_user_effect(id, l4t)),
    ]
}

/// Headless: boot to `multi-user.target` and mask the display managers
/// (the oem-config GUI may be absent, so that one may fail).
pub open spec fn headless_plan(sys: Seq<char>) -> Seq<InstrView> {
    seq![
        step(EffectView::Log(Level::Heading, "headless mode: multi-user.target + mask gdm3"@)),
        step(EffectView::Run(spec_symlink("/lib/systemd/system/multi-user.target"@, spec_path_join(sys, "default.target"@)))),
        step(EffectView::Run(spec_symlink("/dev/null"@, spec_path_join(sys, "gdm3.service"@)))),
        step(EffectView::Run(spec_symlink("/dev/null"@, spec_path_join(sys, "gdm.service"@)))),
        InstrView::Act {
            guard: Guard::Always,
            effect: EffectView::Run(spec_symlink("/dev/null"@, spec_path_join(sys, "nv-oem-config-gui.service"@))),
            on_failure: OnFailure::Ignore,
        },
    ]
}

/// tty1 autologin for the default user.
pub open spec fn autologin_plan(user: Seq<char>, sys: Seq<char>) -> Seq<InstrView> {
    let dir = spec_path_join(sys, "getty@tty1.service.d"@);
    seq![
        step(EffectView::Log(Level::Heading, "enabling tty1 autologin for "@ + user)),
        step(EffectView::Run(spec_mkdir(dir))),
        step(EffectView::WriteRootFile {
            dst: spec_path_join(dir, "override.conf"@),
            mode: "644"@,
            content: spec_autologin_override(user),
        }),
    ]
}

/// The static Ethernet keyfile.
pub open spec fn eth_plan(cfg: Config, nm_dir: Seq<char>, uuid: Seq<char>) -> Seq<InstrView> {
    let eth = cfg.network.ethernet;
    seq![
        step(EffectView::Log(Level::Heading, "eth static "@ + eth.static_ip@ + " on "@ + eth.dev@)),
        step(EffectView::Run(spec_mkdir(nm_dir))),
        step(EffectView::WriteRootFile {
            dst: spec_path_join(nm_dir, "eth-static.nmconnection"@),
            mode: "600"@,
            content: spec_eth_keyfile(uuid, eth.dev@, eth.static_ip@, eth.gateway@, nm_dns_list(eth.dns.deep_view())),
        }),
    ]
}

/// The message announcing the WiFi connection, if any.
pub open spec fn wifi_message(w: Wifi) -> Seq<InstrView> {
    if w.static_ip@.len() != 0 {
        seq![step(EffectView::Log(Level::Heading, "WiFi "@ + w.ssid@ + " static "@ + w.static_ip@ + " (metric 200)"@))]
    } else if w.dhcp {
        seq![step(EffectView::Log(Level::Heading, "WiFi "@ + w.ssid@ + " DHCP (metric 200)"@))]
    } else {
        Seq::empty()
    }
}

/// The WiFi keyfile (the PSK is known to be set).
pub open spec fn wifi_plan(cfg: Config, nm_dir: Seq<char>, uuid: Seq<char>) -> Seq<InstrView> {
    let w = cfg.network.wifi;
    seq![step(EffectView::Run(spec_mkdir(nm_dir)))] + wifi_message(w) + seq![
        step(EffectView::WriteRootFile {
            dst: spec_path_join(nm_dir, "wifi-home.nmconnection"@),
            mode: "600"@,
            content: spec_wifi_keyfile(uuid, w, nm_dns_list(cfg.network.ethernet.dns.deep_view())),
        }),
    ]
}

/// Enable a service in the rootfs with `systemctl` under chroot, falling
/// back to a `multi-user.target.wants` symlink when that fails.
pub open spec fn enable_service_plan(rootfs: Seq<char>, svc: Seq<char>) -> Seq<InstrView> {
    seq![
        InstrView::Act {
            guard: Guard::Always,
            effect: EffectView::Run(sudo(seq!["chroot"@, rootfs, "/bin/bash"@, "-c"@, "systemctl enable "@ + svc])),
            on_failure: OnFailure::Record,
        },
        guarded(Guard::UnlessFlag, EffectView::Run(spec_symlink(
            "/lib/systemd/system/"@ + svc,
            spec_path_join(spec_path_join(rootfs, "etc/systemd/system/multi-user.target.wants"@), svc),
        ))),
    ]
}

/// Let `mdns4_minimal` resolve before DNS, unless `nsswitch.conf` already
/// mentions mdns (or cannot be read).
pub open spec fn nsswitch_plan(rootfs: Seq<char>) -> Seq<InstrView> {
    let nss = spec_path_join(rootfs, "etc/nsswitch.conf"@);
    seq![
        InstrView::Probe(ProbeView::Lacks { path: nss, needle: "mdns"@ }),
        guarded(Guard::IfFlag, EffectView::Run(sudo(
            seq!["sed"@, "-i"@, "s/^hosts:.*$/hosts:          files mdns4_minimal [NOTFOUND=return] dns/"@, nss],
        ))),
    ]
}

/// mDNS through avahi.
pub open spec fn avahi_plan(hostname: Seq<char>, rootfs: Seq<char>) -> Seq<InstrView> {
    seq![step(EffectView::Log(Level::Heading, "enabling avahi-daemon (mDNS for "@ + hostname + ".local)"@))]
        + enable_service_plan(rootfs, "avahi-daemon.service"@) + nsswitch_plan(rootfs)
}

/// What follows the network files: avahi when enabled, then SSH.
pub open spec fn services_plan(cfg: Config, rootfs: Seq<char>) -> Seq<InstrView> {
    (if cfg.services.avahi { avahi_plan(cfg.identity.hostname@, rootfs) } else { Seq::empty() })
        + seq![step(EffectView::Log(Level::Heading, "enabling ssh"@))]
        + enable_service_plan(rootfs, "ssh.service"@)
        + seq![step(EffectView::Log(Level::Success, "Rootfs preconfigured. Ready to flash."@))]
}

/// The preconfig stage, with `eth_uuid` and `wifi_uuid` as the ids of the
/// two connections.
pub open spec fn preconfig_plan(cfg: Config, paths: Paths, eth_uuid: Seq<char>, wifi_uuid: Seq<char>) -> Seq<InstrView> {
    let l4t = paths.l4t_dir@;
    let rootfs = spec_path_join(l4t, "rootfs"@);
    let sys = spec_path_join(rootfs, "etc/systemd/system"@);
    let nm_dir = spec_path_join(rootfs, "etc/NetworkManager/system-connections"@);
    let w = cfg.network.wifi;
    let front = preamble_plan(rootfs)
        + user_plan(cfg.identity, rootfs, l4t)
        + (if cfg.identity.headless { headless_plan(sys) } else { Seq::empty() })
        + (if cfg.identity.autologin { autologin_plan(cfg.identity.username@, sys) } else { Seq::empty() })
        + (if cfg.network.ethernet.static_ip@.len() != 0 { eth_plan(cfg, nm_dir, eth_uuid) } else { Seq::empty() });
    if w.ssid@.len() != 0 && w.psk@.len() == 0 {
        front + seq![step(EffectView::Fail(ErrorView::WifiPskMissing))]
    } else {
        front + (if w.ssid@.len() != 0 { wifi_plan(cfg, nm_dir, wifi_uuid) } else { Seq::empty() })
            + services_plan(cfg, rootfs)
    }
}

fn add_preamble(r: &mut Vec<Instr>, rootfs: &str)
    ensures
        plan_view(final(r)@) == plan_view(old(r)@) + preamble_plan(rootfs@),
{
    add_probe(r, Probe::IsDir(path_join(rootfs, "etc")));
    add_guarded(r, Guard::UnlessFlag, Effect::Fail(Error::Missing(cat(rootfs, " not staged. Run `stage` first."))));
    add_step(r, Effect::SudoValidate);
    assert(plan_view(r@) =~= plan_view(old(r)@) + preamble_plan(rootfs@));
}

fn add_user(r: &mut Vec<Instr>, id: &Identity, rootfs: &str, l4t: &str)
    ensures
        plan_view(final(r)@) == plan_view(old(r)@) + user_plan(*id, rootfs@, l4t@),
{
    let user = id.username.as_str();
    let host = id.hostname.as_str();
    let args = vec![owned("grep"), owned("-q"), cat3("^", user, ":"), path_join(rootfs, "etc/passwd")];
    assert(args.deep_view() =~= seq!["grep"@, "-q"@, "^"@ + user@ + ":"@, spec_path_join(rootfs@, "etc/passwd"@)]);
    add_probe(r, Probe::Succeeds(Command::new("sudo", args)));
    add_guarded(r, Guard::IfFlag, Effect::Log(Level::Info, cat3("user ", user, " already baked into rootfs; skipping create_default_user")));
    let msg = cat3("creating default user ", user, " on host ").concat(host);
    add_guarded(r, Guard::UnlessFlag, Effect::Log(Level::Heading, msg));
    let create = match &id.password {
        Some(p) => {
            let args = vec![
                owned("./tools/l4t_create_default_user.sh"),
                owned("-u"),
                owned(user),
                owned("-p"),
                owned(p.as_str()),
                owned("-n"),
                owned(host),
                owned("--accept-license"),
            ];
            assert(args.deep_view() =~= seq!["./tools/l4t_create_default_user.sh"@, "-u"@, user@, "-p"@, p@, "-n"@, host@, "--accept-license"@]);
            Effect::Run(Command::new_in("sudo", args, l4t))
        },
        None => Effect::Fail(Error::MissingSecret(owned("identity.password"))),
    };
    add_guarded(r, Guard::UnlessFlag, create);
    assert(plan_view(r@) =~= plan_view(old(r)@) + user_plan(*id, rootfs@, l4t@));
}

/// `sudo ln -sf <target> <link>`.
fn symlink(target: &str, link: &str) -> (c: Command)
    ensures
        c@ == spec_symlink(target@, link@),
{
    let args = vec![owned("ln"), owned("-sf"), owned(target), owned(link)];
    assert(args.deep_view() =~= seq!["ln"@, "-sf"@, target@, link@]);
    Command::new("sudo", args)
}

/// `sudo mkdir -p <dir>`.
fn mkdir(dir: &str) -> (c: Command)
    ensures
        c@ == spec_mkdir(dir@),
{
    let args = vec![owned("mkdir"), owned("-p"), owned(dir)];
    assert(args.deep_view() =~= seq!["mkdir"@, "-p"@, dir@]);
    Command::new("sudo", args)
}

fn add_headless(r: &mut Vec<Instr>, sys: &str)
    ensures
        plan_view(final(r)@) == plan_view(old(r)@) + headless_plan(sys@),
{
    add_log(r, Level::Heading, owned("headless mode: multi-user.target + mask gdm3"));
    add_step(r, Effect::Run(symlink("/lib/systemd/system/multi-user.target", path_join(sys, "default.target").as_str())));
    add_step(r, Effect::Run(symlink("/dev/null", path_join(sys, "gdm3.service").as_str())));
    add_step(r, Effect::Run(symlink("/dev/null", path_join(sys, "gdm.service").as_str())));
    push_instr(
        r,
        Instr::Act {
            guard: Guard::Always,
            effect: Effect::Run(symlink("/dev/null", path_join(sys, "nv-oem-config-gui.service").as_str())),
            on_failure: OnFailure::Ignore,
        },
    );
    assert(plan_view(r@) =~= plan_view(old(r)@) + headless_plan(sys@));
}

fn add_autologin(r: &mut Vec<Instr>, user: &str, sys: &str)
    ensures
        plan_view(final(r)@) == plan_view(old(r)@) + autologin_plan(user@, sys@),
{
    let dir = path_join(sys, "getty@tty1.service.d");
    add_log(r, Level::Heading, cat("enabling tty1 autologin for ", user));
    add_step(r, Effect::Run(mkdir(dir.as_str())));
    add_step(
        r,
        Effect::WriteRootFile {
            dst: path_join(dir.as_str(), "override.conf"),
            mode: owned("644"),
            content: autologin_override(user),
        },
    );
    assert(plan_view(r@) =~= plan_view(old(r)@) + autologin_plan(user@, sys@));
}

fn add_eth(r: &mut Vec<Instr>, cfg: &Config, nm_dir: &str, uuid: &str)
    ensures
        plan_view(final(r)@) == plan_view(old(r)@) + eth_plan(*cfg, nm_dir@, uuid@),
{
    let eth = &cfg.network.ethernet;
    let dns = cfg.dns_nm();
    let msg = cat3("eth static ", eth.static_ip.as_str(), " on ").concat(eth.dev.as_str());
    add_log(r, Level::Heading, msg);
    add_step(r, Effect::Run(mkdir(nm_dir)));
    let content = eth_keyfile(uuid, eth.dev.as_str(), eth.static_ip.as_str(), eth.gateway.as_str(), dns.as_str());
    add_step(
        r,
        Effect::WriteRootFile { dst: path_join(nm_dir, "eth-static.nmconnection"), mode: owned("600"), content },
    );
    assert(plan_view(r@) =~= plan_view(old(r)@) + eth_plan(*cfg, nm_dir@, uuid@));
}

fn add_wifi(r: &mut Vec<Instr>, cfg: &Config, nm_dir: &str, uuid: &str)
    ensures
        plan_view(final(r)@) == plan_view(old(r)@) + wifi_plan(*cfg, nm_dir@, uuid@),
{
    let w = &cfg.network.wifi;
    let dns = cfg.dns_nm();
    add_step(r, Effect::Run(mkdir(nm_dir)));
    let ghost mid = plan_view(r@);
    if w.static_ip.unicode_len() != 0 {
        let msg = cat3("WiFi ", w.ssid.as_str(), " static ").concat(w.static_ip.as_str()).concat(" (metric 200)");
        add_log(r, Level::Heading, msg);
    } else if w.dhcp {
        add_log(r, Level::Heading, cat3("WiFi ", w.ssid.as_str(), " DHCP (metric 200)"));
    }
    assert(plan_view(r@) =~= mid + wifi_message(*w));
    let content = wifi_keyfile(uuid, w, dns.as_str());
    add_step(
        r,
        Effect::WriteRootFile { dst: path_join(nm_dir, "wifi-home.nmconnection"), mode: owned("600"), content },
    );
    assert(plan_view(r@) =~= plan_view(old(r)@) + wifi_plan(*cfg, nm_dir@, uuid@));
}

fn add_enable_service(r: &mut Vec<Instr>, rootfs: &str, svc: &str)
    ensures
        plan_view(final(r)@) == plan_view(old(r)@) + enable_service_plan(rootfs@, svc@),
{
    let args = vec![owned("chroot"), owned(rootfs), owned("/bin/bash"), owned("-c"), cat("systemctl enable ", svc)];
    assert(args.deep_view() =~= seq!["chroot"@, rootfs@, "/bin/bash"@, "-c"@, "systemctl enable "@ + svc@]);
    push_instr(
        r,
        Instr::Act { guard: Guard::Always, effect: Effect::Run(Command::new("sudo", args)), on_failure: OnFailure::Record },
    );
    let wants = path_join(rootfs, "etc/systemd/system/multi-user.target.wants");
    let link = path_join(wants.as_str(), svc);
    let target = cat("/lib/systemd/system/", svc);
    add_guarded(r, Guard::UnlessFlag, Effect::Run(symlink(target.as_str(), link.as_str())));
    assert(plan_view(r@) =~= plan_view(old(r)@) + enable_service_plan(rootfs@, svc@));
}

fn add_nsswitch(r: &mut Vec<Instr>, rootfs: &str)
    ensures
        plan_view(final(r)@) == plan_view(old(r)@) + nsswitch_plan(rootfs@),
{
    let nss = path_join(rootfs, "etc/nsswitch.conf");
    add_probe(r, Probe::Lacks { path: nss.clone(), needle: owned("mdns") });
    let args = vec![
        owned("sed"),
        owned("-i"),
        owned("s/^hosts:.*$/hosts:          files mdns4_minimal [NOTFOUND=return] dns/"),
        nss,
    ];
    assert(args.deep_view() =~= seq!["sed"@, "-i"@, "s/^hosts:.*$/hosts:          files mdns4_minimal [NOTFOUND=return] dns/"@, spec_path_join(rootfs@, "etc/nsswitch.conf"@)]);
    add_guarded(r, Guard::IfFlag, Effect::Run(Command::new("sudo", args)));
    assert(plan_view(r@) =~= plan_view(old(r)@) + nsswitch_plan(rootfs@));
}

fn add_services(r: &mut Vec<Instr>, cfg: &Config, rootfs: &str)
    ensures
        plan_view(final(r)@) == plan_view(old(r)@) + services_plan(*cfg, rootfs@),
{
    if cfg.services.avahi {
        let msg = cat3("enabling avahi-daemon (mDNS for ", cfg.identity.hostname.as_str(), ".local)");
        add_log(r, Level::Heading, msg);
        add_enable_service(r, rootfs, "avahi-daemon.service");
        add_nsswitch(r, rootfs);
    }
    let ghost mid = plan_view(r@);
    assert(mid =~= plan_view(old(r)@) + (if cfg.services.avahi { avahi_plan(cfg.identity.hostname@, rootfs@) } else { Seq::empty() }));
    add_log(r, Level::Heading, owned("enabling ssh"));
    add_enable_service(r, rootfs, "ssh.service");
    add_log(r, Level::Success, owned("Rootfs preconfigured. Ready to flash."));
    assert(plan_view(r@) =~= plan_view(old(r)@) + services_plan(*cfg, rootfs@));
}

/// The preconfig stage, with the ids to give the Ethernet and WiFi
/// connections.
pub fn plan(cfg: &Config, paths: &Paths, eth_uuid: &str, wifi_uuid: &str) -> (r: Vec<Instr>)
    ensures
        plan_view(r@) == preconfig_plan(*cfg, *paths, eth_uuid@, wifi_uuid@),
{
    let l4t = paths.l4t_dir.as_str();
    let rootfs = paths.rootfs();
    let sys = path_join(rootfs.as_str(), "etc/systemd/system");
    let nm_dir = path_join(rootfs.as_str(), "etc/NetworkManager/system-connections");
    let mut r: Vec<Instr> = Vec::new();
    add_preamble(&mut r, rootfs.as_str());
    add_user(&mut r, &cfg.identity, rootfs.as_str(), l4t);
    let ghost p1 = plan_view(r@);
    if cfg.identity.headless {
        add_headless(&mut r, sys.as_str());
    }
    let ghost p2 = plan_view(r@);
    assert(p2 =~= p1 + (if cfg.identity.headless { headless_plan(sys@) } else { Seq::empty() }));
    if cfg.identity.autologin {
        add_autologin(&mut r, cfg.identity.username.as_str(), sys.as_str());
    }
    let ghost p3 = plan_view(r@);
    assert(p3 =~= p2 + (if cfg.identity.autologin { autologin_plan(cfg.identity.username@, sys@) } else { Seq::empty() }));
    if cfg.network.ethernet.static_ip.unicode_len() != 0 {
        add_eth(&mut r, cfg, nm_dir.as_str(), eth_uuid);
    }
    let ghost p4 = plan_view(r@);
    assert(p4 =~= p3 + (if cfg.network.ethernet.static_ip@.len() != 0 { eth_plan(*cfg, nm_dir@, eth_uuid@) } else { Seq::empty() }));
    let w = &cfg.network.wifi;
    if w.ssid.unicode_len() != 0 {
        if w.psk.unicode_len() == 0 {
            add_step(&mut r, Effect::Fail(Error::WifiPskMissing));
            assert(plan_view(r@) =~= preconfig_plan(*cfg, *paths, eth_uuid@, wifi_uuid@));
            return r;
        }
        add_wifi(&mut r, cfg, nm_dir.as_str(), wifi_uuid);
    }
    let ghost p5 = plan_view(r@);
    assert(p5 =~= p4 + (if w.ssid@.len() != 0 { wifi_plan(*cfg, nm_dir@, wifi_uuid@) } else { Seq::empty() }));
    add_services(&mut r, cfg, rootfs.as_str());
    assert(plan_view(r@) =~= preconfig_plan(*cfg, *paths, eth_uuid@, wifi_uuid@));
    r
}

/// The preconfig stage, with fresh random ids for the connections.
pub fn plan_with_fresh_ids(cfg: &Config, paths: &Paths) -> (r: Vec<Instr>)
    ensures
        exists|eth: Seq<char>, wifi: Seq<char>|
            is_uuid_v4_text(eth) && is_uuid_v4_text(wifi) && plan_view(r@) == preconfig_plan(*cfg, *paths, eth, wifi),
{
    let eth = new_uuid();
    let wifi = new_uuid();
    plan(cfg, paths, eth.as_str(), wifi.as_str())
}

// ---------------------------------------------------------------------
// Laws
// ---------------------------------------------------------------------

/// `needle` occurs in `a + needle + b`.
proof fn lemma_occurs_between(a: Seq<char>, needle: Seq<char>, b: Seq<char>)
    ensures
        has_substring(a + needle + b, needle),
{
    let s = a + needle + b;
    assert(s.subrange(a.len() as int, (a.len() + needle.len()) as int) =~= needle);
    assert(occurs_at(s, needle, a.len() as int));
}

/// The Ethernet keyfile pins its interface by name. Without a gateway
/// the connection never takes the default route; with one, the address
/// line carries it.
pub proof fn law_eth_gateway_owns_default_route(
    uuid: Seq<char>,
    dev: Seq<char>,
    static_ip: Seq<char>,
    gateway: Seq<char>,
    dns_nm: Seq<char>,
)
    ensures
        has_substring(spec_eth_keyfile(uuid, dev, static_ip, gateway, dns_nm), "\ninterface-name="@ + dev + "\n"@),
        gateway.len() == 0 ==> has_substring(spec_eth_keyfile(uuid, dev, static_ip, gateway, dns_nm), "never-default=true"@),
        gateway.len() != 0 ==> has_substring(
            spec_eth_keyfile(uuid, dev, static_ip, gateway, dns_nm),
            "address1="@ + static_ip + ","@ + gateway,
        ),
{
    let k = spec_eth_keyfile(uuid, dev, static_ip, gateway, dns_nm);
    let head = "[connection]\nid=eth-static\ntype=ethernet\nuuid="@ + uuid + "\ninterface-name="@ + dev;
    {
        reveal_strlit("\nautoconnect=true\n\n[ethernet]\n\n[ipv4]\nmethod=manual\naddress1=");
        reveal_strlit("\n");
        let pre = "\nautoconnect=true\n\n[ethernet]\n\n[ipv4]\nmethod=manual\naddress1="@;
        let first = "[connection]\nid=eth-static\ntype=ethernet\nuuid="@ + uuid;
        let needle = "\ninterface-name="@ + dev + "\n"@;
        assert(pre =~= "\n"@ + pre.subrange(1, pre.len() as int));
        let rest = pre.subrange(1, pre.len() as int) + spec_keyfile_address(static_ip, gateway) + "\ndns="@ + dns_nm + "\n"@
            + spec_never_default(gateway) + "\n\n[ipv6]\nmethod=auto\n"@;
        assert(k =~= first + needle + rest);
        lemma_occurs_between(first, needle, rest);
    }
    if gateway.len() == 0 {
        let a = head + "\nautoconnect=true\n\n[ethernet]\n\n[ipv4]\nmethod=manual\naddress1="@ + static_ip + "\ndns="@ + dns_nm + "\n"@;
        assert(k =~= a + "never-default=true"@ + "\n\n[ipv6]\nmethod=auto\n"@);
        lemma_occurs_between(a, "never-default=true"@, "\n\n[ipv6]\nmethod=auto\n"@);
    } else {
        reveal_strlit("\nautoconnect=true\n\n[ethernet]\n\n[ipv4]\nmethod=manual\naddress1=");
        reveal_strlit("address1=");
        let pre = "\nautoconnect=true\n\n[ethernet]\n\n[ipv4]\nmethod=manual\naddress1="@;
        let cut = pre.len() - 9;
        assert(pre.subrange(cut, pre.len() as int) =~= "address1="@);
        let a = head + pre.subrange(0, cut);
        let needle = "address1="@ + static_ip + ","@ + gateway;
        let b = "\ndns="@ + dns_nm + "\n"@ + spec_never_default(gateway) + "\n\n[ipv6]\nmethod=auto\n"@;
        assert(pre =~= pre.subrange(0, cut) + "address1="@);
        assert(k =~= a + needle + b);
        lemma_occurs_between(a, needle, b);
    }
}

/// A WiFi connection that is configured (static or DHCP) routes with
/// metric 200, so that Ethernet stays primary.
pub proof fn law_wifi_routes_behind_ethernet(uuid: Seq<char>, w: Wifi, dns_nm: Seq<char>)
    requires
        w.static_ip@.len() != 0 || w.dhcp,
    ensures
        has_substring(spec_wifi_keyfile(uuid, w, dns_nm), "route-metric=200"@),
{
    let k = spec_wifi_keyfile(uuid, w, dns_nm);
    let head = "[connection]\nid=wifi-home\ntype=wifi\nuuid="@ + uuid + "\n"@ + spec_wifi_iface_line(w.dev@)
        + "\nautoconnect=true\n\n[wifi]\nmode=infrastructure\nssid="@ + w.ssid@
        + "\n\n[wifi-security]\nkey-mgmt=wpa-psk\npsk="@ + w.psk@ + "\n\n"@;
    let tail = "\n\n[ipv6]\nmethod=auto\n"@;
    if w.static_ip@.len() != 0 {
        reveal_strlit("\nroute-metric=200");
        reveal_strlit("route-metric=200");
        let end = "\nroute-metric=200"@;
        assert(end =~= "\n"@ + "route-metric=200"@) by {
            reveal_strlit("\n");
        }
        let a = head + "[ipv4]\nmethod=manual\naddress1="@ + spec_keyfile_address(w.static_ip@, w.gateway@) + "\ndns="@ + dns_nm + "\n"@;
        assert(k =~= a + "route-metric=200"@ + tail);
        lemma_occurs_between(a, "route-metric=200"@, tail);
    } else {
        reveal_strlit("[ipv4]\nmethod=auto\nroute-metric=200");
        reveal_strlit("route-metric=200");
        reveal_strlit("[ipv4]\nmethod=auto\n");
        let block = "[ipv4]\nmethod=auto\nroute-metric=200"@;
        assert(block =~= "[ipv4]\nmethod=auto\n"@ + "route-metric=200"@);
        let a = head + "[ipv4]\nmethod=auto\n"@;
        assert(k =~= a + "route-metric=200"@ + tail);
        lemma_occurs_between(a, "route-metric=200"@, tail);
    }
}

/// With a static WiFi IP the DHCP knob is ignored.
pub proof fn law_wifi_static_ignores_dhcp(uuid: Seq<char>, w1: Wifi, w2: Wifi, dns_nm: Seq<char>)
    requires
        w1.static_ip@.len() != 0,
        w1.static_ip@ == w2.static_ip@,
        w1.gateway@ == w2.gateway@,
        w1.dev@ == w2.dev@,
        w1.ssid@ == w2.ssid@,
        w1.psk@ == w2.psk@,
    ensures
        spec_wifi_keyfile(uuid, w1, dns_nm) == spec_wifi_keyfile(uuid, w2, dns_nm),
{
}

/// An SSID without a PSK stops the stage with `WifiPskMissing`, after the
/// user, headless, autologin and Ethernet steps and before any WiFi or
/// service step.
pub proof fn law_wifi_without_psk_fails(cfg: Config, paths: Paths, eth: Seq<char>, wifi: Seq<char>)
    requires
        cfg.network.wifi.ssid@.len() != 0,
        cfg.network.wifi.psk@.len() == 0,
    ensures
        preconfig_plan(cfg, paths, eth, wifi).last() == step(EffectView::Fail(ErrorView::WifiPskMissing)),
{
}

/// A blank SSID leaves WiFi out: the plan goes from the Ethernet steps
/// straight to the services.
pub proof fn law_blank_ssid_skips_wifi(cfg: Config, paths: Paths, eth: Seq<char>, wifi: Seq<char>)
    requires
        cfg.network.wifi.ssid@.len() == 0,
    ensures
        ({
            let l4t = paths.l4t_dir@;
            let rootfs = spec_path_join(l4t, "rootfs"@);
            let sys = spec_path_join(rootfs, "etc/systemd/system"@);
            let nm_dir = spec_path_join(rootfs, "etc/NetworkManager/system-connections"@);
            preconfig_plan(cfg, paths, eth, wifi) == preamble_plan(rootfs)
                + user_plan(cfg.identity, rootfs, l4t)
                + (if cfg.identity.headless { headless_plan(sys) } else { Seq::empty() })
                + (if cfg.identity.autologin { autologin_plan(cfg.identity.username@, sys) } else { Seq::empty() })
                + (if cfg.network.ethernet.static_ip@.len() != 0 { eth_plan(cfg, nm_dir, eth) } else { Seq::empty() })
                + services_plan(cfg, rootfs)
        }),
{
    let l4t = paths.l4t_dir@;
    let rootfs = spec_path_join(l4t, "rootfs"@);
    let front = preamble_plan(rootfs)
        + user_plan(cfg.identity, rootfs, l4t)
        + (if cfg.identity.headless { headless_plan(spec_path_join(rootfs, "etc/systemd/system"@)) } else { Seq::empty() })
        + (if cfg.identity.autologin { autologin_plan(cfg.identity.username@, spec_path_join(rootfs, "etc/systemd/system"@)) } else { Seq::empty() })
        + (if cfg.network.ethernet.static_ip@.len() != 0 { eth_plan(cfg, spec_path_join(rootfs, "etc/NetworkManager/system-connections"@), eth) } else { Seq::empty() });
    assert(front + Seq::<InstrView>::empty() =~= front);
}

/// The nsswitch patch is idempotent: its `sed` runs only when the probe
/// just before it reported that `nsswitch.conf` lacks `mdns`, and the
/// hosts line it writes contains `mdns`. Once patched, the probe of a
/// later run reports `mdns` present, and that run passes over the `sed`
/// and ends without doing anything.
pub proof fn law_nsswitch_patch_is_idempotent(rootfs: Seq<char>, flag: bool)
    ensures
        ({
            let p = nsswitch_plan(rootfs);
            let nss = spec_path_join(rootfs, "etc/nsswitch.conf"@);
            &&& p.len() == 2
            &&& p[0] == InstrView::Probe(ProbeView::Lacks { path: nss, needle: "mdns"@ })
            &&& p[1] matches InstrView::Act { effect: EffectView::Run(c), .. }
                && c.program == "sudo"@ && c.args[0] == "sed"@ && c.args[3] == nss
                && has_substring(c.args[2], "mdns"@)
            &&& passed_over(p[1], flag_after(p[0], flag, Ok(false)))
            &&& next_live(p, 1, flag_after(p[0], flag, Ok(false))) == p.len()
        }),
{
    let e = "s/^hosts:.*$/hosts:          files mdns4_minimal [NOTFOUND=return] dns/"@;
    reveal_strlit("s/^hosts:.*$/hosts:          files mdns4_minimal [NOTFOUND=return] dns/");
    reveal_strlit("mdns");
    assert(e.subrange(35, 39) =~= "mdns"@);
    assert(occurs_at(e, "mdns"@, 35));
    let p = nsswitch_plan(rootfs);
    assert(next_live(p, 2, false) == p.len());
}

/// With a static Ethernet address and a gateway, the preconfig plan
/// writes `eth-static.nmconnection` into the rootfs's NetworkManager
/// directory with the configured gateway on the address line, followed
/// directly by the DNS line and the end of the `[ipv4]` section (no
/// `never-default` line), so that Ethernet owns the default route.
pub proof fn law_eth_keyfile_keeps_the_gateway(cfg: Config, paths: Paths, eth_uuid: Seq<char>, wifi_uuid: Seq<char>)
    requires
        cfg.network.ethernet.static_ip@.len() != 0,
        cfg.network.ethernet.gateway@.len() != 0,
    ensures
        exists|i: int| #![trigger preconfig_plan(cfg, paths, eth_uuid, wifi_uuid)[i]] {
            &&& 0 <= i < preconfig_plan(cfg, paths, eth_uuid, wifi_uuid).len()
            &&& preconfig_plan(cfg, paths, eth_uuid, wifi_uuid)[i] matches InstrView::Act {
                effect: EffectView::WriteRootFile { dst, content, .. },
                ..
            }
                && dst == spec_path_join(
                    spec_path_join(spec_path_join(paths.l4t_dir@, "rootfs"@), "etc/NetworkManager/system-connections"@),
                    "eth-static.nmconnection"@,
                )
                && has_substring(
                    content,
                    "address1="@ + cfg.network.ethernet.static_ip@ + ","@ + cfg.network.ethernet.gateway@ + "\ndns="@
                        + nm_dns_list(cfg.network.ethernet.dns.deep_view()) + "\n\n\n[ipv6]"@,
                )
        },
{
    let eth = cfg.network.ethernet;
    let l4t = paths.l4t_dir@;
    let rootfs = spec_path_join(l4t, "rootfs"@);
    let sys = spec_path_join(rootfs, "etc/systemd/system"@);
    let nm_dir = spec_path_join(rootfs, "etc/NetworkManager/system-connections"@);
    let a = preamble_plan(rootfs)
        + user_plan(cfg.identity, rootfs, l4t)
        + (if cfg.identity.headless { headless_plan(sys) } else { Seq::empty() })
        + (if cfg.identity.autologin { autologin_plan(cfg.identity.username@, sys) } else { Seq::empty() });
    let e = eth_plan(cfg, nm_dir, eth_uuid);
    let front = a + e;
    let p = preconfig_plan(cfg, paths, eth_uuid, wifi_uuid);
    let i: int = a.len() as int + 2;
    assert(front[i] == e[2]);
    assert(p[i] == front[i]);
    let ip = eth.static_ip@;
    let gw = eth.gateway@;
    let nm = nm_dns_list(eth.dns.deep_view());
    let k = spec_eth_keyfile(eth_uuid, eth.dev@, ip, gw, nm);
    reveal_strlit("\nautoconnect=true\n\n[ethernet]\n\n[ipv4]\nmethod=manual\naddress1=");
    reveal_strlit("address1=");
    reveal_strlit("\n");
    reveal_strlit("\n\n[ipv6]\nmethod=auto\n");
    reveal_strlit("\n\n\n[ipv6]");
    reveal_strlit("\nmethod=auto\n");
    let pre = "\nautoconnect=true\n\n[ethernet]\n\n[ipv4]\nmethod=manual\naddress1="@;
    let cut = pre.len() - 9;
    assert(pre =~= pre.subrange(0, cut) + "address1="@);
    let head = "[connection]\nid=eth-static\ntype=ethernet\nuuid="@ + eth_uuid + "\ninterface-name="@ + eth.dev@
        + pre.subrange(0, cut);
    let needle = "address1="@ + ip + ","@ + gw + "\ndns="@ + nm + "\n\n\n[ipv6]"@;
    assert(spec_never_default(gw) =~= Seq::<char>::empty());
    assert("\n"@ + Seq::<char>::empty() + "\n\n[ipv6]\nmethod=auto\n"@ =~= "\n\n\n[ipv6]"@ + "\nmethod=auto\n"@);
    assert(k =~= head + needle + "\nmethod=auto\n"@);
    lemma_occurs_between(head, needle, "\nmethod=auto\n"@);
}

/// Unless `/etc/passwd` of the rootfs already has the profile's user, the
/// preconfig plan creates the board's default user with the profile's
/// `username` as the user (`-u`), its password (`-p`) and its `hostname`
/// as the host name (`-n`), from the BSP directory; without a password it
/// fails asking for it.
pub proof fn law_default_user_from_identity(cfg: Config, paths: Paths, eth_uuid: Seq<char>, wifi_uuid: Seq<char>)
    ensures
        ({
            let p = preconfig_plan(cfg, paths, eth_uuid, wifi_uuid);
            let id = cfg.identity;
            let rootfs = spec_path_join(paths.l4t_dir@, "rootfs"@);
            &&& p[3] == InstrView::Probe(ProbeView::Succeeds(CommandView {
                program: "sudo"@,
                args: seq!["grep"@, "-q"@, "^"@ + id.username@ + ":"@, spec_path_join(rootfs, "etc/passwd"@)],
                cwd: None,
                live: false,
            }))
            &&& id.password matches Some(pw) ==> p[6] == InstrView::Act {
                guard: Guard::UnlessFlag,
                effect: EffectView::Run(CommandView {
                    program: "sudo"@,
                    args: seq![
                        "./tools/l4t_create_default_user.sh"@,
                        "-u"@,
                        id.username@,
                        "-p"@,
                        pw@,
                        "-n"@,
                        id.hostname@,
                        "--accept-license"@,
                    ],
                    cwd: Some(paths.l4t_dir@),
                    live: false,
                }),
                on_failure: OnFailure::Abort,
            }
            &&& id.password is None ==> p[6] == InstrView::Act {
                guard: Guard::UnlessFlag,
                effect: EffectView::Fail(ErrorView::MissingSecret("identity.password"@)),
                on_failure: OnFailure::Abort,
            }
        }),
{
    let l4t = paths.l4t_dir@;
    let rootfs = spec_path_join(l4t, "rootfs"@);
    let u = user_plan(cfg.identity, rootfs, l4t);
    let pre = preamble_plan(rootfs);
    let p = preconfig_plan(cfg, paths, eth_uuid, wifi_uuid);
    assert(pre.len() == 3);
    assert(p[3] == (pre + u)[3]);
    assert(p[6] == (pre + u)[6]);
    assert(p[3] matches InstrView::Probe(ProbeView::Succeeds(c)) && c.args =~= seq!["grep"@, "-q"@, "^"@ + cfg.identity.username@ + ":"@, spec_path_join(rootfs, "etc/passwd"@)]);
}

/// A headless profile boots the board to `multi-user.target` and masks
/// gdm3, gdm and the oem-config GUI (the last may fail); with autologin,
/// the override for `getty@tty1` logs the profile's user in on tty1.
pub proof fn law_headless_and_autologin(cfg: Config, paths: Paths, eth_uuid: Seq<char>, wifi_uuid: Seq<char>)
    ensures
        ({
            let p = preconfig_plan(cfg, paths, eth_uuid, wifi_uuid);
            let sys = spec_path_join(spec_path_join(paths.l4t_dir@, "rootfs"@), "etc/systemd/system"@);
            let at = if cfg.identity.headless { 12int } else { 7int };
            &&& cfg.identity.headless ==> {
                &&& p[8] == InstrView::Act {
                    guard: Guard::Always,
                    effect: EffectView::Run(CommandView {
                        program: "sudo"@,
                        args: seq!["ln"@, "-sf"@, "/lib/systemd/system/multi-user.target"@, spec_path_join(sys, "default.target"@)],
                        cwd: None,
                        live: false,
                    }),
                    on_failure: OnFailure::Abort,
                }
                &&& p[9] == InstrView::Act {
                    guard: Guard::Always,
                    effect: EffectView::Run(CommandView {
                        program: "sudo"@,
                        args: seq!["ln"@, "-sf"@, "/dev/null"@, spec_path_join(sys, "gdm3.service"@)],
                        cwd: None,
                        live: false,
                    }),
                    on_failure: OnFailure::Abort,
                }
                &&& p[10] == InstrView::Act {
                    guard: Guard::Always,
                    effect: EffectView::Run(CommandView {
                        program: "sudo"@,
                        args: seq!["ln"@, "-sf"@, "/dev/null"@, spec_path_join(sys, "gdm.service"@)],
                        cwd: None,
                        live: false,
                    }),
                    on_failure: OnFailure::Abort,
                }
                &&& p[11] == InstrView::Act {
                    guard: Guard::Always,
                    effect: EffectView::Run(CommandView {
                        program: "sudo"@,
                        args: seq!["ln"@, "-sf"@, "/dev/null"@, spec_path_join(sys, "nv-oem-config-gui.service"@)],
                        cwd: None,
                        live: false,
                    }),
                    on_failure: OnFailure::Ignore,
                }
            }
            &&& cfg.identity.autologin ==> p[at + 2] == InstrView::Act {
                guard: Guard::Always,
                effect: EffectView::WriteRootFile {
                    dst: spec_path_join(spec_path_join(sys, "getty@tty1.service.d"@), "override.conf"@),
                    mode: "644"@,
                    content: "[Service]\nExecStart=\nExecStart=-/sbin/agetty --autologin "@ + cfg.identity.username@
                        + " --noclear %I $TERM\n"@,
                },
                on_failure: OnFailure::Abort,
            }
        }),
{
    let l4t = paths.l4t_dir@;
    let rootfs = spec_path_join(l4t, "rootfs"@);
    let sys = spec_path_join(rootfs, "etc/systemd/system"@);
    let pu = preamble_plan(rootfs) + user_plan(cfg.identity, rootfs, l4t);
    let h = if cfg.identity.headless { headless_plan(sys) } else { Seq::empty() };
    let al = if cfg.identity.autologin { autologin_plan(cfg.identity.username@, sys) } else { Seq::empty() };
    let p = preconfig_plan(cfg, paths, eth_uuid, wifi_uuid);
    let q = pu + h + al;
    assert(pu.len() == 7);
    assert forall|k: int| 0 <= k < q.len() implies p[k] == q[k] by {}
    if cfg.identity.headless {
        let hp = headless_plan(sys);
        assert(q[8] == hp[1] && q[9] == hp[2] && q[10] == hp[3] && q[11] == hp[4]);
        assert(p[8] == q[8] && p[9] == q[9] && p[10] == q[10] && p[11] == q[11]);
        assert(p[8] matches InstrView::Act { effect: EffectView::Run(c), .. } && c.args =~= seq!["ln"@, "-sf"@, "/lib/systemd/system/multi-user.target"@, spec_path_join(sys, "default.target"@)]);
        assert(p[9] matches InstrView::Act { effect: EffectView::Run(c), .. } && c.args =~= seq!["ln"@, "-sf"@, "/dev/null"@, spec_path_join(sys, "gdm3.service"@)]);
        assert(p[10] matches InstrView::Act { effect: EffectView::Run(c), .. } && c.args =~= seq!["ln"@, "-sf"@, "/dev/null"@, spec_path_join(sys, "gdm.service"@)]);
        assert(p[11] matches InstrView::Act { effect: EffectView::Run(c), .. } && c.args =~= seq!["ln"@, "-sf"@, "/dev/null"@, spec_path_join(sys, "nv-oem-config-gui.service"@)]);
    }
    if cfg.identity.autologin {
        let at: int = (pu.len() + h.len()) as int;
        assert(q[at + 2] == autologin_plan(cfg.identity.username@, sys)[2]);
        assert(p[at + 2] == q[at + 2]);
    }
}

/// With an SSID and a PSK, the preconfig plan writes
/// `wifi-home.nmconnection` into the rootfs's NetworkManager directory,
/// for that SSID and secured by WPA-PSK with that PSK.
pub proof fn law_wifi_keyfile_for_the_ssid(cfg: Config, paths: Paths, eth_uuid: Seq<char>, wifi_uuid: Seq<char>)
    requires
        cfg.network.wifi.ssid@.len() != 0,
        cfg.network.wifi.psk@.len() != 0,
    ensures
        exists|i: int| #![trigger preconfig_plan(cfg, paths, eth_uuid, wifi_uuid)[i]] {
            &&& 0 <= i < preconfig_plan(cfg, paths, eth_uuid, wifi_uuid).len()
            &&& preconfig_plan(cfg, paths, eth_uuid, wifi_uuid)[i] matches InstrView::Act {
                effect: EffectView::WriteRootFile { dst, mode, content },
                ..
            }
                && dst == spec_path_join(
                    spec_path_join(spec_path_join(paths.l4t_dir@, "rootfs"@), "etc/NetworkManager/system-connections"@),
                    "wifi-home.nmconnection"@,
                )
                && mode == "600"@
                && has_substring(
                    content,
                    "\nssid="@ + cfg.network.wifi.ssid@ + "\n\n[wifi-security]\nkey-mgmt=wpa-psk\npsk="@
                        + cfg.network.wifi.psk@ + "\n\n"@,
                )
        },
{
    let w = cfg.network.wifi;
    let l4t = paths.l4t_dir@;
    let rootfs = spec_path_join(l4t, "rootfs"@);
    let sys = spec_path_join(rootfs, "etc/systemd/system"@);
    let nm_dir = spec_path_join(rootfs, "etc/NetworkManager/system-connections"@);
    let front = preamble_plan(rootfs)
        + user_plan(cfg.identity, rootfs, l4t)
        + (if cfg.identity.headless { headless_plan(sys) } else { Seq::empty() })
        + (if cfg.identity.autologin { autologin_plan(cfg.identity.username@, sys) } else { Seq::empty() })
        + (if cfg.network.ethernet.static_ip@.len() != 0 { eth_plan(cfg, nm_dir, eth_uuid) } else { Seq::empty() });
    let wp = wifi_plan(cfg, nm_dir, wifi_uuid);
    let rest = services_plan(cfg, rootfs);
    let p = preconfig_plan(cfg, paths, eth_uuid, wifi_uuid);
    assert(p == front + wp + rest);
    let j: int = (1 + wifi_message(w).len()) as int;
    let i: int = front.len() as int + j;
    assert(wp[j] == step(EffectView::WriteRootFile {
        dst: spec_path_join(nm_dir, "wifi-home.nmconnection"@),
        mode: "600"@,
        content: spec_wifi_keyfile(wifi_uuid, w, nm_dns_list(cfg.network.ethernet.dns.deep_view())),
    }));
    assert((front + wp)[i] == wp[j]);
    assert(p[i] == (front + wp)[i]);
    let dns = nm_dns_list(cfg.network.ethernet.dns.deep_view());
    let k = spec_wifi_keyfile(wifi_uuid, w, dns);
    reveal_strlit("\nautoconnect=true\n\n[wifi]\nmode=infrastructure\nssid=");
    reveal_strlit("\nssid=");
    let lit = "\nautoconnect=true\n\n[wifi]\nmode=infrastructure\nssid="@;
    let cut = lit.len() - 6;
    assert(lit.subrange(cut, lit.len() as int) =~= "\nssid="@);
    assert(lit =~= lit.subrange(0, cut) + "\nssid="@);
    let head = "[connection]\nid=wifi-home\ntype=wifi\nuuid="@ + wifi_uuid + "\n"@ + spec_wifi_iface_line(w.dev@)
        + lit.subrange(0, cut);
    let needle = "\nssid="@ + w.ssid@ + "\n\n[wifi-security]\nkey-mgmt=wpa-psk\npsk="@ + w.psk@ + "\n\n"@;
    let tail = spec_wifi_ipv4(w, dns) + "\n\n[ipv6]\nmethod=auto\n"@;
    assert(k =~= head + needle + tail);
    lemma_occurs_between(head, needle, tail);
}

/// Unless WiFi is configured without a PSK (which fails), the preconfig
/// plan ends by enabling `ssh.service` in the rootfs with `systemctl`
/// under chroot, falling back to the `multi-user.target.wants` symlink
/// when that fails.
pub proof fn law_ssh_is_enabled_last(cfg: Config, paths: Paths, eth_uuid: Seq<char>, wifi_uuid: Seq<char>)
    requires
        !(cfg.network.wifi.ssid@.len() != 0 && cfg.network.wifi.psk@.len() == 0),
    ensures
        ({
            let p = preconfig_plan(cfg, paths, eth_uuid, wifi_uuid);
            let rootfs = spec_path_join(paths.l4t_dir@, "rootfs"@);
            let n = p.len() as int;
            &&& n >= 3
            &&& p[n - 3] == InstrView::Act {
                guard: Guard::Always,
                effect: EffectView::Run(CommandView {
                    program: "sudo"@,
                    args: seq!["chroot"@, rootfs, "/bin/bash"@, "-c"@, "systemctl enable ssh.service"@],
                    cwd: None,
                    live: false,
                }),
                on_failure: OnFailure::Record,
            }
            &&& p[n - 2] == InstrView::Act {
                guard: Guard::UnlessFlag,
                effect: EffectView::Run(CommandView {
                    program: "sudo"@,
                    args: seq![
                        "ln"@,
                        "-sf"@,
                        "/lib/systemd/system/ssh.service"@,
                        spec_path_join(spec_path_join(rootfs, "etc/systemd/system/multi-user.target.wants"@), "ssh.service"@),
                    ],
                    cwd: None,
                    live: false,
                }),
                on_failure: OnFailure::Abort,
            }
        }),
{
    let rootfs = spec_path_join(paths.l4t_dir@, "rootfs"@);
    let p = preconfig_plan(cfg, paths, eth_uuid, wifi_uuid);
    let svc = services_plan(cfg, rootfs);
    let e = enable_service_plan(rootfs, "ssh.service"@);
    let last = seq![step(EffectView::Log(Level::Success, "Rootfs preconfigured. Ready to flash."@))];
    let n = p.len() as int;
    assert(svc.len() >= 3);
    assert(svc[svc.len() - 3] == e[0]);
    assert(svc[svc.len() - 2] == e[1]);
    assert(p[n - 3] == svc[svc.len() - 3]);
    assert(p[n - 2] == svc[svc.len() - 2]);
    reveal_strlit("systemctl enable ");
    reveal_strlit("ssh.service");
    reveal_strlit("systemctl enable ssh.service");
    reveal_strlit("/lib/systemd/system/");
    reveal_strlit("/lib/systemd/system/ssh.service");
    assert("systemctl enable "@ + "ssh.service"@ =~= "systemctl enable ssh.service"@);
    assert("/lib/systemd/system/"@ + "ssh.service"@ =~= "/lib/systemd/system/ssh.service"@);
    assert(p[n - 3] matches InstrView::Act { effect: EffectView::Run(c), .. } && c.args =~= seq!["chroot"@, rootfs, "/bin/bash"@, "-c"@, "systemctl enable ssh.service"@]);
    assert(p[n - 2] matches InstrView::Act { effect: EffectView::Run(c), .. } && c.args =~= seq![
        "ln"@,
        "-sf"@,
        "/lib/systemd/system/ssh.service"@,
        spec_path_join(spec_path_join(rootfs, "etc/systemd/system/multi-user.target.wants"@), "ssh.service"@),
    ]);
}

} // verus!
