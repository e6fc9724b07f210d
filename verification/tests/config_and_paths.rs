use jetson_flash::config::{
    default_config_path, default_dns, jetpack_releases, nano_eth, preset, profile_names,
    resolve_config_path, xdg_config_path, yes, Board, EthernetSource, Ethernet, Identity,
    IdentitySource, L4t, L4tSource, Network, NetworkSource, ProfileConfig, Services,
    ServicesSource, Wifi, WifiSource,
};
use jetson_flash::paths::workspace_base;
use jetson_flash::{Config, Error, Paths, RecoveryError};

fn strings(items: &[&str]) -> Vec<String> {
    items.iter().map(|s| s.to_string()).collect()
}

fn config_with_dns(dns: &[&str]) -> Config {
    let mut network = Network::default();
    network.ethernet.dns = strings(dns);
    Config {
        l4t: L4t {
            version: "39.2.0".into(),
            bsp_url: "https://x/Jetson_Linux_R39.2.0_aarch64.tbz2".into(),
            rootfs_url: "https://x/Tegra_Linux_Sample-Root-Filesystem_R39.2.0_aarch64.tbz2".into(),
        },
        board: Board { name: "jetson-orin-nano-devkit-super".into(), external_device: "nvme0n1p1".into() },
        identity: Identity {
            username: "beppo".into(),
            password: Some("secret".into()),
            hostname: "beppo".into(),
            headless: true,
            autologin: true,
        },
        network,
        services: Services::default(),
    }
}

/// A profile that sets only what has no default.
fn profile(jetpack: Option<&str>) -> ProfileConfig {
    ProfileConfig {
        jetpack: jetpack.map(|j| j.to_string()),
        l4t: L4tSource { version: None, bsp_url: None, rootfs_url: None },
        board: Board { name: "jetson-orin-nano-devkit-super".into(), external_device: "nvme0n1p1".into() },
        identity: IdentitySource {
            username: "beppo".into(),
            password: Some("pw".into()),
            hostname: "beppo".into(),
            headless: None,
            autologin: None,
        },
        network: NetworkSource {
            ethernet: EthernetSource { dev: None, static_ip: None, gateway: None, dns: None },
            wifi: WifiSource { dev: None, ssid: None, psk: None, dhcp: None, static_ip: None, gateway: None },
        },
        services: ServicesSource { avahi: None },
    }
}

#[test]
fn defaults_of_the_knobs() {
    assert!(yes());
    assert_eq!(nano_eth(), "enP8p1s0");
    assert_eq!(default_dns(), strings(&["1.1.1.1", "8.8.8.8"]));
    let eth = Ethernet::default();
    assert_eq!(eth.dev, "enP8p1s0");
    assert_eq!(eth.static_ip, "");
    assert_eq!(eth.gateway, "");
    assert_eq!(eth.dns, strings(&["1.1.1.1", "8.8.8.8"]));
    let wifi = Wifi::default();
    assert_eq!(wifi.ssid, "");
    assert!(wifi.dhcp);
    assert!(Services::default().avahi);
    let net = Network::default();
    assert_eq!(net.ethernet.dev, "enP8p1s0");
    assert_eq!(net.wifi.psk, "");
}

#[test]
fn dns_nm_keyfile_list() {
    assert_eq!(config_with_dns(&["1.1.1.1", "8.8.8.8"]).dns_nm(), "1.1.1.1;8.8.8.8;");
    assert_eq!(config_with_dns(&["9.9.9.9"]).dns_nm(), "9.9.9.9;");
    assert_eq!(config_with_dns(&[]).dns_nm(), "");
}

#[test]
fn dns_nm_every_server_terminated() {
    for dns in [vec!["1.1.1.1", "8.8.8.8"], vec!["a"], vec!["", ""], vec![]] {
        let expected: String = dns.iter().map(|d| format!("{};", d)).collect();
        assert_eq!(config_with_dns(&dns).dns_nm(), expected);
    }
    // the one list the law leaves out: a single empty entry
    assert_eq!(config_with_dns(&[""]).dns_nm(), "");
}

#[test]
fn profiles_leave_out_the_default_base() {
    let raw = strings(&["default", "orin-agx", "orin-nano"]);
    assert_eq!(Config::profiles(&raw), strings(&["orin-agx", "orin-nano"]));
    assert_eq!(profile_names(&strings(&["default"])), strings(&[]));
    assert_eq!(profile_names(&strings(&[])), strings(&[]));
}

#[test]
fn load_refuses_an_unknown_profile() {
    let raw = strings(&["default", "orin-agx", "orin-nano"]);
    let mut called = false;
    let r = Config::load(&raw, "orin-tx2", |_p: &str| {
        called = true;
        Ok(profile(Some("7.2")))
    });
    assert!(!called);
    match r {
        Err(e) => {
            assert_eq!(e.message(), "unknown profile `orin-tx2` (available: orin-agx, orin-nano)");
            match e {
                Error::UnknownProfile { name, known } => {
                    assert_eq!(name, "orin-tx2");
                    assert_eq!(known, strings(&["orin-agx", "orin-nano"]));
                }
                _ => panic!("wrong error"),
            }
        }
        Ok(_) => panic!("unknown profile accepted"),
    }
}

#[test]
fn load_refuses_the_default_base() {
    let raw = strings(&["default", "orin-nano"]);
    let r = Config::load(&raw, "default", |_p: &str| Ok(profile(Some("7.2"))));
    assert!(matches!(r, Err(Error::UnknownProfile { .. })));
}

#[test]
fn load_extracts_a_listed_profile() {
    let raw = strings(&["default", "orin-nano"]);
    let r = Config::load(&raw, "orin-nano", |p: &str| {
        assert_eq!(p, "orin-nano");
        let mut pc = profile(Some("7.2"));
        pc.network.ethernet.dns = Some(strings(&["4.4.4.4"]));
        Ok(pc)
    });
    assert_eq!(r.unwrap().dns_nm(), "4.4.4.4;");
    let r = Config::load(&raw, "orin-nano", |_p: &str| Err("bad value".to_string()));
    assert_eq!(r.unwrap_err().message(), "config: bad value");
    // a listed profile is never refused as unknown, whatever the extraction says
    let r = Config::load(&raw, "orin-nano", |_p: &str| Err("unknown profile `orin-nano`".to_string()));
    assert!(matches!(r, Err(Error::Config(ref m)) if m == "unknown profile `orin-nano`"));
}

#[test]
fn load_fills_the_defaults() {
    let raw = strings(&["default", "orin-nano"]);
    let c = Config::load(&raw, "orin-nano", |_p: &str| Ok(profile(Some("7.2")))).unwrap();
    assert_eq!(c.network.ethernet.dev, "enP8p1s0");
    assert_eq!(c.network.ethernet.dns, strings(&["1.1.1.1", "8.8.8.8"]));
    assert_eq!(c.network.ethernet.static_ip, "");
    assert_eq!(c.network.ethernet.gateway, "");
    assert!(c.network.wifi.dhcp);
    assert_eq!(c.network.wifi.ssid, "");
    assert!(c.identity.headless);
    assert!(c.identity.autologin);
    assert!(c.services.avahi);
    assert_eq!(c.dns_nm(), "1.1.1.1;8.8.8.8;");
    let mut pc = profile(Some("7.2"));
    pc.identity.headless = Some(false);
    pc.network.wifi.dhcp = Some(false);
    pc.services.avahi = Some(false);
    let c = Config::from_profile(pc).unwrap();
    assert!(!c.identity.headless && c.identity.autologin);
    assert!(!c.network.wifi.dhcp);
    assert!(!c.services.avahi);
}

#[test]
fn jetpack_presets_resolve_the_l4t_release() {
    assert_eq!(jetpack_releases(), strings(&["6.2.1", "7.2"]));
    let c = Config::from_profile(profile(Some("7.2"))).unwrap();
    assert_eq!(c.l4t.version, "39.2.0");
    assert_eq!(c.l4t.version(), "39.2.0");
    assert!(c.l4t.bsp_url.ends_with("/Jetson_Linux_R39.2.0_aarch64.tbz2"));
    assert!(c.l4t.rootfs_url.ends_with("/Tegra_Linux_Sample-Root-Filesystem_R39.2.0_aarch64.tbz2"));
    let c = Config::from_profile(profile(Some("6.2.1"))).unwrap();
    assert_eq!(c.l4t.version, "36.4.4");
    let (v, b, f) = preset("7.2").unwrap();
    assert_eq!(v, "39.2.0");
    assert_eq!(c.l4t.bsp_url.replace("36.4.4", "39.2.0").replace("r36_release_v4.4", "r39_release_v2.0"), b);
    assert!(f.contains("Sample-Root-Filesystem"));
    assert_eq!(preset("5.1"), None);
}

#[test]
fn explicit_l4t_values_override_the_preset() {
    let mut pc = profile(Some("7.2"));
    pc.l4t.version = Some("39.9.9".into());
    pc.l4t.rootfs_url = Some("https://mirror/rootfs.tbz2".into());
    let c = Config::from_profile(pc).unwrap();
    assert_eq!(c.l4t.version, "39.9.9");
    assert!(c.l4t.bsp_url.ends_with("/Jetson_Linux_R39.2.0_aarch64.tbz2"));
    assert_eq!(c.l4t.rootfs_url, "https://mirror/rootfs.tbz2");
}

#[test]
fn unknown_jetpack_is_refused() {
    let raw = strings(&["default", "orin-nano"]);
    let r = Config::load(&raw, "orin-nano", |_p: &str| Ok(profile(Some("5.0"))));
    let e = r.unwrap_err();
    assert_eq!(e.message(), "unknown jetpack `5.0` (known: 6.2.1, 7.2)");
    match e {
        Error::UnknownJetpack { name, known } => {
            assert_eq!(name, "5.0");
            assert_eq!(known, strings(&["6.2.1", "7.2"]));
        }
        _ => panic!("wrong error"),
    }
}

#[test]
fn without_a_jetpack_every_l4t_value_is_needed() {
    let e = Config::from_profile(profile(None)).unwrap_err();
    assert_eq!(e.message(), "config: missing l4t.version: set it or choose a jetpack");
    let mut pc = profile(None);
    pc.l4t.version = Some("39.2.0".into());
    pc.l4t.bsp_url = Some("https://x/bsp.tbz2".into());
    let e = Config::from_profile(pc.clone()).unwrap_err();
    assert_eq!(e.message(), "config: missing l4t.rootfs_url: set it or choose a jetpack");
    pc.l4t.rootfs_url = Some("https://x/rootfs.tbz2".into());
    let c = Config::from_profile(pc).unwrap();
    assert_eq!(c.l4t.bsp_url, "https://x/bsp.tbz2");
    assert_eq!(c.l4t.rootfs_url, "https://x/rootfs.tbz2");
}

#[test]
fn profiles_keep_order_without_repeats() {
    let raw = strings(&["orin-nano", "default", "orin-agx", "spare"]);
    assert_eq!(Config::profiles(&raw), strings(&["orin-nano", "orin-agx", "spare"]));
    assert_eq!(Config::profiles(&strings(&["default", "default"])), strings(&[]));
}

#[test]
fn dns_nm_splits_back_into_the_servers() {
    let dns = ["1.1.1.1", "8.8.8.8", "9.9.9.9"];
    let text = config_with_dns(&dns).dns_nm();
    let pieces: Vec<&str> = text.split(';').collect();
    assert_eq!(pieces, vec!["1.1.1.1", "8.8.8.8", "9.9.9.9", ""]);
    assert_eq!(config_with_dns(&[]).dns_nm().split(';').collect::<Vec<_>>(), vec![""]);
}

#[test]
fn workspace_layout() {
    let p = Paths::new(".", "orin-nano", "39.2.0");
    assert_eq!(p.base, ".");
    assert_eq!(p.downloads, "./downloads/39.2.0");
    assert_eq!(p.work, "./work/orin-nano-39.2.0");
    assert_eq!(p.l4t_dir, "./work/orin-nano-39.2.0/Linux_for_Tegra");
    assert_eq!(p.logs, "./logs/orin-nano-39.2.0");
    assert_eq!(p.rootfs(), "./work/orin-nano-39.2.0/Linux_for_Tegra/rootfs");
    let p = Paths::new("/srv/jetson/", "orin-agx", "36.4.4");
    assert_eq!(p.rootfs(), "/srv/jetson/work/orin-agx-36.4.4/Linux_for_Tegra/rootfs");
    assert_eq!(p.downloads, "/srv/jetson/downloads/36.4.4");
}

#[test]
fn slots_never_collide() {
    let a = Paths::new("/c", "orin-nano", "39.2.0");
    let b = Paths::new("/c", "orin-agx", "39.2.0");
    let c = Paths::new("/c", "orin-nano", "36.4.4");
    assert_ne!(a.work, b.work);
    assert_ne!(a.work, c.work);
    assert_ne!(a.logs, b.logs);
    assert_ne!(a.logs, c.logs);
    assert_eq!(a.downloads, b.downloads);
    assert_ne!(a.downloads, c.downloads);
}

#[test]
fn workspace_base_order() {
    let home = Some("/home/u".to_string());
    assert_eq!(workspace_base(Some("/w".into()), Some("/e".into()), "/r", true, home.clone()), "/w");
    assert_eq!(workspace_base(None, Some("/e".into()), "/r", true, home.clone()), "/e");
    assert_eq!(workspace_base(None, None, "/r", true, home.clone()), "/r");
    assert_eq!(workspace_base(None, None, "/r", false, home.clone()), "/home/u/.cache/jetson-flash");
    assert_eq!(workspace_base(None, None, "/r", false, None), "/r");
}

#[test]
fn config_paths() {
    assert_eq!(default_config_path("/repo"), "/repo/jetson-flash.toml");
    assert_eq!(
        xdg_config_path(Some("/home/u/.xdg".into()), Some("/home/u".into())),
        Some("/home/u/.xdg/jetson-flash/jetson-flash.toml".to_string())
    );
    assert_eq!(
        xdg_config_path(None, Some("/home/u".into())),
        Some("/home/u/.config/jetson-flash/jetson-flash.toml".to_string())
    );
    assert_eq!(xdg_config_path(None, None), None);
}

#[test]
fn config_resolution_order() {
    let xdg = Some("/x/jetson-flash.toml".to_string());
    assert_eq!(resolve_config_path(Some("/e.toml".into()), "/r", true, xdg.clone(), true), "/e.toml");
    assert_eq!(resolve_config_path(None, "/r", true, xdg.clone(), true), "/r/jetson-flash.toml");
    assert_eq!(resolve_config_path(None, "/r", false, xdg.clone(), true), "/x/jetson-flash.toml");
    assert_eq!(resolve_config_path(None, "/r", false, xdg.clone(), false), "/r/jetson-flash.toml");
    assert_eq!(resolve_config_path(None, "/r", false, None, false), "/r/jetson-flash.toml");
}

#[test]
fn error_messages() {
    let cases: Vec<(Error, &str)> = vec![
        (Error::Config("missing field".into()), "config: missing field"),
        (Error::Io { context: "mkdir /w".into(), source: "denied".into() }, "mkdir /w: denied"),
        (Error::Usb("busy".into()), "usb: busy"),
        (Error::Spawn { cmd: "wget x".into(), source: "not found".into() }, "failed to spawn `wget x`: not found"),
        (
            Error::Command { cmd: "sudo ls".into(), status: "exit status: 2".into(), log: "logs/a.log".into() },
            "`sudo ls` exited with exit status: 2 (see logs/a.log)",
        ),
        (Error::Sudo, "sudo authentication failed"),
        (Error::Missing("x missing".into()), "x missing"),
        (Error::WifiPskMissing, "wifi ssid set but wifi psk is empty (set JETSON_NETWORK_WIFI_PSK)"),
        (
            Error::UnknownJetpack { name: "5.0".into(), known: strings(&["6.2.1", "7.2"]) },
            "unknown jetpack `5.0` (known: 6.2.1, 7.2)",
        ),
        (
            Error::MissingSecret("identity.password".into()),
            "identity.password is required — supply it via environment (e.g. JETSON_IDENTITY_PASSWORD)",
        ),
        (
            Error::Recovery(RecoveryError::RunningL4t),
            "Jetson not ready to flash: board is running L4T (0955:7020), not in APX recovery",
        ),
        (Error::Recovery(RecoveryError::Absent), "Jetson not ready to flash: no Jetson detected on USB"),
    ];
    for (e, m) in cases {
        assert_eq!(e.message(), m);
        assert_eq!(e.copy().message(), m);
    }
    assert_eq!(RecoveryError::Absent.message(), "no Jetson detected on USB");
}
