use jetson_flash::config::{Board, Identity, L4t, Network, Services};
use jetson_flash::logging::{pretty, Level};
use jetson_flash::pipeline::{all_steps, PipelineAction, PipelineRun, Step, ALL};
use jetson_flash::plan::{Command, Effect, Guard, Instr, OnFailure, PlanRun, Probe, Request};
use jetson_flash::stages::check::{self, Model, UsbState};
use jetson_flash::stages::preconfig::{
    autologin_override, eth_keyfile, install_command, temp_file_name, wifi_keyfile,
    write_temp_context,
};
use jetson_flash::stages::{deps, dispatch, fetch, flash, preconfig, stage};
use jetson_flash::{Config, Error, Paths, RecoveryError};

fn strings(items: &[&str]) -> Vec<String> {
    items.iter().map(|s| s.to_string()).collect()
}

fn describe_command(c: &Command) -> String {
    let mut s = pretty(&c.program, &c.args);
    if let Some(cwd) = &c.cwd {
        s = format!("{} (in {})", s, cwd);
    }
    if c.live {
        s = format!("{} [live]", s);
    }
    s
}

fn describe_probe(p: &Probe) -> String {
    match p {
        Probe::Exists(x) => format!("? exists {}", x),
        Probe::IsFile(x) => format!("? file {}", x),
        Probe::IsDir(x) => format!("? dir {}", x),
        Probe::Succeeds(c) => format!("? succeeds {}", describe_command(c)),
        Probe::Contains { path, needle } => format!("? {} contains {}", path, needle),
        Probe::Lacks { path, needle } => format!("? {} lacks {}", path, needle),
    }
}

fn describe_effect(e: &Effect) -> String {
    match e {
        Effect::Log(level, msg) => format!("{} {}", level.tag(), msg),
        Effect::SudoValidate => "sudo -v".to_string(),
        Effect::Run(c) => format!("run {}", describe_command(c)),
        Effect::MakeDirs { path, context } => format!("mkdir {} ({})", path, context),
        Effect::WriteRootFile { dst, mode, .. } => format!("write {} {}", dst, mode),
        Effect::Fail(e) => format!("fail {}", e.message()),
    }
}

/// Runs a plan against a simulated host: `answer` decides probes, `fails`
/// decides which effects fail. Returns what was asked and done, and the
/// result.
fn simulate(
    plan: Vec<Instr>,
    answer: &dyn Fn(&Probe) -> bool,
    fails: &dyn Fn(&Effect) -> Option<Error>,
) -> (Vec<String>, Result<(), Error>) {
    let mut run = PlanRun::new(plan);
    let mut reply: Result<bool, Error> = Ok(true);
    let mut trace = Vec::new();
    loop {
        match run.next(reply) {
            Request::Probe(p) => {
                trace.push(describe_probe(&p));
                reply = Ok(answer(&p));
            }
            Request::Perform(e) => {
                trace.push(describe_effect(&e));
                reply = match fails(&e) {
                    Some(err) => Err(err),
                    None => Ok(true),
                };
            }
            Request::Finished(r) => {
                // a finished run keeps reporting the same result
                match (run.next(Ok(true)), &r) {
                    (Request::Finished(Ok(())), Ok(())) => {}
                    (Request::Finished(Err(a)), Err(b)) => assert_eq!(a.message(), b.message()),
                    _ => panic!("run changed its result"),
                }
                return (trace, r);
            }
        }
    }
}

fn never(_: &Effect) -> Option<Error> {
    None
}

fn effects(trace: &[String]) -> Vec<String> {
    trace.iter().filter(|l| !l.starts_with("? ")).cloned().collect()
}

fn config() -> Config {
    Config {
        l4t: L4t {
            version: "39.2.0".into(),
            bsp_url: "https://dl.example/r39/Jetson_Linux_R39.2.0_aarch64.tbz2".into(),
            rootfs_url: "https://dl.example/r39/Tegra_Linux_Sample-Root-Filesystem_R39.2.0_aarch64.tbz2".into(),
        },
        board: Board { name: "jetson-orin-nano-devkit-super".into(), external_device: "nvme0n1p1".into() },
        identity: Identity {
            username: "beppo".into(),
            password: Some("pw".into()),
            hostname: "beppo-host".into(),
            headless: true,
            autologin: true,
        },
        network: Network::default(),
        services: Services::default(),
    }
}

// ---------------------------------------------------------------- check

#[test]
fn usb_ids_map_to_models() {
    assert_eq!(Model::from_pid(0x7523), Some(Model::OrinNano));
    assert_eq!(Model::from_pid(0x7423), Some(Model::OrinNx));
    assert_eq!(Model::from_pid(0x7023), Some(Model::AgxOrin));
    assert_eq!(Model::from_pid(0x7020), None);
    assert_eq!(Model::OrinNano.name(), "Jetson Orin Nano");
    assert_eq!(Model::OrinNx.name(), "Jetson Orin NX");
    assert_eq!(Model::AgxOrin.name(), "Jetson AGX Orin");
    for m in [Model::OrinNano, Model::OrinNx, Model::AgxOrin] {
        let id = m.usb_id();
        let pid = u16::from_str_radix(&id[5..], 16).unwrap();
        assert_eq!(&id[..5], "0955:");
        assert_eq!(Model::from_pid(pid), Some(m));
    }
}

#[test]
fn detect_classifies_the_bus() {
    assert_eq!(check::detect(&vec![]), UsbState::Absent);
    assert_eq!(check::detect(&vec![Some((0x1d6b, 0x0002)), None]), UsbState::Absent);
    assert_eq!(check::detect(&vec![Some((0x0955, 0x7020))]), UsbState::RunningL4t);
    assert_eq!(
        check::detect(&vec![Some((0x0955, 0x7020)), Some((0x0955, 0x7523))]),
        UsbState::Recovery(Model::OrinNano)
    );
    assert_eq!(
        check::detect(&vec![Some((0x0955, 0x7023)), Some((0x0955, 0x7523))]),
        UsbState::Recovery(Model::AgxOrin)
    );
    // the product id alone is not enough: the vendor must be NVIDIA
    assert_eq!(check::detect(&vec![Some((0x1234, 0x7523))]), UsbState::Absent);
    assert_eq!(check::detect(&vec![None, Some((0x0955, 0x7423))]), UsbState::Recovery(Model::OrinNx));
}

#[test]
fn check_reports_recovery() {
    let (trace, r) = simulate(check::plan(UsbState::Recovery(Model::OrinNano)), &|_| true, &never);
    assert_eq!(trace, strings(&["[ok] Jetson Orin Nano in APX recovery (0955:7523)."]));
    assert!(r.is_ok());
}

#[test]
fn check_refuses_a_running_board() {
    let (trace, r) = simulate(check::plan(UsbState::RunningL4t), &|_| true, &never);
    assert_eq!(
        trace,
        strings(&[
            "[fail] Jetson is running L4T (0955:7020), not in recovery.",
            "[info] Hold the REC (recovery) button while pressing RST (reset). Then re-run.",
        ])
    );
    assert!(matches!(r, Err(Error::Recovery(RecoveryError::RunningL4t))));
}

#[test]
fn check_refuses_an_absent_board() {
    let (trace, r) = simulate(check::plan(UsbState::Absent), &|_| true, &never);
    assert_eq!(trace, strings(&["[fail] No Jetson detected on USB. Power on the board, hold REC, tap RST."]));
    assert!(matches!(r, Err(Error::Recovery(RecoveryError::Absent))));
}

// ---------------------------------------------------------------- runner

#[test]
fn runner_guards_and_failure_policies() {
    let plan = vec![
        Instr::Act {
            guard: Guard::Always,
            effect: Effect::Run(Command::new("first", vec![])),
            on_failure: OnFailure::Record,
        },
        Instr::Act {
            guard: Guard::UnlessFlag,
            effect: Effect::Run(Command::new("fallback", vec![])),
            on_failure: OnFailure::Abort,
        },
        Instr::Act {
            guard: Guard::Always,
            effect: Effect::Run(Command::new("optional", vec![])),
            on_failure: OnFailure::Ignore,
        },
        Instr::Act { guard: Guard::Always, effect: Effect::Log(Level::Success, "end".into()), on_failure: OnFailure::Abort },
    ];
    let fail_first = |e: &Effect| match e {
        Effect::Run(c) if c.program == "first" || c.program == "optional" => Some(Error::Sudo),
        _ => None,
    };
    let (trace, r) = simulate(plan, &|_| true, &fail_first);
    assert_eq!(trace, strings(&["run first", "run fallback", "run optional", "[ok] end"]));
    assert!(r.is_ok());
}

#[test]
fn runner_stops_at_an_aborting_failure() {
    let plan = vec![
        Instr::Act {
            guard: Guard::Always,
            effect: Effect::Run(Command::new("a", vec![])),
            on_failure: OnFailure::Abort,
        },
        Instr::Act { guard: Guard::Always, effect: Effect::Log(Level::Success, "never".into()), on_failure: OnFailure::Abort },
    ];
    let (trace, r) = simulate(plan, &|_| true, &|_| Some(Error::Usb("gone".into())));
    assert_eq!(trace, strings(&["run a"]));
    assert_eq!(r.unwrap_err().message(), "usb: gone");
}

#[test]
fn empty_plan_succeeds() {
    let (trace, r) = simulate(vec![], &|_| true, &never);
    assert!(trace.is_empty());
    assert!(r.is_ok());
}

// ---------------------------------------------------------------- deps

#[test]
fn deps_on_ubuntu_with_binfmt() {
    let (trace, r) = simulate(deps::plan(), &|_| true, &never);
    assert!(r.is_ok());
    let mut install = String::from("run sudo apt-get install -y");
    for p in deps::packages() {
        install.push(' ');
        install.push_str(&p);
    }
    assert_eq!(
        effects(&trace),
        vec![
            "sudo -v".to_string(),
            "==> apt-get update".to_string(),
            "run sudo apt-get update".to_string(),
            "==> apt-get install (15 packages)".to_string(),
            install,
            "[ok] Host dependencies installed.".to_string(),
        ]
    );
    assert_eq!(trace[0], "? /etc/os-release contains VERSION_ID=\"24.04\"");
}

#[test]
fn deps_elsewhere_warns_and_registers_binfmt() {
    let restart_fails = |e: &Effect| match e {
        Effect::Run(c) if c.args.contains(&"systemd-binfmt".to_string()) => Some(Error::Sudo),
        _ => None,
    };
    let (trace, r) = simulate(deps::plan(), &|_| false, &restart_fails);
    assert!(r.is_ok(), "a failed binfmt restart is ignored");
    let e = effects(&trace);
    assert_eq!(e[0], "[warn] Host is not Ubuntu 24.04. Continuing anyway.");
    assert!(e.contains(&"[info] Registering qemu-aarch64 binfmt handler.".to_string()));
    assert!(e.contains(&"run sudo systemctl restart systemd-binfmt".to_string()));
    assert_eq!(deps::packages().len(), 15);
    assert_eq!(deps::install_args()[..3], strings(&["apt-get", "install", "-y"])[..]);
}

// ---------------------------------------------------------------- fetch

#[test]
fn fetch_downloads_missing_tarballs() {
    let cfg = config();
    let paths = Paths::new(".", "orin-nano", "39.2.0");
    let bsp_present = |p: &Probe| matches!(p, Probe::Exists(x) if x.ends_with("Jetson_Linux_R39.2.0_aarch64.tbz2"));
    let (trace, r) = simulate(fetch::plan(&cfg, &paths), &bsp_present, &never);
    assert!(r.is_ok());
    assert_eq!(
        effects(&trace),
        strings(&[
            "mkdir ./downloads/39.2.0 (mkdir ./downloads/39.2.0)",
            "[info] skip Jetson_Linux_R39.2.0_aarch64.tbz2 (already present)",
            "==> fetch https://dl.example/r39/Tegra_Linux_Sample-Root-Filesystem_R39.2.0_aarch64.tbz2",
            "run wget --content-disposition -O Tegra_Linux_Sample-Root-Filesystem_R39.2.0_aarch64.tbz2 https://dl.example/r39/Tegra_Linux_Sample-Root-Filesystem_R39.2.0_aarch64.tbz2 (in ./downloads/39.2.0) [live]",
            "[ok] Tarballs in ./downloads/39.2.0.",
        ])
    );
    assert_eq!(trace[1], "? exists ./downloads/39.2.0/Jetson_Linux_R39.2.0_aarch64.tbz2");
    assert_eq!(fetch::file_name("https://a/b/c.tbz2"), "c.tbz2");
}

#[test]
fn fetch_stops_when_a_download_fails() {
    let cfg = config();
    let paths = Paths::new(".", "orin-nano", "39.2.0");
    let wget_fails = |e: &Effect| match e {
        Effect::Run(c) if c.program == "wget" => Some(Error::Command {
            cmd: "wget".into(),
            status: "exit status: 8".into(),
            log: "l".into(),
        }),
        _ => None,
    };
    let (trace, r) = simulate(fetch::plan(&cfg, &paths), &|_| false, &wget_fails);
    assert!(matches!(r, Err(Error::Command { .. })));
    assert_eq!(effects(&trace).len(), 3);
}

// ---------------------------------------------------------------- flash

#[test]
fn flash_needs_the_staged_script() {
    let cfg = config();
    let paths = Paths::new(".", "orin-nano", "39.2.0");
    let (trace, r) = simulate(flash::plan(&cfg, &paths), &|_| false, &never);
    assert!(effects(&trace).is_empty());
    assert_eq!(
        r.unwrap_err().message(),
        "./work/orin-nano-39.2.0/Linux_for_Tegra/tools/kernel_flash/l4t_initrd_flash.sh missing. Run `stage` first."
    );
}

#[test]
fn flash_runs_the_initrd_flash() {
    let cfg = config();
    let paths = Paths::new(".", "orin-nano", "39.2.0");
    let (trace, r) = simulate(flash::plan(&cfg, &paths), &|_| true, &never);
    assert!(r.is_ok());
    assert_eq!(
        effects(&trace),
        strings(&[
            "sudo -v",
            "==> flash board=jetson-orin-nano-devkit-super device=nvme0n1p1 (NVMe + internal QSPI; ~15-25 min)",
            "run sudo ./tools/kernel_flash/l4t_initrd_flash.sh --external-device nvme0n1p1 -c tools/kernel_flash/flash_l4t_t234_nvme.xml -p -c bootloader/generic/cfg/flash_t234_qspi.xml --showlogs --network usb0 jetson-orin-nano-devkit-super internal (in ./work/orin-nano-39.2.0/Linux_for_Tegra) [live]",
            "[ok] Flash complete. Disconnect USB-C and power-cycle; the board boots headless to the baked user.",
        ])
    );
    let args = flash::flash_args("b", "d");
    assert_eq!(args[6], "-c bootloader/generic/cfg/flash_t234_qspi.xml");
    assert_eq!(args.len(), 12);
}

// ---------------------------------------------------------------- stage

#[test]
fn stage_picks_the_first_tarballs_by_name() {
    let names = strings(&[
        "Jetson_Linux_R39.2.0_aarch64.tbz2",
        "notes.txt",
        "Jetson_Linux_R36.4.3_aarch64.tbz2",
        "Tegra_Linux_Sample-Root-Filesystem_R39.2.0_aarch64.tbz2",
        "Jetson_Linux_R36.4.3_aarch64.tbz2.part",
    ]);
    assert_eq!(
        stage::find_tarball(&names, "Jetson_Linux_R", "_aarch64.tbz2"),
        Some("Jetson_Linux_R36.4.3_aarch64.tbz2".to_string())
    );
    assert_eq!(stage::find_tarball(&names, "Nothing", ".tbz2"), None);
    let paths = Paths::new(".", "orin-nano", "39.2.0");
    let (trace, r) = simulate(stage::plan(&paths, Some(names)), &|_| false, &never);
    assert!(r.is_ok());
    assert_eq!(
        effects(&trace),
        strings(&[
            "mkdir ./work/orin-nano-39.2.0 (mkdir ./work/orin-nano-39.2.0)",
            "sudo -v",
            "==> extract BSP -> Linux_for_Tegra/",
            "run tar xf ./downloads/39.2.0/Jetson_Linux_R36.4.3_aarch64.tbz2 (in ./work/orin-nano-39.2.0)",
            "==> extract sample rootfs -> rootfs/",
            "run sudo tar xpf ./downloads/39.2.0/Tegra_Linux_Sample-Root-Filesystem_R39.2.0_aarch64.tbz2 -C rootfs/ (in ./work/orin-nano-39.2.0/Linux_for_Tegra)",
            "==> apply_binaries.sh",
            "run sudo ./apply_binaries.sh (in ./work/orin-nano-39.2.0/Linux_for_Tegra)",
            "[ok] Rootfs staged at ./work/orin-nano-39.2.0/Linux_for_Tegra/rootfs",
        ])
    );
}

#[test]
fn stage_reuses_what_is_already_there() {
    let names = strings(&[
        "Jetson_Linux_R39.2.0_aarch64.tbz2",
        "Tegra_Linux_Sample-Root-Filesystem_R39.2.0_aarch64.tbz2",
    ]);
    let paths = Paths::new(".", "orin-nano", "39.2.0");
    let (trace, r) = simulate(stage::plan(&paths, Some(names)), &|_| true, &never);
    assert!(r.is_ok());
    assert_eq!(
        effects(&trace),
        strings(&[
            "mkdir ./work/orin-nano-39.2.0 (mkdir ./work/orin-nano-39.2.0)",
            "sudo -v",
            "[info] reusing existing Linux_for_Tegra/ (BSP already extracted)",
            "[info] rootfs already extracted; skipping",
            "==> l4t_flash_prerequisites.sh",
            "run sudo ./tools/l4t_flash_prerequisites.sh (in ./work/orin-nano-39.2.0/Linux_for_Tegra)",
            "[info] NVIDIA binaries already applied; skipping apply_binaries.sh",
            "[ok] Rootfs staged at ./work/orin-nano-39.2.0/Linux_for_Tegra/rootfs",
        ])
    );
    assert!(trace.contains(&"? exists ./work/orin-nano-39.2.0/Linux_for_Tegra/rootfs/etc/os-release".to_string()));
}

#[test]
fn stage_needs_both_tarballs() {
    let paths = Paths::new(".", "orin-nano", "39.2.0");
    let (_, r) = simulate(stage::plan(&paths, None), &|_| true, &never);
    assert_eq!(
        r.unwrap_err().message(),
        "BSP tarball (Jetson_Linux_R*_aarch64.tbz2) not found in downloads/; run `fetch`"
    );
    let only_bsp = strings(&["Jetson_Linux_R39.2.0_aarch64.tbz2"]);
    let (trace, r) = simulate(stage::plan(&paths, Some(only_bsp)), &|_| true, &never);
    assert!(trace.is_empty());
    assert_eq!(r.unwrap_err().message(), "rootfs tarball not found in downloads/; run `fetch`");
}

#[test]
fn no_tarball_exactly_when_nothing_matches() {
    let names = strings(&[
        "notes.txt",
        "Jetson_Linux_R39.2.0_aarch64.tbz2.part",
        "jetson_linux_R39.2.0_aarch64.tbz2",
    ]);
    assert_eq!(stage::find_tarball(&names, "Jetson_Linux_R", "_aarch64.tbz2"), None);
    let mut more = names.clone();
    more.push("Jetson_Linux_R1_aarch64.tbz2".into());
    assert_eq!(
        stage::find_tarball(&more, "Jetson_Linux_R", "_aarch64.tbz2"),
        Some("Jetson_Linux_R1_aarch64.tbz2".to_string())
    );
    assert_eq!(stage::find_tarball(&strings(&[]), "", ""), None);
    assert_eq!(stage::find_tarball(&strings(&["b", "a"]), "", ""), Some("a".to_string()));
}

// ---------------------------------------------------------------- preconfig

#[test]
fn keyfiles_and_dropins() {
    assert_eq!(
        autologin_override("beppo"),
        "[Service]\nExecStart=\nExecStart=-/sbin/agetty --autologin beppo --noclear %I $TERM\n"
    );
    assert_eq!(
        eth_keyfile("U", "enP8p1s0", "10.42.0.10/24", "", "1.1.1.1;8.8.8.8;"),
        "[connection]\nid=eth-static\ntype=ethernet\nuuid=U\ninterface-name=enP8p1s0\nautoconnect=true\n\n\
         [ethernet]\n\n\
         [ipv4]\nmethod=manual\naddress1=10.42.0.10/24\ndns=1.1.1.1;8.8.8.8;\nnever-default=true\n\n\
         [ipv6]\nmethod=auto\n"
    );
    let k = eth_keyfile("U", "eth0", "10.42.0.10/24", "10.42.0.1", "1.1.1.1;");
    assert!(k.contains("address1=10.42.0.10/24,10.42.0.1\n"));
    assert!(!k.contains("never-default"));

    let mut w = jetson_flash::config::Wifi::default();
    w.ssid = "home".into();
    w.psk = "secretpsk".into();
    w.dhcp = true;
    assert_eq!(
        wifi_keyfile("W", &w, "1.1.1.1;"),
        "[connection]\nid=wifi-home\ntype=wifi\nuuid=W\n\nautoconnect=true\n\n\
         [wifi]\nmode=infrastructure\nssid=home\n\n\
         [wifi-security]\nkey-mgmt=wpa-psk\npsk=secretpsk\n\n\
         [ipv4]\nmethod=auto\nroute-metric=200\n\n\
         [ipv6]\nmethod=auto\n"
    );
    w.dev = "wlan0".into();
    w.static_ip = "192.168.1.101/24".into();
    w.gateway = "192.168.1.1".into();
    let k = wifi_keyfile("W", &w, "1.1.1.1;");
    assert!(k.contains("interface-name=wlan0\n"));
    assert!(k.contains("[ipv4]\nmethod=manual\naddress1=192.168.1.101/24,192.168.1.1\ndns=1.1.1.1;\nroute-metric=200"));
    let mut w2 = jetson_flash::config::Wifi { dhcp: false, ..w.clone() };
    assert_eq!(wifi_keyfile("W", &w2, "x"), wifi_keyfile("W", &w, "x"), "DHCP ignored with a static IP");
    w2.static_ip = String::new();
    assert!(wifi_keyfile("W", &w2, "x").contains("[ipv4]\nmethod=disabled\n"));
}

#[test]
fn temporary_files() {
    let t = temp_file_name();
    assert!(t.starts_with("jetson-flash-") && t.ends_with(".tmp"));
    let u = &t["jetson-flash-".len()..t.len() - 4];
    assert_eq!(u.len(), 36);
    assert_eq!(u.as_bytes()[14], b'4');
    assert!(u.chars().enumerate().all(|(i, c)| if [8, 13, 18, 23].contains(&i) {
        c == '-'
    } else {
        c.is_ascii_hexdigit() && !c.is_ascii_uppercase()
    }));
    assert_ne!(temp_file_name(), temp_file_name());
    assert_eq!(write_temp_context("/tmp/x"), "write temp /tmp/x");
    let c = install_command("/tmp/x", "/r/etc/a", "600");
    assert_eq!(c.program, "sudo");
    assert_eq!(c.args, strings(&["install", "-m", "600", "-o", "root", "-g", "root", "/tmp/x", "/r/etc/a"]));
}

fn preconfig_trace(cfg: &Config, answer: &dyn Fn(&Probe) -> bool, fails: &dyn Fn(&Effect) -> Option<Error>) -> (Vec<String>, Result<(), Error>) {
    let paths = Paths::new("/w", "orin-nano", "39.2.0");
    simulate(preconfig::plan(cfg, &paths, "EU", "WU"), answer, fails)
}

#[test]
fn preconfig_full_run() {
    let mut cfg = config();
    cfg.network.ethernet.static_ip = "10.42.0.10/24".into();
    cfg.network.wifi.ssid = "home".into();
    cfg.network.wifi.psk = "pw".into();
    cfg.network.wifi.dhcp = true;
    // rootfs staged, user not baked, nsswitch lacks mdns
    let answer = |p: &Probe| !matches!(p, Probe::Succeeds(_));
    let (trace, r) = preconfig_trace(&cfg, &answer, &never);
    assert!(r.is_ok());
    let rootfs = "/w/work/orin-nano-39.2.0/Linux_for_Tegra/rootfs";
    let sys = format!("{}/etc/systemd/system", rootfs);
    let nm = format!("{}/etc/NetworkManager/system-connections", rootfs);
    let expected = vec![
        format!("? dir {}/etc", rootfs),
        "sudo -v".to_string(),
        format!("? succeeds sudo grep -q ^beppo: {}/etc/passwd", rootfs),
        "==> creating default user beppo on host beppo-host".to_string(),
        "run sudo ./tools/l4t_create_default_user.sh -u beppo -p pw -n beppo-host --accept-license (in /w/work/orin-nano-39.2.0/Linux_for_Tegra)".to_string(),
        "==> headless mode: multi-user.target + mask gdm3".to_string(),
        format!("run sudo ln -sf /lib/systemd/system/multi-user.target {}/default.target", sys),
        format!("run sudo ln -sf /dev/null {}/gdm3.service", sys),
        format!("run sudo ln -sf /dev/null {}/gdm.service", sys),
        format!("run sudo ln -sf /dev/null {}/nv-oem-config-gui.service", sys),
        "==> enabling tty1 autologin for beppo".to_string(),
        format!("run sudo mkdir -p {}/getty@tty1.service.d", sys),
        format!("write {}/getty@tty1.service.d/override.conf 644", sys),
        "==> eth static 10.42.0.10/24 on enP8p1s0".to_string(),
        format!("run sudo mkdir -p {}", nm),
        format!("write {}/eth-static.nmconnection 600", nm),
        format!("run sudo mkdir -p {}", nm),
        "==> WiFi home DHCP (metric 200)".to_string(),
        format!("write {}/wifi-home.nmconnection 600", nm),
        "==> enabling avahi-daemon (mDNS for beppo-host.local)".to_string(),
        format!("run sudo chroot {} /bin/bash -c systemctl enable avahi-daemon.service", rootfs),
        format!("? {}/etc/nsswitch.conf lacks mdns", rootfs),
        format!("run sudo sed -i s/^hosts:.*$/hosts:          files mdns4_minimal [NOTFOUND=return] dns/ {}/etc/nsswitch.conf", rootfs),
        "==> enabling ssh".to_string(),
        format!("run sudo chroot {} /bin/bash -c systemctl enable ssh.service", rootfs),
        "[ok] Rootfs preconfigured. Ready to flash.".to_string(),
    ];
    assert_eq!(trace, expected);
}

#[test]
fn nsswitch_patch_is_idempotent() {
    let cfg = config();
    // first run: nsswitch.conf lacks mdns, so sed patches it
    let first = |p: &Probe| !matches!(p, Probe::Succeeds(_));
    let (trace, r) = preconfig_trace(&cfg, &first, &never);
    assert!(r.is_ok());
    assert!(trace.iter().any(|l| l.starts_with("run sudo sed -i") && l.contains("mdns4_minimal")));
    // second run: the patched file mentions mdns, so nothing is run on it
    let second = |p: &Probe| match p {
        Probe::Succeeds(_) => false,
        Probe::Lacks { needle, .. } => {
            assert_eq!(needle, "mdns");
            false
        }
        _ => true,
    };
    let (trace, r) = preconfig_trace(&cfg, &second, &never);
    assert!(r.is_ok());
    assert!(trace.iter().any(|l| l.ends_with("/etc/nsswitch.conf lacks mdns")));
    assert!(!trace.iter().any(|l| l.contains("sed")));
}

#[test]
fn preconfig_keyfile_contents() {
    let mut cfg = config();
    cfg.network.ethernet.static_ip = "10.42.0.10/24".into();
    let plan = preconfig::plan(&cfg, &Paths::new("/w", "orin-nano", "39.2.0"), "EU", "WU");
    let content = plan.iter().find_map(|i| match i {
        Instr::Act { effect: Effect::WriteRootFile { dst, content, .. }, .. } if dst.ends_with("eth-static.nmconnection") => Some(content.clone()),
        _ => None,
    });
    assert_eq!(content, Some(eth_keyfile("EU", "enP8p1s0", "10.42.0.10/24", "", &cfg.dns_nm())));
}

#[test]
fn preconfig_skips_what_is_baked_and_falls_back() {
    let mut cfg = config();
    cfg.identity.headless = false;
    cfg.identity.autologin = false;
    cfg.services.avahi = false;
    let chroot_fails = |e: &Effect| match e {
        Effect::Run(c) if c.args.first().map(|a| a == "chroot").unwrap_or(false) => Some(Error::Sudo),
        _ => None,
    };
    let (trace, r) = preconfig_trace(&cfg, &|_| true, &chroot_fails);
    assert!(r.is_ok());
    assert_eq!(
        effects(&trace),
        strings(&[
            "sudo -v",
            "[info] user beppo already baked into rootfs; skipping create_default_user",
            "==> enabling ssh",
            "run sudo chroot /w/work/orin-nano-39.2.0/Linux_for_Tegra/rootfs /bin/bash -c systemctl enable ssh.service",
            "run sudo ln -sf /lib/systemd/system/ssh.service /w/work/orin-nano-39.2.0/Linux_for_Tegra/rootfs/etc/systemd/system/multi-user.target.wants/ssh.service",
            "[ok] Rootfs preconfigured. Ready to flash.",
        ])
    );
}

#[test]
fn preconfig_refuses_an_unstaged_rootfs() {
    let (trace, r) = preconfig_trace(&config(), &|_| false, &never);
    assert!(effects(&trace).is_empty());
    assert_eq!(r.unwrap_err().message(), "/w/work/orin-nano-39.2.0/Linux_for_Tegra/rootfs not staged. Run `stage` first.");
}

#[test]
fn preconfig_wifi_without_psk_fails() {
    let mut cfg = config();
    cfg.network.wifi.ssid = "home".into();
    let answer = |p: &Probe| !matches!(p, Probe::Succeeds(_));
    let (trace, r) = preconfig_trace(&cfg, &answer, &never);
    assert!(matches!(r, Err(Error::WifiPskMissing)));
    assert!(!trace.iter().any(|l| l.contains("wifi-home") || l.contains("enabling ssh")));
    assert!(trace.iter().any(|l| l.contains("autologin")));
}

#[test]
fn preconfig_needs_a_password_to_create_the_user() {
    let mut cfg = config();
    cfg.identity.password = None;
    let answer = |p: &Probe| !matches!(p, Probe::Succeeds(_));
    let (_, r) = preconfig_trace(&cfg, &answer, &never);
    assert!(matches!(r, Err(Error::MissingSecret(ref s)) if s == "identity.password"));
    // a baked user needs no password
    let (_, r) = preconfig_trace(&cfg, &|_| true, &never);
    assert!(r.is_ok());
}

#[test]
fn preconfig_with_fresh_ids_differs_only_in_ids() {
    let mut cfg = config();
    cfg.network.ethernet.static_ip = "10.0.0.2/24".into();
    let paths = Paths::new("/w", "orin-nano", "39.2.0");
    let a = preconfig::plan_with_fresh_ids(&cfg, &paths);
    let b = preconfig::plan(&cfg, &paths, "x", "y");
    assert_eq!(a.len(), b.len());
}

// ---------------------------------------------------------------- dispatch

fn no_listing(_: &str) -> Option<Vec<String>> {
    panic!("listing asked for a stage that does not stage")
}

fn no_usb() -> Result<UsbState, Error> {
    panic!("USB probed for a stage that does not check")
}

fn same_plan(a: Vec<Instr>, b: Vec<Instr>) {
    let (ta, ra) = simulate(a, &|_| true, &never);
    let (tb, rb) = simulate(b, &|_| true, &never);
    assert_eq!(ta, tb);
    assert_eq!(ra.is_ok(), rb.is_ok());
}

#[test]
fn each_step_runs_its_own_plan() {
    let cfg = config();
    let paths = Paths::new(".", "orin-nano", "39.2.0");
    same_plan(dispatch::plan_for(Step::Deps, &cfg, &paths, no_listing, no_usb).unwrap(), deps::plan());
    same_plan(dispatch::plan_for(Step::Fetch, &cfg, &paths, no_listing, no_usb).unwrap(), fetch::plan(&cfg, &paths));
    same_plan(dispatch::plan_for(Step::Flash, &cfg, &paths, no_listing, no_usb).unwrap(), flash::plan(&cfg, &paths));
    let names = strings(&["Jetson_Linux_R39.2.0_aarch64.tbz2", "Tegra_Linux_Sample-Root-Filesystem_R39.2.0_aarch64.tbz2"]);
    let listed = names.clone();
    let list = move |d: &str| {
        assert_eq!(d, "./downloads/39.2.0");
        Some(listed)
    };
    same_plan(dispatch::plan_for(Step::Stage, &cfg, &paths, list, no_usb).unwrap(), stage::plan(&paths, Some(names)));
    let p = dispatch::plan_for(Step::Preconfig, &cfg, &paths, no_listing, no_usb).unwrap();
    assert_eq!(p.len(), preconfig::plan(&cfg, &paths, "x", "y").len());
}

#[test]
fn check_step_plans_from_the_usb_bus() {
    let cfg = config();
    let paths = Paths::new(".", "orin-nano", "39.2.0");
    let found = || Ok(UsbState::Recovery(Model::OrinNano));
    same_plan(
        dispatch::plan_for(Step::Check, &cfg, &paths, no_listing, found).unwrap(),
        check::plan(UsbState::Recovery(Model::OrinNano)),
    );
    let broken = || Err(Error::Usb("busy".into()));
    let r = dispatch::plan_for(Step::Check, &cfg, &paths, no_listing, broken);
    assert_eq!(r.unwrap_err().message(), "usb: busy");
}

// ---------------------------------------------------------------- pipeline

#[test]
fn step_names() {
    let names: Vec<&str> = ALL.iter().map(|s| s.name()).collect();
    assert_eq!(names, vec!["deps", "fetch", "stage", "preconfig", "check", "flash"]);
    assert_eq!(all_steps(), ALL.to_vec());
}

#[test]
fn run_all_goes_in_order() {
    let mut run = PipelineRun::all();
    let mut seen = Vec::new();
    let mut last = None;
    loop {
        match run.next(last) {
            PipelineAction::Run(step) => {
                seen.push(step);
                last = Some(Ok(()));
            }
            PipelineAction::Finish(r) => {
                assert!(r.is_ok());
                break;
            }
        }
    }
    assert_eq!(seen, ALL.to_vec());
}

#[test]
fn run_all_stops_at_the_first_error() {
    let mut run = PipelineRun::all();
    let mut seen = Vec::new();
    let mut last = None;
    loop {
        match run.next(last) {
            PipelineAction::Run(step) => {
                seen.push(step);
                last = Some(if step == Step::Stage { Err(Error::Sudo) } else { Ok(()) });
            }
            PipelineAction::Finish(r) => {
                assert!(matches!(r, Err(Error::Sudo)));
                break;
            }
        }
    }
    assert_eq!(seen, vec![Step::Deps, Step::Fetch, Step::Stage]);
}

#[test]
fn single_step_run() {
    let mut run = PipelineRun::single(Step::Check);
    assert!(matches!(run.next(None), PipelineAction::Run(Step::Check)));
    assert!(matches!(run.next(Some(Ok(()))), PipelineAction::Finish(Ok(()))));
}
