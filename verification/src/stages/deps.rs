//! Host dependencies: the apt packages the L4T tools need on an Ubuntu
//! 24.04 host, and the qemu binfmt handler.
use vstd::prelude::*;
use crate::logging::Level;
use crate::plan::{
    CommandView, add_guarded, add_log, add_probe, add_step, guarded, plan_view, push_instr, step, sudo, Command,
    Effect, EffectView, Guard, Instr, InstrView, OnFailure, Probe, ProbeView,
};
use crate::text::{cat3, decimal, decimal_string, owned};

verus! {

/// The apt packages the pipeline needs on the host.
pub open spec fn spec_packages() -> Seq<Seq<char>> {
    seq![
        "qemu-user-static"@,
        "lz4"@,
        "libxml2-utils"@,
        "abootimg"@,
        "sshpass"@,
        "python3"@,
        "python3-yaml"@,
        "python3-setuptools"@,
        "binfmt-support"@,
        "nfs-kernel-server"@,
        "dosfstools"@,
        "uuid-runtime"@,
        "wget"@,
        "curl"@,
        "ca-certificates"@,
    ]
}

/// `apt-get install -y` followed by every package.
pub open spec fn spec_install_args() -> Seq<Seq<char>> {
    seq!["apt-get"@, "install"@, "-y"@] + spec_packages()
}

/// The deps stage: warn on a host that is not Ubuntu 24.04 (or whose
/// `/etc/os-release` cannot be read), update and install the packages,
/// and register the qemu-aarch64 binfmt handler when it is missing
/// (a failure to do so is ignored).
pub open spec fn deps_plan() -> Seq<InstrView> {
    seq![
        InstrView::Probe(ProbeView::Contains { path: "/etc/os-release"@, needle: "VERSION_ID=\"24.04\""@ }),
        guarded(Guard::UnlessFlag, EffectView::Log(Level::Warning, "Host is not Ubuntu 24.04. Continuing anyway."@)),
        step(EffectView::SudoValidate),
        step(EffectView::Log(Level::Heading, "apt-get update"@)),
        step(EffectView::Run(sudo(seq!["apt-get"@, "update"@]))),
        step(EffectView::Log(Level::Heading, "apt-get install ("@ + decimal(spec_packages().len()) + " packages)"@)),
        step(EffectView::Run(sudo(spec_install_args()))),
        InstrView::Probe(ProbeView::Exists("/proc/sys/fs/binfmt_misc/qemu-aarch64"@)),
        guarded(Guard::UnlessFlag, EffectView::Log(Level::Info, "Registering qemu-aarch64 binfmt handler."@)),
        InstrView::Act {
            guard: Guard::UnlessFlag,
            effect: EffectView::Run(sudo(seq!["systemctl"@, "restart"@, "systemd-binfmt"@])),
            on_failure: OnFailure::Ignore,
        },
        step(EffectView::Log(Level::Success, "Host dependencies installed."@)),
    ]
}

/// The apt packages the pipeline needs on the host.
pub fn packages() -> (r: Vec<String>)
    ensures
        r.deep_view() == spec_packages(),
{
    let r = vec![
        owned("qemu-user-static"),
        owned("lz4"),
        owned("libxml2-utils"),
        owned("abootimg"),
        owned("sshpass"),
        owned("python3"),
        owned("python3-yaml"),
        owned("python3-setuptools"),
        owned("binfmt-support"),
        owned("nfs-kernel-server"),
        owned("dosfstools"),
        owned("uuid-runtime"),
        owned("wget"),
        owned("curl"),
        owned("ca-certificates"),
    ];
    assert(r.deep_view() =~= spec_packages());
    r
}

/// The arguments of `sudo` that install the packages.
pub fn install_args() -> (r: Vec<String>)
    ensures
        r.deep_view() == spec_install_args(),
{
    let mut r = vec![owned("apt-get"), owned("install"), owned("-y")];
    let mut pkgs = packages();
    let ghost head = r.deep_view();
    r.append(&mut pkgs);
    assert(r.deep_view() =~= head + spec_packages());
    assert(head =~= seq!["apt-get"@, "install"@, "-y"@]);
    r
}

/// The deps stage.
pub fn plan() -> (r: Vec<Instr>)
    ensures
        plan_view(r@) == deps_plan(),
{
    let mut r: Vec<Instr> = Vec::new();
    add_probe(&mut r, Probe::Contains { path: owned("/etc/os-release"), needle: owned("VERSION_ID=\"24.04\"") });
    add_guarded(&mut r, Guard::UnlessFlag, Effect::Log(Level::Warning, owned("Host is not Ubuntu 24.04. Continuing anyway.")));
    add_step(&mut r, Effect::SudoValidate);
    add_log(&mut r, Level::Heading, owned("apt-get update"));
    let update = vec![owned("apt-get"), owned("update")];
    assert(update.deep_view() =~= seq!["apt-get"@, "update"@]);
    add_step(&mut r, Effect::Run(Command::new("sudo", update)));
    let count = decimal_string(packages().len());
    add_log(&mut r, Level::Heading, cat3("apt-get install (", count.as_str(), " packages)"));
    add_step(&mut r, Effect::Run(Command::new("sudo", install_args())));
    add_probe(&mut r, Probe::Exists(owned("/proc/sys/fs/binfmt_misc/qemu-aarch64")));
    add_guarded(&mut r, Guard::UnlessFlag, Effect::Log(Level::Info, owned("Registering qemu-aarch64 binfmt handler.")));
    let restart = vec![owned("systemctl"), owned("restart"), owned("systemd-binfmt")];
    assert(restart.deep_view() =~= seq!["systemctl"@, "restart"@, "systemd-binfmt"@]);
    push_instr(
        &mut r,
        Instr::Act {
            guard: Guard::UnlessFlag,
            effect: Effect::Run(Command::new("sudo", restart)),
            on_failure: OnFailure::Ignore,
        },
    );
    add_log(&mut r, Level::Success, owned("Host dependencies installed."));
    assert(plan_view(r@) =~= deps_plan());
    r
}

/// The deps stage updates apt, then installs, with `sudo apt-get install
/// -y`, exactly these fifteen host packages, in this order (the NFS server
/// that the network flash needs among them), and announces their number.
pub proof fn law_deps_installs_the_host_packages()
    ensures
        ({
            let p = deps_plan();
            &&& p[4] == InstrView::Act {
                guard: Guard::Always,
                effect: EffectView::Run(CommandView {
                    program: "sudo"@,
                    args: seq!["apt-get"@, "update"@],
                    cwd: None,
                    live: false,
                }),
                on_failure: OnFailure::Abort,
            }
            &&& p[6] == InstrView::Act {
                guard: Guard::Always,
                effect: EffectView::Run(CommandView {
                    program: "sudo"@,
                    args: seq![
                        "apt-get"@,
                        "install"@,
                        "-y"@,
                        "qemu-user-static"@,
                        "lz4"@,
                        "libxml2-utils"@,
                        "abootimg"@,
                        "sshpass"@,
                        "python3"@,
                        "python3-yaml"@,
                        "python3-setuptools"@,
                        "binfmt-support"@,
                        "nfs-kernel-server"@,
                        "dosfstools"@,
                        "uuid-runtime"@,
                        "wget"@,
                        "curl"@,
                        "ca-certificates"@,
                    ],
                    cwd: None,
                    live: false,
                }),
                on_failure: OnFailure::Abort,
            }
            &&& p[5] == InstrView::Act {
                guard: Guard::Always,
                effect: EffectView::Log(Level::Heading, "apt-get install ("@ + decimal(15) + " packages)"@),
                on_failure: OnFailure::Abort,
            }
        }),
{
    let p = deps_plan();
    assert(spec_install_args() =~= seq![
        "apt-get"@,
        "install"@,
        "-y"@,
        "qemu-user-static"@,
        "lz4"@,
        "libxml2-utils"@,
        "abootimg"@,
        "sshpass"@,
        "python3"@,
        "python3-yaml"@,
        "python3-setuptools"@,
        "binfmt-support"@,
        "nfs-kernel-server"@,
        "dosfstools"@,
        "uuid-runtime"@,
        "wget"@,
        "curl"@,
        "ca-certificates"@,
    ]);
}

} // verus!
