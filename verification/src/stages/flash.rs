//! Flashing the staged image to NVMe and the internal QSPI with NVIDIA's
//! initrd flash script.
use vstd::prelude::*;
use crate::config::Config;
use crate::error::{Error, ErrorView};
use crate::logging::Level;
use crate::paths::{path_join, spec_path_join, Paths};
use crate::plan::{
    flag_after, passed_over, CommandView, OnFailure, add_guarded, add_log, add_probe, add_step, cmd_live, guarded, plan_view, step, Command, Effect,
    EffectView, Guard, Instr, InstrView, Probe, ProbeView,
};
use crate::text::{cat, cat3, owned};

verus! {

/// The initrd flash script of the extracted BSP.
pub open spec fn spec_flash_script(l4t_dir: Seq<char>) -> Seq<char> {
    spec_path_join(l4t_dir, "tools/kernel_flash/l4t_initrd_flash.sh"@)
}

/// The arguments of `sudo` that flash `board` to `device`. The `-p`
/// value is one argument.
pub open spec fn spec_flash_args(board: Seq<char>, device: Seq<char>) -> Seq<Seq<char>> {
    seq![
        "./tools/kernel_flash/l4t_initrd_flash.sh"@,
        "--external-device"@,
        device,
        "-c"@,
        "tools/kernel_flash/flash_l4t_t234_nvme.xml"@,
        "-p"@,
        "-c bootloader/generic/cfg/flash_t234_qspi.xml"@,
        "--showlogs"@,
        "--network"@,
        "usb0"@,
        board,
        "internal"@,
    ]
}

/// The flash stage: refuse when the BSP is not staged, then flash on the
/// terminal from the BSP directory.
pub open spec fn flash_plan(l4t_dir: Seq<char>, board: Seq<char>, device: Seq<char>) -> Seq<InstrView> {
    let script = spec_flash_script(l4t_dir);
    seq![
        InstrView::Probe(ProbeView::IsFile(script)),
        guarded(Guard::UnlessFlag, EffectView::Fail(ErrorView::Missing(script + " missing. Run `stage` first."@))),
        step(EffectView::SudoValidate),
        step(EffectView::Log(
            Level::Heading,
            "flash board="@ + board + " device="@ + device + " (NVMe + internal QSPI; ~15-25 min)"@,
        )),
        step(EffectView::Run(cmd_live("sudo"@, spec_flash_args(board, device), l4t_dir))),
        step(EffectView::Log(
            Level::Success,
            "Flash complete. Disconnect USB-C and power-cycle; the board boots headless to the baked user."@,
        )),
    ]
}

/// The arguments of `sudo` that flash `board` to `device`.
pub fn flash_args(board: &str, device: &str) -> (r: Vec<String>)
    ensures
        r.deep_view() == spec_flash_args(board@, device@),
{
    let r = vec![
        owned("./tools/kernel_flash/l4t_initrd_flash.sh"),
        owned("--external-device"),
        owned(device),
        owned("-c"),
        owned("tools/kernel_flash/flash_l4t_t234_nvme.xml"),
        owned("-p"),
        owned("-c bootloader/generic/cfg/flash_t234_qspi.xml"),
        owned("--showlogs"),
        owned("--network"),
        owned("usb0"),
        owned(board),
        owned("internal"),
    ];
    assert(r.deep_view() =~= spec_flash_args(board@, device@));
    r
}

/// The flash stage.
pub fn plan(cfg: &Config, paths: &Paths) -> (r: Vec<Instr>)
    ensures
        plan_view(r@) == flash_plan(paths.l4t_dir@, cfg.board.name@, cfg.board.external_device@),
{
    let l4t = paths.l4t_dir.as_str();
    let board = cfg.board.name.as_str();
    let device = cfg.board.external_device.as_str();
    let script = path_join(l4t, "tools/kernel_flash/l4t_initrd_flash.sh");
    let missing = cat(script.as_str(), " missing. Run `stage` first.");
    let mut r: Vec<Instr> = Vec::new();
    add_probe(&mut r, Probe::IsFile(script));
    add_guarded(&mut r, Guard::UnlessFlag, Effect::Fail(Error::Missing(missing)));
    add_step(&mut r, Effect::SudoValidate);
    let msg = cat3("flash board=", board, " device=");
    let msg = msg.concat(device).concat(" (NVMe + internal QSPI; ~15-25 min)");
    add_log(&mut r, Level::Heading, msg);
    add_step(&mut r, Effect::Run(Command::new_live("sudo", flash_args(board, device), l4t)));
    add_log(
        &mut r,
        Level::Success,
        owned("Flash complete. Disconnect USB-C and power-cycle; the board boots headless to the baked user."),
    );
    assert(plan_view(r@) =~= flash_plan(paths.l4t_dir@, cfg.board.name@, cfg.board.external_device@));
    r
}

/// The flash stage first asks whether
/// `<l4t_dir>/tools/kernel_flash/l4t_initrd_flash.sh` is a regular file,
/// and is refused with the script's path exactly when it is not.
/// Otherwise it validates sudo and flashes `board` to `device` with that
/// script, live, from `l4t_dir`; nothing after the check is conditional.
pub proof fn law_flash_needs_the_staged_script(l4t_dir: Seq<char>, board: Seq<char>, device: Seq<char>, flag: bool, is_file: bool)
    ensures
        ({
            let p = flash_plan(l4t_dir, board, device);
            let script = spec_path_join(l4t_dir, "tools/kernel_flash/l4t_initrd_flash.sh"@);
            &&& p.len() == 6
            &&& p[0] == InstrView::Probe(ProbeView::IsFile(script))
            &&& p[1] == InstrView::Act {
                guard: Guard::UnlessFlag,
                effect: EffectView::Fail(ErrorView::Missing(script + " missing. Run `stage` first."@)),
                on_failure: OnFailure::Abort,
            }
            &&& passed_over(p[1], flag_after(p[0], flag, Ok(is_file))) == is_file
            &&& p[2] == InstrView::Act { guard: Guard::Always, effect: EffectView::SudoValidate, on_failure: OnFailure::Abort }
            &&& p[4] == InstrView::Act {
                guard: Guard::Always,
                effect: EffectView::Run(CommandView {
                    program: "sudo"@,
                    args: seq![
                        "./tools/kernel_flash/l4t_initrd_flash.sh"@,
                        "--external-device"@,
                        device,
                        "-c"@,
                        "tools/kernel_flash/flash_l4t_t234_nvme.xml"@,
                        "-p"@,
                        "-c bootloader/generic/cfg/flash_t234_qspi.xml"@,
                        "--showlogs"@,
                        "--network"@,
                        "usb0"@,
                        board,
                        "internal"@,
                    ],
                    cwd: Some(l4t_dir),
                    live: true,
                }),
                on_failure: OnFailure::Abort,
            }
            &&& forall|k: int| 2 <= k < p.len() ==> (#[trigger] p[k]) matches InstrView::Act { guard: Guard::Always, .. }
        }),
{
    let p = flash_plan(l4t_dir, board, device);
    assert(p[4] matches InstrView::Act { effect: EffectView::Run(c), .. } && c.args =~= seq![
        "./tools/kernel_flash/l4t_initrd_flash.sh"@,
        "--external-device"@,
        device,
        "-c"@,
        "tools/kernel_flash/flash_l4t_t234_nvme.xml"@,
        "-p"@,
        "-c bootloader/generic/cfg/flash_t234_qspi.xml"@,
        "--showlogs"@,
        "--network"@,
        "usb0"@,
        board,
        "internal"@,
    ]);
}

} // verus!
