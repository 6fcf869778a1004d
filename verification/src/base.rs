//! The base system: mirrors, packages, the AUR helper and the bootloader.
use vstd::prelude::*;
use crate::exec::{chroot_program, exec, exec_chroot};
use crate::pattern::{regex_compiles, regex_is_match, regex_match, regex_valid};
use crate::plan::{
    in_new_system,
    append_step, appending, running,
    owned, plan_view, program, push_step, run_step, views, Action, ActionView, Check, FileCopy,
    Step, StepView,
};
use crate::text::{join, seq_join};

verus! {

/// The vendor of the machine's processor, as far as the installer cares.
#[derive(Debug, Clone, Copy, PartialEq, Eq, Structural)]
pub enum CpuVendor {
    Amd,
    Intel,
}

/// The `/proc/cpuinfo` line of an AMD processor.
pub const AMD_VENDOR_PATTERN: &'static str = "^vendor_id\\s*: AuthenticAMD$";

/// The `/proc/cpuinfo` line of an Intel processor.
pub const INTEL_VENDOR_PATTERN: &'static str = "^vendor_id\\s*: GenuineIntel$";

/// The vendor that the first line naming one names, looking at each line for
/// AMD before Intel; `None` if no line names one.
pub open spec fn vendor_of(lines: Seq<Seq<char>>) -> Option<CpuVendor>
    decreases lines.len(),
{
    if lines.len() == 0 {
        None
    } else if regex_match(AMD_VENDOR_PATTERN@, lines[0]) {
        Some(CpuVendor::Amd)
    } else if regex_match(INTEL_VENDOR_PATTERN@, lines[0]) {
        Some(CpuVendor::Intel)
    } else {
        vendor_of(lines.drop_first())
    }
}

/// A vendor is found only where a line names it, and none is found only
/// where no line names either vendor; a line that names AMD is taken as
/// AMD.
pub proof fn law_vendor_comes_from_a_line(lines: Seq<Seq<char>>)
    ensures
        vendor_of(lines) == Some(CpuVendor::Amd) ==> exists|i: int|
            0 <= i < lines.len() && regex_match(AMD_VENDOR_PATTERN@, #[trigger] lines[i]),
        vendor_of(lines) == Some(CpuVendor::Intel) ==> exists|i: int|
            0 <= i < lines.len() && !regex_match(AMD_VENDOR_PATTERN@, #[trigger] lines[i])
                && regex_match(INTEL_VENDOR_PATTERN@, lines[i]),
        vendor_of(lines) is None <==> forall|i: int|
            0 <= i < lines.len() ==> !regex_match(AMD_VENDOR_PATTERN@, #[trigger] lines[i])
                && !regex_match(INTEL_VENDOR_PATTERN@, lines[i]),
    decreases lines.len(),
{
    if lines.len() > 0 {
        let rest = lines.drop_first();
        law_vendor_comes_from_a_line(rest);
        assert forall|i: int| 0 <= i < rest.len() implies #[trigger] rest[i] == lines[i + 1] by {}
        if vendor_of(lines) is None {
            assert forall|i: int| 0 <= i < lines.len() implies !regex_match(
                AMD_VENDOR_PATTERN@,
                #[trigger] lines[i],
            ) && !regex_match(INTEL_VENDOR_PATTERN@, lines[i]) by {
                if i > 0 {
                    assert(lines[i] == rest[i - 1]);
                }
            }
        }
        if vendor_of(lines) == Some(CpuVendor::Amd) && !regex_match(
            AMD_VENDOR_PATTERN@,
            lines[0],
        ) {
            let i = choose|i: int|
                0 <= i < rest.len() && regex_match(AMD_VENDOR_PATTERN@, #[trigger] rest[i]);
            assert(lines[i + 1] == rest[i]);
        }
        if vendor_of(lines) == Some(CpuVendor::Intel) && (regex_match(AMD_VENDOR_PATTERN@, lines[0])
            || !regex_match(INTEL_VENDOR_PATTERN@, lines[0])) {
            let i = choose|i: int|
                0 <= i < rest.len() && !regex_match(AMD_VENDOR_PATTERN@, #[trigger] rest[i])
                    && regex_match(INTEL_VENDOR_PATTERN@, rest[i]);
            assert(lines[i + 1] == rest[i]);
        }
        if forall|i: int|
            0 <= i < lines.len() ==> !regex_match(AMD_VENDOR_PATTERN@, #[trigger] lines[i])
                && !regex_match(INTEL_VENDOR_PATTERN@, lines[i]) {
            assert(!regex_match(AMD_VENDOR_PATTERN@, lines[0]));
            assert forall|i: int| 0 <= i < rest.len() implies !regex_match(
                AMD_VENDOR_PATTERN@,
                #[trigger] rest[i],
            ) && !regex_match(INTEL_VENDOR_PATTERN@, rest[i]) by {
                assert(rest[i] == lines[i + 1]);
            }
        }
    }
}

/// The microcode package of a vendor.
pub open spec fn microcode_package(vendor: CpuVendor) -> Seq<char> {
    match vendor {
        CpuVendor::Amd => "amd_ucode"@,
        CpuVendor::Intel => "intel_ucode"@,
    }
}

impl CpuVendor {
    /// The processor vendor named in the lines of `/proc/cpuinfo`, or
    /// `None` where the `regex` crate does not accept the vendor patterns
    /// (the program stops with a panic there, before any line is looked at).
    pub fn get(cpuinfo_lines: &Vec<String>) -> (r: Option<Option<CpuVendor>>)
        ensures
            r is Some <==> regex_valid(AMD_VENDOR_PATTERN@) && regex_valid(INTEL_VENDOR_PATTERN@),
            r matches Some(v) ==> v == vendor_of(views(cpuinfo_lines@)),
    {
        if regex_compiles(AMD_VENDOR_PATTERN) && regex_compiles(INTEL_VENDOR_PATTERN) {
            Some(vendor_from_lines(cpuinfo_lines))
        } else {
            None
        }
    }

    /// The package with the processor's microcode.
    pub fn get_microde(&self) -> (r: &'static str)
        ensures
            r@ == microcode_package(*self),
    {
        match self {
            CpuVendor::Amd => "amd_ucode",
            CpuVendor::Intel => "intel_ucode",
        }
    }
}

/// The vendor that the first line naming one names, given for each line
/// whether it matches the AMD pattern and whether it matches the Intel
/// pattern; a line that matches both is taken as AMD.
pub open spec fn vendor_by_matches(matches: Seq<(bool, bool)>) -> Option<CpuVendor>
    decreases matches.len(),
{
    if matches.len() == 0 {
        None
    } else if matches[0].0 {
        Some(CpuVendor::Amd)
    } else if matches[0].1 {
        Some(CpuVendor::Intel)
    } else {
        vendor_by_matches(matches.drop_first())
    }
}

/// For each line, whether it matches the AMD and the Intel pattern.
pub open spec fn vendor_matches(lines: Seq<Seq<char>>) -> Seq<(bool, bool)> {
    lines.map_values(
        |l: Seq<char>| (regex_match(AMD_VENDOR_PATTERN@, l), regex_match(INTEL_VENDOR_PATTERN@, l)),
    )
}

/// Choosing by the lines and choosing by their matches agree.
pub proof fn lemma_vendor_of_matches(lines: Seq<Seq<char>>)
    ensures
        vendor_of(lines) == vendor_by_matches(vendor_matches(lines)),
    decreases lines.len(),
{
    if lines.len() > 0 {
        lemma_vendor_of_matches(lines.drop_first());
        assert(vendor_matches(lines).drop_first() =~= vendor_matches(lines.drop_first()));
    }
}

/// The processor vendor, given for each line of `/proc/cpuinfo` whether it
/// matches the AMD pattern and whether it matches the Intel pattern: the
/// first line that matches one decides, AMD before Intel.
pub fn vendor_from_matches(matches: &Vec<(bool, bool)>) -> (r: Option<CpuVendor>)
    ensures
        r == vendor_by_matches(matches@),
{
    let ghost all = matches@;
    assert(all.skip(0) =~= all);
    let mut i: usize = 0;
    while i < matches.len()
        invariant
            all == matches@,
            i <= matches.len(),
            vendor_by_matches(all) == vendor_by_matches(all.skip(i as int)),
        decreases matches.len() - i,
    {
        assert(all.skip(i as int).drop_first() =~= all.skip(i + 1));
        let (amd, intel) = matches[i];
        if amd {
            return Some(CpuVendor::Amd);
        } else if intel {
            return Some(CpuVendor::Intel);
        }
        i = i + 1;
    }
    None
}

/// The processor vendor named in the lines of `/proc/cpuinfo`: the first
/// line that matches a vendor pattern decides.
pub fn vendor_from_lines(lines: &Vec<String>) -> (r: Option<CpuVendor>)
    requires
        regex_valid(AMD_VENDOR_PATTERN@),
        regex_valid(INTEL_VENDOR_PATTERN@),
    ensures
        r == vendor_of(views(lines@)),
{
    let ghost all = views(lines@);
    let mut matches: Vec<(bool, bool)> = Vec::new();
    let mut i: usize = 0;
    while i < lines.len()
        invariant
            all == views(lines@),
            i <= lines.len(),
            regex_valid(AMD_VENDOR_PATTERN@),
            regex_valid(INTEL_VENDOR_PATTERN@),
            matches@ == vendor_matches(all).take(i as int),
        decreases lines.len() - i,
    {
        let amd = regex_is_match(AMD_VENDOR_PATTERN, lines[i].as_str());
        let intel = regex_is_match(INTEL_VENDOR_PATTERN, lines[i].as_str());
        matches.push((amd, intel));
        assert(matches@ =~= vendor_matches(all).take(i + 1));
        i = i + 1;
    }
    assert(matches@ =~= vendor_matches(all));
    proof {
        lemma_vendor_of_matches(all);
    }
    vendor_from_matches(&matches)
}

/// The step that installs `pkgs` into the new system with `pacstrap`.
pub open spec fn install_step(pkgs: Seq<Seq<char>>) -> StepView {
    run_step(
        program("pacstrap"@, seq!["/mnt"@, "-K"@] + pkgs),
        "Install packages "@ + seq_join(pkgs, ", "@),
    )
}

/// Installs `pkgs` into the new system with `pacstrap /mnt -K`.
pub fn install(pkgs: &Vec<String>) -> (s: Step)
    ensures
        s@ == install_step(views(pkgs@)),
{
    let mut args = owned(&["/mnt", "-K"]);
    let ghost first = views(args@);
    assert(first =~= seq!["/mnt"@, "-K"@]);
    let mut more = pkgs.clone();
    proof {
        assert forall|k: int| 0 <= k < more@.len() implies more@[k]@ == pkgs@[k]@ by {
            assert(vstd::pervasive::cloned(pkgs@[k], more@[k]));
        }
        assert(views(more@) =~= views(pkgs@));
    }
    let ghost added = more@;
    args.append(&mut more);
    assert(views(args@) =~= first + views(added));
    let mut message = "Install packages ".to_string();
    let listed = join(pkgs, ", ");
    message.append(listed.as_str());
    Step { action: Action::Run(exec("pacstrap", args)), check: Check::Performed, message }
}

/// The steps of [`install_aur`].
pub open spec fn install_aur_plan() -> Seq<StepView> {
    seq![
        run_step(
            chroot_program(
                "bash"@,
                seq![
                    "-c"@,
                    "git clone https://aur.archlinux.org/paru.git /tmp/paru && cd /tmp/paru && makepkg -si --noconfirm"@,
                ],
            ),
            "Installing paru to access aur"@,
        ),
    ]
}

/// Builds the AUR helper `paru` inside the new system.
pub fn install_aur() -> (r: Vec<Step>)
    ensures
        plan_view(r@) == install_aur_plan(),
{
    let args = owned(
        &[
            "-c",
            "git clone https://aur.archlinux.org/paru.git /tmp/paru && cd /tmp/paru && makepkg -si --noconfirm",
        ],
    );
    assert(views(args@) =~= seq![
        "-c"@,
        "git clone https://aur.archlinux.org/paru.git /tmp/paru && cd /tmp/paru && makepkg -si --noconfirm"@,
    ]);
    let mut r: Vec<Step> = Vec::new();
    push_step(
        &mut r,
        Step {
            action: Action::Run(exec_chroot("bash", &args)),
            check: Check::Performed,
            message: "Installing paru to access aur".to_string(),
        },
    );
    r
}

/// The steps of [`config_pacman`].
pub open spec fn config_pacman_plan() -> Seq<StepView> {
    seq![
        append_step(
            "/etc/pacman.conf"@,
            "ParallelDownloads = 5"@,
            "Setting pacman parralel download"@,
        ),
        StepView {
            action: ActionView::Copy(
                seq![("/etc/pacman.d/mirrorlist"@, "/etc/pacman.d/mirrorlist.backup"@)],
            ),
            check: Check::Performed,
            message: "Creating temporary mirrorlist"@,
        },
        run_step(
            program(
                "sed"@,
                seq!["-i"@, "'s/^#Server/Server/'"@, "/etc/pacman.d/mirrorlist.backup"@],
            ),
            "Uncommenting every pacman mirrors"@,
        ),
        run_step(
            program(
                "bash"@,
                seq![
                    "-c"@,
                    "rankmirrors -n 6 /etc/pacman.d/mirrorlist.backup > /etc/pacman.d/mirrorlist"@,
                ],
            ),
            "Ranking the mirrors"@,
        ),
    ]
}

/// [`config_pacman`] works on the live system only (no path under
/// `/mnt`): it appends to the live pacman configuration, copies the mirror
/// list to a backup, uncomments the backup in place, and ranks the backup
/// into the mirror list it was copied from.
pub proof fn law_mirrors_ranked_from_backup()
    ensures
        config_pacman_plan()[0].action is AppendFile,
        !in_new_system(config_pacman_plan()[0].action->AppendFile_path),
        config_pacman_plan()[1].action is Copy,
        config_pacman_plan()[1].action->Copy_0.len() == 1,
        !in_new_system(config_pacman_plan()[1].action->Copy_0[0].0),
        !in_new_system(config_pacman_plan()[1].action->Copy_0[0].1),
        config_pacman_plan()[2].action->Run_0.program == "sed"@,
        config_pacman_plan()[2].action->Run_0.args.last() == config_pacman_plan()[1].action->Copy_0[0].1,
        config_pacman_plan()[3].action->Run_0.args[1] == "rankmirrors -n 6 "@
            + config_pacman_plan()[1].action->Copy_0[0].1 + " > "@
            + config_pacman_plan()[1].action->Copy_0[0].0,
{
    reveal_strlit("/mnt/");
    reveal_strlit("/etc/pacman.conf");
    reveal_strlit("/etc/pacman.d/mirrorlist");
    reveal_strlit("/etc/pacman.d/mirrorlist.backup");
    reveal_strlit("rankmirrors -n 6 ");
    reveal_strlit(" > ");
    reveal_strlit("rankmirrors -n 6 /etc/pacman.d/mirrorlist.backup > /etc/pacman.d/mirrorlist");
    assert("/etc/pacman.conf"@.subrange(0, 5)[1] != "/mnt/"@[1]);
    assert("/etc/pacman.d/mirrorlist"@.subrange(0, 5)[1] != "/mnt/"@[1]);
    assert("/etc/pacman.d/mirrorlist.backup"@.subrange(0, 5)[1] != "/mnt/"@[1]);
    assert("rankmirrors -n 6 /etc/pacman.d/mirrorlist.backup > /etc/pacman.d/mirrorlist"@ =~= "rankmirrors -n 6 "@
        + "/etc/pacman.d/mirrorlist.backup"@ + " > "@ + "/etc/pacman.d/mirrorlist"@);
}

/// Enables parallel downloads in the live system's pacman and ranks its
/// mirrors.
pub fn config_pacman() -> (r: Vec<Step>)
    ensures
        plan_view(r@) == config_pacman_plan(),
{
    let mut r: Vec<Step> = Vec::new();
    push_step(
        &mut r,
        appending(
            "/etc/pacman.conf",
            "ParallelDownloads = 5".to_string(),
            "Setting pacman parralel download".to_string(),
        ),
    );
    let mut copies: Vec<FileCopy> = Vec::new();
    copies.push(
        FileCopy {
            from: "/etc/pacman.d/mirrorlist".to_string(),
            to: "/etc/pacman.d/mirrorlist.backup".to_string(),
        },
    );
    push_step(
        &mut r,
        Step {
            action: Action::Copy(copies),
            check: Check::Performed,
            message: "Creating temporary mirrorlist".to_string(),
        },
    );
    let sed_args = owned(&["-i", "'s/^#Server/Server/'", "/etc/pacman.d/mirrorlist.backup"]);
    assert(views(sed_args@) =~= seq![
        "-i"@,
        "'s/^#Server/Server/'"@,
        "/etc/pacman.d/mirrorlist.backup"@,
    ]);
    push_step(
        &mut r,
        running(exec("sed", sed_args), "Uncommenting every pacman mirrors".to_string()),
    );
    let rank_args = owned(
        &["-c", "rankmirrors -n 6 /etc/pacman.d/mirrorlist.backup > /etc/pacman.d/mirrorlist"],
    );
    assert(views(rank_args@) =~= seq![
        "-c"@,
        "rankmirrors -n 6 /etc/pacman.d/mirrorlist.backup > /etc/pacman.d/mirrorlist"@,
    ]);
    push_step(&mut r, running(exec("bash", rank_args), "Ranking the mirrors".to_string()));
    proof {
        let copied = ActionView::Copy(
            seq![("/etc/pacman.d/mirrorlist"@, "/etc/pacman.d/mirrorlist.backup"@)],
        );
        assert(plan_view(r@)[1].action == copied) by {
            if let ActionView::Copy(pairs) = plan_view(r@)[1].action {
                assert(pairs =~= seq![
                    ("/etc/pacman.d/mirrorlist"@, "/etc/pacman.d/mirrorlist.backup"@),
                ]);
            }
        }
        assert(plan_view(r@) =~= config_pacman_plan());
    }
    r
}

/// The steps of [`copy_pacman_conf`].
pub open spec fn copy_pacman_conf_plan() -> Seq<StepView> {
    seq![
        StepView {
            action: ActionView::Copy(
                seq![
                    ("/etc/pacman.conf"@, "/mnt/etc/pacman.conf"@),
                    ("/etc/pacman.d/mirrorlist"@, "/mnt/etc/pacman/mirrorlist"@),
                ],
            ),
            check: Check::Performed,
            message: "Copying pacman conf"@,
        },
    ]
}

/// Every copy of [`copy_pacman_conf`] goes from the live system into the
/// new system; the pacman configuration lands at the same place under
/// `/mnt`.
pub proof fn law_pacman_conf_copied_into_new_system()
    ensures
        copy_pacman_conf_plan().len() == 1,
        copy_pacman_conf_plan()[0].action is Copy,
        copy_pacman_conf_plan()[0].action->Copy_0.len() == 2,
        forall|k: int|
            0 <= k < copy_pacman_conf_plan()[0].action->Copy_0.len() ==> !in_new_system(
                (#[trigger] copy_pacman_conf_plan()[0].action->Copy_0[k]).0,
            ) && in_new_system(copy_pacman_conf_plan()[0].action->Copy_0[k].1),
        copy_pacman_conf_plan()[0].action->Copy_0[0].0 == "/etc/pacman.conf"@,
        copy_pacman_conf_plan()[0].action->Copy_0[0].1 == "/mnt"@ + "/etc/pacman.conf"@,
{
    reveal_strlit("/mnt/");
    reveal_strlit("/mnt");
    reveal_strlit("/etc/pacman.conf");
    reveal_strlit("/mnt/etc/pacman.conf");
    reveal_strlit("/etc/pacman.d/mirrorlist");
    reveal_strlit("/mnt/etc/pacman/mirrorlist");
    let pairs = copy_pacman_conf_plan()[0].action->Copy_0;
    assert(pairs[0].0.subrange(0, 5) != "/mnt/"@) by {
        assert(pairs[0].0.subrange(0, 5)[1] != "/mnt/"@[1]);
    }
    assert(pairs[1].0.subrange(0, 5) != "/mnt/"@) by {
        assert(pairs[1].0.subrange(0, 5)[1] != "/mnt/"@[1]);
    }
    assert(pairs[0].1.subrange(0, 5) =~= "/mnt/"@);
    assert(pairs[1].1.subrange(0, 5) =~= "/mnt/"@);
    assert("/mnt"@ + "/etc/pacman.conf"@ =~= "/mnt/etc/pacman.conf"@);
}

/// Copies the live system's pacman configuration and mirror list into the
/// new system.
pub fn copy_pacman_conf() -> (r: Vec<Step>)
    ensures
        plan_view(r@) == copy_pacman_conf_plan(),
{
    let mut copies: Vec<FileCopy> = Vec::new();
    copies.push(
        FileCopy { from: "/etc/pacman.conf".to_string(), to: "/mnt/etc/pacman.conf".to_string() },
    );
    copies.push(
        FileCopy {
            from: "/etc/pacman.d/mirrorlist".to_string(),
            to: "/mnt/etc/pacman/mirrorlist".to_string(),
        },
    );
    let mut r: Vec<Step> = Vec::new();
    push_step(
        &mut r,
        Step {
            action: Action::Copy(copies),
            check: Check::Performed,
            message: "Copying pacman conf".to_string(),
        },
    );
    proof {
        if let ActionView::Copy(pairs) = plan_view(r@)[0].action {
            assert(pairs =~= seq![
                ("/etc/pacman.conf"@, "/mnt/etc/pacman.conf"@),
                ("/etc/pacman.d/mirrorlist"@, "/mnt/etc/pacman/mirrorlist"@),
            ]);
        }
        assert(plan_view(r@) =~= copy_pacman_conf_plan());
    }
    r
}

/// The kernel the new system runs.
pub const KERNEL: &'static str = "linux-hardened";

/// The packages of the new system: the base system, the kernel and its
/// headers, tools, the shell, and the processor's microcode where the vendor
/// is known.
pub open spec fn package_list(vendor: Option<CpuVendor>) -> Seq<Seq<char>> {
    let base = seq![
        "base"@,
        "base-devel"@,
        "git"@,
        KERNEL@,
        KERNEL@ + "-headers"@,
        "archlinux-keyring"@,
        "zram-generator"@,
        "linux-firmware"@,
        "systemd-sysvcompat"@,
        "bubblewrap-suid"@,
        "bootctl"@,
        "networkmanager"@,
        "man-db"@,
        "man-pages"@,
        "texinfo"@,
        "nano"@,
        "vim"@,
        "sudo"@,
        "curl"@,
        "btrfs-progs"@,
        "which"@,
        "base-devel"@,
        "zsh"@,
        "zsh-completions"@,
        "zsh-autosuggestions"@,
        "zsh-syntax-highlighting"@,
        "flatpak"@,
    ];
    match vendor {
        Some(v) => base.push(microcode_package(v)),
        None => base,
    }
}

/// Whatever the vendor, the package list starts with `base` and holds the
/// base system, the kernel with its headers, and every tool of the new
/// system; it has 27 packages, plus one (the microcode, last) where the
/// vendor is known.
pub proof fn law_base_system_is_installed(vendor: Option<CpuVendor>)
    ensures
        package_list(vendor)[0] == "base"@,
        package_list(vendor).len() == 27 + if vendor is Some { 1int } else { 0int },
        package_list(vendor).contains("base"@),
        package_list(vendor).contains("base-devel"@),
        package_list(vendor).contains("git"@),
        package_list(vendor).contains(KERNEL@),
        package_list(vendor).contains(KERNEL@ + "-headers"@),
        package_list(vendor).contains("archlinux-keyring"@),
        package_list(vendor).contains("zram-generator"@),
        package_list(vendor).contains("linux-firmware"@),
        package_list(vendor).contains("systemd-sysvcompat"@),
        package_list(vendor).contains("bubblewrap-suid"@),
        package_list(vendor).contains("bootctl"@),
        package_list(vendor).contains("networkmanager"@),
        package_list(vendor).contains("man-db"@),
        package_list(vendor).contains("man-pages"@),
        package_list(vendor).contains("texinfo"@),
        package_list(vendor).contains("nano"@),
        package_list(vendor).contains("vim"@),
        package_list(vendor).contains("sudo"@),
        package_list(vendor).contains("curl"@),
        package_list(vendor).contains("btrfs-progs"@),
        package_list(vendor).contains("which"@),
        package_list(vendor).contains("zsh"@),
        package_list(vendor).contains("zsh-completions"@),
        package_list(vendor).contains("zsh-autosuggestions"@),
        package_list(vendor).contains("zsh-syntax-highlighting"@),
        package_list(vendor).contains("flatpak"@),
        vendor matches Some(v) ==> package_list(vendor).last() == microcode_package(v),
        install_step(package_list(vendor)).action == ActionView::Run(
            program("pacstrap"@, seq!["/mnt"@, "-K"@] + package_list(vendor)),
        ),
{
    let l = package_list(vendor);
    assert(l[0] == "base"@);
    assert(l[1] == "base-devel"@);
    assert(l[2] == "git"@);
    assert(l[3] == KERNEL@);
    assert(l[4] == KERNEL@ + "-headers"@);
    assert(l[5] == "archlinux-keyring"@);
    assert(l[6] == "zram-generator"@);
    assert(l[7] == "linux-firmware"@);
    assert(l[8] == "systemd-sysvcompat"@);
    assert(l[9] == "bubblewrap-suid"@);
    assert(l[10] == "bootctl"@);
    assert(l[11] == "networkmanager"@);
    assert(l[12] == "man-db"@);
    assert(l[13] == "man-pages"@);
    assert(l[14] == "texinfo"@);
    assert(l[15] == "nano"@);
    assert(l[16] == "vim"@);
    assert(l[17] == "sudo"@);
    assert(l[18] == "curl"@);
    assert(l[19] == "btrfs-progs"@);
    assert(l[20] == "which"@);
    assert(l[22] == "zsh"@);
    assert(l[23] == "zsh-completions"@);
    assert(l[24] == "zsh-autosuggestions"@);
    assert(l[25] == "zsh-syntax-highlighting"@);
    assert(l[26] == "flatpak"@);
}

/// Knowing the processor's vendor adds exactly its microcode package at the
/// end of the package list, and changes nothing else.
pub proof fn law_microcode_only_extends(vendor: CpuVendor)
    ensures
        package_list(Some(vendor)) == package_list(None).push(microcode_package(vendor)),
{
}

/// What reading `/proc/cpuinfo` gave.
#[derive(Debug, PartialEq, Eq)]
pub enum CpuInfo {
    /// The file could not be opened.
    Unreadable,
    /// The lines that could be read.
    Lines(Vec<String>),
}

/// The processor vendor that `info` names.
pub open spec fn cpu_vendor_of(info: CpuInfo) -> Option<CpuVendor> {
    match info {
        CpuInfo::Unreadable => None,
        CpuInfo::Lines(lines) => vendor_of(views(lines@)),
    }
}

/// The steps of [`install_base_packages`] before the processor vendor is
/// known: create `/mnt/etc` (a failure there is a panic), then read
/// `/proc/cpuinfo`.
pub open spec fn install_base_packages_prefix() -> Seq<StepView> {
    seq![
        StepView {
            action: ActionView::CreateDir { path: "/mnt/etc"@ },
            check: Check::Unwrapped,
            message: Seq::empty(),
        },
        StepView {
            action: ActionView::ReadLines { path: "/proc/cpuinfo"@ },
            check: Check::Ignored,
            message: Seq::empty(),
        },
    ]
}

/// The packages of the new system, as [`package_list`] gives them.
fn package_names(vendor: Option<CpuVendor>) -> (to_install: Vec<String>)
    ensures
        views(to_install@) == package_list(vendor),
{
    let mut headers = KERNEL.to_string();
    headers.append("-headers");
    let mut to_install = owned(&["base", "base-devel", "git", KERNEL]);
    assert(views(to_install@) =~= seq!["base"@, "base-devel"@, "git"@, KERNEL@]);
    let ghost four = to_install@;
    to_install.push(headers);
    assert(views(to_install@) =~= views(four).push(KERNEL@ + "-headers"@));
    let mut rest = owned(
        &[
            "archlinux-keyring",
            "zram-generator",
            "linux-firmware",
            "systemd-sysvcompat",
            "bubblewrap-suid",
            "bootctl",
            "networkmanager",
            "man-db",
            "man-pages",
            "texinfo",
            "nano",
            "vim",
            "sudo",
            "curl",
            "btrfs-progs",
            "which",
            "base-devel",
            "zsh",
            "zsh-completions",
            "zsh-autosuggestions",
            "zsh-syntax-highlighting",
            "flatpak",
        ],
    );
    let ghost first = views(to_install@);
    let ghost added = views(rest@);
    assert(added =~= seq![
        "archlinux-keyring"@,
        "zram-generator"@,
        "linux-firmware"@,
        "systemd-sysvcompat"@,
        "bubblewrap-suid"@,
        "bootctl"@,
        "networkmanager"@,
        "man-db"@,
        "man-pages"@,
        "texinfo"@,
        "nano"@,
        "vim"@,
        "sudo"@,
        "curl"@,
        "btrfs-progs"@,
        "which"@,
        "base-devel"@,
        "zsh"@,
        "zsh-completions"@,
        "zsh-autosuggestions"@,
        "zsh-syntax-highlighting"@,
        "flatpak"@,
    ]);
    to_install.append(&mut rest);
    assert(views(to_install@) =~= first + added);
    assert(views(to_install@) =~= package_list(None));
    if let Some(vendor) = vendor {
        let ghost all = to_install@;
        let code = vendor.get_microde().to_string();
        to_install.push(code);
        assert(views(to_install@) =~= views(all).push(microcode_package(vendor)));
    }
    assert(views(to_install@) =~= package_list(vendor));
    to_install
}

/// Creates `/mnt/etc`, reads `/proc/cpuinfo`, and installs the packages of
/// the new system with the microcode of the vendor it names.  Without
/// `cpuinfo` (not read yet) the result is the steps up to the reading;
/// with it, the whole sequence, which begins with those steps.  With
/// `cpuinfo` the result is `None` where the `regex` crate does not accept
/// the vendor patterns (the program stops with a panic there, after
/// `/mnt/etc` is created and before the package installation).
pub fn install_base_packages(cpuinfo: Option<&CpuInfo>) -> (r: Option<Vec<Step>>)
    ensures
        cpuinfo is None ==> (r matches Some(steps) && plan_view(steps@)
            == install_base_packages_prefix()),
        cpuinfo is Some ==> (r is Some <==> regex_valid(AMD_VENDOR_PATTERN@) && regex_valid(
            INTEL_VENDOR_PATTERN@,
        )),
        cpuinfo matches Some(info) ==> (r matches Some(steps) ==> plan_view(steps@)
            == install_base_packages_prefix().push(
            install_step(package_list(cpu_vendor_of(*info))),
        )),
{
    let mut r: Vec<Step> = Vec::new();
    push_step(
        &mut r,
        Step {
            action: Action::CreateDir { path: "/mnt/etc".to_string() },
            check: Check::Unwrapped,
            message: String::new(),
        },
    );
    push_step(
        &mut r,
        Step {
            action: Action::ReadLines { path: "/proc/cpuinfo".to_string() },
            check: Check::Ignored,
            message: String::new(),
        },
    );
    assert(plan_view(r@) =~= install_base_packages_prefix());
    let info = match cpuinfo {
        None => {
            return Some(r);
        },
        Some(info) => info,
    };
    let empty: Vec<String> = Vec::new();
    let lines = match info {
        CpuInfo::Lines(lines) => lines,
        CpuInfo::Unreadable => &empty,
    };
    assert(views(empty@) =~= Seq::<Seq<char>>::empty());
    let vendor = match CpuVendor::get(lines) {
        None => {
            return None;
        },
        Some(found) => found,
    };
    push_step(&mut r, install(&package_names(vendor)));
    Some(r)
}

/// The steps of [`install_bootloader`], with `hook` the pacman hook that
/// updates systemd-boot.
pub open spec fn install_bootloader_plan(hook: Seq<char>) -> Seq<StepView> {
    seq![
        run_step(chroot_program("bootctl"@, seq!["install"@]), "Installing the bootloader"@),
        StepView {
            action: ActionView::WriteFile {
                path: "/mnt/etc/pacman.d/hooks/95-systemd-boot.hook"@,
                contents: hook,
            },
            check: Check::Performed,
            message: "Creating hook to update the bootloader"@,
        },
    ]
}

/// The bootloader is installed inside the new system, and its update hook
/// is written, unchanged, into the new system's pacman hook directory.
pub proof fn law_bootloader_hook_in_new_system(hook: Seq<char>)
    ensures
        install_bootloader_plan(hook)[0].action == ActionView::Run(
            chroot_program("bootctl"@, seq!["install"@]),
        ),
        install_bootloader_plan(hook)[1].action is WriteFile,
        in_new_system(install_bootloader_plan(hook)[1].action->WriteFile_path),
        install_bootloader_plan(hook)[1].action->WriteFile_contents == hook,
{
    reveal_strlit("/mnt/");
    reveal_strlit("/mnt/etc/pacman.d/hooks/95-systemd-boot.hook");
    assert("/mnt/etc/pacman.d/hooks/95-systemd-boot.hook"@.subrange(0, 5) =~= "/mnt/"@);
}

/// Installs systemd-boot in the new system and writes `hook`, the pacman
/// hook that updates it.
pub fn install_bootloader(hook: &str) -> (r: Vec<Step>)
    ensures
        plan_view(r@) == install_bootloader_plan(hook@),
{
    let args = owned(&["install"]);
    assert(views(args@) =~= seq!["install"@]);
    let mut r: Vec<Step> = Vec::new();
    push_step(
        &mut r,
        running(exec_chroot("bootctl", &args), "Installing the bootloader".to_string()),
    );
    push_step(
        &mut r,
        Step {
            action: Action::WriteFile {
                path: "/mnt/etc/pacman.d/hooks/95-systemd-boot.hook".to_string(),
                contents: hook.to_string(),
            },
            check: Check::Performed,
            message: "Creating hook to update the bootloader".to_string(),
        },
    );
    assert(plan_view(r@) =~= install_bootloader_plan(hook@));
    r
}

} // verus!
