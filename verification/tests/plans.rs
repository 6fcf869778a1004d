use archinstaller::base::{
    config_pacman, copy_pacman_conf, install, install_aur, install_base_packages,
    install_bootloader, vendor_from_matches, CpuInfo, CpuVendor,
};
use archinstaller::linux::{config_kernel_install, config_mkinitcpio, config_secure_boot, install_zram};
use archinstaller::locale::{locale_steps, set_keyboard, set_locale, set_timezone};
use archinstaller::network::{create_hosts, enable_ipv6, set_hostname};
use archinstaller::plan::{Action, Check, FileCopy, Invocation, Step};

fn strings(parts: &[&str]) -> Vec<String> {
    parts.iter().map(|s| s.to_string()).collect()
}

fn run_args(step: &Step) -> (&str, &Vec<String>) {
    match &step.action {
        Action::Run(i) | Action::Capture(i) => (i.program.as_str(), &i.args),
        other => panic!("not a program: {:?}", other),
    }
}

#[test]
fn cpu_vendor_from_cpuinfo() {
    let amd = strings(&["processor\t: 0", "vendor_id\t: AuthenticAMD", "cpu family\t: 23"]);
    assert_eq!(CpuVendor::get(&amd), Some(Some(CpuVendor::Amd)));
    let intel = strings(&["vendor_id : GenuineIntel"]);
    assert_eq!(CpuVendor::get(&intel), Some(Some(CpuVendor::Intel)));
    let none = strings(&["vendor_id\t: HygonGenuine", "model name: x"]);
    assert_eq!(CpuVendor::get(&none), Some(None));
    assert_eq!(CpuVendor::get(&Vec::new()), Some(None));
}

#[test]
fn first_vendor_line_decides() {
    let lines = strings(&["vendor_id\t: GenuineIntel", "vendor_id\t: AuthenticAMD"]);
    assert_eq!(CpuVendor::get(&lines), Some(Some(CpuVendor::Intel)));
    let not_anchored = strings(&["xvendor_id: AuthenticAMD", "vendor_id: AuthenticAMD extra"]);
    assert_eq!(CpuVendor::get(&not_anchored), Some(None));
}

#[test]
fn microcode_packages() {
    assert_eq!(CpuVendor::Amd.get_microde(), "amd_ucode");
    assert_eq!(CpuVendor::Intel.get_microde(), "intel_ucode");
}

#[test]
fn base_packages_create_etc_then_read_cpuinfo() {
    let prefix = install_base_packages(None).unwrap();
    assert_eq!(
        prefix,
        vec![
            Step {
                action: Action::CreateDir { path: "/mnt/etc".to_string() },
                check: Check::Unwrapped,
                message: String::new(),
            },
            Step {
                action: Action::ReadLines { path: "/proc/cpuinfo".to_string() },
                check: Check::Ignored,
                message: String::new(),
            },
        ]
    );
}

#[test]
fn base_packages_with_and_without_microcode() {
    let prefix = install_base_packages(None).unwrap();
    let without = install_base_packages(Some(&CpuInfo::Unreadable)).unwrap();
    assert_eq!(without.len(), 3);
    assert_eq!(&without[..2], &prefix[..]);
    let (program, args) = run_args(&without[2]);
    assert_eq!(program, "pacstrap");
    assert_eq!(&args[..2], &strings(&["/mnt", "-K"])[..]);
    assert_eq!(args.len(), 2 + 27);
    assert_eq!(args[5], "linux-hardened");
    assert_eq!(args[6], "linux-hardened-headers");
    assert_eq!(args.last().unwrap(), "flatpak");
    let amd = CpuInfo::Lines(strings(&["processor\t: 0", "vendor_id\t: AuthenticAMD"]));
    let with = install_base_packages(Some(&amd)).unwrap();
    assert_eq!(&with[..2], &prefix[..]);
    let (_, args_amd) = run_args(&with[2]);
    assert_eq!(args_amd.len(), 2 + 28);
    assert_eq!(args_amd.last().unwrap(), "amd_ucode");
    assert_eq!(&args_amd[..args_amd.len() - 1], &args[..]);
    let other = CpuInfo::Lines(strings(&["vendor_id\t: HygonGenuine"]));
    let other_steps = install_base_packages(Some(&other)).unwrap();
    let (_, args_other) = run_args(&other_steps[2]);
    assert_eq!(args_other.len(), 2 + 27);
}

#[test]
fn install_message_lists_packages() {
    let s = install(&strings(&["git", "vim"]));
    assert_eq!(s.message, "Install packages git, vim");
    assert_eq!(s.check, Check::Performed);
    assert_eq!(run_args(&s), ("pacstrap", &strings(&["/mnt", "-K", "git", "vim"])));
}

#[test]
fn pacman_configuration() {
    let steps = config_pacman();
    assert_eq!(steps.len(), 4);
    assert_eq!(
        steps[0].action,
        Action::AppendFile {
            path: "/etc/pacman.conf".to_string(),
            text: "ParallelDownloads = 5".to_string()
        }
    );
    assert_eq!(
        steps[1].action,
        Action::Copy(vec![FileCopy {
            from: "/etc/pacman.d/mirrorlist".to_string(),
            to: "/etc/pacman.d/mirrorlist.backup".to_string()
        }])
    );
    assert_eq!(
        run_args(&steps[2]),
        ("sed", &strings(&["-i", "'s/^#Server/Server/'", "/etc/pacman.d/mirrorlist.backup"]))
    );
    assert_eq!(steps[3].message, "Ranking the mirrors");
    let copy = copy_pacman_conf();
    assert_eq!(copy.len(), 1);
    match &copy[0].action {
        Action::Copy(pairs) => {
            assert_eq!(pairs.len(), 2);
            assert_eq!(pairs[1].to, "/mnt/etc/pacman/mirrorlist");
        }
        other => panic!("unexpected {:?}", other),
    }
}

#[test]
fn aur_helper_runs_in_chroot() {
    let steps = install_aur();
    assert_eq!(steps.len(), 1);
    assert_eq!(
        run_args(&steps[0]),
        (
            "bash",
            &strings(&[
                "-c",
                "arch-chroot /mnt bash -c git clone https://aur.archlinux.org/paru.git /tmp/paru && cd /tmp/paru && makepkg -si --noconfirm"
            ])
        )
    );
}

#[test]
fn bootloader_and_zram() {
    let boot = install_bootloader("[Trigger]\n");
    assert_eq!(boot.len(), 2);
    assert_eq!(run_args(&boot[0]), ("bash", &strings(&["-c", "arch-chroot /mnt bootctl install"])));
    assert_eq!(
        boot[1].action,
        Action::WriteFile {
            path: "/mnt/etc/pacman.d/hooks/95-systemd-boot.hook".to_string(),
            contents: "[Trigger]\n".to_string()
        }
    );
    let zram = install_zram("[zram0]\n");
    assert_eq!(
        zram[0].action,
        Action::WriteFile {
            path: "[zram0]\n".to_string(),
            contents: "/mnt/etc/systemd/zram-generator.conf".to_string()
        }
    );
    assert!(config_kernel_install().is_empty());
    assert!(config_mkinitcpio().is_empty());
    assert!(config_secure_boot().is_empty());
}

#[test]
fn locale_of_new_system() {
    let steps = set_locale();
    assert_eq!(steps.len(), 5);
    assert_eq!(
        steps[3].action,
        Action::AppendFile {
            path: "/mnt/etc/locale.gen".to_string(),
            text: "en_US.UTF-8 UTF-8\n".to_string()
        }
    );
    assert_eq!(steps[1].check, Check::Ignored);
    assert_eq!(run_args(&steps[4]), ("bash", &strings(&["-c", "arch-chroot /mnt locale-gen "])));
    assert_eq!(steps[4].check, Check::Succeeded);
}

#[test]
fn other_locales_rewrite_locale_conf() {
    let steps = locale_steps("de_DE.UTF-8 UTF-8 en_US.UTF-8 UTF-8");
    assert_eq!(steps.len(), 3);
    assert_eq!(
        steps[1].action,
        Action::ReplaceInFile {
            path: "/mnt/etc/locale.conf".to_string(),
            find: "en_US.UTF-8".to_string(),
            replace: "de_DE.UTF-8".to_string()
        }
    );
    assert_eq!(steps[1].message, "Set locale de_DE.UTF-8 in /etc/locale.conf");
    assert_eq!(
        steps[2].action,
        Action::AppendFile {
            path: "/mnt/etc/locale.gen".to_string(),
            text: "en_US.UTF-8 UTF-8\n".to_string()
        }
    );
    for s in &steps {
        if let Action::ReplaceInFile { replace, .. } = &s.action {
            assert_ne!(replace, "en_US.UTF-8");
        }
    }
}

#[test]
fn timezone_and_keyboard() {
    let tz = set_timezone();
    assert_eq!(
        run_args(&tz[0]),
        (
            "bash",
            &strings(&["-c", "arch-chroot /mnt ln -sf /usr/share/zoneinfo/Europe/Paris /etc/localtime"])
        )
    );
    assert_eq!(tz[1].check, Check::Succeeded);
    let kb = set_keyboard();
    assert_eq!(kb[0].action, Action::CreateFile { path: "/mnt/etc/vconsole.conf".to_string() });
    assert_eq!(kb[1].message, "set keyboard layout to us");
}

#[test]
fn network_files() {
    let host = set_hostname();
    assert_eq!(
        run_args(&host[0]),
        ("bash", &strings(&["-c", "arch-chroot /mnt hostnamectl set-hostname laptop"]))
    );
    let hosts = create_hosts();
    assert_eq!(
        hosts[1].action,
        Action::AppendFile {
            path: "/mnt/etc/hosts".to_string(),
            text: "127.0.0.1     localhost".to_string()
        }
    );
    let v6 = enable_ipv6();
    assert_eq!(v6.len(), 1);
    assert_eq!(v6[0].message, "add ipv6 localhost");
    match &v6[0].action {
        Action::AppendFile { text, .. } => assert_eq!(text, "::1 localhost"),
        other => panic!("unexpected {:?}", other),
    }
    let _unused: Option<Invocation> = None;
}

#[test]
fn vendor_from_given_matches() {
    assert_eq!(vendor_from_matches(&vec![]), None);
    assert_eq!(vendor_from_matches(&vec![(false, false), (false, true), (true, false)]), Some(CpuVendor::Intel));
    assert_eq!(vendor_from_matches(&vec![(true, true)]), Some(CpuVendor::Amd));
    assert_eq!(vendor_from_matches(&vec![(false, false)]), None);
}
