use archinstaller::partition::{
    default_steps_from_matches, create_btrfs_su, create_luks, create_table, mount, mount_btrfs_su, part, partition,
    set_default_btrfs, umount,
};
use archinstaller::plan::{Action, Check, Step};

fn strings(parts: &[&str]) -> Vec<String> {
    parts.iter().map(|s| s.to_string()).collect()
}

fn run_args(step: &Step) -> (&str, &Vec<String>) {
    match &step.action {
        Action::Run(i) | Action::Capture(i) => (i.program.as_str(), &i.args),
        other => panic!("not a program: {:?}", other),
    }
}

#[test]
fn mount_arguments() {
    let plain = mount("/dev/sda1", "/mnt/efi", None);
    assert_eq!(run_args(&plain), ("mount", &strings(&["/dev/sda1", "/mnt/efi"])));
    assert_eq!(plain.message, "mount /dev/sda1 with no options at /mnt/efi");
    let with = mount("/dev/sda1", "/mnt", Some("ro"));
    assert_eq!(run_args(&with), ("mount", &strings(&["/dev/sda1", "/mnt", "-o", "ro"])));
    assert_eq!(with.message, "mount /dev/sda1 with no options at /mnt");
    let un = umount("/mnt");
    assert_eq!(run_args(&un), ("umount", &strings(&["-R", "/mnt"])));
    assert_eq!(un.message, "unmount /mnt");
}

#[test]
fn btrfs_subvolume_steps() {
    let c = create_btrfs_su("/mnt/@home");
    assert_eq!(run_args(&c), ("btrfs", &strings(&["subvolume", "create", "/mnt/@home"])));
    let m = mount_btrfs_su("@home", "/dev/mapper/root", "/mnt/home");
    assert_eq!(
        run_args(&m),
        (
            "btrfs",
            &strings(&[
                "-t",
                "btrfs",
                "-o",
                "rw,noatime,compress-force=zstd:3,subvol=@home",
                "/dev/mapper/root",
                "/mnt/home"
            ])
        )
    );
    assert_eq!(m.check, Check::Succeeded);
    assert_eq!(m.message, "Create btrfs subvolume @home from /dev/mapper/root to /mnt/home");
}

#[test]
fn gpt_table_and_paths() {
    let (steps, esp, cryptroot) = create_table("/dev/nvme0n1");
    assert_eq!(esp, "/dev/disk/by-partlabel/ESP");
    assert_eq!(cryptroot, "/dev/disk/by-partlabel/CRYPTROOT");
    assert_eq!(
        run_args(&steps[0]),
        (
            "parted",
            &strings(&[
                "-s", "/dev/nvme0n1", "mklabel", "gpt", "mkpart", "ESP", "fat32", "0", "1GiB", "set",
                "1", "esp", "on", "mkpart", "CRYPTROOT", "1GiB", "100%"
            ])
        )
    );
    assert_eq!(run_args(&steps[1]), ("partprobe", &strings(&["/dev/nvme0n1"])));
}

#[test]
fn luks_container() {
    let (steps, root) = create_luks("/dev/disk/by-partlabel/CRYPTROOT");
    assert_eq!(root, "/dev/mapper/root");
    assert_eq!(steps.len(), 4);
    assert!(matches!(steps[0].action, Action::Print { .. }));
    match &steps[1].action {
        Action::Run(i) => {
            assert!(i.inherit_stdio);
            assert_eq!(i.program, "cryptsetup");
            assert_eq!(i.args.last().unwrap(), "/dev/disk/by-partlabel/CRYPTROOT");
        }
        other => panic!("unexpected {:?}", other),
    }
    assert_eq!(
        run_args(&steps[3]),
        ("cryptsetup", &strings(&["open", "/dev/disk/by-partlabel/CRYPTROOT", "root"]))
    );
}

#[test]
fn whole_partition_plan() {
    let prefix = partition("/dev/sda", None).unwrap();
    assert_eq!(
        prefix[0],
        Step {
            action: Action::PathExists { path: "/dev/sda".to_string() },
            check: Check::Present,
            message: "The device \"/dev/sda\" doesn't exist".to_string(),
        }
    );
    assert_eq!(
        prefix[1],
        Step {
            action: Action::LogDebug { text: "automatically partitioning \"/dev/sda\"".to_string() },
            check: Check::Ignored,
            message: String::new(),
        }
    );
    // check, note, table (2), luks (4), formatting and subvolumes (3 + 6 + 2 + 10), listing
    assert_eq!(prefix.len(), 2 + 2 + 4 + 21 + 1);
    let listing = prefix.last().unwrap();
    assert_eq!(run_args(listing), ("btrfs", &strings(&["subvolume", "list", "/mnt"])));
    assert_eq!(listing.check, Check::Succeeded);
    let whole = partition("/dev/sda", Some(b"ID 256 gen 7 top level 5 path @\n")).unwrap();
    assert_eq!(&whole[..prefix.len()], &prefix[..]);
    assert_eq!(whole.len(), prefix.len() + 1 + 5);
    let tail: Vec<(&str, &Vec<String>)> =
        [&whole[prefix.len() - 1], &whole[prefix.len()], &whole[prefix.len() + 1], &whole[prefix.len() + 2], &whole[prefix.len() + 5]]
            .iter()
            .map(|s| run_args(s))
            .collect();
    assert_eq!(tail[0], ("btrfs", &strings(&["subvolume", "list", "/mnt"])));
    assert_eq!(tail[1], ("btrfs", &strings(&["subvolume", "set-default", "256", "/"])));
    assert_eq!(
        tail[2],
        ("btrfs", &strings(&["filesystem", "mkswapfile", "--size", "8G", "/mnt/swap/swapfile"]))
    );
    assert_eq!(tail[3], ("swapon", &strings(&["/mnt/swap/swapfile"])));
    assert_eq!(tail[4], ("mount", &strings(&["/dev/disk/by-partlabel/ESP", "/mnt/efi"])));
    assert_eq!(whole[prefix.len() + 3].action, Action::CreateDir { path: "/mnt/boot".to_string() });
    assert_eq!(whole[prefix.len() + 4].action, Action::CreateDir { path: "/mnt/efi".to_string() });
}

#[test]
fn part_with_listing() {
    let prefix = part("/dev/disk/by-partlabel/ESP", "/dev/mapper/root", None).unwrap();
    assert_eq!(prefix.len(), 21 + 1);
    let whole = part(
        "/dev/disk/by-partlabel/ESP",
        "/dev/mapper/root",
        Some(b"ID 256 gen 7 top level 5 path @\n"),
    )
    .unwrap();
    assert_eq!(&whole[..prefix.len()], &prefix[..]);
    let names: Vec<&str> = whole[whole.len() - 5..].iter().map(|s| match &s.action {
        Action::Run(i) | Action::Capture(i) => i.program.as_str(),
        Action::CreateDir { .. } => "mkdir",
        _ => "other",
    }).collect();
    assert_eq!(names, vec!["btrfs", "swapon", "mkdir", "mkdir", "mount"]);
    assert_eq!(run_args(&whole[prefix.len()]), ("btrfs", &strings(&["subvolume", "set-default", "256", "/"])));
    let stopped = part("/dev/sda1", "/dev/mapper/root", Some(&[0xff])).unwrap();
    assert!(matches!(stopped[prefix.len()].action, Action::Abort { .. }));
}

#[test]
fn every_subvolume_created_before_mounted() {
    let before = part("/dev/sda1", "/dev/mapper/root", None).unwrap();
    let subvolumes = [
        ("@", "/mnt"),
        ("@home", "/mnt/home"),
        ("@snapshots", "/mnt/.snapshots"),
        ("@var_log", "/mnt/var/log"),
        ("@var_pkgs", "/mnt/var/cache/pacman/pkgs"),
        ("@swap", "/mnt/swap"),
    ];
    for (label, at) in subvolumes {
        let created = before
            .iter()
            .position(|s| s == &create_btrfs_su(&format!("/mnt/{}", label)))
            .expect("created");
        let mounted = before
            .iter()
            .position(|s| s == &mount_btrfs_su(label, "/dev/mapper/root", at))
            .expect("mounted");
        assert!(created < mounted, "{} created after it is mounted", label);
    }
}

#[test]
fn default_subvolume_from_listing() {
    let listing = b"ID 256 gen 85155 top level 5 path @\nID 257 gen 85155 top level 5 path @home\nID 258 gen 85155 top level 5 path @var_lo\n";
    let steps = set_default_btrfs(listing).expect("pattern accepted");
    assert_eq!(steps.len(), 1);
    assert_eq!(
        run_args(&steps[0]),
        ("btrfs", &strings(&["subvolume", "set-default", "256", "/"]))
    );
    assert_eq!(steps[0].message, "Setting default btrfs subvolume");
}

#[test]
fn device_names_are_quoted_with_escapes() {
    let plan = partition("/dev/disk/by-id/a\"b", None).unwrap();
    assert_eq!(plan[0].message, "The device \"/dev/disk/by-id/a\\\"b\" doesn't exist");
}

#[test]
fn default_subvolume_edge_cases() {
    assert!(set_default_btrfs(b"").unwrap().is_empty());
    assert!(set_default_btrfs(b"ID 257 gen 1 top level 5 path @home").unwrap().is_empty());
    let two = set_default_btrfs(b"ID 1 path @\r\nID 2 path @\n").unwrap();
    assert_eq!(two.len(), 2);
    assert_eq!(run_args(&two[1]).1[2], "2");
    let empty_id = set_default_btrfs(b"ID  path @").unwrap();
    assert_eq!(run_args(&empty_id[0]).1[2], "");
    let bad = set_default_btrfs(&[0xff, 0x00]).unwrap();
    assert_eq!(
        bad,
        vec![Step {
            action: Action::Abort {
                message: "Fail to parse output of the btrfs command".to_string(),
                code: 1
            },
            check: Check::Ignored,
            message: String::new(),
        }]
    );
}

#[test]
fn default_steps_follow_given_matches() {
    let lines = strings(&["ID 5 path @", "not matched at all", "ID"]);
    let steps = default_steps_from_matches(&lines, &vec![true, false, false]);
    assert_eq!(steps.len(), 1);
    assert_eq!(run_args(&steps[0]), ("btrfs", &strings(&["subvolume", "set-default", "5", "/"])));
    let forced = default_steps_from_matches(&lines, &vec![false, true, false]);
    assert_eq!(run_args(&forced[0]).1[2], "matched");
    let stop = default_steps_from_matches(&lines, &vec![false, false, true]);
    assert_eq!(
        stop,
        vec![Step {
            action: Action::Abort {
                message: "Fail to get btrfs default subvolum id".to_string(),
                code: 1
            },
            check: Check::Ignored,
            message: String::new(),
        }]
    );
}
