use archinstaller::exec::{exec, exec_chroot, exec_workdir, execio};
use archinstaller::text::{join, lines, split_on};

fn strings(parts: &[&str]) -> Vec<String> {
    parts.iter().map(|s| s.to_string()).collect()
}

#[test]
fn split_keeps_empty_pieces() {
    assert_eq!(split_on("a  b", ' '), strings(&["a", "", "b"]));
    assert_eq!(split_on("", ' '), strings(&[""]));
    assert_eq!(split_on(" x ", ' '), strings(&["", "x", ""]));
    assert_eq!(split_on("en_US.UTF-8 UTF-8", ' '), strings(&["en_US.UTF-8", "UTF-8"]));
}

#[test]
fn split_matches_std() {
    for s in ["", "a", "a b c", "  ", "é ü", "ID 256 gen 1 path @"] {
        let expected: Vec<String> = s.split(' ').map(|p| p.to_string()).collect();
        assert_eq!(split_on(s, ' '), expected);
    }
}

#[test]
fn lines_like_std() {
    assert_eq!(lines("a\r\nb\n"), strings(&["a", "b"]));
    assert_eq!(lines(""), Vec::<String>::new());
    assert_eq!(lines("a\n\n"), strings(&["a", ""]));
    assert_eq!(lines("\n"), strings(&[""]));
    for s in ["", "x", "x\n", "x\r\ny", "a\n\nb\r\n", "\r\n\r\n", "one\ntwo"] {
        let expected: Vec<String> = s.lines().map(|p| p.to_string()).collect();
        assert_eq!(lines(s), expected, "lines of {:?}", s);
    }
}

#[test]
fn join_puts_separator_between() {
    assert_eq!(join(&strings(&["a", "b", "c"]), ", "), "a, b, c");
    assert_eq!(join(&strings(&["only"]), ", "), "only");
    assert_eq!(join(&Vec::new(), ", "), "");
    assert_eq!(join(&strings(&["", ""]), " "), " ");
}

#[test]
fn join_undoes_split() {
    for s in ["", "a", " a  b ", "ID 256 gen 85155 top level 5 path @"] {
        assert_eq!(join(&split_on(s, ' '), " "), s);
    }
}

#[test]
fn chroot_wraps_command_in_bash() {
    let inv = exec_chroot("hostnamectl", &strings(&["set-hostname", "laptop"]));
    assert_eq!(inv.program, "bash");
    assert_eq!(inv.args, strings(&["-c", "arch-chroot /mnt hostnamectl set-hostname laptop"]));
    assert_eq!(inv.workdir, None);
    assert!(!inv.inherit_stdio);
}

#[test]
fn chroot_without_arguments_keeps_trailing_space() {
    let inv = exec_chroot("locale-gen", &Vec::new());
    assert_eq!(inv.args, strings(&["-c", "arch-chroot /mnt locale-gen "]));
}

#[test]
fn exec_variants() {
    let plain = exec("umount", strings(&["-R", "/mnt"]));
    assert_eq!(plain.program, "umount");
    assert_eq!(plain.args, strings(&["-R", "/mnt"]));
    assert!(!plain.inherit_stdio);
    let io = execio("cryptsetup", strings(&["open"]));
    assert!(io.inherit_stdio);
    assert_eq!(io.workdir, None);
    let wd = exec_workdir("makepkg", "/tmp/paru", strings(&["-si"]));
    assert_eq!(wd.workdir, Some("/tmp/paru".to_string()));
    assert_eq!(wd.program, "makepkg");
}

#[test]
fn chroot_line_keeps_plain_arguments() {
    let args = strings(&["set-hostname", "laptop"]);
    let inv = exec_chroot("hostnamectl", &args);
    let rest = inv.args[1].strip_prefix("arch-chroot /mnt ").unwrap();
    assert_eq!(split_on(rest, ' '), strings(&["hostnamectl", "set-hostname", "laptop"]));
    let spaced = exec_chroot("bash", &strings(&["-c", "a b"]));
    let rest = spaced.args[1].strip_prefix("arch-chroot /mnt ").unwrap();
    assert_eq!(split_on(rest, ' ').len(), 4);
}
