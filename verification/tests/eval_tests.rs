use archinstaller::eval::{
    evaluate, exec_eval, files_eval, os_eval, CommandOutput, Crash, IoFailure, Outcome, Verdict,
};
use archinstaller::plan::{Action, Check, Invocation, Step};

fn failure(text: &str, code: i32) -> IoFailure {
    IoFailure { description: text.to_string(), os_code: Some(code) }
}

fn step(action: Action, check: Check, message: &str) -> Step {
    Step { action, check, message: message.to_string() }
}

fn run_action() -> Action {
    Action::Run(Invocation {
        program: "true".to_string(),
        args: Vec::new(),
        workdir: None,
        inherit_stdio: false,
    })
}

fn capture_action() -> Action {
    Action::Capture(Invocation {
        program: "true".to_string(),
        args: Vec::new(),
        workdir: None,
        inherit_stdio: false,
    })
}

#[test]
fn os_eval_logs_on_success() {
    let r: Result<u32, IoFailure> = Ok(3);
    assert_eq!(os_eval(&r, "Ranking the mirrors"), Ok("Ranking the mirrors".to_string()));
}

#[test]
fn os_eval_crashes_with_os_code() {
    let r: Result<(), IoFailure> = Err(failure("No such file or directory (os error 2)", 2));
    assert_eq!(
        os_eval(&r, "Setting hostname"),
        Err(Crash {
            message: "Setting hostname ERROR: No such file or directory (os error 2)".to_string(),
            code: 2,
        })
    );
}

#[test]
fn files_eval_matches_os_eval() {
    let ok: Result<(), IoFailure> = Ok(());
    let err: Result<(), IoFailure> = Err(failure("denied", 13));
    assert_eq!(files_eval(&ok, "edit locale.conf"), os_eval(&ok, "edit locale.conf"));
    assert_eq!(files_eval(&err, "edit locale.conf"), os_eval(&err, "edit locale.conf"));
    assert_eq!(files_eval(&err, "x").unwrap_err().code, 13);
}

#[test]
fn exec_eval_passes_output_on_success() {
    let out = CommandOutput { success: true, stdout: b"ID 256".to_vec(), stderr: Vec::new() };
    let r = exec_eval(Ok(out), "Getting the list");
    assert_eq!(
        r,
        Ok((
            "Getting the list".to_string(),
            CommandOutput { success: true, stdout: b"ID 256".to_vec(), stderr: Vec::new() }
        ))
    );
}

#[test]
fn exec_eval_reports_error_output() {
    let out = CommandOutput { success: false, stdout: Vec::new(), stderr: b"bad device".to_vec() };
    let r = exec_eval(Ok(out), "Set system clock");
    assert_eq!(
        r,
        Err(Crash { message: "Set system clock  ERROR: bad device".to_string(), code: 1 })
    );
}

#[test]
fn exec_eval_unreadable_error_output() {
    let out = CommandOutput { success: false, stdout: Vec::new(), stderr: vec![0xc3, 0x28] };
    let r = exec_eval(Ok(out), "generate locales");
    assert_eq!(
        r,
        Err(Crash { message: "generate locales  ERROR: unreadable output".to_string(), code: 1 })
    );
}

#[test]
fn exec_eval_decodes_utf8_error_output() {
    let out = CommandOutput { success: false, stdout: Vec::new(), stderr: "é".as_bytes().to_vec() };
    let r = exec_eval(Ok(out), "m");
    assert_eq!(r, Err(Crash { message: "m  ERROR: é".to_string(), code: 1 }));
}

#[test]
fn exec_eval_start_failure() {
    let r = exec_eval(Err(failure("not found", 2)), "m");
    assert_eq!(r, Err(Crash { message: "m  ERROR: not found".to_string(), code: 2 }));
}

#[test]
fn evaluate_performed_step() {
    let s = step(run_action(), Check::Performed, "Installing the bootloader");
    assert_eq!(
        evaluate(&s, Outcome::Completed),
        Verdict::Proceed { info: Some("Installing the bootloader".to_string()), output: None }
    );
    assert_eq!(
        evaluate(&s, Outcome::Failed(failure("gone", 5))),
        Verdict::Abort(Crash {
            message: "Installing the bootloader ERROR: gone".to_string(),
            code: 5
        })
    );
}

#[test]
fn evaluate_succeeded_step() {
    let s = step(capture_action(), Check::Succeeded, "Set system clock");
    let ok = CommandOutput { success: true, stdout: b"out".to_vec(), stderr: Vec::new() };
    assert_eq!(
        evaluate(&s, Outcome::Output(ok)),
        Verdict::Proceed {
            info: Some("Set system clock".to_string()),
            output: Some(CommandOutput { success: true, stdout: b"out".to_vec(), stderr: Vec::new() })
        }
    );
    let bad = CommandOutput { success: false, stdout: Vec::new(), stderr: b"no rtc".to_vec() };
    assert_eq!(
        evaluate(&s, Outcome::Output(bad)),
        Verdict::Abort(Crash { message: "Set system clock  ERROR: no rtc".to_string(), code: 1 })
    );
}

#[test]
fn evaluate_present_step() {
    let s = step(
        Action::PathExists { path: "/dev/sdz".to_string() },
        Check::Present,
        "The device \"/dev/sdz\" doesn't exist",
    );
    assert_eq!(evaluate(&s, Outcome::Present(true)), Verdict::Proceed { info: None, output: None });
    assert_eq!(
        evaluate(&s, Outcome::Present(false)),
        Verdict::Abort(Crash {
            message: "The device \"/dev/sdz\" doesn't exist".to_string(),
            code: 1
        })
    );
}

#[test]
fn evaluate_abort_and_ignored_steps() {
    let stop = step(
        Action::Abort { message: "Fail to get btrfs default subvolum id".to_string(), code: 1 },
        Check::Ignored,
        "",
    );
    assert_eq!(
        evaluate(&stop, Outcome::Completed),
        Verdict::Abort(Crash { message: "Fail to get btrfs default subvolum id".to_string(), code: 1 })
    );
    let create = step(Action::CreateFile { path: "/mnt/etc/hosts".to_string() }, Check::Ignored, "");
    assert_eq!(
        evaluate(&create, Outcome::Failed(IoFailure { description: "x".to_string(), os_code: None })),
        Verdict::Proceed { info: None, output: None }
    );
    let dir = step(Action::CreateDir { path: "/mnt/etc".to_string() }, Check::Unwrapped, "");
    assert_eq!(evaluate(&dir, Outcome::Completed), Verdict::Proceed { info: None, output: None });
}

#[test]
fn crash_message_starts_with_step_message() {
    let s = step(run_action(), Check::Performed, "format /dev/sda1 as fat32");
    match evaluate(&s, Outcome::Failed(failure("busy", 16))) {
        Verdict::Abort(c) => assert!(c.message.starts_with("format /dev/sda1 as fat32")),
        other => panic!("unexpected verdict {:?}", other),
    }
}

#[test]
fn evaluate_reading_goes_on_either_way() {
    let s = step(Action::ReadLines { path: "/proc/cpuinfo".to_string() }, Check::Ignored, "");
    assert_eq!(
        evaluate(&s, Outcome::Lines(vec!["vendor_id : GenuineIntel".to_string()])),
        Verdict::Proceed { info: None, output: None }
    );
    assert_eq!(
        evaluate(&s, Outcome::Failed(failure("No such file or directory", 2))),
        Verdict::Proceed { info: None, output: None }
    );
}
