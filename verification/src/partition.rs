//! Disk layout of the new system: a GPT table with an EFI partition and a
//! LUKS2 container, btrfs with subvolumes inside it, a swap file, and the
//! mounts under `/mnt`.
use vstd::prelude::*;
use crate::exec::{exec, execio};
use crate::pattern::{regex_compiles, regex_is_match, regex_match, regex_valid};
use crate::plan::{
    abort_step, append_steps, capture_step, capturing, create_dir_step, creating_dir, owned,
    plan_view, program, push_step, run_step, running, views, Action, ActionView, Check,
    InvocationView, Step, StepView,
};
use crate::text::{debug_quote, debug_quoted, decode_utf8, lines, split_on, split_pieces, text_lines};

verus! {

/// The step of [`mount`].
pub open spec fn mount_step(
    partition: Seq<char>,
    mountpoint: Seq<char>,
    options: Option<Seq<char>>,
) -> StepView {
    run_step(
        program(
            "mount"@,
            match options {
                Some(o) => seq![partition, mountpoint, "-o"@, o],
                None => seq![partition, mountpoint],
            },
        ),
        "mount "@ + partition + " with no options at "@ + mountpoint,
    )
}

/// Mounts `partition` at `mountpoint`, with `options` where given.
pub fn mount(partition: &str, mountpoint: &str, options: Option<&str>) -> (s: Step)
    ensures
        s@ == mount_step(
            partition@,
            mountpoint@,
            match options {
                Some(o) => Some(o@),
                None => None,
            },
        ),
{
    let args = match options {
        Some(o) => {
            let a = owned(&[partition, mountpoint, "-o", o]);
            assert(views(a@) =~= seq![partition@, mountpoint@, "-o"@, o@]);
            a
        },
        None => {
            let a = owned(&[partition, mountpoint]);
            assert(views(a@) =~= seq![partition@, mountpoint@]);
            a
        },
    };
    let mut message = "mount ".to_string();
    message.append(partition);
    message.append(" with no options at ");
    message.append(mountpoint);
    running(exec("mount", args), message)
}

/// The step of [`umount`].
pub open spec fn umount_step(mountpoint: Seq<char>) -> StepView {
    run_step(program("umount"@, seq!["-R"@, mountpoint]), "unmount "@ + mountpoint)
}

/// Unmounts everything under `mountpoint`.
pub fn umount(mountpoint: &str) -> (s: Step)
    ensures
        s@ == umount_step(mountpoint@),
{
    let args = owned(&["-R", mountpoint]);
    assert(views(args@) =~= seq!["-R"@, mountpoint@]);
    let mut message = "unmount ".to_string();
    message.append(mountpoint);
    running(exec("umount", args), message)
}

/// The step of [`create_btrfs_su`].
pub open spec fn create_btrfs_su_step(mountpoint: Seq<char>) -> StepView {
    run_step(
        program("btrfs"@, seq!["subvolume"@, "create"@, mountpoint]),
        "Create btrfs subvolume "@ + mountpoint,
    )
}

/// Creates the btrfs subvolume `mountpoint`.
pub fn create_btrfs_su(mountpoint: &str) -> (s: Step)
    ensures
        s@ == create_btrfs_su_step(mountpoint@),
{
    let args = owned(&["subvolume", "create", mountpoint]);
    assert(views(args@) =~= seq!["subvolume"@, "create"@, mountpoint@]);
    let mut message = "Create btrfs subvolume ".to_string();
    message.append(mountpoint);
    running(exec("btrfs", args), message)
}

/// The mount options of the btrfs subvolumes.
pub const BTRFS_MOUNT_OPTIONS: &'static str = "rw,noatime,compress-force=zstd:3";

/// The step of [`mount_btrfs_su`].
pub open spec fn mount_btrfs_su_step(
    subvol: Seq<char>,
    device: Seq<char>,
    path: Seq<char>,
) -> StepView {
    capture_step(
        program(
            "btrfs"@,
            seq![
                "-t"@,
                "btrfs"@,
                "-o"@,
                BTRFS_MOUNT_OPTIONS@ + ",subvol="@ + subvol,
                device,
                path,
            ],
        ),
        "Create btrfs subvolume "@ + subvol + " from "@ + device + " to "@ + path,
    )
}

/// A subvolume mount mounts `subvol` of `device` at `path`: the options
/// end with `,subvol=<subvol>` after the fixed mount options, and the last
/// two arguments are `device` and `path`.
pub proof fn law_subvolume_mount_names_its_subvolume(
    subvol: Seq<char>,
    device: Seq<char>,
    path: Seq<char>,
)
    ensures
        mount_btrfs_su_step(subvol, device, path).action->Capture_0.args.len() == 6,
        mount_btrfs_su_step(subvol, device, path).action->Capture_0.args[2] == "-o"@,
        mount_btrfs_su_step(subvol, device, path).action->Capture_0.args[3] == BTRFS_MOUNT_OPTIONS@
            + ",subvol="@ + subvol,
        mount_btrfs_su_step(subvol, device, path).action->Capture_0.args[4] == device,
        mount_btrfs_su_step(subvol, device, path).action->Capture_0.args[5] == path,
        mount_btrfs_su_step(subvol, device, path).check == Check::Succeeded,
{
}

/// Mounts the btrfs subvolume `subvol` of `device` at `path`.
pub fn mount_btrfs_su(subvol: &str, device: &str, path: &str) -> (s: Step)
    ensures
        s@ == mount_btrfs_su_step(subvol@, device@, path@),
{
    let mut options = BTRFS_MOUNT_OPTIONS.to_string();
    options.append(",subvol=");
    options.append(subvol);
    let mut args = owned(&["-t", "btrfs", "-o"]);
    assert(views(args@) =~= seq!["-t"@, "btrfs"@, "-o"@]);
    let ghost three = args@;
    args.push(options);
    assert(views(args@) =~= views(three).push(options@));
    let ghost four = args@;
    let mut rest = owned(&[device, path]);
    assert(views(rest@) =~= seq![device@, path@]);
    let ghost two = rest@;
    args.append(&mut rest);
    assert(views(args@) =~= views(four) + views(two));
    assert(views(args@) =~= seq![
        "-t"@,
        "btrfs"@,
        "-o"@,
        BTRFS_MOUNT_OPTIONS@ + ",subvol="@ + subvol@,
        device@,
        path@,
    ]);
    let mut message = "Create btrfs subvolume ".to_string();
    message.append(subvol);
    message.append(" from ");
    message.append(device);
    message.append(" to ");
    message.append(path);
    capturing(exec("btrfs", args), message)
}

/// The GPT label of the EFI system partition.
pub const ESP_LABEL: &'static str = "ESP";

/// The GPT label of the partition with the encrypted container.
pub const CRYPTROOT_LABEL: &'static str = "CRYPTROOT";

/// Where the kernel shows a partition labelled `label`.
pub open spec fn by_partlabel(label: Seq<char>) -> Seq<char> {
    "/dev/disk/by-partlabel/"@ + label
}

/// The steps of [`create_table`].
pub open spec fn create_table_plan(device: Seq<char>) -> Seq<StepView> {
    seq![
        run_step(
            program(
                "parted"@,
                seq![
                    "-s"@,
                    device,
                    "mklabel"@,
                    "gpt"@,
                    "mkpart"@,
                    ESP_LABEL@,
                    "fat32"@,
                    "0"@,
                    "1GiB"@,
                    "set"@,
                    "1"@,
                    "esp"@,
                    "on"@,
                    "mkpart"@,
                    CRYPTROOT_LABEL@,
                    "1GiB"@,
                    "100%"@,
                ],
            ),
            "Creating the GPT table"@,
        ),
        run_step(program("partprobe"@, seq![device]), "Informing the kernel about disk changes"@),
    ]
}

/// The table is written on `device`, its two partitions carry the labels
/// whose by-partlabel paths the rest of the installer uses, the EFI
/// partition is flagged `esp`, and the kernel is told about `device`.
pub proof fn law_table_labels_match_paths(device: Seq<char>)
    ensures
        create_table_plan(device)[0].action->Run_0.program == "parted"@,
        create_table_plan(device)[0].action->Run_0.args[1] == device,
        create_table_plan(device)[0].action->Run_0.args[4] == "mkpart"@,
        create_table_plan(device)[0].action->Run_0.args[5] == ESP_LABEL@,
        create_table_plan(device)[0].action->Run_0.args[9] == "set"@,
        create_table_plan(device)[0].action->Run_0.args[11] == "esp"@,
        create_table_plan(device)[0].action->Run_0.args[13] == "mkpart"@,
        create_table_plan(device)[0].action->Run_0.args[14] == CRYPTROOT_LABEL@,
        create_table_plan(device)[1].action == ActionView::Run(program("partprobe"@, seq![device])),
{
}

/// Writes a GPT table on `device` with a 1 GiB EFI partition and a
/// partition for the encrypted container on the rest; gives the steps and
/// the paths of the two partitions.
pub fn create_table(device: &str) -> (r: (Vec<Step>, String, String))
    ensures
        plan_view(r.0@) == create_table_plan(device@),
        r.1@ == by_partlabel(ESP_LABEL@),
        r.2@ == by_partlabel(CRYPTROOT_LABEL@),
{
    let args = owned(
        &[
            "-s",
            device,
            "mklabel",
            "gpt",
            "mkpart",
            ESP_LABEL,
            "fat32",
            "0",
            "1GiB",
            "set",
            "1",
            "esp",
            "on",
            "mkpart",
            CRYPTROOT_LABEL,
            "1GiB",
            "100%",
        ],
    );
    assert(views(args@) =~= seq![
        "-s"@,
        device@,
        "mklabel"@,
        "gpt"@,
        "mkpart"@,
        ESP_LABEL@,
        "fat32"@,
        "0"@,
        "1GiB"@,
        "set"@,
        "1"@,
        "esp"@,
        "on"@,
        "mkpart"@,
        CRYPTROOT_LABEL@,
        "1GiB"@,
        "100%"@,
    ]);
    let mut steps: Vec<Step> = Vec::new();
    push_step(&mut steps, running(exec("parted", args), "Creating the GPT table".to_string()));
    let probe_args = owned(&[device]);
    assert(views(probe_args@) =~= seq![device@]);
    push_step(
        &mut steps,
        running(
            exec("partprobe", probe_args),
            "Informing the kernel about disk changes".to_string(),
        ),
    );
    assert(plan_view(steps@) =~= create_table_plan(device@));
    let mut esp = "/dev/disk/by-partlabel/".to_string();
    esp.append(ESP_LABEL);
    let mut cryptroot = "/dev/disk/by-partlabel/".to_string();
    cryptroot.append(CRYPTROOT_LABEL);
    (steps, esp, cryptroot)
}

/// The name of the opened encrypted container.
pub const CONTAINER_NAME: &'static str = "root";

/// A step that shows `text` to the user.
pub open spec fn print_step(text: Seq<char>) -> StepView {
    StepView { action: ActionView::Print { text }, check: Check::Ignored, message: Seq::empty() }
}

/// A step that runs `program` with `args` on the user's terminal; only a
/// failure to start it stops the installer.
pub open spec fn interactive_step(
    program: Seq<char>,
    args: Seq<Seq<char>>,
    message: Seq<char>,
) -> StepView {
    run_step(InvocationView { program, args, workdir: None, inherit_stdio: true }, message)
}

/// The steps of [`create_luks`].
pub open spec fn create_luks_plan(cryptroot: Seq<char>) -> Seq<StepView> {
    seq![
        print_step("Enter password to create the encrypted container:"@),
        interactive_step(
            "cryptsetup"@,
            seq!["luksFormat"@, "--type"@, "luks2"@, "--integrity"@, "hmac-sha256"@, cryptroot],
            "Creating the luks2 container for root"@,
        ),
        print_step("Enter password to enter the encrypted container (same as before):"@),
        interactive_step(
            "cryptsetup"@,
            seq!["open"@, cryptroot, CONTAINER_NAME@],
            "Opening the luks2 container for root"@,
        ),
    ]
}

/// Shows `text` to the user.
fn printing(text: &str) -> (s: Step)
    ensures
        s@ == print_step(text@),
{
    Step {
        action: Action::Print { text: text.to_string() },
        check: Check::Ignored,
        message: String::new(),
    }
}

/// The container that is formatted is the one that is opened, under the
/// name whose mapper path the installer formats as btrfs; both commands
/// talk to the user.
pub proof fn law_formatted_container_is_opened(cryptroot: Seq<char>)
    ensures
        create_luks_plan(cryptroot)[1].action->Run_0.program == "cryptsetup"@,
        create_luks_plan(cryptroot)[1].action->Run_0.args[0] == "luksFormat"@,
        create_luks_plan(cryptroot)[1].action->Run_0.args.last() == cryptroot,
        create_luks_plan(cryptroot)[1].action->Run_0.inherit_stdio,
        create_luks_plan(cryptroot)[3].action->Run_0.args == seq!["open"@, cryptroot, CONTAINER_NAME@],
        create_luks_plan(cryptroot)[3].action->Run_0.inherit_stdio,
        part_before_plan(by_partlabel(ESP_LABEL@), "/dev/mapper/"@ + CONTAINER_NAME@)[1].action
            == ActionView::Run(program("mkfs.btrfs"@, seq!["-f"@, "/dev/mapper/"@ + CONTAINER_NAME@])),
{
}

/// Creates a LUKS2 container on `cryptroot` and opens it, asking the user
/// for its password; gives the steps and the path of the opened container.
pub fn create_luks(cryptroot: &str) -> (r: (Vec<Step>, String))
    ensures
        plan_view(r.0@) == create_luks_plan(cryptroot@),
        r.1@ == "/dev/mapper/"@ + CONTAINER_NAME@,
{
    let mut steps: Vec<Step> = Vec::new();
    push_step(&mut steps, printing("Enter password to create the encrypted container:"));
    let format_args = owned(
        &["luksFormat", "--type", "luks2", "--integrity", "hmac-sha256", cryptroot],
    );
    assert(views(format_args@) =~= seq![
        "luksFormat"@,
        "--type"@,
        "luks2"@,
        "--integrity"@,
        "hmac-sha256"@,
        cryptroot@,
    ]);
    push_step(
        &mut steps,
        running(
            execio("cryptsetup", format_args),
            "Creating the luks2 container for root".to_string(),
        ),
    );
    push_step(
        &mut steps,
        printing("Enter password to enter the encrypted container (same as before):"),
    );
    let open_args = owned(&["open", cryptroot, CONTAINER_NAME]);
    assert(views(open_args@) =~= seq!["open"@, cryptroot@, CONTAINER_NAME@]);
    push_step(
        &mut steps,
        running(
            execio("cryptsetup", open_args),
            "Opening the luks2 container for root".to_string(),
        ),
    );
    assert(plan_view(steps@) =~= create_luks_plan(cryptroot@));
    let mut root = "/dev/mapper/".to_string();
    root.append(CONTAINER_NAME);
    (steps, root)
}

/// The line of `btrfs subvolume list` that shows the subvolume `@`.
pub const DEFAULT_SUBVOLUME_PATTERN: &'static str = "^ID .* path @$";

/// The step that lists the btrfs subvolumes under `/mnt`.
pub open spec fn list_subvolumes_step() -> StepView {
    capture_step(
        program("btrfs"@, seq!["subvolume"@, "list"@, "/mnt"@]),
        "Getting the list of btrfs subvolume"@,
    )
}

/// Lists the btrfs subvolumes under `/mnt`; its output goes to
/// [`set_default_btrfs`].
pub fn list_subvolumes() -> (s: Step)
    ensures
        s@ == list_subvolumes_step(),
{
    let args = owned(&["subvolume", "list", "/mnt"]);
    assert(views(args@) =~= seq!["subvolume"@, "list"@, "/mnt"@]);
    capturing(exec("btrfs", args), "Getting the list of btrfs subvolume".to_string())
}

/// The step that makes subvolume `id` the default one.
pub open spec fn set_default_step(id: Seq<char>) -> StepView {
    run_step(
        program("btrfs"@, seq!["subvolume"@, "set-default"@, id, "/"@]),
        "Setting default btrfs subvolume"@,
    )
}

/// The steps for the lines of a subvolume listing: for each line that shows
/// `@`, make its second space-separated field the default subvolume; a
/// matching line without such a field stops the installer there.
pub open spec fn default_subvolume_plan(lines: Seq<Seq<char>>) -> Seq<StepView>
    decreases lines.len(),
{
    if lines.len() == 0 {
        Seq::empty()
    } else if regex_match(DEFAULT_SUBVOLUME_PATTERN@, lines[0]) {
        let fields = split_pieces(lines[0], ' ');
        if fields.len() >= 2 {
            seq![set_default_step(fields[1])] + default_subvolume_plan(lines.drop_first())
        } else {
            seq![abort_step("Fail to get btrfs default subvolum id"@, 1)]
        }
    } else {
        default_subvolume_plan(lines.drop_first())
    }
}

/// The steps for the output `listing` of `btrfs subvolume list`: those of
/// its lines, or, where it is not UTF-8, a stop.
pub open spec fn listing_plan(listing: Seq<u8>) -> Seq<StepView> {
    if vstd::utf8::valid_utf8(listing) {
        default_subvolume_plan(text_lines(vstd::utf8::decode_utf8(listing)))
    } else {
        seq![abort_step("Fail to parse output of the btrfs command"@, 1)]
    }
}

/// Each step that sets the default subvolume takes its id from a listed
/// line that shows `@` (its second space-separated field), and a stop can
/// only be the last step.
pub proof fn law_default_subvolume_from_listed_line(lines: Seq<Seq<char>>, k: int)
    requires
        0 <= k < default_subvolume_plan(lines).len(),
    ensures
        default_subvolume_plan(lines)[k].action is Abort ==> k == default_subvolume_plan(lines).len() - 1,
        !(default_subvolume_plan(lines)[k].action is Abort) ==> exists|i: int|
            0 <= i < lines.len() && regex_match(DEFAULT_SUBVOLUME_PATTERN@, #[trigger] lines[i])
                && split_pieces(lines[i], ' ').len() >= 2 && default_subvolume_plan(lines)[k]
                == set_default_step(split_pieces(lines[i], ' ')[1]),
    decreases lines.len(),
{
    let plan = default_subvolume_plan(lines);
    let rest = lines.drop_first();
    if lines.len() > 0 {
        if regex_match(DEFAULT_SUBVOLUME_PATTERN@, lines[0]) && split_pieces(lines[0], ' ').len()
            >= 2 {
            if k > 0 {
                law_default_subvolume_from_listed_line(rest, k - 1);
                assert(plan[k] == default_subvolume_plan(rest)[k - 1]);
                if !(plan[k].action is Abort) {
                    let i = choose|i: int|
                        0 <= i < rest.len() && regex_match(
                            DEFAULT_SUBVOLUME_PATTERN@,
                            #[trigger] rest[i],
                        ) && split_pieces(rest[i], ' ').len() >= 2
                            && default_subvolume_plan(rest)[k - 1] == set_default_step(
                            split_pieces(rest[i], ' ')[1],
                        );
                    assert(lines[i + 1] == rest[i]);
                }
            }
        } else if !regex_match(DEFAULT_SUBVOLUME_PATTERN@, lines[0]) {
            law_default_subvolume_from_listed_line(rest, k);
            if !(plan[k].action is Abort) {
                let i = choose|i: int|
                    0 <= i < rest.len() && regex_match(DEFAULT_SUBVOLUME_PATTERN@, #[trigger] rest[i])
                        && split_pieces(rest[i], ' ').len() >= 2 && default_subvolume_plan(rest)[k]
                        == set_default_step(split_pieces(rest[i], ' ')[1]);
                assert(lines[i + 1] == rest[i]);
            }
        }
    }
}

/// A step that stops the installer with `message` and `code`.
fn aborting(message: &str, code: i32) -> (s: Step)
    ensures
        s@ == abort_step(message@, code),
{
    Step {
        action: Action::Abort { message: message.to_string(), code },
        check: Check::Ignored,
        message: String::new(),
    }
}

/// The steps for the lines of a subvolume listing, given for each line
/// whether it shows `@` (`matched`): for each such line, make its second
/// space-separated field the default subvolume; such a line without that
/// field stops the installer there.
pub open spec fn default_plan_by_matches(lines: Seq<Seq<char>>, matched: Seq<bool>) -> Seq<
    StepView,
>
    decreases lines.len(),
{
    if lines.len() == 0 {
        Seq::empty()
    } else if matched[0] {
        let fields = split_pieces(lines[0], ' ');
        if fields.len() >= 2 {
            seq![set_default_step(fields[1])] + default_plan_by_matches(
                lines.drop_first(),
                matched.drop_first(),
            )
        } else {
            seq![abort_step("Fail to get btrfs default subvolum id"@, 1)]
        }
    } else {
        default_plan_by_matches(lines.drop_first(), matched.drop_first())
    }
}

/// For each line, whether it shows `@`.
pub open spec fn subvolume_matches(lines: Seq<Seq<char>>) -> Seq<bool> {
    lines.map_values(|l: Seq<char>| regex_match(DEFAULT_SUBVOLUME_PATTERN@, l))
}

/// Planning by the lines and planning by their matches agree.
pub proof fn lemma_default_plan_by_matches(lines: Seq<Seq<char>>)
    ensures
        default_subvolume_plan(lines) == default_plan_by_matches(lines, subvolume_matches(lines)),
    decreases lines.len(),
{
    if lines.len() > 0 {
        lemma_default_plan_by_matches(lines.drop_first());
        assert(subvolume_matches(lines).drop_first() =~= subvolume_matches(lines.drop_first()));
    }
}

/// The steps that make the subvolume `@` the default one, from the lines of
/// a subvolume listing and, for each line, whether it shows `@`.
pub fn default_steps_from_matches(lines: &Vec<String>, matched: &Vec<bool>) -> (r: Vec<Step>)
    requires
        matched@.len() == lines@.len(),
    ensures
        plan_view(r@) == default_plan_by_matches(views(lines@), matched@),
{
    let mut r: Vec<Step> = Vec::new();
    let ghost ls = views(lines@);
    let ghost ms = matched@;
    assert(ls.skip(0) =~= ls);
    assert(ms.skip(0) =~= ms);
    let mut i: usize = 0;
    while i < lines.len()
        invariant
            ls == views(lines@),
            ms == matched@,
            ms.len() == ls.len(),
            i <= lines.len(),
            plan_view(r@) + default_plan_by_matches(ls.skip(i as int), ms.skip(i as int))
                == default_plan_by_matches(ls, ms),
        decreases lines.len() - i,
    {
        let ghost rest = ls.skip(i as int);
        let ghost mrest = ms.skip(i as int);
        assert(rest[0] == lines@[i as int]@);
        assert(mrest[0] == matched@[i as int]);
        assert(rest.drop_first() =~= ls.skip(i + 1));
        assert(mrest.drop_first() =~= ms.skip(i + 1));
        if matched[i] {
            let line = lines[i].as_str();
            let fields = split_on(line, ' ');
            if fields.len() >= 2 {
                let id = fields[1].as_str();
                let args = owned(&["subvolume", "set-default", id, "/"]);
                assert(views(args@) =~= seq!["subvolume"@, "set-default"@, id@, "/"@]);
                let ghost before = plan_view(r@);
                push_step(
                    &mut r,
                    running(exec("btrfs", args), "Setting default btrfs subvolume".to_string()),
                );
                assert(before + default_plan_by_matches(rest, mrest) =~= plan_view(r@)
                    + default_plan_by_matches(ls.skip(i + 1), ms.skip(i + 1)));
            } else {
                let ghost before = plan_view(r@);
                push_step(&mut r, aborting("Fail to get btrfs default subvolum id", 1));
                assert(plan_view(r@) =~= before + default_plan_by_matches(rest, mrest));
                return r;
            }
        }
        i = i + 1;
    }
    assert(default_plan_by_matches(ls.skip(lines.len() as int), ms.skip(lines.len() as int))
        =~= Seq::<StepView>::empty());
    assert(plan_view(r@) =~= default_plan_by_matches(ls, ms));
    r
}

/// The steps that make the subvolume `@` the default one, from the output
/// `listing` of `btrfs subvolume list`.
pub fn default_subvolume_steps(listing: &[u8]) -> (r: Vec<Step>)
    requires
        regex_valid(DEFAULT_SUBVOLUME_PATTERN@),
    ensures
        plan_view(r@) == listing_plan(listing@),
{
    let text = match decode_utf8(listing) {
        Some(text) => text,
        None => {
            let mut r: Vec<Step> = Vec::new();
            push_step(&mut r, aborting("Fail to parse output of the btrfs command", 1));
            return r;
        },
    };
    let all = lines(text.as_str());
    let ghost ls = views(all@);
    let mut matched: Vec<bool> = Vec::new();
    let mut i: usize = 0;
    while i < all.len()
        invariant
            ls == views(all@),
            i <= all.len(),
            regex_valid(DEFAULT_SUBVOLUME_PATTERN@),
            matched@ == subvolume_matches(ls).take(i as int),
        decreases all.len() - i,
    {
        let m = regex_is_match(DEFAULT_SUBVOLUME_PATTERN, all[i].as_str());
        matched.push(m);
        assert(matched@ =~= subvolume_matches(ls).take(i + 1));
        i = i + 1;
    }
    assert(matched@ =~= subvolume_matches(ls));
    proof {
        lemma_default_plan_by_matches(ls);
    }
    default_steps_from_matches(&all, &matched)
}

/// The steps that make the subvolume `@` the default one, from the output
/// `listing` of `btrfs subvolume list`; `None` where the `regex` crate does
/// not accept the pattern of that line (the program stops with a panic
/// there).
pub fn set_default_btrfs(listing: &[u8]) -> (r: Option<Vec<Step>>)
    ensures
        r is Some <==> regex_valid(DEFAULT_SUBVOLUME_PATTERN@),
        r matches Some(steps) ==> plan_view(steps@) == listing_plan(listing@),
{
    if regex_compiles(DEFAULT_SUBVOLUME_PATTERN) {
        Some(default_subvolume_steps(listing))
    } else {
        None
    }
}

/// The btrfs subvolumes of the new system, each with where it is mounted
/// (below `/mnt`).
pub open spec fn subvolumes() -> Seq<(Seq<char>, Seq<char>)> {
    seq![
        ("@"@, "/"@),
        ("@home"@, "/home"@),
        ("@snapshots"@, "/.snapshots"@),
        ("@var_log"@, "/var/log"@),
        ("@var_pkgs"@, "/var/cache/pacman/pkgs"@),
        ("@swap"@, "/swap"@),
    ]
}

/// The steps that create the subvolumes of `table` in the btrfs file
/// system mounted at `/mnt`.
pub open spec fn subvolume_creations(table: Seq<(Seq<char>, Seq<char>)>) -> Seq<StepView>
    decreases table.len(),
{
    if table.len() == 0 {
        Seq::empty()
    } else {
        subvolume_creations(table.drop_last()) + seq![
            create_btrfs_su_step("/mnt/"@ + table.last().0),
        ]
    }
}

/// The steps that create the mount point of each subvolume of `table` and
/// mount it there, from the btrfs file system on `btrfs`.
pub open spec fn subvolume_mounts(table: Seq<(Seq<char>, Seq<char>)>, btrfs: Seq<char>) -> Seq<
    StepView,
>
    decreases table.len(),
{
    if table.len() == 0 {
        Seq::empty()
    } else {
        let mounted = "/mnt"@ + table.last().1;
        subvolume_mounts(table.drop_last(), btrfs) + seq![
            create_dir_step(mounted, "create "@ + mounted),
            mount_btrfs_su_step(table.last().0, btrfs, mounted),
        ]
    }
}

/// The steps of [`part`] before the default subvolume is chosen: format
/// `esp` and `btrfs`, create the subvolumes, and mount them under `/mnt`.
pub open spec fn part_before_plan(esp: Seq<char>, btrfs: Seq<char>) -> Seq<StepView> {
    seq![
        run_step(program("mkfs.vfat"@, seq!["-F32"@, esp]), "format "@ + esp + " as fat32"@),
        run_step(program("mkfs.btrfs"@, seq!["-f"@, btrfs]), "format "@ + btrfs + " as btrfs"@),
        mount_step(btrfs, "/mnt"@, None),
    ] + subvolume_creations(subvolumes()) + seq![
        umount_step("/mnt"@),
        mount_btrfs_su_step("@"@, btrfs, "/mnt"@),
    ] + subvolume_mounts(subvolumes().drop_first(), btrfs)
}

/// Where the subvolume at `k` of [`subvolumes`] is mounted: `/mnt` for the
/// root subvolume, `/mnt` followed by its path for the others.
pub open spec fn subvolume_mount_point(k: int) -> Seq<char> {
    if k == 0 {
        "/mnt"@
    } else {
        "/mnt"@ + subvolumes()[k].1
    }
}

proof fn lemma_subvolume_creations(table: Seq<(Seq<char>, Seq<char>)>)
    ensures
        subvolume_creations(table).len() == table.len(),
        forall|k: int|
            0 <= k < table.len() ==> #[trigger] subvolume_creations(table)[k]
                == create_btrfs_su_step("/mnt/"@ + table[k].0),
    decreases table.len(),
{
    if table.len() > 0 {
        lemma_subvolume_creations(table.drop_last());
    }
}

proof fn lemma_subvolume_mounts(table: Seq<(Seq<char>, Seq<char>)>, btrfs: Seq<char>)
    ensures
        subvolume_mounts(table, btrfs).len() == 2 * table.len(),
        forall|k: int|
            0 <= k < table.len() ==> #[trigger] subvolume_mounts(table, btrfs)[2 * k + 1]
                == mount_btrfs_su_step(table[k].0, btrfs, "/mnt"@ + table[k].1),
    decreases table.len(),
{
    if table.len() > 0 {
        lemma_subvolume_mounts(table.drop_last(), btrfs);
        let prev = subvolume_mounts(table.drop_last(), btrfs);
        assert forall|k: int| 0 <= k < table.len() implies #[trigger] subvolume_mounts(
            table,
            btrfs,
        )[2 * k + 1] == mount_btrfs_su_step(table[k].0, btrfs, "/mnt"@ + table[k].1) by {
            if k < table.len() - 1 {
                assert(subvolume_mounts(table, btrfs)[2 * k + 1] == prev[2 * k + 1]);
                assert(table.drop_last()[k] == table[k]);
            }
        }
    }
}

/// Every subvolume is created (with the btrfs file system mounted at
/// `/mnt`) before it is mounted at its mount point.
pub proof fn law_subvolumes_created_before_mounted(esp: Seq<char>, btrfs: Seq<char>, k: int)
    requires
        0 <= k < subvolumes().len(),
    ensures
        exists|i: int, j: int|
            0 <= i < j < part_before_plan(esp, btrfs).len() && #[trigger] part_before_plan(
                esp,
                btrfs,
            )[i] == create_btrfs_su_step("/mnt/"@ + subvolumes()[k].0) && #[trigger] part_before_plan(
                esp,
                btrfs,
            )[j] == mount_btrfs_su_step(subvolumes()[k].0, btrfs, subvolume_mount_point(k)),
{
    let plan = part_before_plan(esp, btrfs);
    let rest = subvolumes().drop_first();
    lemma_subvolume_creations(subvolumes());
    lemma_subvolume_mounts(rest, btrfs);
    assert(plan[3 + k] == subvolume_creations(subvolumes())[k]);
    if k == 0 {
        assert(plan[10] == mount_btrfs_su_step("@"@, btrfs, "/mnt"@));
        assert(plan[3 + k] == create_btrfs_su_step("/mnt/"@ + subvolumes()[k].0));
    } else {
        let m = k - 1;
        assert(rest[m] == subvolumes()[k]);
        assert(plan[11 + 2 * m + 1] == subvolume_mounts(rest, btrfs)[2 * m + 1]);
        assert(plan[3 + k] == create_btrfs_su_step("/mnt/"@ + subvolumes()[k].0));
        assert(plan[11 + 2 * m + 1] == mount_btrfs_su_step(
            subvolumes()[k].0,
            btrfs,
            subvolume_mount_point(k),
        ));
    }
}

/// The FAT32 format targets the partition that is later mounted at
/// `/mnt/efi`, and the btrfs format targets the device that is mounted at
/// `/mnt` and whose subvolumes are mounted: the first step formats `esp`
/// with `mkfs.vfat -F32`, the second formats `btrfs` with `mkfs.btrfs -f`,
/// the third mounts `btrfs` at `/mnt`, and the last step after the choice
/// of the default subvolume mounts `esp` at `/mnt/efi`.
pub proof fn law_formats_target_their_mounts(esp: Seq<char>, btrfs: Seq<char>)
    ensures
        part_before_plan(esp, btrfs)[0].action == ActionView::Run(
            program("mkfs.vfat"@, seq!["-F32"@, esp]),
        ),
        part_before_plan(esp, btrfs)[1].action == ActionView::Run(
            program("mkfs.btrfs"@, seq!["-f"@, btrfs]),
        ),
        part_before_plan(esp, btrfs)[2].action == ActionView::Run(
            program("mount"@, seq![btrfs, "/mnt"@]),
        ),
        part_after_plan(esp).last().action == ActionView::Run(
            program("mount"@, seq![esp, "/mnt/efi"@]),
        ),
        part_before_plan(esp, btrfs)[0].action->Run_0.args[1] == part_after_plan(esp).last().action->Run_0.args[0],
        part_before_plan(esp, btrfs)[1].action->Run_0.args[1] == part_before_plan(esp, btrfs)[2].action->Run_0.args[0],
{
}

/// The swap file of the new system.
pub const SWAPFILE: &'static str = "/mnt/swap/swapfile";

/// The steps of [`part`] after the default subvolume is chosen: the swap
/// file, the boot and EFI mount points, and `esp` mounted at `/mnt/efi`.
pub open spec fn part_after_plan(esp: Seq<char>) -> Seq<StepView> {
    seq![
        run_step(
            program("btrfs"@, seq!["filesystem"@, "mkswapfile"@, "--size"@, "8G"@, SWAPFILE@]),
            "Creating the swap file "@ + SWAPFILE@,
        ),
        run_step(program("swapon"@, seq![SWAPFILE@]), "swapon "@ + SWAPFILE@),
        create_dir_step("/mnt/boot"@, "create /mnt/boot"@),
        create_dir_step("/mnt/efi"@, "create /mnt/efi"@),
        mount_step(esp, "/mnt/efi"@, None),
    ]
}

/// The first steps of [`part`]: format the two partitions.
fn format_steps(esp: &str, btrfs: &str) -> (r: Vec<Step>)
    ensures
        plan_view(r@) == part_before_plan(esp@, btrfs@).take(2),
{
    let mut r: Vec<Step> = Vec::new();
    let vfat_args = owned(&["-F32", esp]);
    assert(views(vfat_args@) =~= seq!["-F32"@, esp@]);
    let mut vfat_message = "format ".to_string();
    vfat_message.append(esp);
    vfat_message.append(" as fat32");
    push_step(&mut r, running(exec("mkfs.vfat", vfat_args), vfat_message));
    let btrfs_args = owned(&["-f", btrfs]);
    assert(views(btrfs_args@) =~= seq!["-f"@, btrfs@]);
    let mut btrfs_message = "format ".to_string();
    btrfs_message.append(btrfs);
    btrfs_message.append(" as btrfs");
    push_step(&mut r, running(exec("mkfs.btrfs", btrfs_args), btrfs_message));
    assert(plan_view(r@) =~= part_before_plan(esp@, btrfs@).take(2));
    r
}

/// The labels and mount paths of the subvolumes.
fn subvolume_names() -> (r: (Vec<String>, Vec<String>))
    ensures
        r.0@.len() == subvolumes().len(),
        r.1@.len() == subvolumes().len(),
        forall|i: int|
            0 <= i < subvolumes().len() ==> #[trigger] r.0@[i]@ == subvolumes()[i].0
                && r.1@[i]@ == subvolumes()[i].1,
{
    let labels = owned(&["@", "@home", "@snapshots", "@var_log", "@var_pkgs", "@swap"]);
    let paths = owned(&["/", "/home", "/.snapshots", "/var/log", "/var/cache/pacman/pkgs", "/swap"]);
    assert(views(labels@) =~= seq!["@"@, "@home"@, "@snapshots"@, "@var_log"@, "@var_pkgs"@, "@swap"@]);
    assert(views(paths@) =~= seq![
        "/"@,
        "/home"@,
        "/.snapshots"@,
        "/var/log"@,
        "/var/cache/pacman/pkgs"@,
        "/swap"@,
    ]);
    proof {
        assert forall|i: int| 0 <= i < subvolumes().len() implies #[trigger] labels@[i]@
            == subvolumes()[i].0 && paths@[i]@ == subvolumes()[i].1 by {
            assert(views(labels@)[i] == labels@[i]@);
            assert(views(paths@)[i] == paths@[i]@);
        }
    }
    (labels, paths)
}

/// The steps of [`part`] before and after the default subvolume is chosen.
fn part_around_listing(esp: &str, btrfs: &str) -> (r: (Vec<Step>, Vec<Step>))
    ensures
        plan_view(r.0@) == part_before_plan(esp@, btrfs@),
        plan_view(r.1@) == part_after_plan(esp@),
{
    let ghost whole = part_before_plan(esp@, btrfs@);
    let mut r = format_steps(esp, btrfs);
    push_step(&mut r, mount(btrfs, "/mnt", None));
    let ghost head = plan_view(r@);
    assert(head =~= seq![whole[0], whole[1], mount_step(btrfs@, "/mnt"@, None)]);
    let (labels, paths) = subvolume_names();
    let mut i: usize = 0;
    assert(subvolumes().take(0) =~= Seq::<(Seq<char>, Seq<char>)>::empty());
    while i < labels.len()
        invariant
            i <= labels@.len(),
            labels@.len() == subvolumes().len(),
            forall|k: int|
                0 <= k < subvolumes().len() ==> #[trigger] labels@[k]@ == subvolumes()[k].0,
            plan_view(r@) == head + subvolume_creations(subvolumes().take(i as int)),
        decreases labels@.len() - i,
    {
        let mut mountpoint = "/mnt/".to_string();
        mountpoint.append(labels[i].as_str());
        push_step(&mut r, create_btrfs_su(mountpoint.as_str()));
        proof {
            let t = subvolumes().take(i + 1);
            assert(t.drop_last() =~= subvolumes().take(i as int));
            assert(t.last() == subvolumes()[i as int]);
            assert(labels@[i as int]@ == subvolumes()[i as int].0);
        }
        i = i + 1;
    }
    assert(subvolumes().take(6) =~= subvolumes());
    push_step(&mut r, umount("/mnt"));
    push_step(&mut r, mount_btrfs_su("@", btrfs, "/mnt"));
    let ghost middle = plan_view(r@);
    assert(middle =~= seq![
        whole[0],
        whole[1],
        mount_step(btrfs@, "/mnt"@, None),
    ] + subvolume_creations(subvolumes()) + seq![
        umount_step("/mnt"@),
        mount_btrfs_su_step("@"@, btrfs@, "/mnt"@),
    ]);
    let mut j: usize = 1;
    assert(subvolumes().subrange(1, 1) =~= Seq::<(Seq<char>, Seq<char>)>::empty());
    while j < labels.len()
        invariant
            1 <= j <= labels@.len(),
            labels@.len() == subvolumes().len(),
            paths@.len() == subvolumes().len(),
            forall|k: int|
                0 <= k < subvolumes().len() ==> #[trigger] labels@[k]@ == subvolumes()[k].0
                    && paths@[k]@ == subvolumes()[k].1,
            plan_view(r@) == middle + subvolume_mounts(subvolumes().subrange(1, j as int), btrfs@),
        decreases labels@.len() - j,
    {
        let mut mounted = "/mnt".to_string();
        mounted.append(paths[j].as_str());
        let mut message = "create ".to_string();
        message.append(mounted.as_str());
        let ghost at = mounted@;
        let dir_step = creating_dir(mounted.clone(), message);
        push_step(&mut r, dir_step);
        push_step(&mut r, mount_btrfs_su(labels[j].as_str(), btrfs, mounted.as_str()));
        proof {
            let t = subvolumes().subrange(1, j + 1);
            assert(t.drop_last() =~= subvolumes().subrange(1, j as int));
            assert(t.last() == subvolumes()[j as int]);
            assert(labels@[j as int]@ == subvolumes()[j as int].0);
            assert(paths@[j as int]@ == subvolumes()[j as int].1);
        }
        j = j + 1;
    }
    assert(subvolumes().subrange(1, 6) =~= subvolumes().drop_first());
    assert(plan_view(r@) =~= whole);
    let mut after: Vec<Step> = Vec::new();
    let swap_args = owned(&["filesystem", "mkswapfile", "--size", "8G", SWAPFILE]);
    assert(views(swap_args@) =~= seq!["filesystem"@, "mkswapfile"@, "--size"@, "8G"@, SWAPFILE@]);
    let mut swap_message = "Creating the swap file ".to_string();
    swap_message.append(SWAPFILE);
    push_step(&mut after, running(exec("btrfs", swap_args), swap_message));
    let swapon_args = owned(&[SWAPFILE]);
    assert(views(swapon_args@) =~= seq![SWAPFILE@]);
    let mut swapon_message = "swapon ".to_string();
    swapon_message.append(SWAPFILE);
    push_step(&mut after, running(exec("swapon", swapon_args), swapon_message));
    push_step(&mut after, creating_dir("/mnt/boot".to_string(), "create /mnt/boot".to_string()));
    push_step(&mut after, creating_dir("/mnt/efi".to_string(), "create /mnt/efi".to_string()));
    push_step(&mut after, mount(esp, "/mnt/efi", None));
    assert(plan_view(after@) =~= part_after_plan(esp@));
    (r, after)
}

/// The steps of [`part`] up to and including the listing of the
/// subvolumes, whose output decides the default subvolume.
pub open spec fn part_prefix(esp: Seq<char>, btrfs: Seq<char>) -> Seq<StepView> {
    part_before_plan(esp, btrfs).push(list_subvolumes_step())
}

/// Formats `esp` as FAT32 and `btrfs` as btrfs, creates the subvolumes and
/// mounts them under `/mnt`, lists the subvolumes and makes `@` the default
/// one, creates and enables the swap file, and mounts `esp` at `/mnt/efi`.
/// Without `listing` (the output of the listing, not there yet) the result
/// is the steps up to and including the listing; with it, the whole
/// sequence, which begins with those steps.  With `listing` the result is
/// `None` where the `regex` crate does not accept the pattern of the line
/// that shows `@` (the program stops with a panic there).
pub fn part(esp: &str, btrfs: &str, listing: Option<&[u8]>) -> (r: Option<Vec<Step>>)
    ensures
        listing is None ==> (r matches Some(steps) && plan_view(steps@) == part_prefix(
            esp@,
            btrfs@,
        )),
        listing is Some ==> (r is Some <==> regex_valid(DEFAULT_SUBVOLUME_PATTERN@)),
        listing matches Some(l) ==> (r matches Some(steps) ==> plan_view(steps@) == part_prefix(
            esp@,
            btrfs@,
        ) + listing_plan(l@) + part_after_plan(esp@)),
{
    let (mut steps, after) = part_around_listing(esp, btrfs);
    push_step(&mut steps, list_subvolumes());
    let l = match listing {
        None => {
            return Some(steps);
        },
        Some(l) => l,
    };
    match set_default_btrfs(l) {
        None => None,
        Some(defaults) => {
            append_steps(&mut steps, defaults);
            append_steps(&mut steps, after);
            Some(steps)
        },
    }
}

/// The step that stops the installer unless `device` exists.
pub open spec fn device_check_step(device: Seq<char>) -> StepView {
    StepView {
        action: ActionView::PathExists { path: device },
        check: Check::Present,
        message: "The device "@ + debug_quoted(device) + " doesn't exist"@,
    }
}

/// The step that logs, at debug level, that `device` is partitioned.
pub open spec fn partitioning_note_step(device: Seq<char>) -> StepView {
    StepView {
        action: ActionView::LogDebug { text: "automatically partitioning "@ + debug_quoted(device) },
        check: Check::Ignored,
        message: Seq::empty(),
    }
}

/// The steps of [`partition`] up to the listing of the subvolumes.
pub open spec fn partition_before_plan(device: Seq<char>) -> Seq<StepView> {
    seq![device_check_step(device), partitioning_note_step(device)] + create_table_plan(device) + create_luks_plan(
        by_partlabel(CRYPTROOT_LABEL@),
    ) + part_before_plan(by_partlabel(ESP_LABEL@), "/dev/mapper/"@ + CONTAINER_NAME@)
}

/// The steps of [`partition`] up to and including the listing of the
/// subvolumes, whose output decides the default subvolume.
pub open spec fn partition_prefix(device: Seq<char>) -> Seq<StepView> {
    partition_before_plan(device).push(list_subvolumes_step())
}

/// Partitions `device` (which must exist), encrypts its second partition,
/// and lays out and mounts the file systems of the new system under `/mnt`
/// (see [`part`]).  Without `listing` (the output of the subvolume
/// listing, not there yet) the result is the steps up to and including the
/// listing; with it, the whole sequence, which begins with those steps.
/// With `listing` the result is `None` where the `regex` crate does not
/// accept the pattern of the line that shows `@` (the program stops with a
/// panic there).
pub fn partition(device: &str, listing: Option<&[u8]>) -> (r: Option<Vec<Step>>)
    ensures
        listing is None ==> (r matches Some(steps) && plan_view(steps@) == partition_prefix(
            device@,
        )),
        listing is Some ==> (r is Some <==> regex_valid(DEFAULT_SUBVOLUME_PATTERN@)),
        listing matches Some(l) ==> (r matches Some(steps) ==> plan_view(steps@)
            == partition_prefix(device@) + listing_plan(l@) + part_after_plan(
            by_partlabel(ESP_LABEL@),
        )),
{
    let mut message = "The device ".to_string();
    let quoted = debug_quote(device);
    message.append(quoted.as_str());
    message.append(" doesn't exist");
    let mut steps: Vec<Step> = Vec::new();
    push_step(
        &mut steps,
        Step {
            action: Action::PathExists { path: device.to_string() },
            check: Check::Present,
            message,
        },
    );
    let mut note = "automatically partitioning ".to_string();
    note.append(quoted.as_str());
    push_step(
        &mut steps,
        Step { action: Action::LogDebug { text: note }, check: Check::Ignored, message: String::new() },
    );
    let (table, esp, cryptroot) = create_table(device);
    append_steps(&mut steps, table);
    let (luks, root) = create_luks(cryptroot.as_str());
    append_steps(&mut steps, luks);
    let ghost head = plan_view(steps@);
    match part(esp.as_str(), root.as_str(), listing) {
        None => None,
        Some(rest) => {
            let ghost tail = plan_view(rest@);
            append_steps(&mut steps, rest);
            proof {
                let before = seq![device_check_step(device@), partitioning_note_step(device@)]
                    + create_table_plan(device@)
                    + create_luks_plan(by_partlabel(CRYPTROOT_LABEL@));
                assert(head =~= before);
                if listing is None {
                    assert(plan_view(steps@) =~= partition_prefix(device@));
                } else {
                    let l = listing->Some_0;
                    assert(plan_view(steps@) =~= partition_prefix(device@) + listing_plan(l@)
                        + part_after_plan(by_partlabel(ESP_LABEL@)));
                }
            }
            Some(steps)
        },
    }
}

} // verus!
