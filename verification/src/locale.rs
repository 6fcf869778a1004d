//! Locale, keyboard layout and time zone of the new system.
use vstd::prelude::*;
use crate::exec::{chroot_program, exec_chroot};
use crate::plan::{
    file_of, in_new_system,
    append_step, appending, capture_step, capturing, create_file_step, creating_file, owned,
    plan_view, push_step, run_step, running, views, Action, ActionView, Check, Step, StepView,
};
use crate::text::{lemma_split_at_separator, lemma_split_without_separator, split_on, split_pieces};

verus! {

/// The time zone of the new system.
pub const TIMEZONE: &'static str = "Europe/Paris";

/// The locale of the new system: locale names, each followed by its
/// character set, separated by spaces.
pub const LOCALE: &'static str = "en_US.UTF-8 UTF-8";

/// The locale that `/etc/locale.conf` is first written with.
pub const DEFAULT_LOCALE: &'static str = "en_US.UTF-8";

/// The steps of [`set_timezone`].
pub open spec fn set_timezone_plan() -> Seq<StepView> {
    seq![
        run_step(
            chroot_program(
                "ln"@,
                seq!["-sf"@, "/usr/share/zoneinfo/"@ + TIMEZONE@, "/etc/localtime"@],
            ),
            "Set timezone"@,
        ),
        capture_step(chroot_program("hwclock"@, seq!["--systohc"@]), "Set system clock"@),
    ]
}

/// Inside the new system, `/etc/localtime` is linked to the zone file of
/// the installer's time zone, and then the hardware clock is set from the
/// system clock; the clock step must succeed.
pub proof fn law_localtime_links_zone_file()
    ensures
        set_timezone_plan()[0].action == ActionView::Run(
            chroot_program(
                "ln"@,
                seq!["-sf"@, "/usr/share/zoneinfo/"@ + TIMEZONE@, "/etc/localtime"@],
            ),
        ),
        set_timezone_plan()[1].action == ActionView::Capture(
            chroot_program("hwclock"@, seq!["--systohc"@]),
        ),
        set_timezone_plan()[1].check == Check::Succeeded,
{
}

/// Links the new system's local time to its time zone and sets the
/// hardware clock.
pub fn set_timezone() -> (r: Vec<Step>)
    ensures
        plan_view(r@) == set_timezone_plan(),
{
    let mut zone = "/usr/share/zoneinfo/".to_string();
    zone.append(TIMEZONE);
    let mut link_args = owned(&["-sf"]);
    assert(views(link_args@) =~= seq!["-sf"@]);
    let ghost one = link_args@;
    link_args.push(zone);
    assert(views(link_args@) =~= views(one).push(zone@));
    let tail = "/etc/localtime".to_string();
    let ghost two = link_args@;
    link_args.push(tail);
    assert(views(link_args@) =~= views(two).push(tail@));
    assert(views(link_args@) =~= seq!["-sf"@, "/usr/share/zoneinfo/"@ + TIMEZONE@, "/etc/localtime"@]);
    let clock_args = owned(&["--systohc"]);
    assert(views(clock_args@) =~= seq!["--systohc"@]);
    let mut r: Vec<Step> = Vec::new();
    push_step(&mut r, running(exec_chroot("ln", &link_args), "Set timezone".to_string()));
    push_step(&mut r, capturing(exec_chroot("hwclock", &clock_args), "Set system clock".to_string()));
    assert(plan_view(r@) =~= set_timezone_plan());
    r
}

/// The steps for one locale `name` with character set `charset`: its line
/// in `/etc/locale.gen`, and, for a locale other than the default, its name
/// in place of the default one in `/etc/locale.conf`.
pub open spec fn locale_pair_steps(name: Seq<char>, charset: Seq<char>) -> Seq<StepView> {
    let entry = append_step(
        "/mnt/etc/locale.gen"@,
        name + " "@ + charset + "\n"@,
        "add locales to locale.gen"@,
    );
    if name == DEFAULT_LOCALE@ {
        seq![entry]
    } else {
        seq![
            entry,
            StepView {
                action: ActionView::ReplaceInFile {
                    path: "/mnt/etc/locale.conf"@,
                    find: DEFAULT_LOCALE@,
                    replace: name,
                },
                check: Check::Performed,
                message: "Set locale "@ + name + " in /etc/locale.conf"@,
            },
        ]
    }
}

/// The steps for the locale words `words`, taken two by two (name, then
/// character set).
pub open spec fn locale_entries(words: Seq<Seq<char>>) -> Seq<StepView>
    decreases words.len(),
{
    if words.len() < 2 {
        Seq::empty()
    } else {
        locale_entries(words.subrange(0, words.len() - 2)) + locale_pair_steps(
            words[words.len() - 2],
            words[words.len() - 1],
        )
    }
}

/// `/etc/locale.conf` is only ever rewritten to a locale other than the
/// default one, and only in place of the default one.
pub proof fn law_locale_conf_rewritten_only_for_other_locales(words: Seq<Seq<char>>, k: int)
    requires
        0 <= k < locale_entries(words).len(),
        locale_entries(words)[k].action is ReplaceInFile,
    ensures
        locale_entries(words)[k].action->ReplaceInFile_path == "/mnt/etc/locale.conf"@,
        locale_entries(words)[k].action->ReplaceInFile_find == DEFAULT_LOCALE@,
        locale_entries(words)[k].action->ReplaceInFile_replace != DEFAULT_LOCALE@,
    decreases words.len(),
{
    if words.len() >= 2 {
        let prefix = words.subrange(0, words.len() - 2);
        let head = locale_entries(prefix);
        if k < head.len() {
            law_locale_conf_rewritten_only_for_other_locales(prefix, k);
        }
    }
}

/// The steps that register every locale of `locale` (space-separated
/// pairs of a locale name and its character set).  A `locale` with an odd
/// number of words is left out: a locale name without its character set
/// stops the program with a panic.
pub fn locale_steps(locale: &str) -> (r: Vec<Step>)
    requires
        split_pieces(locale@, ' ').len() % 2 == 0,
    ensures
        plan_view(r@) == locale_entries(split_pieces(locale@, ' ')),
{
    let words = split_on(locale, ' ');
    let ghost w = views(words@);
    let default_name = DEFAULT_LOCALE.to_string();
    let mut r: Vec<Step> = Vec::new();
    let mut i: usize = 0;
    assert(w.subrange(0, 0) =~= Seq::<Seq<char>>::empty());
    while i < words.len()
        invariant
            w == views(words@),
            w == split_pieces(locale@, ' '),
            w.len() % 2 == 0,
            i % 2 == 0,
            i <= words.len(),
            default_name@ == DEFAULT_LOCALE@,
            plan_view(r@) == locale_entries(w.subrange(0, i as int)),
        decreases words.len() - i,
    {
        let name = &words[i];
        let charset = &words[i + 1];
        let mut line = name.clone();
        line.append(" ");
        line.append(charset.as_str());
        line.append("\n");
        push_step(
            &mut r,
            appending("/mnt/etc/locale.gen", line, "add locales to locale.gen".to_string()),
        );
        if *name != default_name {
            let mut message = "Set locale ".to_string();
            message.append(name.as_str());
            message.append(" in /etc/locale.conf");
            push_step(
                &mut r,
                Step {
                    action: Action::ReplaceInFile {
                        path: "/mnt/etc/locale.conf".to_string(),
                        find: DEFAULT_LOCALE.to_string(),
                        replace: name.clone(),
                    },
                    check: Check::Performed,
                    message,
                },
            );
        }
        proof {
            let next = w.subrange(0, i + 2);
            assert(next.subrange(0, next.len() - 2) =~= w.subrange(0, i as int));
            assert(next[next.len() - 2] == w[i as int]);
            assert(next[next.len() - 1] == w[i + 1]);
            assert(plan_view(r@) =~= locale_entries(next));
        }
        i = i + 2;
    }
    assert(w.subrange(0, w.len() as int) =~= w);
    r
}

/// The words of [`LOCALE`].
pub proof fn lemma_locale_words()
    ensures
        split_pieces(LOCALE@, ' ') == seq![DEFAULT_LOCALE@, "UTF-8"@],
{
    reveal_strlit("en_US.UTF-8 UTF-8");
    reveal_strlit("en_US.UTF-8");
    reveal_strlit("UTF-8");
    assert(LOCALE@ =~= DEFAULT_LOCALE@ + seq![' '] + "UTF-8"@);
    assert(!DEFAULT_LOCALE@.contains(' '));
    assert(!"UTF-8"@.contains(' '));
    lemma_split_at_separator(DEFAULT_LOCALE@, "UTF-8"@, ' ');
    lemma_split_without_separator(DEFAULT_LOCALE@, ' ');
    lemma_split_without_separator("UTF-8"@, ' ');
}

/// The steps of [`set_locale`].
pub open spec fn set_locale_plan() -> Seq<StepView> {
    seq![
        append_step("/mnt/etc/locale.gen"@, LOCALE@, "add en_US.UTF-8 UTF-8 to locale.gen"@),
        create_file_step("/mnt/etc/locale.conf"@),
        append_step("/mnt/etc/locale.conf"@, "LANG=en_US.UTF-8"@, "edit locale.conf"@),
        append_step(
            "/mnt/etc/locale.gen"@,
            DEFAULT_LOCALE@ + " "@ + "UTF-8"@ + "\n"@,
            "add locales to locale.gen"@,
        ),
        capture_step(chroot_program("locale-gen"@, Seq::empty()), "generate locales"@),
    ]
}

/// Every file step of [`set_locale`] acts on the new system under `/mnt`,
/// and the `LANG` line goes into the file that the step before it created.
pub proof fn law_locale_files_in_new_system()
    ensures
        forall|k: int|
            0 <= k < set_locale_plan().len() && (#[trigger] file_of(set_locale_plan()[k].action)) is Some
                ==> in_new_system(file_of(set_locale_plan()[k].action)->Some_0),
        set_locale_plan()[1].action is CreateFile,
        set_locale_plan()[2].action is AppendFile,
        set_locale_plan()[2].action->AppendFile_path == set_locale_plan()[1].action->CreateFile_path,
        set_locale_plan()[2].action->AppendFile_text == "LANG=en_US.UTF-8"@,
{
    reveal_strlit("/mnt/");
    reveal_strlit("/mnt/etc/locale.gen");
    reveal_strlit("/mnt/etc/locale.conf");
    assert("/mnt/etc/locale.gen"@.subrange(0, 5) =~= "/mnt/"@);
    assert("/mnt/etc/locale.conf"@.subrange(0, 5) =~= "/mnt/"@);
}

/// Registers the locale of the new system in `/etc/locale.gen` and
/// `/etc/locale.conf`, and generates it.
pub fn set_locale() -> (r: Vec<Step>)
    ensures
        plan_view(r@) == set_locale_plan(),
{
    let mut r: Vec<Step> = Vec::new();
    push_step(
        &mut r,
        appending(
            "/mnt/etc/locale.gen",
            LOCALE.to_string(),
            "add en_US.UTF-8 UTF-8 to locale.gen".to_string(),
        ),
    );
    push_step(&mut r, creating_file("/mnt/etc/locale.conf"));
    push_step(
        &mut r,
        appending(
            "/mnt/etc/locale.conf",
            "LANG=en_US.UTF-8".to_string(),
            "edit locale.conf".to_string(),
        ),
    );
    proof {
        lemma_locale_words();
        let words = seq![DEFAULT_LOCALE@, "UTF-8"@];
        assert(words.subrange(0, 0) =~= Seq::<Seq<char>>::empty());
        assert(locale_entries(Seq::<Seq<char>>::empty()) =~= Seq::<StepView>::empty());
        assert(locale_entries(words) =~= locale_pair_steps(DEFAULT_LOCALE@, "UTF-8"@));
    }
    let ghost before = plan_view(r@);
    let mut entries = locale_steps(LOCALE);
    let ghost added = plan_view(entries@);
    r.append(&mut entries);
    assert(plan_view(r@) =~= before + added);
    let no_args: Vec<String> = Vec::new();
    assert(views(no_args@) =~= Seq::<Seq<char>>::empty());
    push_step(&mut r, capturing(exec_chroot("locale-gen", &no_args), "generate locales".to_string()));
    assert(plan_view(r@) =~= set_locale_plan());
    r
}

/// The steps of [`set_keyboard`].
pub open spec fn set_keyboard_plan() -> Seq<StepView> {
    seq![
        create_file_step("/mnt/etc/vconsole.conf"@),
        append_step("/mnt/etc/vconsole.conf"@, "KEYMAP=us"@, "set keyboard layout to us"@),
    ]
}

/// The keyboard step writes `KEYMAP=` followed by the layout its message
/// names, into the file that the step before it created in the new system.
pub proof fn law_keymap_matches_message()
    ensures
        set_keyboard_plan()[0].action is CreateFile,
        set_keyboard_plan()[1].action is AppendFile,
        set_keyboard_plan()[1].action->AppendFile_path == set_keyboard_plan()[0].action->CreateFile_path,
        in_new_system(set_keyboard_plan()[1].action->AppendFile_path),
        exists|layout: Seq<char>|
            set_keyboard_plan()[1].action->AppendFile_text == "KEYMAP="@ + layout
                && set_keyboard_plan()[1].message == "set keyboard layout to "@ + layout,
{
    reveal_strlit("/mnt/");
    reveal_strlit("/mnt/etc/vconsole.conf");
    reveal_strlit("KEYMAP=us");
    reveal_strlit("KEYMAP=");
    reveal_strlit("set keyboard layout to us");
    reveal_strlit("set keyboard layout to ");
    reveal_strlit("us");
    assert("/mnt/etc/vconsole.conf"@.subrange(0, 5) =~= "/mnt/"@);
    assert("KEYMAP=us"@ =~= "KEYMAP="@ + "us"@);
    assert("set keyboard layout to us"@ =~= "set keyboard layout to "@ + "us"@);
}

/// Sets the console keyboard layout of the new system.
pub fn set_keyboard() -> (r: Vec<Step>)
    ensures
        plan_view(r@) == set_keyboard_plan(),
{
    let mut r: Vec<Step> = Vec::new();
    push_step(&mut r, creating_file("/mnt/etc/vconsole.conf"));
    push_step(
        &mut r,
        appending(
            "/mnt/etc/vconsole.conf",
            "KEYMAP=us".to_string(),
            "set keyboard layout to us".to_string(),
        ),
    );
    assert(plan_view(r@) =~= set_keyboard_plan());
    r
}

} // verus!
