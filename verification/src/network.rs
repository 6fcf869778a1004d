//! Host name and host table of the new system.
use vstd::prelude::*;
use crate::exec::{chroot_program, exec_chroot};
use crate::plan::{
    in_new_system,
    append_step, appending, ActionView, create_file_step, creating_file, owned, plan_view, push_step,
    run_step, running, views, Step, StepView,
};

verus! {

/// The host name of the new system.
pub const HOSTNAME: &'static str = "laptop";

/// The steps of [`set_hostname`].
pub open spec fn set_hostname_plan() -> Seq<StepView> {
    seq![
        run_step(
            chroot_program("hostnamectl"@, seq!["set-hostname"@, HOSTNAME@]),
            "Setting hostname"@,
        ),
    ]
}

/// The host name set inside the new system is the installer's host name.
pub proof fn law_hostname_set_in_new_system()
    ensures
        set_hostname_plan().len() == 1,
        set_hostname_plan()[0].action == ActionView::Run(
            chroot_program("hostnamectl"@, seq!["set-hostname"@, HOSTNAME@]),
        ),
{
}

/// Sets the host name of the new system.
pub fn set_hostname() -> (r: Vec<Step>)
    ensures
        plan_view(r@) == set_hostname_plan(),
{
    let args = owned(&["set-hostname", HOSTNAME]);
    assert(views(args@) =~= seq!["set-hostname"@, HOSTNAME@]);
    let mut r: Vec<Step> = Vec::new();
    push_step(&mut r, running(exec_chroot("hostnamectl", &args), "Setting hostname".to_string()));
    r
}

/// The steps of [`create_hosts`].
pub open spec fn create_hosts_plan() -> Seq<StepView> {
    seq![
        create_file_step("/mnt/etc/hosts"@),
        append_step("/mnt/etc/hosts"@, "127.0.0.1     localhost"@, "create /etc/hosts"@),
    ]
}

/// Creates the host table of the new system with the IPv4 loopback entry.
pub fn create_hosts() -> (r: Vec<Step>)
    ensures
        plan_view(r@) == create_hosts_plan(),
{
    let mut r: Vec<Step> = Vec::new();
    push_step(&mut r, creating_file("/mnt/etc/hosts"));
    push_step(
        &mut r,
        appending(
            "/mnt/etc/hosts",
            "127.0.0.1     localhost".to_string(),
            "create /etc/hosts".to_string(),
        ),
    );
    assert(plan_view(r@) =~= create_hosts_plan());
    r
}

/// The steps of [`enable_ipv6`].
pub open spec fn enable_ipv6_plan() -> Seq<StepView> {
    seq![append_step("/mnt/etc/hosts"@, "::1 localhost"@, "add ipv6 localhost"@)]
}

/// Both loopback entries go into the host table that [`create_hosts`]
/// creates, in the new system: first IPv4, then IPv6.
pub proof fn law_hosts_entries_in_created_table()
    ensures
        create_hosts_plan()[0].action is CreateFile,
        in_new_system(create_hosts_plan()[0].action->CreateFile_path),
        create_hosts_plan()[1].action->AppendFile_path == create_hosts_plan()[0].action->CreateFile_path,
        enable_ipv6_plan()[0].action->AppendFile_path == create_hosts_plan()[0].action->CreateFile_path,
        create_hosts_plan()[1].action->AppendFile_text == "127.0.0.1     localhost"@,
        enable_ipv6_plan()[0].action->AppendFile_text == "::1 localhost"@,
{
    reveal_strlit("/mnt/");
    reveal_strlit("/mnt/etc/hosts");
    assert("/mnt/etc/hosts"@.subrange(0, 5) =~= "/mnt/"@);
}

/// Adds the IPv6 loopback entry to the host table of the new system.
pub fn enable_ipv6() -> (r: Vec<Step>)
    ensures
        plan_view(r@) == enable_ipv6_plan(),
{
    let mut r: Vec<Step> = Vec::new();
    push_step(
        &mut r,
        appending(
            "/mnt/etc/hosts",
            "::1 localhost".to_string(),
            "add ipv6 localhost".to_string(),
        ),
    );
    r
}

} // verus!
