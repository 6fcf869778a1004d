//! The kernel side of the new system.
use vstd::prelude::*;
use crate::plan::{plan_view, push_step, Action, ActionView, Check, Step, StepView};

verus! {

/// The steps of [`install_zram`], with `config` the text of the
/// zram-generator configuration.
///
/// The configuration text is handed to the write as the path, and the
/// configuration's destination as the contents.
pub open spec fn install_zram_plan(config: Seq<char>) -> Seq<StepView> {
    seq![
        StepView {
            action: ActionView::WriteFile {
                path: config,
                contents: "/mnt/etc/systemd/zram-generator.conf"@,
            },
            check: Check::Performed,
            message: "Write zram-generator config"@,
        },
    ]
}

/// Writes the zram-generator configuration `config`.
pub fn install_zram(config: &str) -> (r: Vec<Step>)
    ensures
        plan_view(r@) == install_zram_plan(config@),
{
    let mut r: Vec<Step> = Vec::new();
    push_step(
        &mut r,
        Step {
            action: Action::WriteFile {
                path: config.to_string(),
                contents: "/mnt/etc/systemd/zram-generator.conf".to_string(),
            },
            check: Check::Performed,
            message: "Write zram-generator config".to_string(),
        },
    );
    r
}

/// Configuring `kernel-install`: nothing is done yet.
pub fn config_kernel_install() -> (r: Vec<Step>)
    ensures
        r@.len() == 0,
{
    Vec::new()
}

/// Configuring mkinitcpio: nothing is done yet.
pub fn config_mkinitcpio() -> (r: Vec<Step>)
    ensures
        r@.len() == 0,
{
    Vec::new()
}

/// Configuring secure boot: nothing is done yet.
pub fn config_secure_boot() -> (r: Vec<Step>)
    ensures
        r@.len() == 0,
{
    Vec::new()
}

} // verus!
