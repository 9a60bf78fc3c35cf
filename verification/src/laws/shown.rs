//! What the window shows, and what its buttons do.
use crate::app::{first_effects, fresh, AppModel, Busy, EffectModel, Run};
use crate::host::{HostModel, Platform};
use crate::job::JobModel;
use crate::message::MessageModel;
use crate::parts::{
    branch_ref, branch_title, check_name, spinner, Branch, StepStatusModel, Tab, TsCheck,
    TsStatusModel,
};
use crate::scan::step_name;
use crate::service::ServiceJobModel;
use crate::setup::next_missing;
use crate::text::{decimal, joined, tail_of};
use crate::upkeep::{UpdateJobModel, WaitJobModel};
use crate::view::{
    header, install_tab, log_panel, running_tab, service_tab, tab_bar, troubleshoot_tab,
    uninstall_tab, untouched, update_tab, Look, PressModel,
};
use vstd::prelude::*;

verus! {

/// A button.
pub open spec fn button(text: Seq<char>, look: Look, sends: Option<MessageModel>) -> PressModel {
    PressModel { text, look, sends }
}

/// What a button sends, unless it is out of use.
pub open spec fn unless(blocked: bool, m: MessageModel) -> Option<MessageModel> {
    if blocked {
        None
    } else {
        Some(m)
    }
}

// ── Names and colours ────────────────────────────────────────────────────

/// Each branch and each check has its own name.
pub proof fn law_names(b: Branch)
    ensures
        branch_title(b) == if b == Branch::Development {
            "Development"@
        } else {
            "Stable"@
        },
        branch_ref(b) == if b == Branch::Development {
            "dev"@
        } else {
            "main"@
        },
        check_name(TsCheck::SapphireRunning) == "Sapphire responding"@,
        check_name(TsCheck::WebUi) == "Web UI loading"@,
        check_name(TsCheck::DepsHealth) == "Package health"@,
        check_name(TsCheck::Plugins) == "Optional features"@,
        check_name(TsCheck::Gpu) == "GPU"@,
        branch_title(Branch::Stable) != branch_title(Branch::Development),
        branch_ref(Branch::Stable) != branch_ref(Branch::Development),
{
    reveal_strlit("Stable");
    reveal_strlit("Development");
    reveal_strlit("main");
    reveal_strlit("dev");
    assert("Stable"@.len() == 6 && "Development"@.len() == 11);
    assert("main"@.len() == 4 && "dev"@.len() == 3);
}

/// A step that is there or done is green, one that is missing yellow, one
/// that failed red, and one that is under way turns; what is known of it is
/// shown behind its name.
pub proof fn law_signs_of_a_step(s: StepStatusModel, tick: nat)
    ensures
        s is Found || s is Done ==> s.indicator(tick) == "+"@ && s.color() == 0x4caf50,
        s is NotFound ==> s.indicator(tick) == "?"@ && s.color() == 0xf9e154,
        s is Failed ==> s.indicator(tick) == "x"@ && s.color() == 0xe74c3c,
        s is NotStarted ==> s.indicator(tick) == "-"@ && s.color() == 0x585b70,
        s is Checking || s is Installing ==> s.indicator(tick) == spinner(tick) && s.color()
            == 0x3d85c6,
        s.detail() == match s {
            StepStatusModel::Found(t) => Some(t),
            StepStatusModel::NotFound(t) => Some(t),
            StepStatusModel::Done(t) => Some(t),
            StepStatusModel::Failed(t) => Some(t),
            _ => None,
        },
        spinner(tick) == if tick % 4 == 0 {
            "/"@
        } else if tick % 4 == 1 {
            "-"@
        } else if tick % 4 == 2 {
            "\\"@
        } else {
            "|"@
        },
{
}

// ── The header and the tabs ──────────────────────────────────────────────

/// Sapphire can be launched where it does not run, and opened and stopped
/// where it does; while it is being stopped nothing can be clicked. A folder
/// with a Sapphire in it is green, and the number of new commits leads to
/// the tab for updates.
pub proof fn law_header_fits_the_state(a: AppModel, main_py: bool, there: bool)
    ensures
        ({
            let h = header(a, main_py, there);
            let run = a.sapphire;
            &&& h.buttons == if run.stopping {
                seq![button("Stopping..."@, Look::Secondary, None)]
            } else if run.running {
                seq![
                    button("Open Browser"@, Look::Primary, Some(MessageModel::OpenBrowser)),
                    button("Stop"@, Look::Danger, Some(MessageModel::StopSapphire)),
                ]
            } else {
                seq![button("Launch"@, Look::Success, Some(MessageModel::Launch))]
            }
            &&& main_py ==> h.hint.text == "installed"@ && h.hint.color == 0x4caf50
            &&& !main_py && there ==> h.hint.text == "no install here"@ && h.hint.color == 0xf9e154
            &&& !main_py && !there ==> h.hint.text == "empty path"@ && h.hint.color == 0x7f849c
            &&& (a.updates_available is None || a.updates_available == Some(0u32)) ==> h.badge
                is None
            &&& (a.updates_available is Some && a.updates_available->0 > 0) ==> h.badge == Some(
                button(
                    decimal(a.updates_available->0 as nat) + " new"@,
                    Look::Plain,
                    Some(MessageModel::TabSelected(Tab::Update)),
                ),
            )
        }),
{
}

/// There are six tabs, each leads where it says, and the one that is open is
/// marked.
pub proof fn law_tabs_lead_where_they_say(a: AppModel)
    ensures
        ({
            let bar = tab_bar(a);
            let tab = |text: Seq<char>, t: Tab|
                button(
                    text,
                    if t == a.active_tab {
                        Look::Primary
                    } else {
                        Look::Plain
                    },
                    Some(MessageModel::TabSelected(t)),
                );
            bar == seq![
                tab("Install"@, Tab::Install),
                tab("Update"@, Tab::Update),
                tab("Uninstall"@, Tab::Uninstall),
                tab("Troubleshoot"@, Tab::Troubleshoot),
                tab(
                    if a.sapphire.running {
                        "Log *"@
                    } else {
                        "Log"@
                    },
                    Tab::Running,
                ),
                tab(
                    if a.service is Some {
                        "Service"@
                    } else {
                        "Autostart"@
                    },
                    Tab::Service,
                ),
            ]
        }),
{
}

/// The tab for the installation shows each step as it stands. Scanning and
/// installing are offered only while neither is under way, and installing
/// only where a step is missing.
pub proof fn law_install_tab_shows_the_steps(a: AppModel)
    ensures
        ({
            let t = install_tab(a);
            let blocked = a.busy.scanning || a.busy.installing;
            let scan = button(
                if untouched(a.steps) {
                    "Scan System"@
                } else {
                    "Re-scan"@
                },
                Look::Primary,
                unless(blocked, MessageModel::ScanClicked),
            );
            &&& t.lines.len() == a.steps.len()
            &&& forall|i: int|
                0 <= i < a.steps.len() ==> {
                    let line = #[trigger] t.lines[i];
                    let (step, status) = a.steps[i];
                    &&& line.name == step_name(a.host.platform, step)
                    &&& line.sign.text == status.indicator(a.spinner_tick as nat)
                    &&& line.sign.color == status.color()
                    &&& status.detail() is Some ==> line.detail == Some("— "@ + status.detail()->0)
                    &&& status.detail() is None ==> line.detail is None
                }
            &&& t.buttons == if next_missing(a.steps) is Some {
                seq![
                    scan,
                    button(
                        "Go — Install Missing"@,
                        Look::Success,
                        unless(blocked, MessageModel::GoClicked),
                    ),
                ]
            } else {
                seq![scan]
            }
        }),
{
}

/// The tab for updates tells how many there are, and offers an update unless
/// one is under way or Sapphire is being stopped.
pub proof fn law_update_tab_tells_of_updates(a: AppModel)
    ensures
        ({
            let t = update_tab(a);
            let n = a.updates_available;
            &&& t.status is Some
            &&& n == Some(0u32) ==> t.status->0.text == "Up to date."@
            &&& n == Some(1u32) ==> t.status->0.text == decimal(1) + " update"@ + ""@
                + " available."@
            &&& (n is Some && n->0 > 1) ==> t.status->0.text == decimal(n->0 as nat) + " update"@
                + "s"@ + " available."@
            &&& n is None ==> t.status->0.text == if a.busy.checking_updates {
                "Checking..."@
            } else {
                "Couldn't check for updates."@
            }
            &&& t.lines.len() == a.update_status.len()
            &&& forall|i: int|
                0 <= i < a.update_status.len() ==> {
                    let line = #[trigger] t.lines[i];
                    let (name, status) = a.update_status[i];
                    &&& line.name == name
                    &&& line.sign.text == status.indicator(a.spinner_tick as nat)
                    &&& line.sign.color == status.color()
                    &&& status.detail() is Some ==> line.detail == Some("— "@ + status.detail()->0)
                }
            &&& t.buttons == seq![
                button(
                    if a.busy.updating {
                        "Updating..."@
                    } else if a.sapphire.running || a.sapphire.stopping {
                        "Stop & Update"@
                    } else {
                        "Update"@
                    },
                    Look::Primary,
                    unless(a.busy.updating || a.sapphire.stopping, MessageModel::UpdateClicked),
                ),
            ]
        }),
{
}

/// The tab of the uninstaller has a card for each thing that can be reset or
/// removed, and each button does what its card says; none that removes can be
/// clicked while something is being removed.
pub proof fn law_uninstall_tab_does_what_it_says(a: AppModel)
    ensures
        ({
            let t = uninstall_tab(a);
            let danger = |text: Seq<char>, m: MessageModel|
                button(text, Look::Danger, unless(a.busy.uninstalling, m));
            &&& t.resets.len() == 2 && t.dangers.len() == 3
            &&& t.resets[0].button == button(
                "Reset Password"@,
                Look::Primary,
                Some(MessageModel::ResetPassword),
            )
            &&& t.resets[1].button == button(
                "Reset API Keys"@,
                Look::Primary,
                Some(MessageModel::ResetCredentials),
            )
            &&& t.dangers[0].button == danger(
                if a.armed.remove_env {
                    "YES, remove it"@
                } else {
                    "Remove conda env"@
                },
                MessageModel::UninstallCondaEnvClick,
            )
            &&& t.dangers[1].button == danger(
                if a.armed.delete_userdata {
                    "YES, delete user data"@
                } else {
                    "Delete user data"@
                },
                MessageModel::UninstallDeleteUserdataClick,
            )
            &&& t.dangers[2].button == danger(
                if a.armed.delete_folder {
                    "YES, delete everything"@
                } else {
                    "Delete Sapphire folder"@
                },
                MessageModel::UninstallDeleteFolderClick,
            )
            &&& t.resets[0].note.text
                == "Forgot your password? This clears it so Sapphire asks for a new one."@
            &&& !a.armed.remove_env ==> t.dangers[0].note.text
                == "Deletes the 'sapphire' Python environment and all packages."@
            &&& a.armed.remove_env ==> t.dangers[0].note.text == "Click again to confirm."@
            &&& !a.armed.delete_userdata ==> t.dangers[1].note.text
                == "Removes sapphire/user/ — your settings and personal data."@
            &&& a.armed.delete_userdata ==> t.dangers[1].note.text == "Click again to confirm."@
            &&& !a.armed.delete_folder ==> t.dangers[2].note.text == "Nukes "@ + a.install_path
                + " — code, settings, everything. Cannot be undone."@
            &&& a.armed.delete_folder ==> t.dangers[2].note.text
                == "FINAL WARNING. Everything will be permanently deleted."@
        }),
{
}

/// The troubleshooter shows each check as it stands: green where all is well
/// or mended, red where there is a problem. A problem can be mended by a click
/// exactly where it is one of the packages or of the voice features, and the
/// click mends that one.
pub proof fn law_troubleshoot_tab_offers_repairs(a: AppModel)
    ensures
        ({
            let t = troubleshoot_tab(a);
            &&& t.lines.len() == a.ts_checks.len()
            &&& forall|i: int|
                0 <= i < a.ts_checks.len() ==> {
                    let line = #[trigger] t.lines[i];
                    let (check, status) = a.ts_checks[i];
                    &&& line.name == check_name(check)
                    &&& status is Fine || status is Fixed ==> line.sign.text == "+"@
                        && line.sign.color == 0x4caf50
                    &&& status is Problem ==> line.sign.text == "!"@ && line.sign.color == 0xe74c3c
                    &&& status is NotChecked ==> line.sign.text == "-"@ && line.detail is None
                    &&& status is Fine ==> line.detail == Some("— "@ + status->Fine_0)
                    &&& status is Problem ==> line.detail == Some("— "@ + status->Problem_0)
                    &&& status is Fixed ==> line.detail == Some("— "@ + status->Fixed_0)
                    &&& status is Checking ==> line.detail == Some("— checking..."@)
                    &&& status is Fixing ==> line.detail == Some("— fixing..."@)
                    &&& line.fix == if !(status is Problem) {
                        None
                    } else if check == TsCheck::DepsHealth {
                        Some(
                            button(
                                "Fix"@,
                                Look::Success,
                                Some(MessageModel::TroubleshootFix(TsCheck::DepsHealth)),
                            ),
                        )
                    } else if check == TsCheck::Plugins {
                        Some(
                            button(
                                "Install"@,
                                Look::Success,
                                Some(MessageModel::TroubleshootFix(TsCheck::Plugins)),
                            ),
                        )
                    } else {
                        None
                    }
                }
            &&& t.buttons == seq![
                button(
                    "Check Sapphire"@,
                    Look::Primary,
                    unless(a.busy.troubleshooting, MessageModel::TroubleshootCheck),
                ),
            ]
        }),
{
}

/// With a service the tab for it controls the service, each button as it
/// says; without one it offers to make one, where there is what it takes.
pub proof fn law_service_tab_controls_the_service(a: AppModel)
    ensures
        ({
            let t = service_tab(a);
            let remove = button(
                if a.armed.remove_service {
                    "YES, remove it"@
                } else {
                    "Remove autostart"@
                },
                Look::Danger,
                Some(MessageModel::ServiceRemoveClick),
            );
            &&& a.service is Some ==> {
                let s = a.service->0;
                &&& t.control == seq![
                    button("Start"@, Look::Success, Some(MessageModel::ServiceStart)),
                    button("Stop"@, Look::Danger, Some(MessageModel::ServiceStop)),
                    button("Restart"@, Look::Primary, Some(MessageModel::ServiceRestart)),
                ]
                &&& t.login == seq![
                    button(
                        "Enable at login"@,
                        Look::Secondary,
                        Some(MessageModel::ServiceEnable),
                    ),
                    button(
                        "Disable at login"@,
                        Look::Secondary,
                        Some(MessageModel::ServiceDisable),
                    ),
                ]
                &&& t.status.text == (if s.active {
                    "active ("@
                } else {
                    "inactive ("@
                }) + s.sub_state + ")"@
                &&& t.status.color == if s.active {
                    0x4caf50u32
                } else {
                    0x7f849cu32
                }
                &&& t.folder == Some(
                    "Working directory: "@ + match s.working_dir {
                        Some(dir) => dir,
                        None => "unknown"@,
                    },
                )
                &&& t.remove is Some && t.remove->0.button == remove
                &&& t.editor
                &&& t.title == "Service Control"@
            }
            &&& a.service is None ==> {
                &&& t.control == seq![
                    button(
                        "Enable service"@,
                        Look::Success,
                        unless(
                            a.host.platform == Platform::Linux && !a.systemd_available,
                            MessageModel::ServiceInstall,
                        ),
                    ),
                ]
                &&& t.login.len() == 0 && !t.editor && t.folder is None
                &&& t.title == "Autostart"@
                &&& t.status.text == "no service detected"@
                &&& t.remove is Some <==> a.host.platform == Platform::Windows
                &&& t.remove is Some ==> t.remove->0.button == remove
            }
        }),
{
}

/// The tab of the run log shows whether Sapphire runs, and the end of what it
/// printed; there is something to copy or to open exactly where it printed
/// something. The launcher's own log shows its end, unless it is folded away.
pub proof fn law_logs_are_shown(a: AppModel)
    ensures
        ({
            let t = running_tab(a);
            let p = log_panel(a);
            let empty = a.sapphire_log.len() == 0;
            &&& t.status.text == if a.sapphire.running {
                "Sapphire is running"@
            } else if empty {
                "Hit Launch to start Sapphire."@
            } else {
                "Sapphire stopped"@
            }
            &&& t.buttons == seq![
                button("Copy"@, Look::Secondary, unless(empty, MessageModel::CopyRunLog)),
                button(
                    if a.host.platform == Platform::Windows {
                        "Open in Notepad"@
                    } else {
                        "Open log"@
                    },
                    Look::Secondary,
                    unless(empty, MessageModel::OpenRunLog),
                ),
                button("Bottom"@, Look::Secondary, Some(MessageModel::ScrollRunLog)),
            ]
            &&& t.log == if empty {
                "Waiting..."@
            } else {
                joined(tail_of(a.sapphire_log, 800), "\n"@)
            }
            &&& p.toggle == button(
                if a.log_visible {
                    "[-] Log"@
                } else {
                    "[+] Log"@
                },
                Look::Plain,
                Some(MessageModel::ToggleLog),
            )
            &&& p.log == if a.log_visible {
                Some(joined(tail_of(a.log_lines, 300), "\n"@))
            } else {
                None
            }
        }),
{
}

// ── The start ────────────────────────────────────────────────────────────

/// At the start nothing is known and nothing is under way: no step was
/// looked at, Sapphire is not taken to run, and the folder and the branch are
/// those that were given.
pub proof fn law_launcher_starts_afresh(h: HostModel, path: Seq<char>, b: Branch)
    ensures
        ({
            let a = fresh(h, path, b);
            &&& a.wf()
            &&& a.host == h && a.install_path == path && a.selected_branch == Some(b)
            &&& a.active_tab == Tab::Install && a.log_visible
            &&& a.busy == Busy {
                scanning: false,
                installing: false,
                timed: false,
                uninstalling: false,
                checking_updates: false,
                updating: false,
                troubleshooting: false,
            }
            &&& a.sapphire == Run { running: false, stopping: false, restart: false }
            &&& forall|i: int| 0 <= i < 7 ==> (#[trigger] a.steps[i]).1
                == StepStatusModel::NotStarted
            &&& forall|i: int| 0 <= i < 5 ==> (#[trigger] a.ts_checks[i]).1
                == TsStatusModel::NotChecked
            &&& forall|i: int| 0 <= i < 2 ==> (#[trigger] a.update_status[i]).1
                == StepStatusModel::NotStarted
            &&& a.updates_available is None && a.service is None && !a.journal.streaming
            &&& a.sapphire_log.len() == 0 && !a.systemd_available
            &&& a.log_lines == seq!["Ready."@]
            &&& a.journal.epoch == 0 && a.spinner_tick == 0
        }),
{
}

/// The first things that the launcher does: it looks for the service and for
/// systemd, reads the environment, finds out whether Sapphire runs and how
/// far behind it is, for the folder and the branch that are set, and scans.
pub proof fn law_launcher_looks_round_first(a: AppModel, b: Branch)
    requires
        a.selected_branch == Some(b),
    ensures
        first_effects(a) == seq![
            EffectModel::Start(JobModel::Service(ServiceJobModel::Detect(true))),
            EffectModel::Start(JobModel::Service(ServiceJobModel::FindSystemd)),
            EffectModel::Start(JobModel::Service(ServiceJobModel::ReadEnv)),
            EffectModel::Start(JobModel::Wait(WaitJobModel::PreCheck(false))),
            EffectModel::Start(
                JobModel::Update(UpdateJobModel::CheckUpdates(a.install_path, b)),
            ),
            EffectModel::Send(MessageModel::ScanClicked),
        ],
{
}

/// Something on the window moves exactly while something is under way, and
/// the journal is followed exactly while it is streamed.
pub proof fn law_window_moves_while_busy(a: AppModel)
    ensures
        a.moving() <==> a.busy.scanning || a.busy.installing || a.busy.updating
            || a.busy.uninstalling || a.busy.troubleshooting || a.busy.checking_updates
            || a.sapphire.stopping,
        a.follower() == if a.journal.streaming {
            Some(a.journal.epoch)
        } else {
            None
        },
{
}

} // verus!
