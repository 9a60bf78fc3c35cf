use sapphire_launcher::app::{App, Effect, Facts};
use sapphire_launcher::config::load_install_path;
use sapphire_launcher::host::{Host, Platform};
use sapphire_launcher::message::Message;
use sapphire_launcher::parts::{
    Branch, ServiceInfo, Step, StepStatus, Tab, TsCheck, TsStatus, DIM, GREEN, RED, YELLOW,
};

fn host() -> Host {
    Host {
        platform: Platform::Linux,
        home: Some("/home/ada".into()),
        user_profile: None,
        app_data: None,
        xdg_config_home: None,
        user_domain: "".into(),
        user_name: "".into(),
        temp_dir: "/tmp".into(),
    }
}

fn app() -> App {
    App::new(host(), "/s".into(), Branch::Stable)
}

fn facts() -> Facts {
    Facts {
        repo: true,
        main_py: true,
        service_main_py: false,
        service_branch: Branch::Stable,
        pid: 0,
        output: Vec::new(),
    }
}

fn service(active: bool, dir: Option<&str>) -> ServiceInfo {
    ServiceInfo {
        active,
        active_state: "active".into(),
        enabled: true,
        sub_state: "running".into(),
        working_dir: dir.map(|s| s.to_string()),
    }
}

fn send(a: &mut App, m: Message) -> Vec<String> {
    a.update(m, &facts()).iter().map(|e| format!("{e:?}")).collect()
}

fn last(a: &App) -> &str {
    a.log_lines.last().unwrap()
}

const STEPS: [Step; 6] =
    [Step::Git, Step::Conda, Step::CondaInit, Step::PythonEnv, Step::Clone, Step::Deps];

#[test]
fn the_launcher_starts_by_looking_around() {
    let a = app();
    let effects: Vec<String> = a.startup().iter().map(|e| format!("{e:?}")).collect();
    assert_eq!(
        effects,
        vec![
            "Start(Service(Detect(true)))",
            "Start(Service(FindSystemd))",
            "Start(Service(ReadEnv))",
            "Start(Wait(PreCheck(false)))",
            "Start(Update(CheckUpdates(\"/s\", Stable)))",
            "Send(ScanClicked)",
        ]
    );
    assert_eq!(a.log_lines, vec!["Ready."]);
    assert_eq!(a.steps.len(), 7);
    assert!(!a.is_busy() && a.journal_follower().is_none());
}

#[test]
fn a_tick_turns_the_spinner_and_takes_the_output() {
    let mut a = app();
    let mut f = facts();
    f.output = (0..1500).map(|i| i.to_string()).collect();
    a.update(Message::Tick, &f);
    assert_eq!(a.spinner_tick, 1);
    assert_eq!(a.log_lines.len(), 1000);
    assert_eq!(last(&a), "1499");
    a.spinner_tick = usize::MAX;
    a.update(Message::Tick, &facts());
    assert_eq!(a.spinner_tick, 0);
}

#[test]
fn a_chosen_folder_is_remembered() {
    let mut a = app();
    assert!(send(&mut a, Message::PathChanged("".into())).is_empty());
    assert_eq!(a.install_path, "/s");
    let effects = a.update(Message::PathChanged("D:\\new".into()), &facts());
    assert_eq!(a.install_path, "D:\\new");
    match &effects[0] {
        Effect::SaveConfig(text) => {
            assert_eq!(load_install_path(&host(), Some(text.clone())), "D:\\new")
        }
        other => panic!("{other:?}"),
    }
}

#[test]
fn launching_looks_first() {
    let mut a = app();
    assert_eq!(send(&mut a, Message::Launch), vec!["Start(Wait(PreCheck(true)))"]);
    assert_eq!(send(&mut a, Message::LaunchPreCheck(false, true)), vec!["Follow(\"/s\")"]);
    assert!(a.sapphire.running);
    assert_eq!(a.active_tab, Tab::Running);
    assert!(send(&mut a, Message::Launch).is_empty());
    assert_eq!(last(&a), "Sapphire is already running.");
}

#[test]
fn launching_needs_an_installation() {
    let mut a = app();
    let mut f = facts();
    f.main_py = false;
    assert!(a.update(Message::Launch, &f).is_empty());
    assert_eq!(last(&a), "Can't find /s/main.py. Run the installer first.");
}

#[test]
fn a_foreign_sapphire_is_taken_as_running() {
    let mut a = app();
    assert!(send(&mut a, Message::LaunchPreCheck(true, false)).is_empty());
    assert!(a.sapphire.running);
    assert_eq!(a.active_tab, Tab::Install);
    assert_eq!(a.sapphire_log.len(), 4);
    let mut b = app();
    assert!(send(&mut b, Message::LaunchPreCheck(false, false)).is_empty());
    assert!(!b.sapphire.running);
}

#[test]
fn stopping_kills_and_waits() {
    let mut a = app();
    a.sapphire.running = true;
    let mut f = facts();
    f.pid = 77;
    let effects: Vec<String> =
        a.update(Message::StopSapphire, &f).iter().map(|e| format!("{e:?}")).collect();
    assert!(effects[0].contains("\"-TERM\", \"-77\"") && effects[0].ends_with(", true)"));
    assert_eq!(effects[1], "Start(Wait(Await(Tell)))");
    assert!(a.sapphire.stopping && a.is_busy());
    send(&mut a, Message::SapphireStopConfirmed);
    assert!(!a.sapphire.running && !a.sapphire.stopping);
    assert_eq!(last(&a), "Sapphire stopped.");
}

#[test]
fn a_branch_switch_restarts_sapphire() {
    let mut a = app();
    a.sapphire.running = true;
    let effects = send(&mut a, Message::BranchSelected(Branch::Development));
    assert_eq!(effects.len(), 3);
    assert!(effects[0].starts_with("SaveConfig(") && effects[1].starts_with("Kill("));
    assert_eq!(effects[2], "Start(Wait(Switch(\"/s\", Development)))");
    assert_eq!(last(&a), "Switching to dev branch...");
    let effects = send(&mut a, Message::SwitchBranchResult("Switched to dev: ".into(), true));
    assert_eq!(effects, vec!["Start(Wait(PreCheck(true)))"]);
    assert!(!a.sapphire.restart && !a.sapphire.stopping);
}

#[test]
fn a_branch_switch_starts_nothing_new() {
    let mut a = app();
    let effects = send(&mut a, Message::BranchSelected(Branch::Development));
    assert_eq!(effects.len(), 2);
    assert!(send(&mut a, Message::SwitchBranchResult("x".into(), false)).is_empty());
    let mut b = app();
    let mut f = facts();
    f.repo = false;
    assert_eq!(b.update(Message::BranchSelected(Branch::Development), &f).len(), 1);
    assert_eq!(b.selected_branch, Some(Branch::Development));
    assert!(b.update(Message::SwitchBranch, &f).is_empty());
    assert_eq!(last(&b), "No repo found — install first.");
    assert_eq!(send(&mut b, Message::SwitchBranch), vec!["Start(Wait(Checkout(\"/s\", Development)))"]);
}

#[test]
fn a_stop_cancels_the_restart() {
    let mut a = app();
    a.sapphire.running = true;
    send(&mut a, Message::BranchSelected(Branch::Development));
    send(&mut a, Message::StopSapphire);
    assert!(send(&mut a, Message::SwitchBranchResult("x".into(), true)).is_empty());
}

#[test]
fn a_stop_of_the_service_outlasts_a_switch() {
    let mut a = app();
    a.service = Some(service(true, None));
    a.sapphire.running = true;
    send(&mut a, Message::BranchSelected(Branch::Development));
    assert!(a.sapphire.restart);
    assert_eq!(send(&mut a, Message::ServiceStop), vec!["Start(Service(Act(Stop)))"]);
    assert!(send(&mut a, Message::SwitchBranchResult("x".into(), true)).is_empty());
}

#[test]
fn a_service_is_followed_anew() {
    let mut a = app();
    a.journal.epoch = usize::MAX;
    send(&mut a, Message::ServiceStart);
    assert_eq!(a.journal_follower(), Some(0));
    send(&mut a, Message::ServiceStop);
    assert!(a.journal_follower().is_none());
    send(&mut a, Message::ServiceRestart);
    assert_eq!(a.journal_follower(), Some(1));
    send(&mut a, Message::EnvSaved(true));
    assert_eq!(a.journal_follower(), Some(2));
}

#[test]
fn a_badge_tells_of_updates() {
    let mut a = app();
    for (count, shown) in [(Some(3), true), (Some(0), false), (None, false)] {
        send(&mut a, Message::UpdatesAvailable(count));
        assert_eq!(a.view_header(true, true).badge.is_some(), shown);
    }
}

#[test]
fn an_update_without_parts_is_over_at_once() {
    let mut a = app();
    a.update_status.clear();
    assert!(send(&mut a, Message::UpdateStepDone("x".into(), true)).is_empty());
    assert_eq!(last(&a), "[update] Update complete!");
}

#[test]
fn an_update_pulls_and_then_installs() {
    let mut a = app();
    assert_eq!(send(&mut a, Message::UpdateClicked), vec!["Start(Update(Pull(\"/s\")))"]);
    assert!(a.busy.updating);
    assert!(matches!(a.update_status[0].1, StepStatus::Installing));
    assert_eq!(
        send(&mut a, Message::UpdateStepDone("pull: ok".into(), true)),
        vec!["Start(Update(UpdateDeps(\"/s\")))"]
    );
    assert!(matches!(&a.update_status[0].1, StepStatus::Done(s) if s == "pull: ok"));
    assert!(send(&mut a, Message::UpdateStepDone("done".into(), true)).is_empty());
    assert!(!a.busy.updating);
    assert_eq!(a.updates_available, Some(0));
    assert_eq!(last(&a), "[update] Update complete!");
}

#[test]
fn a_failed_pull_ends_the_update() {
    let mut a = app();
    send(&mut a, Message::UpdateClicked);
    assert!(send(&mut a, Message::UpdateStepDone("bad".into(), false)).is_empty());
    assert!(matches!(&a.update_status[0].1, StepStatus::Failed(s) if s == "bad"));
    assert!(!a.busy.updating);
    assert_eq!(a.updates_available, None);
}

#[test]
fn an_update_stops_sapphire_first() {
    let mut a = app();
    a.sapphire.running = true;
    let effects = send(&mut a, Message::UpdateClicked);
    assert_eq!(effects[1], "Start(Wait(Await(Update)))");
    assert!(!a.busy.updating);
    assert_eq!(send(&mut a, Message::UpdateAfterStop), vec!["Start(Update(Pull(\"/s\")))"]);
    assert!(!a.sapphire.running && !a.sapphire.stopping);
    let mut f = facts();
    f.repo = false;
    let mut b = app();
    assert!(b.update(Message::UpdateClicked, &f).is_empty());
}

#[test]
fn the_run_log_keeps_its_last_lines() {
    let mut a = app();
    let lines: Vec<String> = (0..2500).map(|i| i.to_string()).collect();
    send(&mut a, Message::SapphireLines(lines));
    assert_eq!(a.sapphire_log.len(), 2000);
    assert_eq!(a.sapphire_log[0], "500");
    send(&mut a, Message::SapphireLine("x".into()));
    assert_eq!(a.sapphire_log.len(), 2000);
    send(&mut a, Message::SapphireExited("Sapphire exited.".into()));
    assert_eq!(a.sapphire_log.last().unwrap(), "--- Sapphire exited. ---");
}

#[test]
fn a_tab_disarms_and_looks_for_updates() {
    let mut a = app();
    send(&mut a, Message::UninstallCondaEnvClick);
    assert!(a.armed.remove_env);
    let effects = send(&mut a, Message::TabSelected(Tab::Update));
    assert_eq!(effects, vec!["Start(Update(CheckUpdates(\"/s\", Stable)))"]);
    assert!(!a.armed.remove_env && a.busy.checking_updates);
    assert!(send(&mut a, Message::CheckForUpdates).is_empty());
    send(&mut a, Message::UpdatesAvailable(Some(3)));
    assert_eq!(a.updates_available, Some(3));
    assert!(send(&mut a, Message::TabSelected(Tab::Install)).is_empty());
}

#[test]
fn deleting_takes_two_clicks() {
    let clicks = [
        (Message::UninstallCondaEnvClick, "Start(Uninstall(RemoveEnv))"),
        (Message::UninstallDeleteFolderClick, "Start(Uninstall(DeleteFolder(\"/s\")))"),
        (Message::UninstallDeleteUserdataClick, "Start(Uninstall(DeleteUserdata(\"/s\")))"),
        (Message::ServiceRemoveClick, "Start(Unit(Remove))"),
    ];
    for (click, effect) in clicks {
        let mut a = app();
        assert!(send(&mut a, click.clone()).is_empty());
        assert_eq!(send(&mut a, click.clone()), vec![effect]);
        assert!(send(&mut a, click.clone()).is_empty());
        send(&mut a, Message::TabSelected(Tab::Install));
        assert!(send(&mut a, click).is_empty());
    }
}

#[test]
fn an_uninstall_resets_the_steps() {
    let mut a = app();
    send(&mut a, Message::ScanClicked);
    send(&mut a, Message::UninstallResult("one\ntwo".into(), true));
    assert!(a.steps.iter().all(|(_, s)| matches!(s, StepStatus::NotStarted)));
    let n = a.log_lines.len();
    assert_eq!(&a.log_lines[n - 3..], &["  one", "  two", "[uninstall] Done."]);
    send(&mut a, Message::UninstallResult("x".into(), false));
    assert_eq!(last(&a), "[uninstall] Something went wrong — check the log above.");
}

#[test]
fn a_scan_ends_with_its_last_result() {
    let mut a = app();
    assert_eq!(send(&mut a, Message::ScanClicked).len(), 6);
    assert!(a.busy.scanning);
    assert!(matches!(a.steps[6].1, StepStatus::NotStarted));
    for (i, step) in STEPS.into_iter().enumerate() {
        assert!(a.busy.scanning, "{i}");
        send(&mut a, Message::StepResult(step, StepStatus::Found("there".into())));
    }
    assert!(!a.busy.scanning);
    assert!(matches!(a.steps[6].1, StepStatus::Done(_)));
    assert_eq!(last(&a), "Everything looks good! Sapphire is ready to launch.");
}

#[test]
fn an_installation_goes_through_what_is_missing() {
    let mut a = app();
    send(&mut a, Message::ScanClicked);
    for step in STEPS {
        let status = if step == Step::Conda || step == Step::Clone {
            StepStatus::NotFound("no".into())
        } else {
            StepStatus::Found("yes".into())
        };
        send(&mut a, Message::StepResult(step, status));
    }
    assert_eq!(send(&mut a, Message::GoClicked), vec!["ClearOutput", "Start(Install(Conda))"]);
    assert!(a.busy.installing && a.busy.timed);
    let effects =
        send(&mut a, Message::InstallStepResult(Step::Conda, StepStatus::Done("ok".into()), "a\n\nb".into()));
    assert_eq!(effects, vec!["Start(Install(Clone(\"/s\", Stable)))"]);
    assert!(a.log_lines.contains(&"  b".to_string()));
    let effects =
        send(&mut a, Message::InstallStepResult(Step::Clone, StepStatus::Done("ok".into()), "".into()));
    assert!(effects.is_empty());
    assert!(!a.busy.installing && !a.busy.timed);
    assert_eq!(last(&a), "All done! Sapphire is installed and ready.");
}

#[test]
fn a_failed_step_ends_the_installation() {
    let mut a = app();
    send(&mut a, Message::StepResult(Step::Git, StepStatus::NotFound("no".into())));
    send(&mut a, Message::GoClicked);
    let effects =
        send(&mut a, Message::InstallStepResult(Step::Git, StepStatus::Failed("why".into()), "".into()));
    assert!(effects.is_empty() && !a.busy.installing);
    assert_eq!(last(&a), "Install stopped — fix the issue above and try again.");
}

#[test]
fn checks_end_with_the_last_of_them() {
    let mut a = app();
    assert_eq!(send(&mut a, Message::TroubleshootCheck).len(), 5);
    for check in
        [TsCheck::SapphireRunning, TsCheck::WebUi, TsCheck::DepsHealth, TsCheck::Plugins, TsCheck::Gpu]
    {
        assert!(a.busy.troubleshooting);
        send(&mut a, Message::TroubleshootResult(check, TsStatus::Problem("p".into())));
    }
    assert!(!a.busy.troubleshooting);
    assert_eq!(
        send(&mut a, Message::TroubleshootFix(TsCheck::DepsHealth)),
        vec!["Start(Troubleshoot(FixDeps(\"/s\")))"]
    );
    assert_eq!(last(&a), "[troubleshoot] Fixing Package health...");
    assert!(send(&mut a, Message::TroubleshootFix(TsCheck::Gpu)).is_empty());
    send(&mut a, Message::TroubleshootFixResult(TsCheck::DepsHealth, "ok".into(), true));
    assert!(matches!(&a.ts_checks[2].1, TsStatus::Fixed(s) if s == "ok"));
}

#[test]
fn a_service_takes_over() {
    let mut a = app();
    let info = service(true, Some("/srv/sapphire"));
    assert!(send(&mut a, Message::ServiceDetected(Some(info.clone()))).is_empty());
    assert_eq!(a.install_path, "/s");
    assert!(a.sapphire.running);
    assert_eq!(a.journal_follower(), Some(1));
    let effects = send(&mut a, Message::StopSapphire);
    assert_eq!(effects, vec!["Start(Service(Act(Stop)))"]);
    assert!(a.journal_follower().is_none());
    send(&mut a, Message::ServiceRefreshed(Some(service(false, None))));
    assert!(!a.sapphire.running && !a.sapphire.stopping);
    assert_eq!(send(&mut a, Message::Launch), vec!["Start(Service(Act(Start)))"]);
    assert_eq!(a.journal_follower(), Some(2));
    let effects = send(&mut a, Message::BranchSelected(Branch::Development));
    assert!(effects[1].starts_with("Kill([Cmd { program: Named(\"systemctl\")"));
}

#[test]
fn the_folder_of_a_service_is_adopted() {
    let mut a = app();
    let mut f = facts();
    f.main_py = false;
    f.service_main_py = true;
    f.service_branch = Branch::Development;
    let effects = a.update(Message::ServiceDetected(Some(service(false, Some("/srv")))), &f);
    assert_eq!(effects.len(), 2);
    assert_eq!((a.install_path.as_str(), a.selected_branch), ("/srv", Some(Branch::Development)));
    assert_eq!(last(&a), "Using service path: /srv");
    assert!(send(&mut a, Message::ServiceDetected(None)).is_empty());
}

#[test]
fn the_service_is_managed() {
    let mut a = app();
    assert_eq!(send(&mut a, Message::ServiceInstall), vec!["Start(Unit(Install(\"/s\")))"]);
    assert_eq!(
        send(&mut a, Message::ServiceInstallResult("made".into(), true)),
        vec!["Start(Service(Detect(false)))"]
    );
    assert!(a.sapphire.running);
    send(&mut a, Message::ServiceActionResult("bad".into(), false));
    assert!(!a.sapphire.running);
    assert_eq!(last(&a), "[service] bad");
    assert_eq!(
        send(&mut a, Message::EnvSaveRestart("A=1".into())),
        vec!["Start(Service(WriteEnv(\"A=1\")))"]
    );
    assert_eq!(send(&mut a, Message::EnvSaved(true)), vec!["Start(Service(Act(Restart)))"]);
    assert!(send(&mut a, Message::EnvSaved(false)).is_empty());
    assert_eq!(send(&mut a, Message::EnvLoaded("B=2".into())), vec!["SetEnv(\"B=2\")"]);
    send(&mut a, Message::ServiceRemoveResult("gone".into(), true));
    assert!(!a.sapphire.running);
    assert_eq!(send(&mut a, Message::ServiceEnable), vec!["Start(Service(Act(Enable)))"]);
    assert_eq!(send(&mut a, Message::ServiceDisable), vec!["Start(Service(Act(Disable)))"]);
}

#[test]
fn logs_and_small_messages() {
    let mut a = app();
    send(&mut a, Message::SapphireLines(vec!["x".into(), "y".into()]));
    assert_eq!(send(&mut a, Message::CopyRunLog), vec!["Copy(\"x\\ny\")"]);
    assert_eq!(
        send(&mut a, Message::OpenRunLog),
        vec!["WriteRunLog(\"/tmp/sapphire_log.txt\", \"x\\ny\")"]
    );
    assert!(send(&mut a, Message::RunLogWritten(true))[0].contains("xdg-open"));
    assert!(send(&mut a, Message::RunLogWritten(false)).is_empty());
    assert_eq!(last(&a), "Couldn't write log file.");
    assert_eq!(send(&mut a, Message::ScrollRunLog), vec!["ScrollLog"]);
    assert_eq!(send(&mut a, Message::BrowsePath), vec!["Browse"]);
    assert!(send(&mut a, Message::OpenBrowser)[0].contains("https://localhost:8073"));
    assert_eq!(send(&mut a, Message::ResetPassword), vec!["Start(Reset(Begin(Password)))"]);
    send(&mut a, Message::ResetResult("cleared".into()));
    assert_eq!(last(&a), "cleared");
    send(&mut a, Message::ToggleLog);
    assert!(!a.log_visible);
    send(&mut a, Message::SystemdChecked(true));
    assert!(a.systemd_available);
}

// What is shown

#[test]
fn the_header_offers_what_can_be_done() {
    let mut a = app();
    let h = a.view_header(false, true);
    assert_eq!((h.hint.text.as_str(), h.hint.color), ("no install here", YELLOW));
    assert_eq!(h.placeholder, "/home/you/sapphire");
    assert_eq!(h.buttons[0].text, "Launch");
    assert!(h.badge.is_none());
    a.updates_available = Some(4);
    a.sapphire.running = true;
    let h = a.view_header(true, true);
    assert_eq!((h.hint.text.as_str(), h.hint.color), ("installed", GREEN));
    assert_eq!(h.badge.unwrap().text, "4 new");
    assert_eq!(h.buttons.iter().map(|b| b.text.as_str()).collect::<Vec<_>>(), vec!["Open Browser", "Stop"]);
    a.sapphire.stopping = true;
    let h = a.view_header(false, false);
    assert_eq!((h.hint.text.as_str(), h.hint.color), ("empty path", DIM));
    assert!(h.buttons[0].sends.is_none());
}

#[test]
fn tabs_name_the_log_and_the_service() {
    let mut a = app();
    let names = |a: &App| a.view_tab_bar().iter().map(|b| b.text.clone()).collect::<Vec<_>>();
    assert_eq!(names(&a), vec!["Install", "Update", "Uninstall", "Troubleshoot", "Log", "Autostart"]);
    a.sapphire.running = true;
    a.service = Some(service(true, None));
    assert_eq!(names(&a)[4..], ["Log *", "Service"]);
}

#[test]
fn the_install_tab_offers_go_only_where_something_is_missing() {
    let mut a = app();
    let p = a.view_install_tab();
    assert_eq!(p.buttons.len(), 1);
    assert_eq!(p.buttons[0].text, "Scan System");
    assert_eq!((p.lines[0].sign.text.as_str(), p.lines.len()), ("-", 7));
    send(&mut a, Message::StepResult(Step::Deps, StepStatus::NotFound("later".into())));
    let p = a.view_install_tab();
    assert_eq!(p.buttons[0].text, "Re-scan");
    assert_eq!(p.buttons[1].text, "Go — Install Missing");
    assert_eq!(p.lines[5].detail, Some("— later".into()));
    send(&mut a, Message::GoClicked);
    a.spinner_tick = 2;
    let p = a.view_install_tab();
    assert!(p.buttons.iter().all(|b| b.sends.is_none()));
    assert_eq!(p.lines[5].sign.text, "\\");
}

#[test]
fn the_update_tab_tells_how_far_behind() {
    let mut a = app();
    let label = |a: &App| a.view_update_tab().status.unwrap().text;
    assert_eq!(label(&a), "Couldn't check for updates.");
    a.busy.checking_updates = true;
    assert_eq!(label(&a), "Checking...");
    a.updates_available = Some(0);
    assert_eq!(label(&a), "Up to date.");
    a.updates_available = Some(1);
    assert_eq!(label(&a), "1 update available.");
    a.updates_available = Some(12);
    assert_eq!(label(&a), "12 updates available.");
    assert_eq!(a.view_update_tab().buttons[0].text, "Update");
    a.sapphire.running = true;
    assert_eq!(a.view_update_tab().buttons[0].text, "Stop & Update");
    a.busy.updating = true;
    assert_eq!(a.view_update_tab().buttons[0].text, "Updating...");
    assert!(a.view_update_tab().buttons[0].sends.is_none());
}

#[test]
fn an_armed_button_warns() {
    let mut a = app();
    let u = a.view_uninstall_tab();
    assert_eq!(u.resets.len(), 2);
    assert_eq!(u.dangers[2].note.text, "Nukes /s — code, settings, everything. Cannot be undone.");
    assert_eq!(u.dangers[2].note.color, DIM);
    send(&mut a, Message::UninstallDeleteFolderClick);
    let u = a.view_uninstall_tab();
    assert_eq!(u.dangers[2].button.text, "YES, delete everything");
    assert_eq!(u.dangers[2].note.color, RED);
    send(&mut a, Message::UninstallDeleteFolderClick);
    assert!(a.view_uninstall_tab().dangers.iter().all(|c| c.button.sends.is_none()));
}

#[test]
fn problems_that_can_be_fixed_have_a_button() {
    let mut a = app();
    for check in [TsCheck::WebUi, TsCheck::DepsHealth, TsCheck::Plugins] {
        send(&mut a, Message::TroubleshootResult(check, TsStatus::Problem("p".into())));
    }
    let p = a.view_troubleshoot_tab();
    let fixes: Vec<Option<String>> =
        p.lines.iter().map(|l| l.fix.as_ref().map(|b| b.text.clone())).collect();
    assert_eq!(fixes, vec![None, None, Some("Fix".into()), Some("Install".into()), None]);
    assert_eq!(p.lines[1].sign.text, "!");
    send(&mut a, Message::TroubleshootCheck);
    let p = a.view_troubleshoot_tab();
    assert_eq!(p.lines[0].detail, Some("— checking...".into()));
    assert!(p.buttons[0].sends.is_none());
}

#[test]
fn the_service_tab_offers_or_manages() {
    let mut a = app();
    let p = a.view_service_tab();
    assert_eq!(p.title, "Autostart");
    assert!(p.control[0].sends.is_none() && p.remove.is_none() && !p.editor);
    a.systemd_available = true;
    assert!(a.view_service_tab().control[0].sends.is_some());
    a.service = Some(service(true, Some("/srv")));
    let p = a.view_service_tab();
    assert_eq!(p.status.text, "active (running)");
    assert_eq!(p.folder, Some("Working directory: /srv".into()));
    assert_eq!(p.control.len(), 3);
    assert!(p.editor && p.remove.is_some());
    a.service = Some(service(false, None));
    let p = a.view_service_tab();
    assert_eq!(p.status.text, "inactive (running)");
    assert_eq!(p.folder, Some("Working directory: unknown".into()));
}

#[test]
fn only_the_tails_of_the_logs_are_shown() {
    let mut a = app();
    let p = a.view_running_tab();
    assert_eq!((p.log.as_str(), p.status.text.as_str()), ("Waiting...", "Hit Launch to start Sapphire."));
    assert!(p.buttons[0].sends.is_none());
    assert_eq!(p.buttons[1].text, "Open log");
    send(&mut a, Message::SapphireLines((0..1000).map(|i| i.to_string()).collect()));
    let p = a.view_running_tab();
    assert!(p.log.starts_with("200\n201\n") && p.log.ends_with("\n999"));
    assert_eq!(p.status.text, "Sapphire stopped");
    for i in 0..400 {
        send(&mut a, Message::Log(i.to_string()));
    }
    let l = a.view_log_panel();
    assert_eq!(l.toggle.text, "[-] Log");
    assert!(l.log.unwrap().starts_with("100\n"));
    send(&mut a, Message::ToggleLog);
    assert!(a.view_log_panel().log.is_none());
}
