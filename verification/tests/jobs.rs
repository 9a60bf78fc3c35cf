use sapphire_launcher::ask::{Next, Reply, Request};
use sapphire_launcher::host::{Host, Platform};
use sapphire_launcher::install::{choose_packages, miniconda_url, system_packages_plan, InstallJob};
use sapphire_launcher::job::{install_service, remove_service, Job};
use sapphire_launcher::locate::{place_command, search_of, Found};
use sapphire_launcher::message::Message;
use sapphire_launcher::output::output_from;
use sapphire_launcher::parts::{named_cmd, Branch, Cmd, Program, Step};
use sapphire_launcher::scan::{
    judge_packages, lists_env, read_first_package, step_label, ScanJob,
};
use sapphire_launcher::service::{
    detect_sapphire_service, register_text, shim_text, systemd_user_available, unit_text, Action,
    ServiceJob,
};
use sapphire_launcher::troubleshoot::{read_packages, TsJob};
use sapphire_launcher::upkeep::{AfterStop, ResetJob, Secret, UninstallJob, UpdateJob, WaitJob};

fn host(platform: Platform) -> Host {
    Host {
        platform,
        home: Some("/home/ada".into()),
        user_profile: Some("C:\\Users\\Ada".into()),
        app_data: Some("C:\\Data".into()),
        xdg_config_home: None,
        user_domain: "PC".into(),
        user_name: "Ada".into(),
        temp_dir: if platform == Platform::Linux { "/tmp".into() } else { "C:\\Temp".into() },
    }
}

fn shown(c: &Cmd) -> String {
    let name = match &c.program {
        Program::Named(s) => s.clone(),
        other => format!("{other:?}").to_lowercase(),
    };
    format!("{} {}", name, c.args.join(" ")).trim_end().to_string()
}

fn asked(r: &Request) -> String {
    match r {
        Request::Run(c) => shown(c),
        Request::RunLive(c) => format!("live {}", shown(c)),
        Request::Probe(l) => format!("probe {}", l.join(" ")),
        Request::DirEmpty(p) => format!("empty {p}"),
        Request::Read(p) => format!("read {p}"),
        Request::CreateDir(p) => format!("mkdir {p}"),
        Request::Write(p, s) => format!("write {p} {}", s.len()),
        Request::RemoveDir(p) => format!("rmdir {p}"),
        Request::RemoveFile(p) => format!("rm {p}"),
        Request::CopyFile(p, q) => format!("cp {p} {q}"),
        Request::Protect(p) => format!("protect {p}"),
        Request::Sleep(ms) => format!("sleep {ms}"),
        Request::Gigabytes(s) => format!("gigabytes {s}"),
    }
}

fn ok(text: &str) -> Reply {
    Reply::Output(output_from(true, Some(0), text.as_bytes(), b""))
}

fn bad(text: &str) -> Reply {
    Reply::Output(output_from(false, Some(1), b"", text.as_bytes()))
}

fn yes() -> Reply {
    Reply::Found(vec![true])
}

fn no() -> Reply {
    Reply::Found(vec![false, false])
}

/// Runs a job with these replies; what it asked for, and its message.
fn drive(platform: Platform, job: Job, replies: Vec<Reply>) -> (Vec<String>, String) {
    let h = host(platform);
    let mut log = Vec::new();
    let mut replies = replies.into_iter();
    let mut next = job.advance(&h, &Reply::Begin);
    loop {
        match next {
            Next::Finish(m) => return (log, format!("{m:?}")),
            Next::Ask(request, job) => {
                log.push(asked(&request));
                let reply = replies.next().expect("another reply");
                next = job.advance(&h, &reply);
            }
        }
    }
}

fn linux(job: Job, replies: Vec<Reply>) -> (Vec<String>, String) {
    drive(Platform::Linux, job, replies)
}

fn win(job: Job, replies: Vec<Reply>) -> (Vec<String>, String) {
    drive(Platform::Windows, job, replies)
}

// Scanning

#[test]
fn step_names_depend_on_the_platform() {
    assert_eq!(step_label(Platform::Windows, Step::Git), "Check for Git");
    assert_eq!(step_label(Platform::Linux, Step::Git), "Check system packages (git, audio, curl)");
    assert_eq!(step_label(Platform::Linux, Step::Done), "Done!");
}

#[test]
fn git_is_found_on_windows() {
    let (log, m) = win(Job::Scan(ScanJob::Git), vec![ok("git version 2.44\n")]);
    assert_eq!(log, vec!["git --version"]);
    assert_eq!(m, "StepResult(Git, Found(\"git version 2.44\"))");
    let (_, m) = win(Job::Scan(ScanJob::Git), vec![bad("no")]);
    assert_eq!(m, "StepResult(Git, NotFound(\"Git not found — we'll install it\"))");
}

#[test]
fn system_packages_are_all_needed() {
    let (log, m) = linux(Job::Scan(ScanJob::Git), vec![ok("git"), ok(""), ok("")]);
    assert_eq!(log.len(), 3);
    assert_eq!(log[1], "sh -c ldconfig -p 2>/dev/null | grep -qi portaudio");
    assert_eq!(m, "StepResult(Git, Found(\"git, audio libraries, and curl present\"))");
    let (_, m) = linux(Job::Scan(ScanJob::Git), vec![bad(""), ok(""), bad("")]);
    assert!(m.contains("Missing git, curl — Go opens"), "{m}");
    assert!(format!("{:?}", judge_packages(true, false, true))
        .contains("Missing audio libs (libportaudio) — Go"));
}

#[test]
fn conda_is_found_in_its_usual_places() {
    let (_, m) = linux(Job::Scan(ScanJob::Conda), vec![ok("conda 24.1\n")]);
    assert_eq!(m, "StepResult(Conda, Found(\"conda 24.1\"))");
    let (log, m) = linux(
        Job::Scan(ScanJob::Conda),
        vec![Reply::Failed("no such file".into()), Reply::Found(vec![false, true, false, false])],
    );
    assert!(log[1].starts_with("probe /home/ada/miniconda3/bin/conda "));
    assert_eq!(m, "StepResult(Conda, Found(\"Found at /home/ada/anaconda3/bin/conda\"))");
    let (_, m) = linux(Job::Scan(ScanJob::Conda), vec![bad(""), no()]);
    assert!(m.contains("Miniconda not found — we'll install it"));
}

#[test]
fn conda_init_and_the_environment_are_checked() {
    let (log, m) = linux(Job::Scan(ScanJob::CondaInit), vec![ok("{}")]);
    assert_eq!(log, vec!["conda info --json"]);
    assert!(m.contains("Found(\"Conda is initialized\")"));
    let (_, m) = linux(Job::Scan(ScanJob::CondaInit), vec![bad("")]);
    assert!(m.contains("Will run conda init after install"));
    let list = "# envs\nbase  /x\nsapphire  /x/envs/sapphire";
    let (_, m) = linux(Job::Scan(ScanJob::PythonEnv), vec![ok(list)]);
    assert!(m.contains("'sapphire' environment exists"));
    let (_, m) = linux(Job::Scan(ScanJob::PythonEnv), vec![ok("sapphire2 /x")]);
    assert!(m.contains("Will create 'sapphire' Python 3.11 environment"));
    let (_, m) = linux(Job::Scan(ScanJob::PythonEnv), vec![bad("")]);
    assert!(m.contains("Need conda first"));
    assert!(lists_env("sapphire\t/x") && !lists_env(" sapphire /x"));
}

#[test]
fn the_repository_is_checked() {
    let (log, m) = linux(Job::Scan(ScanJob::Clone("/s".into())), vec![Reply::Found(vec![true, true])]);
    assert_eq!(log, vec!["probe /s/.git /s"]);
    assert!(m.contains("Repo already at /s"));
    let (_, m) = linux(Job::Scan(ScanJob::Clone("/s".into())), vec![Reply::Found(vec![false, true])]);
    assert!(m.contains("Folder exists but no git repo — will clone into /s"));
    let (_, m) = linux(Job::Scan(ScanJob::Clone("/s".into())), vec![no()]);
    assert!(m.contains("Will clone Sapphire into /s"));
}

#[test]
fn dependencies_are_probed_by_the_first_package() {
    let file = "# comment\n-r base.txt\n\n  torch[cuda]>=2 ; x\nnumpy\n";
    let job = || Job::Scan(ScanJob::Deps("/s".into()));
    let (log, m) = linux(job(), vec![yes(), Reply::Text(Some(file.into())), ok("Name: torch")]);
    assert_eq!(log, vec!["probe /s/requirements.txt", "read /s/requirements.txt", "pip show torch"]);
    assert!(m.contains("Found(\"Dependencies installed\")"));
    let (log, m) = linux(job(), vec![yes(), Reply::Text(Some("torch~=2.0\n".into())), ok("")]);
    assert_eq!(log[2], "pip show torch");
    assert!(m.contains("Found(\"Dependencies installed\")"));
    let (_, m) = linux(job(), vec![yes(), Reply::Text(Some(file.into())), bad("")]);
    assert!(m.contains("Dependencies missing (no 'torch') — will install"));
    let (_, m) = linux(job(), vec![no()]);
    assert!(m.contains("Will install after cloning"));
    let (_, m) = linux(job(), vec![yes(), Reply::Text(None)]);
    assert!(m.contains("requirements.txt is empty — nothing to install"));
    assert_eq!(read_first_package(">=1\n"), Some("".into()));
    assert_eq!(read_first_package("# x\n"), None);
}

// Installing

#[test]
fn the_package_manager_is_chosen_by_distribution() {
    let (args, manual) = system_packages_plan("NAME=\"Pop\"\nID=pop\nID_LIKE=\"Ubuntu Debian\"\n");
    assert_eq!(args[0], "apt-get");
    assert_eq!(manual, "sudo apt install git libportaudio2 python3-dev curl");
    assert_eq!(system_packages_plan("ID=FEDORA\n").0[0], "dnf");
    assert_eq!(system_packages_plan("ID=\"centos\"\nID_LIKE=\"rhel fedora\"").0[0], "dnf");
    assert_eq!(system_packages_plan("ID=arch").0, vec!["pacman", "-S", "--noconfirm", "git", "portaudio", "curl"]);
    assert_eq!(system_packages_plan("ID=\"opensuse-leap\"").0[0], "zypper");
    assert!(system_packages_plan("ID=haiku").0.is_empty());
    assert!(system_packages_plan("").0.is_empty());
    assert_eq!(choose_packages("x suse").0[4], "libportaudio2");
}

#[test]
fn system_packages_are_installed_with_the_desktops_own_prompt() {
    let (log, m) = linux(
        Job::Install(InstallJob::Git),
        vec![Reply::Text(Some("ID=arch\n".into())), ok("done")],
    );
    assert_eq!(log, vec!["read /etc/os-release", "pkexec pacman -S --noconfirm git portaudio curl"]);
    assert!(m.contains("Done(\"System packages installed (git, audio libs).\"), \"done\""));
    let (_, m) = linux(Job::Install(InstallJob::Git), vec![Reply::Text(Some("ID=arch".into())), bad("denied")]);
    assert!(m.contains("then Re-scan:  sudo pacman -S git portaudio curl\"), \"denied\""));
    let (log, m) = linux(Job::Install(InstallJob::Git), vec![Reply::Text(None)]);
    assert_eq!(log.len(), 1);
    assert!(m.contains("Couldn't detect your package manager."));
}

#[test]
fn winget_installs_on_windows() {
    let (log, m) = win(Job::Install(InstallJob::Git), vec![ok("ok")]);
    assert_eq!(
        log,
        vec!["winget install Git.Git --accept-source-agreements --accept-package-agreements"]
    );
    assert!(m.contains("Done(\"Git installed!"));
    let (_, m) = win(Job::Install(InstallJob::Git), vec![bad("already installed")]);
    assert!(m.contains("Done(\"Git is already installed\")"));
    let (_, m) = win(Job::Install(InstallJob::Conda), vec![bad("boom")]);
    assert!(m.contains("Failed(\"Couldn't install Miniconda — try installing it manually. boom\")"));
}

#[test]
fn miniconda_is_downloaded_and_run() {
    assert!(miniconda_url(" arm64\n").ends_with("Linux-aarch64.sh"));
    let (log, m) = linux(Job::Install(InstallJob::Conda), vec![ok("x86_64\n"), ok(""), ok("done")]);
    assert_eq!(log[0], "uname -m");
    assert_eq!(
        log[1],
        "curl -fsSL -o /tmp/miniconda-installer.sh https://repo.anaconda.com/miniconda/Miniconda3-latest-Linux-x86_64.sh"
    );
    assert_eq!(log[2], "bash /tmp/miniconda-installer.sh -b -p /home/ada/miniconda3");
    assert!(m.contains("Miniconda installed into ~/miniconda3"));
    let (log, m) = linux(
        Job::Install(InstallJob::Conda),
        vec![bad(""), bad("no curl"), ok(""), bad("ERROR: File or directory already exists")],
    );
    assert!(log[2].starts_with("wget -qO /tmp/miniconda-installer.sh "));
    assert!(m.contains("Done(\"Miniconda already installed\")"));
    let (_, m) = linux(Job::Install(InstallJob::Conda), vec![ok("x"), bad("a"), bad("b")]);
    assert!(m.contains("(need curl or wget): b"));
}

#[test]
fn conda_is_initialized_after_the_terms() {
    let (log, m) = linux(
        Job::Install(InstallJob::CondaInit),
        vec![bad(""), ok(""), ok(""), ok("modified")],
    );
    assert_eq!(log.len(), 4);
    assert_eq!(
        log[2],
        "conda tos accept --override-channels --channel https://repo.anaconda.com/pkgs/msys2"
    );
    assert_eq!(log[3], "conda init");
    assert!(m.contains("Done(\"Conda initialized\")"));
    let (log, m) = linux(Job::Install(InstallJob::PythonEnv), vec![bad("prefix already exists")]);
    assert_eq!(log, vec!["conda create -n sapphire python=3.11 -y"]);
    assert!(m.contains("Environment 'sapphire' already exists"));
}

#[test]
fn a_folder_with_files_is_not_cloned_into() {
    let job = || Job::Install(InstallJob::Clone("/s".into(), Branch::Development));
    let (log, m) = linux(job(), vec![Reply::Found(vec![false, true]), Reply::Found(vec![false])]);
    assert_eq!(log, vec!["probe /s/.git /s", "empty /s"]);
    assert!(m.contains("Folder /s already exists and has files in it."));
    let (log, m) = linux(job(), vec![Reply::Found(vec![false, true]), yes(), ok("Cloning")]);
    assert_eq!(log[2], "git clone --branch dev https://github.com/ddxfish/sapphire.git /s");
    assert!(m.contains("Cloned Sapphire (dev) into /s"));
    let (log, m) = linux(job(), vec![Reply::Found(vec![true, true]), bad("ignored")]);
    assert_eq!(log[1], "git -C /s checkout dev");
    assert!(m.contains("Repo exists, switched to dev branch"));
    let (_, m) = linux(job(), vec![no(), bad("net")]);
    assert!(m.contains("Failed(\"Clone failed: net\"), \"net\""));
}

#[test]
fn dependencies_are_installed_live() {
    let job = || Job::Install(InstallJob::Deps("/s".into()));
    let (log, m) = linux(job(), vec![yes(), ok("shown already")]);
    assert_eq!(log[1], "live pip install -r /s/requirements.txt");
    assert_eq!(m, "InstallStepResult(Deps, Done(\"Dependencies installed\"), \"\")");
    let (_, m) = linux(job(), vec![yes(), bad("x")]);
    assert!(m.contains("Failed(\"pip install failed: exit code 1\"), \"\""));
    let (_, m) = linux(job(), vec![no()]);
    assert!(m.contains("requirements.txt not found — clone may have failed"));
}

// Upkeep

#[test]
fn the_environment_is_removed() {
    let (log, m) = linux(Job::Uninstall(UninstallJob::RemoveEnv), vec![ok("gone")]);
    assert_eq!(log, vec!["conda remove -n sapphire --all -y"]);
    assert_eq!(m, "UninstallResult(\"Removed conda environment 'sapphire'.\\ngone\", true)");
    let (_, m) = linux(Job::Uninstall(UninstallJob::RemoveEnv), vec![bad("does not exist")]);
    assert!(m.contains("nothing to remove.\", true"));
    let (_, m) = linux(Job::Uninstall(UninstallJob::RemoveEnv), vec![bad("boom")]);
    assert!(m.contains("Failed to remove conda environment: boom\", false"));
}

#[test]
fn folders_are_deleted() {
    let (log, m) = linux(
        Job::Uninstall(UninstallJob::DeleteFolder("/s".into())),
        vec![yes(), Reply::Done(None)],
    );
    assert_eq!(log, vec!["probe /s", "rmdir /s"]);
    assert_eq!(m, "UninstallResult(\"Deleted /s\", true)");
    let (log, m) = linux(Job::Uninstall(UninstallJob::DeleteFolder("/s".into())), vec![no()]);
    assert_eq!(log.len(), 1);
    assert!(m.contains("Folder /s doesn't exist"));
    let (log, m) = linux(
        Job::Uninstall(UninstallJob::DeleteUserdata("/s".into())),
        vec![yes(), Reply::Done(Some("busy".into()))],
    );
    assert_eq!(log[1], "rmdir /s/user");
    assert!(m.contains("Couldn't delete /s\\\\user: busy\", false"), "{m}");
}

#[test]
fn updates_are_counted() {
    let job = || Job::Update(UpdateJob::CheckUpdates("/s".into(), Branch::Stable));
    let (log, m) = linux(job(), vec![yes(), bad("offline"), ok("12\n")]);
    assert_eq!(log[1], "git -C /s fetch origin");
    assert_eq!(log[2], "git -C /s rev-list --count HEAD..origin/main");
    assert_eq!(m, "UpdatesAvailable(Some(12))");
    assert_eq!(linux(job(), vec![no()]).1, "UpdatesAvailable(None)");
    assert_eq!(linux(job(), vec![yes(), ok(""), ok("x")]).1, "UpdatesAvailable(None)");
    assert_eq!(linux(job(), vec![yes(), ok(""), bad("")]).1, "UpdatesAvailable(None)");
}

#[test]
fn local_changes_are_put_aside_before_a_pull() {
    let job = || Job::Update(UpdateJob::Pull("/s".into()));
    let (log, m) = linux(job(), vec![ok(" M main.py\n"), ok(""), ok("Updating 1..2\nmore")]);
    assert_eq!(log[0], "git -C /s status --porcelain");
    assert_eq!(log[1], "git -C /s stash push -m sapphire-launcher auto-stash before update");
    assert_eq!(log[2], "git -C /s pull");
    assert!(m.contains("pull: Updating 1..2 (your local changes were stashed"));
    let (log, m) = linux(job(), vec![ok(" M x\n"), bad("locked")]);
    assert_eq!(log.len(), 2);
    assert!(m.contains("Couldn't stash local changes: locked\", false"));
    let (log, m) = linux(job(), vec![ok("\n"), ok("Already up to date.")]);
    assert_eq!(log.len(), 2);
    assert_eq!(m, "UpdateStepDone(\"pull: Already up to date.\", true)");
    let (_, m) = linux(job(), vec![bad(""), bad("diverged")]);
    assert!(m.contains("pull failed: diverged\", false"));
    let (log, m) = linux(Job::Update(UpdateJob::UpdateDeps("/s".into())), vec![bad("x")]);
    assert_eq!(log, vec!["pip install -r /s/requirements.txt"]);
    assert!(m.contains("pip install failed: x\", false"));
}

#[test]
fn secrets_are_reset() {
    let (log, m) = linux(Job::Reset(ResetJob::Begin(Secret::Password)), vec![yes(), Reply::Done(None)]);
    assert_eq!(log[1], "rm /home/ada/.config/sapphire/secret_key");
    assert!(m.contains("Password reset."));
    let (_, m) = linux(Job::Reset(ResetJob::Begin(Secret::Credentials)), vec![no()]);
    assert!(m.contains("No credentials file found — nothing to reset."));
    let (_, m) = linux(
        Job::Reset(ResetJob::Begin(Secret::Credentials)),
        vec![yes(), Reply::Done(Some("denied".into()))],
    );
    assert!(m.contains("Couldn't delete /home/ada/.config/sapphire/credentials.json: denied"));
}

#[test]
fn waiting_ends_after_twenty_questions() {
    let mut replies = Vec::new();
    for _ in 0..20 {
        replies.push(Reply::Done(None));
        replies.push(ok("{\"status\":\"ok\"}"));
    }
    let (log, m) = linux(Job::Wait(WaitJob::Await(AfterStop::Tell)), replies);
    assert_eq!(log.len(), 40);
    assert_eq!(log[0], "sleep 500");
    assert_eq!(m, "SapphireStopConfirmed");
    let (log, m) = linux(Job::Wait(WaitJob::Await(AfterStop::Update)), vec![Reply::Done(None), bad("")]);
    assert_eq!(log.len(), 2);
    assert_eq!(m, "UpdateAfterStop");
}

#[test]
fn a_branch_is_checked_out_once_sapphire_is_down() {
    let job = || Job::Wait(WaitJob::Switch("/s".into(), Branch::Stable));
    let (log, m) = linux(job(), vec![ok("ok"), Reply::Done(None), bad(""), ok("Switched")]);
    assert_eq!(log[1], "sleep 500");
    assert_eq!(log[3], "git -C /s checkout main");
    assert_eq!(m, "SwitchBranchResult(\"Switched to main: Switched\", true)");
    let mut replies = Vec::new();
    for _ in 0..20 {
        replies.push(ok("ok"));
        replies.push(Reply::Done(None));
    }
    replies.push(bad("dirty"));
    let (log, m) = linux(job(), replies);
    assert_eq!(log.len(), 41);
    assert_eq!(m, "SwitchBranchResult(\"Branch switch failed: dirty\", false)");
}

#[test]
fn a_running_sapphire_is_noticed() {
    let (log, m) = linux(Job::Wait(WaitJob::PreCheck(true)), vec![ok("ok")]);
    assert!(log[0].contains("--max-time 3"));
    assert_eq!(m, "LaunchPreCheck(true, true)");
    assert_eq!(linux(Job::Wait(WaitJob::PreCheck(false)), vec![ok("x")]).1, "LaunchPreCheck(false, false)");
}

// Troubleshooting

#[test]
fn health_is_judged() {
    let run = |r| linux(Job::Troubleshoot(TsJob::Running), vec![r]).1;
    assert!(run(ok("ok")).contains("Fine(\"Sapphire is responding\")"));
    assert!(run(ok("hm")).contains("Problem(\"Sapphire responded but health check failed\")"));
    assert!(run(bad("")).contains("Problem(\"Can't reach Sapphire — is it running?\")"));
}

#[test]
fn the_web_ui_is_judged_by_its_code() {
    let run = |r| linux(Job::Troubleshoot(TsJob::WebUi), vec![r]);
    let (log, m) = run(ok("noise200\n"));
    assert!(log[0].contains("-o /dev/null -w %{http_code} -L"));
    assert!(m.contains("Web UI is loading fine"));
    assert!(run(ok("500")).1.contains("Web UI returns error 500"));
    assert!(run(ok("404")).1.contains("Web UI returned HTTP 404"));
    assert!(run(bad("")).1.contains("Can't reach web UI"));
    assert!(win(Job::Troubleshoot(TsJob::WebUi), vec![ok("200")]).0[0].contains("-o NUL"));
}

#[test]
fn package_health_is_judged() {
    let run = |r| linux(Job::Troubleshoot(TsJob::Deps), vec![r]).1;
    assert!(run(ok("No broken requirements found.")).contains("All dependencies look good"));
    assert!(run(ok("odd")).contains("Broken packages:\\nodd"));
    let long = "a has requirement b\n2\n3\n4\n5\n6";
    assert!(run(bad(long)).contains("Broken packages:\\na has requirement b\\n2\\n3\\n4\\n5\""));
    assert!(run(bad("no pip")).contains("Couldn't check: no pip"));
}

#[test]
fn optional_features_are_told_one_by_one() {
    let job = || Job::Troubleshoot(TsJob::Plugins("/s".into()));
    let (log, m) = linux(
        job(),
        vec![
            yes(),
            Reply::Text(Some("# stt\nfaster-whisper>=1\nav==12\n".into())),
            ok(""),
            bad(""),
            Reply::Text(None),
            Reply::Text(Some("openwakeword\n".into())),
            ok(""),
        ],
    );
    assert_eq!(
        log,
        vec![
            "probe /s/install",
            "read /s/install/requirements-stt.txt",
            "pip show faster-whisper",
            "pip show av",
            "read /s/install/requirements-tts.txt",
            "read /s/install/requirements-wakeword.txt",
            "pip show openwakeword",
        ]
    );
    assert_eq!(
        m,
        "TroubleshootResult(Plugins, Problem(\"Speech-to-Text: missing av | Wake Word: installed\"))"
    );
    assert!(linux(job(), vec![no()]).1.contains("Fine(\"No optional features found\")"));
    let none = vec![yes(), Reply::Text(None), Reply::Text(None), Reply::Text(None)];
    assert!(linux(job(), none).1.contains("Fine(\"No optional features found\")"));
    assert_eq!(read_packages(" a>=1\n#x\n\nb[c]\n"), vec!["a", "b"]);
    assert_eq!(
        read_packages("-r x.txt\n-e git+https://example.org/a@main[b]\n--pre \ngit+x\n"),
        vec!["-r x.txt", "-e git+https://example.org/a@main", "--pre", "git+x"]
    );
}

#[test]
fn the_graphics_card_is_told() {
    let (log, m) = linux(
        Job::Troubleshoot(TsJob::Gpu),
        vec![ok("RTX 4090, 24564\n"), Reply::Text(Some("24".into()))],
    );
    assert_eq!(log[1], "gigabytes 24564");
    assert!(m.contains("Fine(\"RTX 4090 (24 GB) — voice features will use GPU\")"));
    assert!(linux(Job::Troubleshoot(TsJob::Gpu), vec![ok("odd")]).1.contains("NVIDIA GPU found: odd"));
    assert!(linux(Job::Troubleshoot(TsJob::Gpu), vec![bad("")]).1.contains("No NVIDIA GPU found"));
}

#[test]
fn repairs_run_pip() {
    let (log, m) = linux(Job::Troubleshoot(TsJob::FixDeps("/s".into())), vec![ok("")]);
    assert_eq!(log, vec!["pip install -r /s/requirements.txt"]);
    assert!(m.contains("TroubleshootFixResult(DepsHealth, \"Repaired! Restart Sapphire to apply.\", true)"));
    let (log, m) = linux(
        Job::Troubleshoot(TsJob::FixPlugins("/s".into())),
        vec![yes(), ok(""), no(), yes(), ok("")],
    );
    assert_eq!(log[1], "pip install -r /s/install/requirements-stt.txt");
    assert_eq!(log[4], "pip install -r /s/install/requirements-wakeword.txt");
    assert!(m.contains("All optional features installed."));
    let (_, m) = linux(Job::Troubleshoot(TsJob::FixPlugins("/s".into())), vec![yes(), bad("x")]);
    assert!(m.contains("Failed on requirements-stt.txt: x\", false"));
}

// The service

#[test]
fn a_loaded_unit_is_a_service() {
    let text = b"LoadState=loaded\nActiveState=active\nSubState=running\nUnitFileState=enabled\nWorkingDirectory=/s\n";
    let out = Some(output_from(true, Some(0), text, b""));
    let info = detect_sapphire_service(Platform::Linux, &out).unwrap();
    assert!(info.active && info.enabled);
    assert_eq!(info.sub_state, "running");
    assert_eq!(info.working_dir, Some("/s".into()));
    assert!(detect_sapphire_service(Platform::Windows, &out).is_none());
    assert!(detect_sapphire_service(Platform::Linux, &None).is_none());
    let gone = Some(output_from(true, Some(0), b"LoadState=not-found\nActiveState=inactive\n", b""));
    assert!(detect_sapphire_service(Platform::Linux, &gone).is_none());
    let bare = Some(output_from(true, Some(0), b"LoadState=loaded\nActiveState=failed\nWorkingDirectory=\n", b""));
    let info = detect_sapphire_service(Platform::Linux, &bare).unwrap();
    assert!(!info.active && !info.enabled && info.working_dir.is_none());
    assert_eq!(info.active_state, "failed");
}

#[test]
fn systemd_is_asked_for() {
    let good = Some(output_from(true, Some(0), b"", b""));
    assert!(systemd_user_available(Platform::Linux, &good));
    assert!(!systemd_user_available(Platform::Windows, &good));
    assert!(!systemd_user_available(Platform::Linux, &Some(output_from(false, Some(1), b"", b""))));
    assert!(!systemd_user_available(Platform::Linux, &None));
    let (log, m) = linux(Job::Service(ServiceJob::FindSystemd), vec![ok("")]);
    assert_eq!(log, vec!["systemctl --user show-environment"]);
    assert_eq!(m, "SystemdChecked(true)");
    assert_eq!(win(Job::Service(ServiceJob::FindSystemd), vec![]).1, "SystemdChecked(false)");
}

#[test]
fn the_service_is_looked_for() {
    let (_, m) = linux(Job::Service(ServiceJob::Detect(true)), vec![Reply::Failed("no".into())]);
    assert_eq!(m, "ServiceDetected(None)");
    let (_, m) = linux(Job::Service(ServiceJob::Detect(false)), vec![ok("LoadState=loaded\nSubState=dead")]);
    assert!(m.starts_with("ServiceRefreshed(Some("));
    assert_eq!(win(Job::Service(ServiceJob::Detect(true)), vec![]).1, "ServiceDetected(None)");
}

#[test]
fn the_environment_file_is_written_and_protected() {
    let (log, m) = linux(
        Job::Service(ServiceJob::WriteEnv("A=1\n".into())),
        vec![Reply::Done(None), Reply::Done(None), Reply::Done(None)],
    );
    assert_eq!(
        log,
        vec![
            "mkdir /home/ada/.config/sapphire",
            "write /home/ada/.config/sapphire/service.env 4",
            "protect /home/ada/.config/sapphire/service.env",
        ]
    );
    assert_eq!(m, "EnvSaved(true)");
    let (_, m) = linux(
        Job::Service(ServiceJob::WriteEnv("".into())),
        vec![Reply::Done(None), Reply::Done(None), Reply::Done(Some("odd".into()))],
    );
    assert_eq!(m, "EnvSaved(false)");
    let (log, m) = linux(Job::Service(ServiceJob::WriteEnv("".into())), vec![Reply::Done(Some("x".into()))]);
    assert_eq!((log.len(), m.as_str()), (1, "EnvSaved(false)"));
    assert_eq!(win(Job::Service(ServiceJob::WriteEnv("".into())), vec![]).1, "EnvSaved(false)");
    let (_, m) = linux(Job::Service(ServiceJob::ReadEnv), vec![Reply::Text(Some("K=V".into()))]);
    assert_eq!(m, "EnvLoaded(\"K=V\")");
    assert_eq!(linux(Job::Service(ServiceJob::ReadEnv), vec![Reply::Text(None)]).1, "EnvLoaded(\"\")");
}

#[test]
fn actions_drive_the_unit() {
    let (log, m) = linux(Job::Service(ServiceJob::Act(Action::Start)), vec![ok("")]);
    assert_eq!(log, vec!["systemctl --user start sapphire"]);
    assert_eq!(m, "ServiceActionResult(\"Service started.\", true)");
    let (log, m) = linux(Job::Service(ServiceJob::Act(Action::Stop)), vec![bad("x"), Reply::Done(None)]);
    assert_eq!(log[1], "sleep 300");
    assert_eq!(m, "ServiceActionResult(\"Service stop failed: x\", false)");
    let (_, m) = linux(Job::Service(ServiceJob::Act(Action::Enable)), vec![ok("")]);
    assert!(m.contains("Autostart enabled."));
    let (_, m) = linux(Job::Service(ServiceJob::Act(Action::Disable)), vec![bad("y")]);
    assert!(m.contains("Disable failed: y"));
    let (_, m) = linux(Job::Service(ServiceJob::Act(Action::Restart)), vec![ok("")]);
    assert!(m.contains("Service restarted."));
}

#[test]
fn the_unit_is_installed() {
    assert_eq!(
        unit_text("/s", "/py", "/e"),
        "[Unit]\nDescription=Sapphire AI\nAfter=network.target\n\n[Service]\nType=simple\nWorkingDirectory=/s\nExecStart=/py main.py\nRestart=on-failure\nRestartSec=3\nEnvironment=PYTHONUNBUFFERED=1\nEnvironmentFile=-/e\n\n[Install]\nWantedBy=default.target\n"
    );
    let job = || install_service(Platform::Linux, "/s".into());
    let (log, m) = linux(
        job(),
        vec![Reply::Found(vec![false, true]), Reply::Done(None), Reply::Done(None), bad("ignored"), ok("")],
    );
    assert_eq!(log[1], "mkdir /home/ada/.config/systemd/user");
    assert!(log[2].starts_with("write /home/ada/.config/systemd/user/sapphire.service "));
    assert_eq!(log[3], "systemctl --user daemon-reload");
    assert_eq!(log[4], "systemctl --user enable --now sapphire");
    assert!(m.contains("Service created and started.") && m.ends_with("true)"));
    let (_, m) = linux(job(), vec![no()]);
    assert!(m.contains("Couldn't find the Sapphire environment's Python"));
    let (_, m) = linux(job(), vec![yes(), Reply::Done(Some("ro".into()))]);
    assert!(m.contains("Couldn't create /home/ada/.config/systemd/user: ro"));
    let (_, m) = linux(job(), vec![yes(), Reply::Done(None), Reply::Done(Some("full".into()))]);
    assert!(m.contains("Couldn't write /home/ada/.config/systemd/user/sapphire.service: full"));
    let (_, m) = linux(job(), vec![yes(), Reply::Done(None), Reply::Done(None), ok(""), bad("z")]);
    assert!(m.contains("Unit written, but enabling it failed: z"));
}

#[test]
fn the_unit_is_copied_before_it_is_removed() {
    let file = "/home/ada/.config/systemd/user/sapphire.service";
    let (log, m) = linux(
        remove_service(Platform::Linux),
        vec![bad(""), yes(), Reply::Done(None), Reply::Done(None), ok("")],
    );
    assert_eq!(log[2], format!("cp {file} {file}.bak"));
    assert_eq!(log[3], format!("rm {file}"));
    assert!(m.contains("removed (kept a .bak copy).\", true"));
    let (_, m) = linux(
        remove_service(Platform::Linux),
        vec![ok(""), yes(), Reply::Done(None), Reply::Done(Some("busy".into()))],
    );
    assert!(m.contains("Disabled, but couldn't delete"));
    let (log, m) = linux(
        remove_service(Platform::Linux),
        vec![ok(""), yes(), Reply::Done(Some("full".into()))],
    );
    assert_eq!(log.len(), 3);
    assert!(m.contains("Disabled, but couldn't back up") && m.ends_with("full\", false)"));
    let (log, _) = linux(remove_service(Platform::Linux), vec![ok(""), no(), ok("")]);
    assert_eq!(log[2], "systemctl --user daemon-reload");
}

#[test]
fn the_logon_task_is_installed() {
    let job = || install_service(Platform::Windows, "C:\\Sap's".into());
    let done = || Reply::Done(None);
    let (log, m) = win(
        job(),
        vec![Reply::Found(vec![true]), done(), done(), done(), done(), ok(""), done(), done()],
    );
    assert_eq!(log[1], "mkdir C:\\Data\\Sapphire");
    assert_eq!(log[2], "write C:\\Data\\Sapphire\\autostart.log 0");
    assert!(log[3].starts_with("write C:\\Data\\Sapphire\\autostart.pyw "));
    assert!(log[4].starts_with("write C:\\Temp\\sapphire-enable.ps1 "));
    assert!(log[5].starts_with("powershell -NoProfile -Command "));
    assert!(log[5].contains("'-File','C:\\Temp\\sapphire-enable.ps1'; exit $p.ExitCode"));
    assert_eq!(log[7], "write C:\\Data\\Sapphire\\autostart.on 2");
    assert!(m.contains("Autostart enabled"));
    let (log, m) = win(job(), vec![Reply::Found(vec![true]), done(), done(), done(), done(), bad("")]);
    assert_eq!(log.len(), 6);
    assert!(m.contains("the admin prompt may have been declined. Try again"));
    assert!(win(job(), vec![no()]).1.contains("(pythonw.exe) — install Sapphire first."));
    let shim = shim_text("C:\\a \"b\"", "C:\\l");
    assert!(shim.contains("os.chdir(\"C:\\\\a \\\"b\\\"\")\r\n_log = \"C:\\\\l\"\r\n"));
    let script = register_text("p", "s", "it's", "PC\\Ada");
    assert!(script.contains("-Execute 'p' -Argument '\"s\"' -WorkingDirectory 'it''s'\r\n"));
    assert!(script.contains("-UserId 'PC\\Ada' -LogonType Interactive"));
}

#[test]
fn names_are_quoted_for_scripts() {
    let shim = shim_text("C:\\My \"Apps\"\\it's", "l");
    assert!(shim.contains("os.chdir(\"C:\\\\My \\\"Apps\\\"\\\\it's\")\r\n"), "{shim}");
    let script = register_text("'", "a b", "C:\\x", "O'Neil");
    assert!(script.contains("-Execute '''' -Argument '\"a b\"' -WorkingDirectory 'C:\\x'"));
    assert!(script.contains("-AtLogOn -User 'O''Neil'"));
}

#[test]
fn a_declined_prompt_leaves_the_mark() {
    let (log, m) = win(remove_service(Platform::Windows), vec![bad("")]);
    assert_eq!(log.len(), 1);
    assert!(m.contains("Nothing was changed.\", false"));
    let (log, m) = win(remove_service(Platform::Windows), vec![ok(""), Reply::Done(None)]);
    assert_eq!(log[1], "rm C:\\Data\\Sapphire\\autostart.on");
    assert!(m.contains("Autostart removed.\", true"));
}

// Finding programs

fn search(platform: Platform, program: Program, replies: Vec<Reply>) -> (Vec<String>, String) {
    let h = host(platform);
    let mut log = Vec::new();
    let mut replies = replies.into_iter();
    let mut next = search_of(&program).expect("a search").advance(&h, &Reply::Begin);
    loop {
        match next {
            Found::Run(c) => return (log, shown(&c)),
            Found::Ask(request, s) => {
                log.push(asked(&request));
                next = s.advance(&h, &replies.next().expect("another reply"));
            }
        }
    }
}

#[test]
fn git_is_searched_for() {
    let (log, c) = search(Platform::Linux, Program::Git, vec![ok("/usr/bin/git\n"), yes()]);
    assert_eq!(log, vec!["which git", "probe /usr/bin/git"]);
    assert_eq!(c, "/usr/bin/git");
    assert_eq!(search(Platform::Linux, Program::Git, vec![ok("/x\n"), no()]).1, "git");
    assert_eq!(search(Platform::Linux, Program::Git, vec![bad("")]).1, "git");
    let found = Reply::Found(vec![false, true, false, false, false, false]);
    let (_, c) = search(Platform::Windows, Program::Git, vec![found]);
    assert_eq!(c, "C:\\Program Files (x86)\\Git\\cmd\\git.exe");
    let (log, c) = search(Platform::Windows, Program::Git, vec![no(), ok("D:\\git.exe\r\nE:\\x"), yes()]);
    assert_eq!(log[1], "cmd /c where git");
    assert_eq!(c, "D:\\git.exe");
}

#[test]
fn conda_and_pip_are_searched_for() {
    assert_eq!(
        search(Platform::Linux, Program::Conda, vec![yes()]).1,
        "/home/ada/miniconda3/bin/conda"
    );
    let (log, c) = search(Platform::Linux, Program::Conda, vec![no(), ok("/c/conda"), yes()]);
    assert_eq!(log[1], "which conda");
    assert_eq!(c, "/c/conda");
    assert_eq!(search(Platform::Windows, Program::Conda, vec![no()]).1, "conda");
    assert_eq!(
        search(Platform::Linux, Program::Pip, vec![yes()]).1,
        "/home/ada/miniconda3/envs/sapphire/bin/pip"
    );
    assert_eq!(
        search(Platform::Linux, Program::Pip, vec![no(), no(), bad("")]).1,
        "conda run -n sapphire pip"
    );
    assert!(search_of(&Program::Named("x".into())).is_none());
    let whole = place_command(named_cmd("conda", &["run", "pip"]), named_cmd("x", &["show", "y"]));
    assert_eq!(shown(&whole), "conda run pip show y");
}

#[test]
fn messages_can_be_cloned() {
    let m = Message::Log("x".into());
    assert_eq!(format!("{:?}", m.clone()), "Log(\"x\")");
}
