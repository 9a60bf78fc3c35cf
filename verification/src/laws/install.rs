//! What an installation does, step by step.
use super::story::{conda, git, going_on, in_repository, printed, ran_well, story, tool, yes, Story};
use crate::ask::{NextModel, ReplyModel, RequestModel};
use crate::host::{HostModel, Platform};
use crate::install::{install_next, packages_for, InstallJobModel};
use crate::job::JobModel;
use crate::message::MessageModel;
use crate::parts::{Branch, CmdModel, ProgramModel, Step, StepStatusModel};
use crate::text::{joined, occurs, signed_decimal, trimmed};
use vstd::prelude::*;

verus! {

// ── The repository ───────────────────────────────────────────────────────

/// The message that ends the step of the repository.
pub open spec fn repository(status: StepStatusModel, log: Seq<char>) -> Option<MessageModel> {
    Some(MessageModel::InstallStepResult(Step::Clone, status, log))
}

/// The request that clones the branch that the user chose, `main` for the
/// stable one and `dev` for the one in development, from the repository of
/// Sapphire into the folder that the user chose.
pub open spec fn cloning(path: Seq<char>, b: Branch) -> RequestModel {
    git(
        seq![
            "clone"@,
            "--branch"@,
            in_repository(b),
            "https://github.com/ddxfish/sapphire.git"@,
            path,
        ],
    )
}

/// How a clone ends: with success exactly where git said so, and then with
/// the branch and the folder that were chosen.
pub open spec fn cloned(path: Seq<char>, b: Branch, r: ReplyModel) -> MessageModel {
    MessageModel::InstallStepResult(
        Step::Clone,
        if ran_well(r) {
            StepStatusModel::Done("Cloned Sapphire ("@ + in_repository(b) + ") into "@ + path)
        } else {
            StepStatusModel::Failed("Clone failed: "@ + printed(r))
        },
        printed(r),
    )
}

/// Where there is nothing yet, the branch that was chosen is cloned to the
/// path that was chosen.
#[verifier::spinoff_prover]
#[verifier::rlimit(60)]
pub proof fn law_chosen_branch_is_cloned(
    h: HostModel,
    path: Seq<char>,
    b: Branch,
    seen: ReplyModel,
    r: ReplyModel,
)
    requires
        !yes(seen, 0),
        !yes(seen, 1),
    ensures
        story(h, JobModel::Install(InstallJobModel::Clone(path, b)), seq![seen, r]) == (Story {
            asked: seq![
                RequestModel::Probe(seq![h.path(path, ".git"@), path]),
                cloning(path, b),
            ],
            end: Some(cloned(path, b, r)),
        }),
{
    reveal_with_fuel(going_on, 4);
}

/// A folder that is there and holds nothing is cloned into as if it were not
/// there; one that holds something is left alone, and the step fails.
#[verifier::spinoff_prover]
#[verifier::rlimit(60)]
pub proof fn law_folder_is_cloned_into_only_if_empty(
    h: HostModel,
    path: Seq<char>,
    b: Branch,
    seen: ReplyModel,
    empty: ReplyModel,
    r: ReplyModel,
)
    requires
        !yes(seen, 0),
        yes(seen, 1),
    ensures
        ({
            let s = story(
                h,
                JobModel::Install(InstallJobModel::Clone(path, b)),
                seq![seen, empty, r],
            );
            let looked = seq![
                RequestModel::Probe(seq![h.path(path, ".git"@), path]),
                RequestModel::DirEmpty(path),
            ];
            if yes(empty, 0) {
                s == (Story {
                    asked: looked.push(cloning(path, b)),
                    end: Some(cloned(path, b, r)),
                })
            } else {
                s.asked == looked && s.end == repository(
                    StepStatusModel::Failed(
                        "Folder "@ + path
                            + " already exists and has files in it. Move or rename it first."@,
                    ),
                    ""@,
                )
            }
        }),
{
    reveal_with_fuel(going_on, 5);
}

/// A repository that is there is not cloned again: the branch that was
/// chosen is checked out in it.
#[verifier::spinoff_prover]
#[verifier::rlimit(60)]
pub proof fn law_repository_is_put_on_the_chosen_branch(
    h: HostModel,
    path: Seq<char>,
    b: Branch,
    seen: ReplyModel,
    r: ReplyModel,
)
    requires
        yes(seen, 0),
    ensures
        ({
            let s = story(
                h,
                JobModel::Install(InstallJobModel::Clone(path, b)),
                seq![seen, r],
            );
            &&& s.asked == seq![
                RequestModel::Probe(seq![h.path(path, ".git"@), path]),
                git(seq!["-C"@, path, "checkout"@, in_repository(b)]),
            ]
            &&& s.end == repository(
                StepStatusModel::Done(
                    "Repo exists, switched to "@ + in_repository(b) + " branch"@,
                ),
                ""@,
            )
        }),
{
    reveal_with_fuel(going_on, 4);
}

/// The branch that an install job was given, if it is about the repository.
pub open spec fn branch_of(job: InstallJobModel) -> Option<Branch> {
    match job {
        InstallJobModel::Clone(_, b)
        | InstallJobModel::CloneSeen(_, b)
        | InstallJobModel::CloneEmpty(_, b)
        | InstallJobModel::CheckedOut(b)
        | InstallJobModel::Cloned(_, b) => Some(b),
        _ => None,
    }
}

/// The path that an install job was given, if it has not done with it.
pub open spec fn path_of(job: InstallJobModel) -> Option<Seq<char>> {
    match job {
        InstallJobModel::Clone(p, _)
        | InstallJobModel::CloneSeen(p, _)
        | InstallJobModel::CloneEmpty(p, _)
        | InstallJobModel::Cloned(p, _)
        | InstallJobModel::Deps(p)
        | InstallJobModel::DepsSeen(p) => Some(p),
        _ => None,
    }
}

/// Whatever is answered, an installation uses git for nothing but to clone
/// the chosen branch to the chosen path or to check it out there, and it
/// forgets neither on the way.
pub proof fn law_only_the_chosen_branch_is_asked_for(
    h: HostModel,
    job: InstallJobModel,
    r: ReplyModel,
)
    ensures
        install_next(h, job, r) matches NextModel::Ask(request, next) ==> {
            &&& branch_of(next) == branch_of(job)
            &&& path_of(next) is Some ==> path_of(next) == path_of(job)
            &&& (request matches RequestModel::Run(c) && c.program == ProgramModel::Git) ==> {
                let b = branch_of(job)->0;
                let path = path_of(job)->0;
                &&& branch_of(job) is Some && path_of(job) is Some
                &&& request == cloning(path, b) || request == git(
                    seq!["-C"@, path, "checkout"@, in_repository(b)],
                )
            }
        },
{
}

// ── The dependencies ─────────────────────────────────────────────────────

/// The dependencies are installed from the requirements file in the folder
/// that was chosen, with the pip of Sapphire's environment, and they count as
/// installed exactly where pip exits with success. Without the file nothing
/// is installed and the step fails.
#[verifier::spinoff_prover]
#[verifier::rlimit(60)]
pub proof fn law_dependencies_are_installed(
    h: HostModel,
    path: Seq<char>,
    seen: ReplyModel,
    r: ReplyModel,
)
    ensures
        ({
            let s = story(h, JobModel::Install(InstallJobModel::Deps(path)), seq![seen, r]);
            let file = h.path(path, "requirements.txt"@);
            let end = |status: StepStatusModel|
                Some(MessageModel::InstallStepResult(Step::Deps, status, ""@));
            if !yes(seen, 0) {
                &&& s.asked == seq![RequestModel::Probe(seq![file])]
                &&& s.end == end(
                    StepStatusModel::Failed(
                        "requirements.txt not found — clone may have failed"@,
                    ),
                )
            } else {
                &&& s.asked == seq![
                    RequestModel::Probe(seq![file]),
                    RequestModel::RunLive(
                        CmdModel {
                            program: ProgramModel::Pip,
                            args: seq!["install"@, "-r"@, file],
                        },
                    ),
                ]
                &&& ran_well(r) ==> s.end == end(StepStatusModel::Done("Dependencies installed"@))
                &&& !ran_well(r) ==> (s.end matches Some(
                    MessageModel::InstallStepResult(Step::Deps, StepStatusModel::Failed(_), _),
                ))
                &&& (r matches ReplyModel::Output(o) && !o.success && o.code is Some) ==> s.end
                    == end(
                    StepStatusModel::Failed(
                        "pip install failed: "@ + ("exit code "@ + signed_decimal(
                            (r->Output_0.code->0) as int,
                        )),
                    ),
                )
                &&& r is Failed ==> s.end == end(
                    StepStatusModel::Failed("pip install failed: "@ + r->Failed_0),
                )
            }
        }),
{
    reveal_with_fuel(going_on, 4);
}

// ── Conda and the environment ────────────────────────────────────────────

/// What is said of a step that a command settles.
pub struct Sayings {
    /// The command exited with success.
    pub done: Seq<char>,
    /// The command complained only that it was done before, in these words.
    pub complaint: Seq<char>,
    pub done_before: Seq<char>,
    /// The command failed; its own words follow.
    pub failed: Seq<char>,
}

/// How such a step ends: done exactly where the command exited with success,
/// or complained only that it was done before, and failed otherwise; either
/// way with what was printed.
pub open spec fn settled(step: Step, r: ReplyModel, s: Sayings) -> Option<MessageModel> {
    Some(
        MessageModel::InstallStepResult(
            step,
            if ran_well(r) {
                StepStatusModel::Done(s.done)
            } else if occurs(printed(r), s.complaint) {
                StepStatusModel::Done(s.done_before)
            } else {
                StepStatusModel::Failed(s.failed + printed(r))
            },
            printed(r),
        ),
    )
}

/// The environment is made by conda, under the name that everything else
/// looks for, with Python 3.11; it counts as made where conda says that it is
/// there already.
pub proof fn law_environment_is_created(h: HostModel, r: ReplyModel)
    ensures
        ({
            let s = story(h, JobModel::Install(InstallJobModel::PythonEnv), seq![r]);
            &&& s.asked == seq![
                conda(seq!["create"@, "-n"@, "sapphire"@, "python=3.11"@, "-y"@]),
            ]
            &&& s.end == settled(
                Step::PythonEnv,
                r,
                Sayings {
                    done: "Python 3.11 environment 'sapphire' created"@,
                    complaint: "already exists"@,
                    done_before: "Environment 'sapphire' already exists"@,
                    failed: "Couldn't create Python environment: "@,
                },
            )
        }),
{
    reveal_with_fuel(going_on, 3);
}

/// Conda is initialized after the terms of the three channels were accepted,
/// whatever came of that; it counts as initialized exactly where conda says
/// so.
#[verifier::spinoff_prover]
#[verifier::rlimit(60)]
pub proof fn law_conda_is_initialized(
    h: HostModel,
    a: ReplyModel,
    b: ReplyModel,
    c: ReplyModel,
    r: ReplyModel,
)
    ensures
        ({
            let s = story(h, JobModel::Install(InstallJobModel::CondaInit), seq![a, b, c, r]);
            let terms = |channel: Seq<char>|
                conda(seq!["tos"@, "accept"@, "--override-channels"@, "--channel"@, channel]);
            &&& s.asked == seq![
                terms("https://repo.anaconda.com/pkgs/main"@),
                terms("https://repo.anaconda.com/pkgs/r"@),
                terms("https://repo.anaconda.com/pkgs/msys2"@),
                conda(seq!["init"@]),
            ]
            &&& s.end == Some(
                MessageModel::InstallStepResult(
                    Step::CondaInit,
                    if ran_well(r) {
                        StepStatusModel::Done("Conda initialized"@)
                    } else {
                        StepStatusModel::Failed("Conda init had a problem: "@ + printed(r))
                    },
                    printed(r),
                ),
            )
        }),
{
    reveal_with_fuel(going_on, 6);
}

/// On Windows git and Miniconda are installed by winget, under their names
/// there.
pub proof fn law_winget_installs_on_windows(h: HostModel, r: ReplyModel)
    requires
        h.platform == Platform::Windows,
    ensures
        ({
            let install = |name: Seq<char>|
                tool(
                    "winget"@,
                    seq![
                        "install"@,
                        name,
                        "--accept-source-agreements"@,
                        "--accept-package-agreements"@,
                    ],
                );
            let s = story(h, JobModel::Install(InstallJobModel::Git), seq![r]);
            let t = story(h, JobModel::Install(InstallJobModel::Conda), seq![r]);
            &&& s.asked == seq![install("Git.Git"@)]
            &&& s.end == settled(
                Step::Git,
                r,
                Sayings {
                    done: "Git installed! You may need to restart the launcher for PATH to update."@,
                    complaint: "already installed"@,
                    done_before: "Git is already installed"@,
                    failed: "Couldn't install Git — try installing it manually. "@,
                },
            )
            &&& t.asked == seq![install("Anaconda.Miniconda3"@)]
            &&& t.end == settled(
                Step::Conda,
                r,
                Sayings {
                    done: "Miniconda installed! You may need to restart the launcher for PATH to update."@,
                    complaint: "already installed"@,
                    done_before: "Miniconda is already installed"@,
                    failed: "Couldn't install Miniconda — try installing it manually. "@,
                },
            )
        }),
{
    reveal_with_fuel(going_on, 3);
}

/// On Linux the system packages are installed as root by the package manager
/// that the distribution names; the step is done exactly where that exits
/// with success, and a failure names the command for the user to type.
#[verifier::spinoff_prover]
#[verifier::rlimit(60)]
pub proof fn law_packages_are_installed_on_linux(
    h: HostModel,
    text: Option<Seq<char>>,
    r: ReplyModel,
)
    requires
        h.platform == Platform::Linux,
    ensures
        ({
            let s = story(
                h,
                JobModel::Install(InstallJobModel::Git),
                seq![ReplyModel::Text(text), r],
            );
            let (words, manual) = packages_for(
                crate::install::family_of(
                    match text {
                        Some(text) => text,
                        None => ""@,
                    },
                ),
            );
            let read = RequestModel::Read("/etc/os-release"@);
            if words.len() == 0 {
                s.asked == seq![read] && s.end == Some(
                    MessageModel::InstallStepResult(
                        Step::Git,
                        StepStatusModel::Failed(
                            "Couldn't detect your package manager. Run this yourself, then Re-scan:  "@
                                + manual,
                        ),
                        ""@,
                    ),
                )
            } else {
                s.asked == seq![read, tool("pkexec"@, words)] && s.end == Some(
                    MessageModel::InstallStepResult(
                        Step::Git,
                        if ran_well(r) {
                            StepStatusModel::Done("System packages installed (git, audio libs)."@)
                        } else {
                            StepStatusModel::Failed(
                                "Couldn't install system packages automatically. Run this in a terminal, then Re-scan:  "@
                                    + manual,
                            )
                        },
                        printed(r),
                    ),
                )
            }
        }),
{
    reveal_with_fuel(going_on, 4);
}

/// Is `manual` the command line that asks `manager` for the packages that
/// `words` ask for, after the words that go before them, and are git, curl,
/// the audio library and `headers` among these?
pub open spec fn same_packages(
    words: Seq<Seq<char>>,
    manual: Seq<char>,
    manager: Seq<char>,
    headers: Seq<char>,
) -> bool {
    &&& words.len() > 3
    &&& words.skip(3).contains(headers)
    &&& words.skip(3).contains("git"@)
    &&& words.skip(3).contains("curl"@)
    &&& words.skip(3).contains("portaudio"@) || words.skip(3).contains("libportaudio2"@)
    &&& manual == "sudo "@ + manager + " "@ + joined(words.skip(3), " "@)
}

/// Each distribution family gets its own package manager. Git, curl and the
/// audio library are among what is installed, nothing has to be confirmed on
/// the way, and the user is told the same packages as the package manager.
pub proof fn law_package_manager_fits_the_distribution(family: Seq<char>)
    ensures
        ({
            let (words, manual) = packages_for(family);
            let debian = occurs(family, "debian"@) || occurs(family, "ubuntu"@);
            let redhat = occurs(family, "fedora"@) || occurs(family, "rhel"@) || occurs(
                family,
                "centos"@,
            );
            let arch = occurs(family, "arch"@);
            let suse = occurs(family, "suse"@);
            &&& debian ==> words.take(3) == seq!["apt-get"@, "install"@, "-y"@] && same_packages(
                words,
                manual,
                "apt install"@,
                "python3-dev"@,
            )
            &&& !debian && redhat ==> words.take(3) == seq!["dnf"@, "install"@, "-y"@]
                && same_packages(words, manual, "dnf install"@, "python3-devel"@)
            &&& !debian && !redhat && arch ==> words.take(3) == seq![
                "pacman"@,
                "-S"@,
                "--noconfirm"@,
            ] && same_packages(words, manual, "pacman -S"@, "git"@)
            &&& !debian && !redhat && !arch && suse ==> words.take(3) == seq![
                "zypper"@,
                "install"@,
                "-y"@,
            ] && same_packages(words, manual, "zypper install"@, "python3-devel"@)
            &&& !debian && !redhat && !arch && !suse ==> words.len() == 0 && manual
                == "install git, portaudio, python dev headers, and curl with your package manager"@
        }),
{
    reveal_with_fuel(joined, 5);
    reveal_strlit("sudo ");
    reveal_strlit(" ");
    reveal_strlit("apt install");
    reveal_strlit("dnf install");
    reveal_strlit("pacman -S");
    reveal_strlit("zypper install");
    reveal_strlit("git");
    reveal_strlit("libportaudio2");
    reveal_strlit("portaudio");
    reveal_strlit("python3-dev");
    reveal_strlit("python3-devel");
    reveal_strlit("curl");
    reveal_strlit("sudo apt install git libportaudio2 python3-dev curl");
    reveal_strlit("sudo dnf install git portaudio python3-devel curl");
    reveal_strlit("sudo pacman -S git portaudio curl");
    reveal_strlit("sudo zypper install git libportaudio2 python3-devel curl");
    let (words, manual) = packages_for(family);
    if words.len() > 3 {
        let p = words.skip(3);
        assert(p[0] == "git"@);
        assert(p.contains(p[0]));
        assert(p.contains(p[1]));
        assert(p.contains(p[2]));
        assert(p.contains(p.last()));
        if p.len() == 4 {
            assert(p =~= seq!["git"@, p[1], p[2], "curl"@]);
            assert(p.drop_last() =~= seq!["git"@, p[1], p[2]]);
            assert(p.drop_last().drop_last() =~= seq!["git"@, p[1]]);
            assert(p.drop_last().drop_last().drop_last() =~= seq!["git"@]);
        } else {
            assert(p.drop_last() =~= seq!["git"@, p[1]]);
            assert(p.drop_last().drop_last() =~= seq!["git"@]);
        }
        if occurs(family, "debian"@) || occurs(family, "ubuntu"@) {
            assert(manual =~= "sudo "@ + "apt install"@ + " "@ + joined(p, " "@));
        } else if occurs(family, "fedora"@) || occurs(family, "rhel"@) || occurs(
            family,
            "centos"@,
        ) {
            assert(manual =~= "sudo "@ + "dnf install"@ + " "@ + joined(p, " "@));
        } else if occurs(family, "arch"@) {
            assert(manual =~= "sudo "@ + "pacman -S"@ + " "@ + joined(p, " "@));
        } else {
            assert(manual =~= "sudo "@ + "zypper install"@ + " "@ + joined(p, " "@));
        }
    }
}

/// On Linux the Miniconda installer for the processor is downloaded, by curl
/// or, where that fails, by wget from the same place to the same file, and
/// that file is run to install into the user's own folder. Where neither
/// works nothing is run, and the step fails.
#[verifier::spinoff_prover]
#[verifier::rlimit(60)]
pub proof fn law_miniconda_is_downloaded_and_run(
    h: HostModel,
    machine: ReplyModel,
    first: ReplyModel,
    second: ReplyModel,
    r: ReplyModel,
)
    requires
        h.platform == Platform::Linux,
    ensures
        ({
            let arm = machine matches ReplyModel::Output(o) && o.success && (trimmed(
                trimmed(o.stdout),
            ) == "aarch64"@ || trimmed(trimmed(o.stdout)) == "arm64"@);
            let url = "https://repo.anaconda.com/miniconda/Miniconda3-latest-Linux-"@ + (if arm {
                "aarch64"@
            } else {
                "x86_64"@
            }) + ".sh"@;
            let file = h.path(h.temp_dir, "miniconda-installer.sh"@);
            let home = match h.home {
                Some(home) => home,
                None => ""@,
            };
            let install = tool("bash"@, seq![file, "-b"@, "-p"@, home + "/miniconda3"@]);
            let asked = seq![
                tool("uname"@, seq!["-m"@]),
                tool("curl"@, seq!["-fsSL"@, "-o"@, file, url]),
            ];
            let again = asked.push(tool("wget"@, seq!["-qO"@, file, url]));
            let job = JobModel::Install(InstallJobModel::Conda);
            let sayings = Sayings {
                done: "Miniconda installed into ~/miniconda3"@,
                complaint: "already exists"@,
                done_before: "Miniconda already installed"@,
                failed: "Miniconda install failed: "@,
            };
            &&& ran_well(first) ==> {
                let s = story(h, job, seq![machine, first, r]);
                s.asked == asked.push(install) && s.end == settled(Step::Conda, r, sayings)
            }
            &&& !ran_well(first) && ran_well(second) ==> {
                let s = story(h, job, seq![machine, first, second, r]);
                s.asked == again.push(install) && s.end == settled(Step::Conda, r, sayings)
            }
            &&& !ran_well(first) && !ran_well(second) ==> {
                let s = story(h, job, seq![machine, first, second, r]);
                s.asked == again && s.end == Some(
                    MessageModel::InstallStepResult(
                        Step::Conda,
                        StepStatusModel::Failed(
                            "Couldn't download the Miniconda installer (need curl or wget): "@
                                + printed(second),
                        ),
                        printed(second),
                    ),
                )
            }
        }),
{
    reveal_with_fuel(going_on, 6);
    reveal_strlit("");
    reveal_strlit("aarch64");
    reveal_strlit("arm64");
}

} // verus!
