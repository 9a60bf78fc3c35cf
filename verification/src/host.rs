//! The machine that the launcher runs on: where things are kept, where
//! programs may be found, and how the system is asked to open or to kill.
use crate::parts::{named, named_cmd, Cmd, CmdModel};
use crate::text::{chars_of, decimal, is_letter, letter, push_line, push_lines, show};
use vstd::prelude::*;

verus! {

/// The two families of systems.
#[derive(Debug, Clone, Copy, PartialEq, Eq, Structural)]
pub enum Platform {
    Windows,
    Linux,
}

impl DeepView for Platform {
    type V = Platform;

    open spec fn deep_view(&self) -> Platform {
        *self
    }
}

/// The machine and its user, as the environment shows them.
#[derive(Debug, Clone)]
pub struct Host {
    pub platform: Platform,
    /// `HOME`.
    pub home: Option<String>,
    /// `USERPROFILE`.
    pub user_profile: Option<String>,
    /// `APPDATA`.
    pub app_data: Option<String>,
    /// `XDG_CONFIG_HOME`.
    pub xdg_config_home: Option<String>,
    /// `USERDOMAIN`, or nothing.
    pub user_domain: String,
    /// `USERNAME`, or nothing.
    pub user_name: String,
    /// The directory for temporary files.
    pub temp_dir: String,
}

/// `Host` with its texts as character sequences.
#[verifier::ext_equal]
pub struct HostModel {
    pub platform: Platform,
    pub home: Option<Seq<char>>,
    pub user_profile: Option<Seq<char>>,
    pub app_data: Option<Seq<char>>,
    pub xdg_config_home: Option<Seq<char>>,
    pub user_domain: Seq<char>,
    pub user_name: Seq<char>,
    pub temp_dir: Seq<char>,
}

impl DeepView for Host {
    type V = HostModel;

    open spec fn deep_view(&self) -> HostModel {
        HostModel {
            platform: self.platform,
            home: self.home.deep_view(),
            user_profile: self.user_profile.deep_view(),
            app_data: self.app_data.deep_view(),
            xdg_config_home: self.xdg_config_home.deep_view(),
            user_domain: self.user_domain@,
            user_name: self.user_name@,
            temp_dir: self.temp_dir@,
        }
    }
}

/// A value of the environment, or `other` where it is not set.
pub open spec fn value_or(value: Option<Seq<char>>, other: Seq<char>) -> Seq<char> {
    match value {
        Some(s) => s,
        None => other,
    }
}

fn var_or(value: &Option<String>, other: &str) -> (s: String)
    ensures
        s@ == value_or(value.deep_view(), other@),
{
    match value {
        Some(s) => s.clone(),
        None => other.to_string(),
    }
}

// ── Paths ────────────────────────────────────────────────────────────────

/// Does a path end where a name can follow at once? After a separator it
/// does, and so does a Windows drive that stands alone, such as `C:`.
pub open spec fn joins_directly(p: Platform, base: Seq<char>) -> bool {
    match p {
        Platform::Linux => base.last() == '/',
        Platform::Windows => base.last() == '\\' || base.last() == '/' || (base.len() == 2
            && letter(base[0]) && base[1] == ':'),
    }
}

/// The character between the parts of a path.
pub open spec fn separator(p: Platform) -> Seq<char> {
    match p {
        Platform::Linux => "/"@,
        Platform::Windows => "\\"@,
    }
}

/// The path of the entry `name` in the directory `base`.
pub open spec fn path_in(p: Platform, base: Seq<char>, name: Seq<char>) -> Seq<char> {
    if base.len() == 0 {
        name
    } else if joins_directly(p, base) {
        base + name
    } else {
        base + separator(p) + name
    }
}

/// Makes the path of the entry `name` in the directory `base`.
pub fn join_path(p: Platform, base: &str, name: &str) -> (out: String)
    ensures
        out@ == path_in(p, base@, name@),
{
    let chars = chars_of(base);
    let n: usize = chars.len();
    if n == 0 {
        return name.to_string();
    }
    let last = chars[n - 1];
    let direct: bool = match p {
        Platform::Linux => last == '/',
        Platform::Windows => last == '\\' || last == '/' || (n == 2 && is_letter(chars[0])
            && chars[1] == ':'),
    };
    if direct {
        base.to_string().concat(name)
    } else {
        match p {
            Platform::Linux => base.to_string().concat("/").concat(name),
            Platform::Windows => base.to_string().concat("\\").concat(name),
        }
    }
}

impl HostModel {
    /// The user's own directory: empty, where it is not known.
    pub open spec fn user_dir(self) -> Seq<char> {
        match self.platform {
            Platform::Windows => value_or(self.user_profile, ""@),
            Platform::Linux => value_or(self.home, ""@),
        }
    }

    /// The path of `name` in `base` on this machine.
    pub open spec fn path(self, base: Seq<char>, name: Seq<char>) -> Seq<char> {
        path_in(self.platform, base, name)
    }

    /// Where Sapphire and the launcher keep their settings.
    pub open spec fn config_dir(self) -> Seq<char> {
        match self.platform {
            Platform::Windows => match self.app_data {
                Some(dir) if dir.len() > 0 => self.path(dir, "Sapphire"@),
                _ => self.path(
                    self.path(
                        self.path(value_or(self.user_profile, "."@), "AppData"@),
                        "Roaming"@,
                    ),
                    "Sapphire"@,
                ),
            },
            Platform::Linux => match self.xdg_config_home {
                Some(dir) if dir.len() > 0 => self.path(dir, "sapphire"@),
                _ => self.path(
                    self.path(value_or(self.home, "."@), ".config"@),
                    "sapphire"@,
                ),
            },
        }
    }

    /// Where Sapphire goes, unless the user says otherwise.
    pub open spec fn default_install(self) -> Seq<char> {
        match self.platform {
            Platform::Windows => (match self.user_profile {
                Some(dir) => dir,
                None => value_or(self.home, "C:\\"@),
            }) + "\\sapphire"@,
            Platform::Linux => value_or(self.home, "."@) + "/sapphire"@,
        }
    }

    /// Where git may be installed.
    pub open spec fn git_places(self) -> Seq<Seq<char>> {
        let home = self.user_dir();
        match self.platform {
            Platform::Windows => seq![
                "C:\\Program Files\\Git\\cmd\\git.exe"@,
                "C:\\Program Files (x86)\\Git\\cmd\\git.exe"@,
                "C:\\Program Files\\Git\\bin\\git.exe"@,
                home + "\\AppData\\Local\\Programs\\Git\\cmd\\git.exe"@,
                home + "\\scoop\\shims\\git.exe"@,
                home + "\\AppData\\Local\\GitHubDesktop\\app\\resources\\app\\git\\cmd\\git.exe"@,
            ],
            Platform::Linux => Seq::empty(),
        }
    }

    /// Where conda may be installed.
    pub open spec fn conda_places(self) -> Seq<Seq<char>> {
        let home = self.user_dir();
        match self.platform {
            Platform::Windows => seq![
                home + "\\miniconda3\\Scripts\\conda.exe"@,
                home + "\\Miniconda3\\Scripts\\conda.exe"@,
                home + "\\anaconda3\\Scripts\\conda.exe"@,
                home + "\\Anaconda3\\Scripts\\conda.exe"@,
            ],
            Platform::Linux => seq![
                home + "/miniconda3/bin/conda"@,
                home + "/anaconda3/bin/conda"@,
                "/opt/miniconda3/bin/conda"@,
                "/opt/anaconda3/bin/conda"@,
            ],
        }
    }

    /// Where a scan looks for a conda that would not run.
    pub open spec fn conda_scan_places(self) -> Seq<Seq<char>> {
        let home = self.user_dir();
        match self.platform {
            Platform::Windows => seq![
                home + "\\miniconda3\\Scripts\\conda.exe"@,
                home + "\\anaconda3\\Scripts\\conda.exe"@,
                home + "\\Miniconda3\\Scripts\\conda.exe"@,
                home + "\\Anaconda3\\Scripts\\conda.exe"@,
            ],
            Platform::Linux => self.conda_places(),
        }
    }

    /// Where the pip of Sapphire's environment may be.
    pub open spec fn pip_places(self) -> Seq<Seq<char>> {
        let home = self.user_dir();
        match self.platform {
            Platform::Windows => seq![
                home + "\\miniconda3\\envs\\sapphire\\Scripts\\pip.exe"@,
                home + "\\Miniconda3\\envs\\sapphire\\Scripts\\pip.exe"@,
                home + "\\anaconda3\\envs\\sapphire\\Scripts\\pip.exe"@,
            ],
            Platform::Linux => seq![
                home + "/miniconda3/envs/sapphire/bin/pip"@,
                home + "/anaconda3/envs/sapphire/bin/pip"@,
            ],
        }
    }

    /// Where the Python of Sapphire's environment may be.
    pub open spec fn python_places(self) -> Seq<Seq<char>> {
        let home = self.user_dir();
        match self.platform {
            Platform::Windows => seq![
                home + "\\miniconda3\\envs\\sapphire\\python.exe"@,
                home + "\\Miniconda3\\envs\\sapphire\\python.exe"@,
                home + "\\anaconda3\\envs\\sapphire\\python.exe"@,
                home + "\\Anaconda3\\envs\\sapphire\\python.exe"@,
            ],
            Platform::Linux => seq![
                home + "/miniconda3/envs/sapphire/bin/python"@,
                home + "/anaconda3/envs/sapphire/bin/python"@,
            ],
        }
    }

    /// Where the windowless Python of Sapphire's environment may be.
    pub open spec fn pythonw_places(self) -> Seq<Seq<char>> {
        let home = self.user_dir();
        match self.platform {
            Platform::Windows => seq![
                home + "\\miniconda3\\envs\\sapphire\\pythonw.exe"@,
                home + "\\Miniconda3\\envs\\sapphire\\pythonw.exe"@,
                home + "\\anaconda3\\envs\\sapphire\\pythonw.exe"@,
                home + "\\Anaconda3\\envs\\sapphire\\pythonw.exe"@,
            ],
            Platform::Linux => Seq::empty(),
        }
    }
}

/// Puts `root` in front of each of `tails`.
fn rooted(root: &str, tails: &[&str]) -> (out: Vec<String>)
    ensures
        out.deep_view() == Seq::new(tails@.len(), |i: int| root@ + tails@[i]@),
{
    let mut out: Vec<String> = Vec::new();
    for i in 0..tails.len()
        invariant
            out.deep_view() =~= Seq::new(i as nat, |j: int| root@ + tails@[j]@),
    {
        let ghost had = out.deep_view();
        push_line(&mut out, root.to_string().concat(tails[i]));
        assert(had.push(root@ + tails@[i as int]@) =~= Seq::new(
            (i + 1) as nat,
            |j: int| root@ + tails@[j]@,
        ));
    }
    out
}

impl Host {
    /// The user's own directory: empty, where it is not known.
    pub fn user_dir(&self) -> (s: String)
        ensures
            s@ == self.deep_view().user_dir(),
    {
        match self.platform {
            Platform::Windows => var_or(&self.user_profile, ""),
            Platform::Linux => var_or(&self.home, ""),
        }
    }

    /// The path of `name` in `base` on this machine.
    pub fn path(&self, base: &str, name: &str) -> (s: String)
        ensures
            s@ == self.deep_view().path(base@, name@),
    {
        join_path(self.platform, base, name)
    }

    /// Where git may be installed.
    pub fn git_places(&self) -> (list: Vec<String>)
        ensures
            list.deep_view() == self.deep_view().git_places(),
    {
        let home = self.user_dir();
        match self.platform {
            Platform::Windows => {
                let mut list = rooted(
                    "",
                    &[
                        "C:\\Program Files\\Git\\cmd\\git.exe",
                        "C:\\Program Files (x86)\\Git\\cmd\\git.exe",
                        "C:\\Program Files\\Git\\bin\\git.exe",
                    ],
                );
                let more = rooted(
                    home.as_str(),
                    &[
                        "\\AppData\\Local\\Programs\\Git\\cmd\\git.exe",
                        "\\scoop\\shims\\git.exe",
                        "\\AppData\\Local\\GitHubDesktop\\app\\resources\\app\\git\\cmd\\git.exe",
                    ],
                );
                proof {
                    reveal_strlit("");
                    assert forall|s: Seq<char>| #[trigger] (""@ + s) == s by {
                        assert(""@ + s =~= s);
                    }
                }
                push_lines(&mut list, more);
                assert(list.deep_view() =~= self.deep_view().git_places());
                list
            },
            Platform::Linux => {
                let list: Vec<String> = Vec::new();
                assert(list.deep_view() =~= self.deep_view().git_places());
                list
            },
        }
    }

    /// Where conda may be installed.
    pub fn conda_places(&self) -> (list: Vec<String>)
        ensures
            list.deep_view() == self.deep_view().conda_places(),
    {
        let home = self.user_dir();
        match self.platform {
            Platform::Windows => rooted(
                home.as_str(),
                &[
                    "\\miniconda3\\Scripts\\conda.exe",
                    "\\Miniconda3\\Scripts\\conda.exe",
                    "\\anaconda3\\Scripts\\conda.exe",
                    "\\Anaconda3\\Scripts\\conda.exe",
                ],
            ),
            Platform::Linux => {
                let mut list = rooted(
                    home.as_str(),
                    &["/miniconda3/bin/conda", "/anaconda3/bin/conda"],
                );
                push_line(&mut list, "/opt/miniconda3/bin/conda".to_string());
                push_line(&mut list, "/opt/anaconda3/bin/conda".to_string());
                assert(list.deep_view() =~= self.deep_view().conda_places());
                list
            },
        }
    }

    /// Where a scan looks for a conda that would not run.
    pub fn conda_scan_places(&self) -> (list: Vec<String>)
        ensures
            list.deep_view() == self.deep_view().conda_scan_places(),
    {
        let home = self.user_dir();
        match self.platform {
            Platform::Windows => rooted(
                home.as_str(),
                &[
                    "\\miniconda3\\Scripts\\conda.exe",
                    "\\anaconda3\\Scripts\\conda.exe",
                    "\\Miniconda3\\Scripts\\conda.exe",
                    "\\Anaconda3\\Scripts\\conda.exe",
                ],
            ),
            Platform::Linux => self.conda_places(),
        }
    }

    /// Where the pip of Sapphire's environment may be.
    pub fn pip_places(&self) -> (list: Vec<String>)
        ensures
            list.deep_view() == self.deep_view().pip_places(),
    {
        let home = self.user_dir();
        match self.platform {
            Platform::Windows => rooted(
                home.as_str(),
                &[
                    "\\miniconda3\\envs\\sapphire\\Scripts\\pip.exe",
                    "\\Miniconda3\\envs\\sapphire\\Scripts\\pip.exe",
                    "\\anaconda3\\envs\\sapphire\\Scripts\\pip.exe",
                ],
            ),
            Platform::Linux => rooted(
                home.as_str(),
                &["/miniconda3/envs/sapphire/bin/pip", "/anaconda3/envs/sapphire/bin/pip"],
            ),
        }
    }

    /// Where the Python of Sapphire's environment may be.
    pub fn python_places(&self) -> (list: Vec<String>)
        ensures
            list.deep_view() == self.deep_view().python_places(),
    {
        let home = self.user_dir();
        match self.platform {
            Platform::Windows => rooted(
                home.as_str(),
                &[
                    "\\miniconda3\\envs\\sapphire\\python.exe",
                    "\\Miniconda3\\envs\\sapphire\\python.exe",
                    "\\anaconda3\\envs\\sapphire\\python.exe",
                    "\\Anaconda3\\envs\\sapphire\\python.exe",
                ],
            ),
            Platform::Linux => rooted(
                home.as_str(),
                &["/miniconda3/envs/sapphire/bin/python", "/anaconda3/envs/sapphire/bin/python"],
            ),
        }
    }

    /// Where the windowless Python of Sapphire's environment may be.
    pub fn pythonw_places(&self) -> (list: Vec<String>)
        ensures
            list.deep_view() == self.deep_view().pythonw_places(),
    {
        let home = self.user_dir();
        match self.platform {
            Platform::Windows => rooted(
                home.as_str(),
                &[
                    "\\miniconda3\\envs\\sapphire\\pythonw.exe",
                    "\\Miniconda3\\envs\\sapphire\\pythonw.exe",
                    "\\anaconda3\\envs\\sapphire\\pythonw.exe",
                    "\\Anaconda3\\envs\\sapphire\\pythonw.exe",
                ],
            ),
            Platform::Linux => {
                let list: Vec<String> = Vec::new();
                assert(list.deep_view() =~= self.deep_view().pythonw_places());
                list
            },
        }
    }
}

/// Where Sapphire and the launcher keep their settings.
pub fn app_config_dir(host: &Host) -> (dir: String)
    ensures
        dir@ == host.deep_view().config_dir(),
{
    match host.platform {
        Platform::Windows => {
            if let Some(dir) = &host.app_data {
                if !dir.as_str().is_empty() {
                    return host.path(dir.as_str(), "Sapphire");
                }
            }
            let base = var_or(&host.user_profile, ".");
            let local = host.path(base.as_str(), "AppData");
            let roaming = host.path(local.as_str(), "Roaming");
            host.path(roaming.as_str(), "Sapphire")
        },
        Platform::Linux => {
            if let Some(dir) = &host.xdg_config_home {
                if !dir.as_str().is_empty() {
                    return host.path(dir.as_str(), "sapphire");
                }
            }
            let base = var_or(&host.home, ".");
            let config = host.path(base.as_str(), ".config");
            host.path(config.as_str(), "sapphire")
        },
    }
}

/// The launcher's own settings file.
pub fn config_path(host: &Host) -> (path: String)
    ensures
        path@ == host.deep_view().path(host.deep_view().config_dir(), "launcher.json"@),
{
    let dir = app_config_dir(host);
    host.path(dir.as_str(), "launcher.json")
}

/// The file that says, on Windows, that autostart is on.
pub fn autostart_marker_path(host: &Host) -> (path: String)
    ensures
        path@ == host.deep_view().path(host.deep_view().config_dir(), "autostart.on"@),
{
    let dir = app_config_dir(host);
    host.path(dir.as_str(), "autostart.on")
}

/// The script that the Windows autostart task runs.
pub fn autostart_shim_path(host: &Host) -> (path: String)
    ensures
        path@ == host.deep_view().path(host.deep_view().config_dir(), "autostart.pyw"@),
{
    let dir = app_config_dir(host);
    host.path(dir.as_str(), "autostart.pyw")
}

/// Where the Windows autostart task logs.
pub fn autostart_log_path(host: &Host) -> (path: String)
    ensures
        path@ == host.deep_view().path(host.deep_view().config_dir(), "autostart.log"@),
{
    let dir = app_config_dir(host);
    host.path(dir.as_str(), "autostart.log")
}

/// Where Sapphire goes, unless the user says otherwise.
pub fn default_install_path(host: &Host) -> (path: String)
    ensures
        path@ == host.deep_view().default_install(),
{
    match host.platform {
        Platform::Windows => {
            let base = match &host.user_profile {
                Some(dir) => dir.clone(),
                None => var_or(&host.home, "C:\\"),
            };
            base.concat("\\sapphire")
        },
        Platform::Linux => var_or(&host.home, ".").concat("/sapphire"),
    }
}

// ── What is there ────────────────────────────────────────────────────────

/// The first of `places` that exists, given for each whether it does.
pub open spec fn first_found(places: Seq<Seq<char>>, exists_there: Seq<bool>) -> Option<Seq<char>>
    decreases places.len(),
{
    if places.len() == 0 || exists_there.len() == 0 {
        None
    } else if exists_there[0] {
        Some(places[0])
    } else {
        first_found(places.drop_first(), exists_there.drop_first())
    }
}

/// Picks the first of `places` that exists.
pub fn first_existing(places: &Vec<String>, exists_there: &Vec<bool>) -> (p: Option<String>)
    ensures
        p.deep_view() == first_found(places.deep_view(), exists_there@),
{
    let ghost all = places.deep_view();
    let mut i: usize = 0;
    assert(all.skip(0) =~= all);
    assert(exists_there@.skip(0) =~= exists_there@);
    while i < places.len() && i < exists_there.len()
        invariant
            i <= places@.len(),
            i <= exists_there@.len(),
            all == places.deep_view(),
            first_found(all, exists_there@) == first_found(
                all.skip(i as int),
                exists_there@.skip(i as int),
            ),
        decreases places@.len() - i,
    {
        assert(all.skip(i as int).drop_first() =~= all.skip(i + 1));
        assert(exists_there@.skip(i as int).drop_first() =~= exists_there@.skip(i + 1));
        if exists_there[i] {
            return Some(places[i].clone());
        }
        i = i + 1;
    }
    None
}

/// The Python of Sapphire's environment, for a systemd unit: none on
/// Windows, which has no such units.
pub open spec fn env_python(h: HostModel, exists_there: Seq<bool>) -> Option<Seq<char>> {
    match h.platform {
        Platform::Linux => first_found(h.python_places(), exists_there),
        Platform::Windows => None,
    }
}

/// Picks the Python of Sapphire's environment for a systemd unit, given for
/// each of `python_places` whether it exists.
pub fn sapphire_env_python(host: &Host, exists_there: &Vec<bool>) -> (p: Option<String>)
    ensures
        p.deep_view() == env_python(host.deep_view(), exists_there@),
{
    match host.platform {
        Platform::Linux => first_existing(&host.python_places(), exists_there),
        Platform::Windows => None,
    }
}

/// Picks the windowless Python, given for each of `pythonw_places` whether
/// it exists.
pub fn sapphire_pythonw(host: &Host, exists_there: &Vec<bool>) -> (p: Option<String>)
    ensures
        p.deep_view() == first_found(host.deep_view().pythonw_places(), exists_there@),
{
    first_existing(&host.pythonw_places(), exists_there)
}

/// How Sapphire's Python is run: directly, where it exists, else through
/// `conda run`.
pub open spec fn python_cmd(h: HostModel, exists_there: Seq<bool>) -> CmdModel {
    match first_found(h.python_places(), exists_there) {
        Some(p) => named(p, Seq::empty()),
        None => named("conda"@, seq!["run"@, "-n"@, "sapphire"@, "python"@]),
    }
}

/// Settles how Sapphire's Python is run, given for each of `python_places`
/// whether it exists.
pub fn sapphire_python_cmd(host: &Host, exists_there: &Vec<bool>) -> (c: Cmd)
    ensures
        c.deep_view() == python_cmd(host.deep_view(), exists_there@),
{
    match first_existing(&host.python_places(), exists_there) {
        Some(p) => {
            let c = named_cmd(p.as_str(), &[]);
            assert(c.deep_view().args =~= Seq::<Seq<char>>::empty());
            c
        },
        None => named_cmd("conda", &["run", "-n", "sapphire", "python"]),
    }
}

/// The command that starts Sapphire, given how its Python is run.
pub open spec fn start_cmd(python: CmdModel) -> CmdModel {
    CmdModel { program: python.program, args: python.args + seq!["-u"@, "main.py"@] }
}

/// Makes the command that starts Sapphire.
pub fn start_command(python: Cmd) -> (c: Cmd)
    ensures
        c.deep_view() == start_cmd(python.deep_view()),
{
    let mut args = python.args;
    let ghost had = args.deep_view();
    push_line(&mut args, "-u".to_string());
    push_line(&mut args, "main.py".to_string());
    assert(args.deep_view() =~= had + seq!["-u"@, "main.py"@]);
    Cmd { program: python.program, args }
}

// ── Requests to the system ───────────────────────────────────────────────

/// The command that opens a URL in the user's browser.
pub open spec fn url_cmd(p: Platform, url: Seq<char>) -> CmdModel {
    match p {
        Platform::Windows => named("cmd"@, seq!["/c"@, "start"@, url]),
        Platform::Linux => named("xdg-open"@, seq![url]),
    }
}

/// Opens a URL in the user's browser.
pub fn open_url(p: Platform, url: &str) -> (c: Cmd)
    ensures
        c.deep_view() == url_cmd(p, url@),
{
    match p {
        Platform::Windows => named_cmd("cmd", &["/c", "start", url]),
        Platform::Linux => named_cmd("xdg-open", &[url]),
    }
}

/// The command that opens a file in the user's viewer or editor.
pub open spec fn file_cmd(p: Platform, path: Seq<char>) -> CmdModel {
    match p {
        Platform::Windows => named("notepad"@, seq![path]),
        Platform::Linux => named("xdg-open"@, seq![path]),
    }
}

/// Opens a file in the user's viewer or editor.
pub fn open_file(p: Platform, path: &str) -> (c: Cmd)
    ensures
        c.deep_view() == file_cmd(p, path@),
{
    match p {
        Platform::Windows => named_cmd("notepad", &[path]),
        Platform::Linux => named_cmd("xdg-open", &[path]),
    }
}

/// The device that swallows output.
pub open spec fn null_path(p: Platform) -> Seq<char> {
    match p {
        Platform::Windows => "NUL"@,
        Platform::Linux => "/dev/null"@,
    }
}

/// The device that swallows output.
pub fn null_device(p: Platform) -> (s: &'static str)
    ensures
        s@ == null_path(p),
{
    match p {
        Platform::Windows => "NUL",
        Platform::Linux => "/dev/null",
    }
}

/// The PowerShell line that stops every Python of Sapphire's environment.
pub const SWEEP: &'static str = "Get-CimInstance Win32_Process -Filter \"Name='python.exe' OR Name='pythonw.exe'\" | Where-Object { $_.ExecutablePath -like '*\\envs\\sapphire\\*' } | ForEach-Object { Stop-Process -Id $_.ProcessId -Force -ErrorAction SilentlyContinue }";

/// Ends every stray Python of Sapphire's environment.
pub open spec fn sweep_cmd(p: Platform) -> CmdModel {
    match p {
        Platform::Windows => named("powershell"@, seq!["-NoProfile"@, "-Command"@, SWEEP@]),
        Platform::Linux => named("pkill"@, seq!["-TERM"@, "-f"@, "envs/sapphire/bin/python"@]),
    }
}

/// Ends a process with its children: the tree below it, or the process group
/// that it heads.
pub open spec fn tree_cmd(p: Platform, pid: u32) -> CmdModel {
    match p {
        Platform::Windows => named("taskkill"@, seq!["/F"@, "/T"@, "/PID"@, decimal(pid as nat)]),
        Platform::Linux => named("kill"@, seq!["-TERM"@, "-"@ + decimal(pid as nat)]),
    }
}

/// The commands that end Sapphire: its own process with its children, where
/// it is known, and then the strays.
pub open spec fn kill_cmds(p: Platform, pid: u32) -> Seq<CmdModel> {
    if pid > 0 {
        seq![tree_cmd(p, pid), sweep_cmd(p)]
    } else {
        seq![sweep_cmd(p)]
    }
}

fn sweep_command(p: Platform) -> (c: Cmd)
    ensures
        c.deep_view() == sweep_cmd(p),
{
    match p {
        Platform::Windows => named_cmd("powershell", &["-NoProfile", "-Command", SWEEP]),
        Platform::Linux => named_cmd("pkill", &["-TERM", "-f", "envs/sapphire/bin/python"]),
    }
}

fn tree_command(p: Platform, pid: u32) -> (c: Cmd)
    ensures
        c.deep_view() == tree_cmd(p, pid),
{
    let digits = show(pid as u64);
    match p {
        Platform::Windows => named_cmd("taskkill", &["/F", "/T", "/PID", digits.as_str()]),
        Platform::Linux => {
            let group = "-".to_string().concat(digits.as_str());
            named_cmd("kill", &["-TERM", group.as_str()])
        },
    }
}

/// Makes the commands that end Sapphire, whose process is `pid`; 0 stands
/// for a process that is not known.
pub fn kill_process_tree(p: Platform, pid: u32) -> (list: Vec<Cmd>)
    ensures
        list.deep_view() == kill_cmds(p, pid),
{
    let mut list: Vec<Cmd> = Vec::new();
    if pid > 0 {
        list.push(tree_command(p, pid));
    }
    list.push(sweep_command(p));
    assert(list.deep_view() =~= kill_cmds(p, pid));
    list
}

/// Asks Sapphire how it is, waiting `seconds` at most.
pub open spec fn health_cmd(seconds: Seq<char>) -> CmdModel {
    named(
        "curl"@,
        seq!["-sk"@, "--max-time"@, seconds, "https://localhost:8073/api/health"@],
    )
}

/// Makes the command that asks Sapphire how it is.
pub fn health_command(seconds: &str) -> (c: Cmd)
    ensures
        c.deep_view() == health_cmd(seconds@),
{
    named_cmd("curl", &["-sk", "--max-time", seconds, "https://localhost:8073/api/health"])
}

} // verus!
