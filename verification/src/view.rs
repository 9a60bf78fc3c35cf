//! What the launcher shows: texts, colours and what a click on each button
//! sends.
use crate::app::{App, AppModel};
use crate::host::Platform;
use crate::message::{Message, MessageModel};
use crate::parts::{
    check_name, spinner, spinner_at, ts_label, ServiceInfo, ServiceInfoModel, Step, StepStatus,
    StepStatusModel, Tab, TsCheck, TsStatus, TsStatusModel, BLUE, DIM, GREEN, GREY, RED, YELLOW,
};
use crate::scan::{step_label, step_name};
use crate::setup::{first_missing, next_missing};
use crate::text::{decimal, join_from, joined, show, tail_of};
use vstd::prelude::*;

verus! {

// ── Pieces ───────────────────────────────────────────────────────────────

/// A text in a colour.
#[derive(Debug, Clone)]
pub struct Label {
    pub text: String,
    pub color: u32,
}

/// `Label` with its text as a character sequence.
#[verifier::ext_equal]
pub struct LabelModel {
    pub text: Seq<char>,
    pub color: u32,
}

impl DeepView for Label {
    type V = LabelModel;

    open spec fn deep_view(&self) -> LabelModel {
        LabelModel { text: self.text@, color: self.color }
    }
}

/// How a button looks.
#[derive(Debug, Clone, Copy, PartialEq, Eq, Structural)]
pub enum Look {
    Plain,
    Primary,
    Secondary,
    Success,
    Danger,
}

/// A button: its text, its look and what a click on it sends. Without that
/// it cannot be clicked.
#[derive(Debug, Clone)]
pub struct Press {
    pub text: String,
    pub look: Look,
    pub sends: Option<Message>,
}

/// `Press` with its texts as character sequences.
#[verifier::ext_equal]
pub struct PressModel {
    pub text: Seq<char>,
    pub look: Look,
    pub sends: Option<MessageModel>,
}

impl DeepView for Press {
    type V = PressModel;

    open spec fn deep_view(&self) -> PressModel {
        PressModel { text: self.text@, look: self.look, sends: self.sends.deep_view() }
    }
}

/// The button with this text that sends `m`.
pub open spec fn sending(text: Seq<char>, look: Look, m: MessageModel) -> PressModel {
    PressModel { text, look, sends: Some(m) }
}

/// The button that sends `m`, unless it is blocked.
pub open spec fn sending_unless(blocked: bool, text: Seq<char>, look: Look, m: MessageModel) -> PressModel {
    PressModel {
        text,
        look,
        sends: if blocked {
            None
        } else {
            Some(m)
        },
    }
}

fn press(text: &str, look: Look, m: Message) -> (b: Press)
    ensures
        b.deep_view() == sending(text@, look, m.deep_view()),
{
    Press { text: text.to_string(), look, sends: Some(m) }
}

fn press_unless(blocked: bool, text: &str, look: Look, m: Message) -> (b: Press)
    ensures
        b.deep_view() == sending_unless(blocked, text@, look, m.deep_view()),
{
    if blocked {
        Press { text: text.to_string(), look, sends: None }
    } else {
        Press { text: text.to_string(), look, sends: Some(m) }
    }
}

fn label(text: &str, color: u32) -> (l: Label)
    ensures
        l.deep_view() == (LabelModel { text: text@, color }),
{
    Label { text: text.to_string(), color }
}

/// A line of a list: a sign, a name, a detail and a button.
#[derive(Debug, Clone)]
pub struct Line {
    pub sign: Label,
    pub name: String,
    pub detail: Option<String>,
    pub fix: Option<Press>,
}

/// `Line` with its texts as character sequences.
#[verifier::ext_equal]
pub struct LineModel {
    pub sign: LabelModel,
    pub name: Seq<char>,
    pub detail: Option<Seq<char>>,
    pub fix: Option<PressModel>,
}

impl DeepView for Line {
    type V = LineModel;

    open spec fn deep_view(&self) -> LineModel {
        LineModel {
            sign: self.sign.deep_view(),
            name: self.name@,
            detail: self.detail.deep_view(),
            fix: self.fix.deep_view(),
        }
    }
}

/// A button with a note under it.
#[derive(Debug, Clone)]
pub struct Card {
    pub button: Press,
    pub note: Label,
}

/// `Card` with its texts as character sequences.
#[verifier::ext_equal]
pub struct CardModel {
    pub button: PressModel,
    pub note: LabelModel,
}

impl DeepView for Card {
    type V = CardModel;

    open spec fn deep_view(&self) -> CardModel {
        CardModel { button: self.button.deep_view(), note: self.note.deep_view() }
    }
}

/// The line of a step, or of a part of an update.
pub open spec fn status_line(name: Seq<char>, status: StepStatusModel, tick: usize) -> LineModel {
    LineModel {
        sign: LabelModel { text: status.indicator(tick as nat), color: status.color() },
        name,
        detail: match status.detail() {
            Some(d) => Some("— "@ + d),
            None => None,
        },
        fix: None,
    }
}

fn show_status(name: &str, status: &StepStatus, tick: usize) -> (l: Line)
    ensures
        l.deep_view() == status_line(name@, status.deep_view(), tick),
{
    let detail = match status.detail() {
        Some(d) => Some("— ".to_string().concat(d)),
        None => None,
    };
    Line {
        sign: label(status.indicator(tick), status.color()),
        name: name.to_string(),
        detail,
        fix: None,
    }
}

// ── Header ───────────────────────────────────────────────────────────────

/// The bar at the top.
#[derive(Debug, Clone)]
pub struct Header {
    pub placeholder: String,
    /// Whether the folder holds a Sapphire.
    pub hint: Label,
    /// New commits, if there are any.
    pub badge: Option<Press>,
    pub buttons: Vec<Press>,
}

/// `Header` with its texts as character sequences.
#[verifier::ext_equal]
pub struct HeaderModel {
    pub placeholder: Seq<char>,
    pub hint: LabelModel,
    pub badge: Option<PressModel>,
    pub buttons: Seq<PressModel>,
}

impl DeepView for Header {
    type V = HeaderModel;

    open spec fn deep_view(&self) -> HeaderModel {
        HeaderModel {
            placeholder: self.placeholder@,
            hint: self.hint.deep_view(),
            badge: self.badge.deep_view(),
            buttons: self.buttons.deep_view(),
        }
    }
}

/// What is said of the folder, given whether it holds a Sapphire and whether
/// it is there at all.
pub open spec fn folder_hint(main_py: bool, there: bool) -> LabelModel {
    if main_py {
        LabelModel { text: "installed"@, color: GREEN }
    } else if there {
        LabelModel { text: "no install here"@, color: YELLOW }
    } else {
        LabelModel { text: "empty path"@, color: DIM }
    }
}

/// The badge for new commits.
pub open spec fn update_badge(count: Option<u32>) -> Option<PressModel> {
    match count {
        Some(n) if n > 0 => Some(
            sending(
                decimal(n as nat) + " new"@,
                Look::Plain,
                MessageModel::TabSelected(Tab::Update),
            ),
        ),
        _ => None,
    }
}

/// The buttons for launching and stopping.
pub open spec fn run_buttons(running: bool, stopping: bool) -> Seq<PressModel> {
    if stopping {
        seq![PressModel { text: "Stopping..."@, look: Look::Secondary, sends: None }]
    } else if running {
        seq![
            sending("Open Browser"@, Look::Primary, MessageModel::OpenBrowser),
            sending("Stop"@, Look::Danger, MessageModel::StopSapphire),
        ]
    } else {
        seq![sending("Launch"@, Look::Success, MessageModel::Launch)]
    }
}

/// The bar at the top.
pub open spec fn header(a: AppModel, main_py: bool, there: bool) -> HeaderModel {
    HeaderModel {
        placeholder: match a.host.platform {
            Platform::Windows => "C:\\Users\\You\\Sapphire"@,
            Platform::Linux => "/home/you/sapphire"@,
        },
        hint: folder_hint(main_py, there),
        badge: update_badge(a.updates_available),
        buttons: run_buttons(a.sapphire.running, a.sapphire.stopping),
    }
}

fn show_hint(main_py: bool, there: bool) -> (l: Label)
    ensures
        l.deep_view() == folder_hint(main_py, there),
{
    if main_py {
        label("installed", GREEN)
    } else if there {
        label("no install here", YELLOW)
    } else {
        label("empty path", DIM)
    }
}

fn show_badge(count: Option<u32>) -> (b: Option<Press>)
    ensures
        b.deep_view() == update_badge(count),
{
    match count {
        Some(n) => if n > 0 {
            let text = show(n as u64).concat(" new");
            Some(press(text.as_str(), Look::Plain, Message::TabSelected(Tab::Update)))
        } else {
            None
        },
        None => None,
    }
}

fn show_run_buttons(running: bool, stopping: bool) -> (list: Vec<Press>)
    ensures
        list.deep_view() == run_buttons(running, stopping),
{
    let list = if stopping {
        vec![Press { text: "Stopping...".to_string(), look: Look::Secondary, sends: None }]
    } else if running {
        vec![
            press("Open Browser", Look::Primary, Message::OpenBrowser),
            press("Stop", Look::Danger, Message::StopSapphire),
        ]
    } else {
        vec![press("Launch", Look::Success, Message::Launch)]
    };
    assert(list.deep_view() =~= run_buttons(running, stopping));
    list
}

impl App {
    /// Shows the bar at the top, given whether the folder holds a Sapphire
    /// and whether it is there at all.
    pub fn view_header(&self, main_py: bool, there: bool) -> (h: Header)
        ensures
            h.deep_view() == header(self.deep_view(), main_py, there),
    {
        Header {
            placeholder: match self.host.platform {
                Platform::Windows => "C:\\Users\\You\\Sapphire".to_string(),
                Platform::Linux => "/home/you/sapphire".to_string(),
            },
            hint: show_hint(main_py, there),
            badge: show_badge(self.updates_available),
            buttons: show_run_buttons(self.sapphire.running, self.sapphire.stopping),
        }
    }
}

// ── Tabs ─────────────────────────────────────────────────────────────────

/// The button of a tab.
pub open spec fn tab_press(name: Seq<char>, tab: Tab, active: Tab) -> PressModel {
    sending(
        name,
        if tab == active {
            Look::Primary
        } else {
            Look::Plain
        },
        MessageModel::TabSelected(tab),
    )
}

/// The tabs. The last one manages the service, or offers autostart where
/// there is no service.
pub open spec fn tab_bar(a: AppModel) -> Seq<PressModel> {
    seq![
        tab_press("Install"@, Tab::Install, a.active_tab),
        tab_press("Update"@, Tab::Update, a.active_tab),
        tab_press("Uninstall"@, Tab::Uninstall, a.active_tab),
        tab_press("Troubleshoot"@, Tab::Troubleshoot, a.active_tab),
        tab_press(
            if a.sapphire.running {
                "Log *"@
            } else {
                "Log"@
            },
            Tab::Running,
            a.active_tab,
        ),
        tab_press(
            if a.service is Some {
                "Service"@
            } else {
                "Autostart"@
            },
            Tab::Service,
            a.active_tab,
        ),
    ]
}

fn tab_button(name: &str, tab: Tab, active: Tab) -> (b: Press)
    ensures
        b.deep_view() == tab_press(name@, tab, active),
{
    let look = if tab == active {
        Look::Primary
    } else {
        Look::Plain
    };
    press(name, look, Message::TabSelected(tab))
}

impl App {
    /// Shows the tabs.
    pub fn view_tab_bar(&self) -> (list: Vec<Press>)
        ensures
            list.deep_view() == tab_bar(self.deep_view()),
    {
        let log = if self.sapphire.running {
            "Log *"
        } else {
            "Log"
        };
        let service = if self.service.is_some() {
            "Service"
        } else {
            "Autostart"
        };
        let list = vec![
            tab_button("Install", Tab::Install, self.active_tab),
            tab_button("Update", Tab::Update, self.active_tab),
            tab_button("Uninstall", Tab::Uninstall, self.active_tab),
            tab_button("Troubleshoot", Tab::Troubleshoot, self.active_tab),
            tab_button(log, Tab::Running, self.active_tab),
            tab_button(service, Tab::Service, self.active_tab),
        ];
        assert(list.deep_view() =~= tab_bar(self.deep_view()));
        list
    }
}

// ── Install tab ──────────────────────────────────────────────────────────

/// A list of lines with buttons under it.
#[derive(Debug, Clone)]
pub struct Panel {
    pub status: Option<Label>,
    pub lines: Vec<Line>,
    pub buttons: Vec<Press>,
}

/// `Panel` with its texts as character sequences.
#[verifier::ext_equal]
pub struct PanelModel {
    pub status: Option<LabelModel>,
    pub lines: Seq<LineModel>,
    pub buttons: Seq<PressModel>,
}

impl DeepView for Panel {
    type V = PanelModel;

    open spec fn deep_view(&self) -> PanelModel {
        PanelModel {
            status: self.status.deep_view(),
            lines: self.lines.deep_view(),
            buttons: self.buttons.deep_view(),
        }
    }
}

/// Has no step been looked at yet?
pub open spec fn untouched(steps: Seq<(Step, StepStatusModel)>) -> bool {
    forall|i: int|
        0 <= i < steps.len() ==> (#[trigger] steps[i]).1 == StepStatusModel::NotStarted
}

/// The lines of the steps.
pub open spec fn step_lines(a: AppModel) -> Seq<LineModel> {
    Seq::new(
        a.steps.len(),
        |i: int|
            status_line(
                step_name(a.host.platform, a.steps[i].0),
                a.steps[i].1,
                a.spinner_tick,
            ),
    )
}

/// The buttons of the install tab: the second only where something is
/// missing, and none to be clicked while a scan or an installation is on.
pub open spec fn install_buttons(a: AppModel) -> Seq<PressModel> {
    let blocked = a.busy.scanning || a.busy.installing;
    let scan = sending_unless(
        blocked,
        if untouched(a.steps) {
            "Scan System"@
        } else {
            "Re-scan"@
        },
        Look::Primary,
        MessageModel::ScanClicked,
    );
    if next_missing(a.steps) is Some {
        seq![
            scan,
            sending_unless(
                blocked,
                "Go — Install Missing"@,
                Look::Success,
                MessageModel::GoClicked,
            ),
        ]
    } else {
        seq![scan]
    }
}

/// The install tab.
pub open spec fn install_tab(a: AppModel) -> PanelModel {
    PanelModel { status: None, lines: step_lines(a), buttons: install_buttons(a) }
}

fn nothing_started(steps: &Vec<(Step, StepStatus)>) -> (b: bool)
    ensures
        b == untouched(steps.deep_view()),
{
    let ghost all = steps.deep_view();
    for i in 0..steps.len()
        invariant
            all == steps.deep_view(),
            forall|j: int| 0 <= j < i ==> (#[trigger] all[j]).1 == StepStatusModel::NotStarted,
    {
        assert(all[i as int] == steps@[i as int].deep_view());
        let fresh = match &steps[i].1 {
            StepStatus::NotStarted => true,
            _ => false,
        };
        if !fresh {
            assert(all[i as int].1 != StepStatusModel::NotStarted);
            return false;
        }
    }
    true
}

impl App {
    fn show_steps(&self) -> (list: Vec<Line>)
        ensures
            list.deep_view() == step_lines(self.deep_view()),
    {
        let ghost a = self.deep_view();
        let mut list: Vec<Line> = Vec::new();
        for i in 0..self.steps.len()
            invariant
                a == self.deep_view(),
                list@.len() == i,
                forall|j: int|
                    #![trigger list@[j]]
                    0 <= j < i ==> list@[j].deep_view() == step_lines(a)[j],
        {
            assert(a.steps[i as int] == self.steps@[i as int].deep_view());
            let name = step_label(self.host.platform, self.steps[i].0);
            list.push(show_status(name, &self.steps[i].1, self.spinner_tick));
        }
        assert(list.deep_view() =~= step_lines(a));
        list
    }

    /// Shows the install tab.
    pub fn view_install_tab(&self) -> (p: Panel)
        ensures
            p.deep_view() == install_tab(self.deep_view()),
    {
        let blocked = self.busy.scanning || self.busy.installing;
        let scan = if nothing_started(&self.steps) {
            "Scan System"
        } else {
            "Re-scan"
        };
        let mut buttons = vec![
            press_unless(blocked, scan, Look::Primary, Message::ScanClicked),
        ];
        if first_missing(&self.steps).is_some() {
            buttons.push(
                press_unless(blocked, "Go — Install Missing", Look::Success, Message::GoClicked),
            );
        }
        assert(buttons.deep_view() =~= install_buttons(self.deep_view()));
        Panel { status: None, lines: self.show_steps(), buttons }
    }
}

// ── Update tab ───────────────────────────────────────────────────────────

/// What is said of updates.
pub open spec fn update_label(count: Option<u32>, checking: bool) -> LabelModel {
    match count {
        Some(n) => if n == 0 {
            LabelModel { text: "Up to date."@, color: GREEN }
        } else {
            LabelModel {
                text: decimal(n as nat) + " update"@ + (if n == 1 {
                    ""@
                } else {
                    "s"@
                }) + " available."@,
                color: BLUE,
            }
        },
        None => if checking {
            LabelModel { text: "Checking..."@, color: DIM }
        } else {
            LabelModel { text: "Couldn't check for updates."@, color: DIM }
        },
    }
}

/// The lines of an update.
pub open spec fn update_lines(a: AppModel) -> Seq<LineModel> {
    Seq::new(
        a.update_status.len(),
        |i: int| status_line(a.update_status[i].0, a.update_status[i].1, a.spinner_tick),
    )
}

/// The button of the update tab.
pub open spec fn update_button(a: AppModel) -> PressModel {
    sending_unless(
        a.busy.updating || a.sapphire.stopping,
        if a.busy.updating {
            "Updating..."@
        } else if a.sapphire.running || a.sapphire.stopping {
            "Stop & Update"@
        } else {
            "Update"@
        },
        Look::Primary,
        MessageModel::UpdateClicked,
    )
}

/// The update tab.
pub open spec fn update_tab(a: AppModel) -> PanelModel {
    PanelModel {
        status: Some(update_label(a.updates_available, a.busy.checking_updates)),
        lines: update_lines(a),
        buttons: seq![update_button(a)],
    }
}

fn show_updates(count: Option<u32>, checking: bool) -> (l: Label)
    ensures
        l.deep_view() == update_label(count, checking),
{
    match count {
        Some(n) => if n == 0 {
            label("Up to date.", GREEN)
        } else {
            let text = show(n as u64).concat(" update").concat(
                if n == 1 {
                    ""
                } else {
                    "s"
                },
            ).concat(" available.");
            label(text.as_str(), BLUE)
        },
        None => if checking {
            label("Checking...", DIM)
        } else {
            label("Couldn't check for updates.", DIM)
        },
    }
}

impl App {
    fn show_parts(&self) -> (list: Vec<Line>)
        ensures
            list.deep_view() == update_lines(self.deep_view()),
    {
        let ghost a = self.deep_view();
        let mut list: Vec<Line> = Vec::new();
        for i in 0..self.update_status.len()
            invariant
                a == self.deep_view(),
                list@.len() == i,
                forall|j: int|
                    #![trigger list@[j]]
                    0 <= j < i ==> list@[j].deep_view() == update_lines(a)[j],
        {
            assert(a.update_status[i as int] == self.update_status@[i as int].deep_view());
            list.push(
                show_status(
                    self.update_status[i].0.as_str(),
                    &self.update_status[i].1,
                    self.spinner_tick,
                ),
            );
        }
        assert(list.deep_view() =~= update_lines(a));
        list
    }

    /// Shows the update tab.
    pub fn view_update_tab(&self) -> (p: Panel)
        ensures
            p.deep_view() == update_tab(self.deep_view()),
    {
        let text = if self.busy.updating {
            "Updating..."
        } else if self.sapphire.running || self.sapphire.stopping {
            "Stop & Update"
        } else {
            "Update"
        };
        let buttons = vec![
            press_unless(
                self.busy.updating || self.sapphire.stopping,
                text,
                Look::Primary,
                Message::UpdateClicked,
            ),
        ];
        assert(buttons.deep_view() =~= seq![update_button(self.deep_view())]);
        Panel {
            status: Some(show_updates(self.updates_available, self.busy.checking_updates)),
            lines: self.show_parts(),
            buttons,
        }
    }
}

// ── Uninstall tab ────────────────────────────────────────────────────────

/// The uninstall tab: harmless resets, and what deletes.
#[derive(Debug, Clone)]
pub struct Uninstall {
    pub resets: Vec<Card>,
    pub dangers: Vec<Card>,
}

/// `Uninstall` with its texts as character sequences.
#[verifier::ext_equal]
pub struct UninstallModel {
    pub resets: Seq<CardModel>,
    pub dangers: Seq<CardModel>,
}

impl DeepView for Uninstall {
    type V = UninstallModel;

    open spec fn deep_view(&self) -> UninstallModel {
        UninstallModel { resets: self.resets.deep_view(), dangers: self.dangers.deep_view() }
    }
}

/// The card of something that deletes: once it is armed it warns in red, and
/// while an uninstall job is on it cannot be clicked.
pub open spec fn danger_card(
    busy: bool,
    armed: bool,
    text: Seq<char>,
    armed_text: Seq<char>,
    note: Seq<char>,
    warning: Seq<char>,
    m: MessageModel,
) -> CardModel {
    CardModel {
        button: sending_unless(
            busy,
            if armed {
                armed_text
            } else {
                text
            },
            Look::Danger,
            m,
        ),
        note: if armed {
            LabelModel { text: warning, color: RED }
        } else {
            LabelModel { text: note, color: DIM }
        },
    }
}

/// The uninstall tab.
pub open spec fn uninstall_tab(a: AppModel) -> UninstallModel {
    UninstallModel {
        resets: seq![
            CardModel {
                button: sending("Reset Password"@, Look::Primary, MessageModel::ResetPassword),
                note: LabelModel {
                    text: "Forgot your password? This clears it so Sapphire asks for a new one."@,
                    color: DIM,
                },
            },
            CardModel {
                button: sending(
                    "Reset API Keys"@,
                    Look::Primary,
                    MessageModel::ResetCredentials,
                ),
                note: LabelModel {
                    text: "Clears saved API keys (OpenAI, etc). You'll re-enter them in Sapphire."@,
                    color: DIM,
                },
            },
        ],
        dangers: seq![
            danger_card(
                a.busy.uninstalling,
                a.armed.remove_env,
                "Remove conda env"@,
                "YES, remove it"@,
                "Deletes the 'sapphire' Python environment and all packages."@,
                "Click again to confirm."@,
                MessageModel::UninstallCondaEnvClick,
            ),
            danger_card(
                a.busy.uninstalling,
                a.armed.delete_userdata,
                "Delete user data"@,
                "YES, delete user data"@,
                "Removes sapphire/user/ — your settings and personal data."@,
                "Click again to confirm."@,
                MessageModel::UninstallDeleteUserdataClick,
            ),
            danger_card(
                a.busy.uninstalling,
                a.armed.delete_folder,
                "Delete Sapphire folder"@,
                "YES, delete everything"@,
                "Nukes "@ + a.install_path + " — code, settings, everything. Cannot be undone."@,
                "FINAL WARNING. Everything will be permanently deleted."@,
                MessageModel::UninstallDeleteFolderClick,
            ),
        ],
    }
}

fn show_danger(
    busy: bool,
    armed: bool,
    text: &str,
    armed_text: &str,
    note: &str,
    warning: &str,
    m: Message,
) -> (c: Card)
    ensures
        c.deep_view() == danger_card(
            busy,
            armed,
            text@,
            armed_text@,
            note@,
            warning@,
            m.deep_view(),
        ),
{
    if armed {
        Card {
            button: press_unless(busy, armed_text, Look::Danger, m),
            note: label(warning, RED),
        }
    } else {
        Card { button: press_unless(busy, text, Look::Danger, m), note: label(note, DIM) }
    }
}

fn show_reset(text: &str, note: &str, m: Message) -> (c: Card)
    ensures
        c.deep_view() == (CardModel {
            button: sending(text@, Look::Primary, m.deep_view()),
            note: LabelModel { text: note@, color: DIM },
        }),
{
    Card { button: press(text, Look::Primary, m), note: label(note, DIM) }
}

impl App {
    /// Shows the uninstall tab.
    pub fn view_uninstall_tab(&self) -> (u: Uninstall)
        ensures
            u.deep_view() == uninstall_tab(self.deep_view()),
    {
        let busy = self.busy.uninstalling;
        let resets = vec![
            show_reset(
                "Reset Password",
                "Forgot your password? This clears it so Sapphire asks for a new one.",
                Message::ResetPassword,
            ),
            show_reset(
                "Reset API Keys",
                "Clears saved API keys (OpenAI, etc). You'll re-enter them in Sapphire.",
                Message::ResetCredentials,
            ),
        ];
        let folder = "Nukes ".to_string().concat(self.install_path.as_str()).concat(
            " — code, settings, everything. Cannot be undone.",
        );
        let dangers = vec![
            show_danger(
                busy,
                self.armed.remove_env,
                "Remove conda env",
                "YES, remove it",
                "Deletes the 'sapphire' Python environment and all packages.",
                "Click again to confirm.",
                Message::UninstallCondaEnvClick,
            ),
            show_danger(
                busy,
                self.armed.delete_userdata,
                "Delete user data",
                "YES, delete user data",
                "Removes sapphire/user/ — your settings and personal data.",
                "Click again to confirm.",
                Message::UninstallDeleteUserdataClick,
            ),
            show_danger(
                busy,
                self.armed.delete_folder,
                "Delete Sapphire folder",
                "YES, delete everything",
                folder.as_str(),
                "FINAL WARNING. Everything will be permanently deleted.",
                Message::UninstallDeleteFolderClick,
            ),
        ];
        assert(resets.deep_view() =~= uninstall_tab(self.deep_view()).resets);
        assert(dangers.deep_view() =~= uninstall_tab(self.deep_view()).dangers);
        Uninstall { resets, dangers }
    }
}

// ── Troubleshoot tab ─────────────────────────────────────────────────────

/// The sign in front of a check.
pub open spec fn check_sign(status: TsStatusModel, tick: usize) -> LabelModel {
    match status {
        TsStatusModel::NotChecked => LabelModel { text: "-"@, color: GREY },
        TsStatusModel::Checking | TsStatusModel::Fixing => LabelModel {
            text: spinner(tick as nat),
            color: BLUE,
        },
        TsStatusModel::Fine(_) | TsStatusModel::Fixed(_) => LabelModel { text: "+"@, color: GREEN },
        TsStatusModel::Problem(_) => LabelModel { text: "!"@, color: RED },
    }
}

/// What is said of a check.
pub open spec fn check_detail(status: TsStatusModel) -> Option<Seq<char>> {
    match status {
        TsStatusModel::Fine(s) => Some("— "@ + s),
        TsStatusModel::Problem(s) => Some("— "@ + s),
        TsStatusModel::Fixed(s) => Some("— "@ + s),
        TsStatusModel::Checking => Some("— checking..."@),
        TsStatusModel::Fixing => Some("— fixing..."@),
        TsStatusModel::NotChecked => None,
    }
}

/// The button of a problem that can be repaired.
pub open spec fn fix_button(check: TsCheck, status: TsStatusModel) -> Option<PressModel> {
    if !(status is Problem) {
        None
    } else if check == TsCheck::DepsHealth {
        Some(sending("Fix"@, Look::Success, MessageModel::TroubleshootFix(check)))
    } else if check == TsCheck::Plugins {
        Some(sending("Install"@, Look::Success, MessageModel::TroubleshootFix(check)))
    } else {
        None
    }
}

/// The line of a check.
pub open spec fn check_line(check: TsCheck, status: TsStatusModel, tick: usize) -> LineModel {
    LineModel {
        sign: check_sign(status, tick),
        name: check_name(check),
        detail: check_detail(status),
        fix: fix_button(check, status),
    }
}

/// The lines of the checks.
pub open spec fn check_lines(a: AppModel) -> Seq<LineModel> {
    Seq::new(
        a.ts_checks.len(),
        |i: int| check_line(a.ts_checks[i].0, a.ts_checks[i].1, a.spinner_tick),
    )
}

/// The troubleshoot tab.
pub open spec fn troubleshoot_tab(a: AppModel) -> PanelModel {
    PanelModel {
        status: None,
        lines: check_lines(a),
        buttons: seq![
            sending_unless(
                a.busy.troubleshooting,
                "Check Sapphire"@,
                Look::Primary,
                MessageModel::TroubleshootCheck,
            ),
        ],
    }
}

fn show_check(check: TsCheck, status: &TsStatus, tick: usize) -> (l: Line)
    ensures
        l.deep_view() == check_line(check, status.deep_view(), tick),
{
    let sign = match status {
        TsStatus::NotChecked => label("-", GREY),
        TsStatus::Checking | TsStatus::Fixing => label(spinner_at(tick), BLUE),
        TsStatus::Fine(_) | TsStatus::Fixed(_) => label("+", GREEN),
        TsStatus::Problem(_) => label("!", RED),
    };
    let detail = match status {
        TsStatus::Fine(s) => Some("— ".to_string().concat(s.as_str())),
        TsStatus::Problem(s) => Some("— ".to_string().concat(s.as_str())),
        TsStatus::Fixed(s) => Some("— ".to_string().concat(s.as_str())),
        TsStatus::Checking => Some("— checking...".to_string()),
        TsStatus::Fixing => Some("— fixing...".to_string()),
        TsStatus::NotChecked => None,
    };
    let fix = match (check, status) {
        (TsCheck::DepsHealth, TsStatus::Problem(_)) => Some(
            press("Fix", Look::Success, Message::TroubleshootFix(check)),
        ),
        (TsCheck::Plugins, TsStatus::Problem(_)) => Some(
            press("Install", Look::Success, Message::TroubleshootFix(check)),
        ),
        _ => None,
    };
    Line { sign, name: ts_label(check).to_string(), detail, fix }
}

impl App {
    fn show_checks(&self) -> (list: Vec<Line>)
        ensures
            list.deep_view() == check_lines(self.deep_view()),
    {
        let ghost a = self.deep_view();
        let mut list: Vec<Line> = Vec::new();
        for i in 0..self.ts_checks.len()
            invariant
                a == self.deep_view(),
                list@.len() == i,
                forall|j: int|
                    #![trigger list@[j]]
                    0 <= j < i ==> list@[j].deep_view() == check_lines(a)[j],
        {
            assert(a.ts_checks[i as int] == self.ts_checks@[i as int].deep_view());
            list.push(show_check(self.ts_checks[i].0, &self.ts_checks[i].1, self.spinner_tick));
        }
        assert(list.deep_view() =~= check_lines(a));
        list
    }

    /// Shows the troubleshoot tab.
    pub fn view_troubleshoot_tab(&self) -> (p: Panel)
        ensures
            p.deep_view() == troubleshoot_tab(self.deep_view()),
    {
        let buttons = vec![
            press_unless(
                self.busy.troubleshooting,
                "Check Sapphire",
                Look::Primary,
                Message::TroubleshootCheck,
            ),
        ];
        assert(buttons.deep_view() =~= troubleshoot_tab(self.deep_view()).buttons);
        Panel { status: None, lines: self.show_checks(), buttons }
    }
}

// ── Service tab ──────────────────────────────────────────────────────────

/// The service tab.
#[derive(Debug, Clone)]
pub struct ServicePanel {
    pub title: String,
    pub note: String,
    pub status: Label,
    pub control: Vec<Press>,
    pub login: Vec<Press>,
    /// Where the service runs, if there is one.
    pub folder: Option<String>,
    /// Taking the service away.
    pub remove: Option<Card>,
    /// Is the environment editor shown?
    pub editor: bool,
}

/// `ServicePanel` with its texts as character sequences.
#[verifier::ext_equal]
pub struct ServicePanelModel {
    pub title: Seq<char>,
    pub note: Seq<char>,
    pub status: LabelModel,
    pub control: Seq<PressModel>,
    pub login: Seq<PressModel>,
    pub folder: Option<Seq<char>>,
    pub remove: Option<CardModel>,
    pub editor: bool,
}

impl DeepView for ServicePanel {
    type V = ServicePanelModel;

    open spec fn deep_view(&self) -> ServicePanelModel {
        ServicePanelModel {
            title: self.title@,
            note: self.note@,
            status: self.status.deep_view(),
            control: self.control.deep_view(),
            login: self.login.deep_view(),
            folder: self.folder.deep_view(),
            remove: self.remove.deep_view(),
            editor: self.editor,
        }
    }
}

/// What is said of the service.
pub open spec fn service_label(service: Option<ServiceInfoModel>) -> LabelModel {
    match service {
        Some(s) => if s.active {
            LabelModel { text: "active ("@ + s.sub_state + ")"@, color: GREEN }
        } else {
            LabelModel { text: "inactive ("@ + s.sub_state + ")"@, color: DIM }
        },
        None => LabelModel { text: "no service detected"@, color: DIM },
    }
}

/// The card that takes the service away.
pub open spec fn remove_card(armed: bool) -> CardModel {
    danger_card(
        false,
        armed,
        "Remove autostart"@,
        "YES, remove it"@,
        "Sapphire no longer starts when you sign in."@,
        "Click again to confirm."@,
        MessageModel::ServiceRemoveClick,
    )
}

/// The service tab where there is a service to manage.
pub open spec fn manage_panel(a: AppModel, s: ServiceInfoModel) -> ServicePanelModel {
    ServicePanelModel {
        title: "Service Control"@,
        note: "Sapphire runs as a systemd --user service on this machine. The Launch/Stop buttons control the service."@,
        status: service_label(Some(s)),
        control: seq![
            sending("Start"@, Look::Success, MessageModel::ServiceStart),
            sending("Stop"@, Look::Danger, MessageModel::ServiceStop),
            sending("Restart"@, Look::Primary, MessageModel::ServiceRestart),
        ],
        login: seq![
            sending("Enable at login"@, Look::Secondary, MessageModel::ServiceEnable),
            sending("Disable at login"@, Look::Secondary, MessageModel::ServiceDisable),
        ],
        folder: Some("Working directory: "@ + match s.working_dir {
            Some(dir) => dir,
            None => "unknown"@,
        }),
        remove: Some(remove_card(a.armed.remove_service)),
        editor: true,
    }
}

/// The service tab where there is none: autostart can be had on Windows, and
/// on Linux where there is systemd.
pub open spec fn offer_panel(a: AppModel) -> ServicePanelModel {
    ServicePanelModel {
        title: "Autostart"@,
        note: "Sapphire can start when you sign in."@,
        status: service_label(None),
        control: seq![
            sending_unless(
                a.host.platform == Platform::Linux && !a.systemd_available,
                "Enable service"@,
                Look::Success,
                MessageModel::ServiceInstall,
            ),
        ],
        login: Seq::empty(),
        folder: None,
        remove: match a.host.platform {
            Platform::Windows => Some(remove_card(a.armed.remove_service)),
            Platform::Linux => None,
        },
        editor: false,
    }
}

/// The service tab.
pub open spec fn service_tab(a: AppModel) -> ServicePanelModel {
    match a.service {
        Some(s) => manage_panel(a, s),
        None => offer_panel(a),
    }
}

fn show_service(service: &Option<ServiceInfo>) -> (l: Label)
    ensures
        l.deep_view() == service_label(service.deep_view()),
{
    match service {
        Some(s) => if s.active {
            let text = "active (".to_string().concat(s.sub_state.as_str()).concat(")");
            label(text.as_str(), GREEN)
        } else {
            let text = "inactive (".to_string().concat(s.sub_state.as_str()).concat(")");
            label(text.as_str(), DIM)
        },
        None => label("no service detected", DIM),
    }
}

fn show_remove(armed: bool) -> (c: Card)
    ensures
        c.deep_view() == remove_card(armed),
{
    show_danger(
        false,
        armed,
        "Remove autostart",
        "YES, remove it",
        "Sapphire no longer starts when you sign in.",
        "Click again to confirm.",
        Message::ServiceRemoveClick,
    )
}

impl App {
    fn show_manage(&self, s: &ServiceInfo) -> (p: ServicePanel)
        requires
            self.service == Some(*s),
        ensures
            p.deep_view() == manage_panel(self.deep_view(), s.deep_view()),
    {
        let control = vec![
            press("Start", Look::Success, Message::ServiceStart),
            press("Stop", Look::Danger, Message::ServiceStop),
            press("Restart", Look::Primary, Message::ServiceRestart),
        ];
        let login = vec![
            press("Enable at login", Look::Secondary, Message::ServiceEnable),
            press("Disable at login", Look::Secondary, Message::ServiceDisable),
        ];
        let dir = match &s.working_dir {
            Some(dir) => dir.as_str(),
            None => "unknown",
        };
        assert(control.deep_view() =~= manage_panel(self.deep_view(), s.deep_view()).control);
        assert(login.deep_view() =~= manage_panel(self.deep_view(), s.deep_view()).login);
        ServicePanel {
            title: "Service Control".to_string(),
            note: "Sapphire runs as a systemd --user service on this machine. The Launch/Stop buttons control the service.".to_string(),
            status: show_service(&self.service),
            control,
            login,
            folder: Some("Working directory: ".to_string().concat(dir)),
            remove: Some(show_remove(self.armed.remove_service)),
            editor: true,
        }
    }

    fn show_offer(&self) -> (p: ServicePanel)
        ensures
            p.deep_view() == offer_panel(self.deep_view()),
    {
        let blocked = self.host.platform == Platform::Linux && !self.systemd_available;
        let control = vec![
            press_unless(blocked, "Enable service", Look::Success, Message::ServiceInstall),
        ];
        let login: Vec<Press> = Vec::new();
        let remove = match self.host.platform {
            Platform::Windows => Some(show_remove(self.armed.remove_service)),
            Platform::Linux => None,
        };
        assert(control.deep_view() =~= offer_panel(self.deep_view()).control);
        assert(login.deep_view() =~= Seq::empty());
        ServicePanel {
            title: "Autostart".to_string(),
            note: "Sapphire can start when you sign in.".to_string(),
            status: show_service(&None),
            control,
            login,
            folder: None,
            remove,
            editor: false,
        }
    }

    /// Shows the service tab.
    pub fn view_service_tab(&self) -> (p: ServicePanel)
        ensures
            p.deep_view() == service_tab(self.deep_view()),
    {
        match &self.service {
            Some(s) => self.show_manage(s),
            None => self.show_offer(),
        }
    }
}

// ── Running tab and log ──────────────────────────────────────────────────

/// How many lines of the run log are shown.
pub const RUN_TAIL: usize = 800;

/// How many lines of the launcher log are shown.
pub const LOG_TAIL: usize = 300;

/// The running tab.
#[derive(Debug, Clone)]
pub struct RunPanel {
    pub status: Label,
    pub buttons: Vec<Press>,
    pub log: String,
}

/// `RunPanel` with its texts as character sequences.
#[verifier::ext_equal]
pub struct RunPanelModel {
    pub status: LabelModel,
    pub buttons: Seq<PressModel>,
    pub log: Seq<char>,
}

impl DeepView for RunPanel {
    type V = RunPanelModel;

    open spec fn deep_view(&self) -> RunPanelModel {
        RunPanelModel {
            status: self.status.deep_view(),
            buttons: self.buttons.deep_view(),
            log: self.log@,
        }
    }
}

/// What is said of Sapphire.
pub open spec fn run_label(running: bool, empty: bool) -> LabelModel {
    if running {
        LabelModel { text: "Sapphire is running"@, color: GREEN }
    } else if empty {
        LabelModel { text: "Hit Launch to start Sapphire."@, color: DIM }
    } else {
        LabelModel { text: "Sapphire stopped"@, color: DIM }
    }
}

/// The running tab: only the last lines of the log are shown.
pub open spec fn running_tab(a: AppModel) -> RunPanelModel {
    let empty = a.sapphire_log.len() == 0;
    RunPanelModel {
        status: run_label(a.sapphire.running, empty),
        buttons: seq![
            sending_unless(empty, "Copy"@, Look::Secondary, MessageModel::CopyRunLog),
            sending_unless(
                empty,
                match a.host.platform {
                    Platform::Windows => "Open in Notepad"@,
                    Platform::Linux => "Open log"@,
                },
                Look::Secondary,
                MessageModel::OpenRunLog,
            ),
            sending("Bottom"@, Look::Secondary, MessageModel::ScrollRunLog),
        ],
        log: if empty {
            "Waiting..."@
        } else {
            joined(tail_of(a.sapphire_log, RUN_TAIL as nat), "\n"@)
        },
    }
}

/// The log at the bottom.
#[derive(Debug, Clone)]
pub struct LogPanel {
    pub toggle: Press,
    pub log: Option<String>,
}

/// `LogPanel` with its texts as character sequences.
#[verifier::ext_equal]
pub struct LogPanelModel {
    pub toggle: PressModel,
    pub log: Option<Seq<char>>,
}

impl DeepView for LogPanel {
    type V = LogPanelModel;

    open spec fn deep_view(&self) -> LogPanelModel {
        LogPanelModel { toggle: self.toggle.deep_view(), log: self.log.deep_view() }
    }
}

/// The log at the bottom: only its last lines are shown, and none where it
/// is folded.
pub open spec fn log_panel(a: AppModel) -> LogPanelModel {
    LogPanelModel {
        toggle: sending(
            if a.log_visible {
                "[-] Log"@
            } else {
                "[+] Log"@
            },
            Look::Plain,
            MessageModel::ToggleLog,
        ),
        log: if a.log_visible {
            Some(joined(tail_of(a.log_lines, LOG_TAIL as nat), "\n"@))
        } else {
            None
        },
    }
}

fn tail_text(list: &Vec<String>, n: usize) -> (s: String)
    ensures
        s@ == joined(tail_of(list.deep_view(), n as nat), "\n"@),
{
    let len: usize = list.len();
    let from: usize = if len > n {
        len - n
    } else {
        0
    };
    assert(list.deep_view().skip(from as int) =~= tail_of(list.deep_view(), n as nat));
    join_from(list, from, "\n")
}

fn show_run(running: bool, empty: bool) -> (l: Label)
    ensures
        l.deep_view() == run_label(running, empty),
{
    if running {
        label("Sapphire is running", GREEN)
    } else if empty {
        label("Hit Launch to start Sapphire.", DIM)
    } else {
        label("Sapphire stopped", DIM)
    }
}

impl App {
    /// Shows the running tab.
    pub fn view_running_tab(&self) -> (p: RunPanel)
        ensures
            p.deep_view() == running_tab(self.deep_view()),
    {
        let empty = self.sapphire_log.len() == 0;
        let open = match self.host.platform {
            Platform::Windows => "Open in Notepad",
            Platform::Linux => "Open log",
        };
        let buttons = vec![
            press_unless(empty, "Copy", Look::Secondary, Message::CopyRunLog),
            press_unless(empty, open, Look::Secondary, Message::OpenRunLog),
            press("Bottom", Look::Secondary, Message::ScrollRunLog),
        ];
        assert(buttons.deep_view() =~= running_tab(self.deep_view()).buttons);
        let log = if empty {
            "Waiting...".to_string()
        } else {
            tail_text(&self.sapphire_log, RUN_TAIL)
        };
        RunPanel { status: show_run(self.sapphire.running, empty), buttons, log }
    }

    /// Shows the log at the bottom.
    pub fn view_log_panel(&self) -> (p: LogPanel)
        ensures
            p.deep_view() == log_panel(self.deep_view()),
    {
        if self.log_visible {
            LogPanel {
                toggle: press("[-] Log", Look::Plain, Message::ToggleLog),
                log: Some(tail_text(&self.log_lines, LOG_TAIL)),
            }
        } else {
            LogPanel { toggle: press("[+] Log", Look::Plain, Message::ToggleLog), log: None }
        }
    }
}

} // verus!
