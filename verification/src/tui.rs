//! The terminal operator console: its tabs, focus, command line and event
//! timeline, the texts it shows, and the runtime bridge that answers
//! operator commands with run events.
//!
//! Drawing, reading keys and the channels between the console and the
//! bridge are the caller's part; each key, event and command is handed in
//! here and the decision comes back.

use vstd::prelude::*;

use crate::text::{
    chars_of, decimal, first_word, first_word_of, join, join_strings, seq_starts_with, starts_with,
    string_of, texts, to_decimal, trim, trim_str,
};

verus! {

/// The workspace tabs, in display order.
pub open spec fn tab_titles() -> Seq<Seq<char>> {
    seq!["Run"@, "Agents"@, "Context"@, "Sessions"@, "Config"@, "Help"@]
}

/// The title of a workspace tab.
pub fn tab_title(tab: usize) -> (r: &'static str)
    requires
        tab < 6,
    ensures
        r@ == tab_titles()[tab as int],
{
    if tab == 0 {
        "Run"
    } else if tab == 1 {
        "Agents"
    } else if tab == 2 {
        "Context"
    } else if tab == 3 {
        "Sessions"
    } else if tab == 4 {
        "Config"
    } else {
        "Help"
    }
}

/// What a workspace tab shows; every tab past `Config` shows the key help.
pub open spec fn tab_text(tab: nat) -> Seq<char> {
    if tab == 0 {
        "Enter a task in the command bar to dispatch it through the Nexus runtime bridge.\n\nPress c outside command mode to request cancellation."@
    } else if tab == 1 {
        "Dependency graph, worker state, handoffs, supervisor, and inspector.\n\n↑/↓ scroll the live event timeline when Timeline focus is active."@
    } else if tab == 2 {
        "Repository context, instructions, skills, token budgets, and Git-aware priorities."@
    } else if tab == 3 {
        "Durable SQLite sessions, replay, run history, and review artifacts."@
    } else if tab == 4 {
        "Layered configuration, provider/model selection, permissions, plugins, and sandbox policy."@
    } else {
        "Tab: change focus\n←/→: switch workspace tab\n↑/↓: inspect timeline\nEnter: dispatch command\nc: cancel active run\nEsc: leave command input\nq: quit"@
    }
}

pub fn tab_content(tab: usize) -> (r: &'static str)
    ensures
        r@ == tab_text(tab as nat),
{
    if tab == 0 {
        "Enter a task in the command bar to dispatch it through the Nexus runtime bridge.\n\nPress c outside command mode to request cancellation."
    } else if tab == 1 {
        "Dependency graph, worker state, handoffs, supervisor, and inspector.\n\n↑/↓ scroll the live event timeline when Timeline focus is active."
    } else if tab == 2 {
        "Repository context, instructions, skills, token budgets, and Git-aware priorities."
    } else if tab == 3 {
        "Durable SQLite sessions, replay, run history, and review artifacts."
    } else if tab == 4 {
        "Layered configuration, provider/model selection, permissions, plugins, and sandbox policy."
    } else {
        "Tab: change focus\n←/→: switch workspace tab\n↑/↓: inspect timeline\nEnter: dispatch command\nc: cancel active run\nEsc: leave command input\nq: quit"
    }
}

/// Which part of the console takes the keys.
#[derive(Debug, Clone, Copy, PartialEq, Eq, Structural)]
pub enum Focus {
    Tabs,
    Command,
    Timeline,
}

/// The keys the console reacts to; every other key is `Other`.
#[derive(Debug, Clone, Copy, PartialEq, Eq, Structural)]
pub enum Key {
    Char(char),
    Tab,
    Left,
    Right,
    Up,
    Down,
    Backspace,
    Enter,
    Esc,
    Other,
}

/// What the console asks of the runtime bridge.
#[derive(Debug)]
pub enum RuntimeCommand {
    Run(String),
    Cancel,
    Shutdown,
}

/// The part an agent plays in a run.
#[derive(Debug, Clone, Copy, PartialEq, Eq, Structural)]
pub enum AgentRole {
    Supervisor,
    Worker,
    Inspector,
}

pub open spec fn role_text(role: AgentRole) -> Seq<char> {
    match role {
        AgentRole::Supervisor => "Supervisor"@,
        AgentRole::Worker => "Worker"@,
        AgentRole::Inspector => "Inspector"@,
    }
}

/// The name of a role, as its debug form writes it.
pub fn role_name(role: AgentRole) -> (r: &'static str)
    ensures
        r@ == role_text(role),
{
    match role {
        AgentRole::Supervisor => "Supervisor",
        AgentRole::Worker => "Worker",
        AgentRole::Inspector => "Inspector",
    }
}

/// What happens in a run, as the console hears of it.
#[derive(Debug, Clone)]
pub enum AgentEvent {
    RunStarted { run_name: String },
    LayerStarted { tasks: Vec<String> },
    WorkerStarted { task_id: String, agent_index: usize, workspace: String },
    WorkerCompleted { task_id: String, agent_index: usize },
    WorkerFailed { task_id: String, agent_index: usize, error: String },
    RoleStarted { role: AgentRole, task_id: String },
    RoleCompleted { role: AgentRole, task_id: String },
    RunCompleted { run_name: String },
    RunCancelled { run_name: String },
}

/// Workers are shown counting from one, so their index must leave room for that.
pub open spec fn event_printable(event: AgentEvent) -> bool {
    match event {
        AgentEvent::WorkerStarted { agent_index, .. } => agent_index < usize::MAX,
        AgentEvent::WorkerCompleted { agent_index, .. } => agent_index < usize::MAX,
        AgentEvent::WorkerFailed { agent_index, .. } => agent_index < usize::MAX,
        _ => true,
    }
}

/// The timeline line of an event.
pub open spec fn event_line(event: AgentEvent) -> Seq<char> {
    match event {
        AgentEvent::RunStarted { run_name } => "run.started · "@ + run_name@,
        AgentEvent::LayerStarted { tasks } => "layer.started · "@ + join(texts(tasks@), ", "@),
        AgentEvent::WorkerStarted { task_id, agent_index, workspace } => "worker.started · "@
            + task_id@ + " · worker "@ + decimal((agent_index + 1) as nat) + " · "@ + workspace@,
        AgentEvent::WorkerCompleted { task_id, agent_index } => "worker.completed · "@ + task_id@
            + " · worker "@ + decimal((agent_index + 1) as nat),
        AgentEvent::WorkerFailed { task_id, agent_index, error } => "worker.failed · "@ + task_id@
            + " · worker "@ + decimal((agent_index + 1) as nat) + " · "@ + error@,
        AgentEvent::RoleStarted { role, task_id } => "role.started · "@ + role_text(role) + " · "@
            + task_id@,
        AgentEvent::RoleCompleted { role, task_id } => "role.completed · "@ + role_text(role)
            + " · "@ + task_id@,
        AgentEvent::RunCompleted { run_name } => "run.completed · "@ + run_name@,
        AgentEvent::RunCancelled { run_name } => "run.cancelled · "@ + run_name@,
    }
}

/// Writes an event as a timeline line.
pub fn format_event(event: &AgentEvent) -> (r: String)
    requires
        event_printable(*event),
    ensures
        r@ == event_line(*event),
{
    match event {
        AgentEvent::RunStarted { run_name } => {
            let mut s = "run.started · ".to_owned();
            s.append(run_name.as_str());
            s
        },
        AgentEvent::LayerStarted { tasks } => {
            let mut s = "layer.started · ".to_owned();
            s.append(join_strings(tasks, ", ").as_str());
            s
        },
        AgentEvent::WorkerStarted { task_id, agent_index, workspace } => {
            let mut s = "worker.started · ".to_owned();
            s.append(task_id.as_str());
            s.append(" · worker ");
            s.append(to_decimal(*agent_index + 1).as_str());
            s.append(" · ");
            s.append(workspace.as_str());
            s
        },
        AgentEvent::WorkerCompleted { task_id, agent_index } => {
            let mut s = "worker.completed · ".to_owned();
            s.append(task_id.as_str());
            s.append(" · worker ");
            s.append(to_decimal(*agent_index + 1).as_str());
            s
        },
        AgentEvent::WorkerFailed { task_id, agent_index, error } => {
            let mut s = "worker.failed · ".to_owned();
            s.append(task_id.as_str());
            s.append(" · worker ");
            s.append(to_decimal(*agent_index + 1).as_str());
            s.append(" · ");
            s.append(error.as_str());
            s
        },
        AgentEvent::RoleStarted { role, task_id } => {
            let mut s = "role.started · ".to_owned();
            s.append(role_name(*role));
            s.append(" · ");
            s.append(task_id.as_str());
            s
        },
        AgentEvent::RoleCompleted { role, task_id } => {
            let mut s = "role.completed · ".to_owned();
            s.append(role_name(*role));
            s.append(" · ");
            s.append(task_id.as_str());
            s
        },
        AgentEvent::RunCompleted { run_name } => {
            let mut s = "run.completed · ".to_owned();
            s.append(run_name.as_str());
            s
        },
        AgentEvent::RunCancelled { run_name } => {
            let mut s = "run.cancelled · ".to_owned();
            s.append(run_name.as_str());
            s
        },
    }
}

/// The status line after an event: the start, end, cancellation or a
/// worker's failure of a run replaces it; other events leave it.
pub open spec fn status_after(status: Seq<char>, event: AgentEvent) -> Seq<char> {
    match event {
        AgentEvent::RunStarted { run_name } => "Running: "@ + run_name@,
        AgentEvent::RunCompleted { .. } => "Run completed"@,
        AgentEvent::RunCancelled { .. } => "Run cancelled"@,
        AgentEvent::WorkerFailed { error, .. } => "Worker failed: "@ + error@,
        _ => status,
    }
}

/// What the console holds: the open tab, the focus, the command being
/// typed, the timeline, whether to quit, the status line and the selected
/// timeline entry.
pub struct ConsoleView {
    pub tab: nat,
    pub focus: Focus,
    pub command: Seq<char>,
    pub events: Seq<Seq<char>>,
    pub quit: bool,
    pub status: Seq<char>,
    pub selected: nat,
}

/// A console state the console can be in: a tab that exists, and a
/// selected entry of a timeline that is never empty.
pub open spec fn console_ok(v: ConsoleView) -> bool {
    &&& v.tab < 6
    &&& v.events.len() > 0
    &&& v.selected < v.events.len()
}

/// What a key asks of the runtime bridge, if anything.
pub enum KeyIntent {
    Nothing,
    Cancel,
    Run(Seq<char>),
}

/// The focus that `Tab` moves to.
pub open spec fn next_focus(f: Focus) -> Focus {
    match f {
        Focus::Tabs => Focus::Command,
        Focus::Command => Focus::Timeline,
        Focus::Timeline => Focus::Tabs,
    }
}

pub open spec fn min_nat(a: nat, b: nat) -> nat {
    if a <= b {
        a
    } else {
        b
    }
}

/// The console after a key, and what the key asks of the bridge. `q` and
/// `c` quit and cancel outside the command line; inside it every character
/// is typed. The arrows move between tabs or timeline entries when those
/// have the focus. `Enter` asks to run the trimmed command when it is not
/// blank (the console changes only once the bridge has answered); `Esc`
/// clears the command line and gives the focus to the tabs.
pub open spec fn after_key(v: ConsoleView, key: Key) -> (ConsoleView, KeyIntent) {
    match key {
        Key::Char(c) => {
            if v.focus != Focus::Command {
                if c == 'q' {
                    (ConsoleView { quit: true, ..v }, KeyIntent::Nothing)
                } else if c == 'c' {
                    (ConsoleView { status: "Cancellation requested"@, ..v }, KeyIntent::Cancel)
                } else {
                    (v, KeyIntent::Nothing)
                }
            } else {
                (ConsoleView { command: v.command.push(c), ..v }, KeyIntent::Nothing)
            }
        },
        Key::Tab => (ConsoleView { focus: next_focus(v.focus), ..v }, KeyIntent::Nothing),
        Key::Left => {
            if v.focus == Focus::Tabs {
                (ConsoleView { tab: (if v.tab > 0 { v.tab - 1 } else { 0 }) as nat, ..v }, KeyIntent::Nothing)
            } else {
                (v, KeyIntent::Nothing)
            }
        },
        Key::Right => {
            if v.focus == Focus::Tabs {
                (ConsoleView { tab: min_nat(v.tab + 1, 5), ..v }, KeyIntent::Nothing)
            } else {
                (v, KeyIntent::Nothing)
            }
        },
        Key::Up => {
            if v.focus == Focus::Timeline {
                (
                    ConsoleView { selected: (if v.selected > 0 { v.selected - 1 } else { 0 }) as nat, ..v },
                    KeyIntent::Nothing,
                )
            } else {
                (v, KeyIntent::Nothing)
            }
        },
        Key::Down => {
            if v.focus == Focus::Timeline {
                let last = (if v.events.len() > 0 { v.events.len() - 1 } else { 0 }) as nat;
                (ConsoleView { selected: min_nat(v.selected + 1, last), ..v }, KeyIntent::Nothing)
            } else {
                (v, KeyIntent::Nothing)
            }
        },
        Key::Backspace => {
            if v.focus == Focus::Command {
                (
                    ConsoleView {
                        command: if v.command.len() > 0 {
                            v.command.drop_last()
                        } else {
                            v.command
                        },
                        ..v
                    },
                    KeyIntent::Nothing,
                )
            } else {
                (v, KeyIntent::Nothing)
            }
        },
        Key::Enter => {
            if v.focus == Focus::Command && trim(v.command).len() > 0 {
                (v, KeyIntent::Run(trim(v.command)))
            } else {
                (v, KeyIntent::Nothing)
            }
        },
        Key::Esc => (ConsoleView { command: Seq::empty(), focus: Focus::Tabs, ..v }, KeyIntent::Nothing),
        Key::Other => (v, KeyIntent::Nothing),
    }
}

/// The console once the bridge has answered a dispatched command: the
/// timeline says whether it went out, the command line is cleared and the
/// newest entry is selected.
pub open spec fn after_dispatch(v: ConsoleView, command: Seq<char>, sent: bool) -> ConsoleView {
    let events = if sent {
        v.events.push("command.dispatched · "@ + command)
    } else {
        v.events.push("command.failed · runtime bridge offline"@)
    };
    ConsoleView {
        events,
        status: if sent {
            "Dispatching: "@ + command
        } else {
            "Runtime bridge offline"@
        },
        command: Seq::empty(),
        selected: v.events.len(),
        ..v
    }
}

/// The console after a run event: its line joins the timeline and is selected.
pub open spec fn after_event(v: ConsoleView, event: AgentEvent) -> ConsoleView {
    ConsoleView {
        events: v.events.push(event_line(event)),
        status: status_after(v.status, event),
        selected: v.events.len(),
        ..v
    }
}

/// The key, event and dispatch rules keep the console in a state it can be in.
pub proof fn lemma_console_stays_ok(v: ConsoleView, key: Key, event: AgentEvent, command: Seq<char>, sent: bool)
    requires
        console_ok(v),
    ensures
        console_ok(after_key(v, key).0),
        console_ok(after_event(v, event)),
        console_ok(after_dispatch(v, command, sent)),
{
}

/// The operator console.
pub struct App {
    tab: usize,
    focus: Focus,
    command: String,
    events: Vec<String>,
    should_quit: bool,
    status: String,
    selected_event: usize,
}

impl View for App {
    type V = ConsoleView;

    closed spec fn view(&self) -> ConsoleView {
        ConsoleView {
            tab: self.tab as nat,
            focus: self.focus,
            command: self.command@,
            events: texts(self.events@),
            quit: self.should_quit,
            status: self.status@,
            selected: self.selected_event as nat,
        }
    }
}

impl App {
    #[verifier::type_invariant]
    closed spec fn console_invariant(&self) -> bool {
        &&& self.tab < 6
        &&& self.events@.len() > 0
        &&& self.selected_event < self.events@.len()
    }

    /// A fresh console on the first tab, with the bridges reported online.
    pub fn new() -> (app: Self)
        ensures
            app@ == (ConsoleView {
                tab: 0,
                focus: Focus::Tabs,
                command: Seq::empty(),
                events: seq!["system.ready · runtime command and event bridges online"@],
                quit: false,
                status: "Ready · runtime command bridge online"@,
                selected: 0,
            }),
    {
        let mut events: Vec<String> = Vec::new();
        events.push("system.ready · runtime command and event bridges online".to_owned());
        let app = App {
            tab: 0,
            focus: Focus::Tabs,
            command: String::new(),
            events,
            should_quit: false,
            status: "Ready · runtime command bridge online".to_owned(),
            selected_event: 0,
        };
        assert(app@.events =~= seq!["system.ready · runtime command and event bridges online"@]);
        app
    }

    pub fn tab(&self) -> (r: usize)
        ensures
            r == self@.tab,
            r < 6,
    {
        proof {
            use_type_invariant(self);
        }
        self.tab
    }

    pub fn focus(&self) -> (r: Focus)
        ensures
            r == self@.focus,
    {
        self.focus
    }

    pub fn command(&self) -> (r: &str)
        ensures
            r@ == self@.command,
    {
        self.command.as_str()
    }

    pub fn events(&self) -> (r: &Vec<String>)
        ensures
            texts(r@) == self@.events,
            r@.len() > 0,
    {
        proof {
            use_type_invariant(self);
        }
        &self.events
    }

    pub fn should_quit(&self) -> (r: bool)
        ensures
            r == self@.quit,
    {
        self.should_quit
    }

    pub fn status(&self) -> (r: &str)
        ensures
            r@ == self@.status,
    {
        self.status.as_str()
    }

    pub fn selected_event(&self) -> (r: usize)
        ensures
            r == self@.selected,
            r < self@.events.len(),
    {
        proof {
            use_type_invariant(self);
        }
        self.selected_event
    }

    /// Adds a line to the timeline and selects it.
    fn push_event(&mut self, line: String)
        ensures
            final(self)@ == (ConsoleView {
                events: old(self)@.events.push(line@),
                selected: old(self)@.events.len(),
                ..old(self)@
            }),
    {
        proof {
            use_type_invariant(&*self);
        }
        self.selected_event = 0;
        let mut events: Vec<String> = Vec::new();
        events.push(String::new());
        std::mem::swap(&mut self.events, &mut events);
        events.push(line);
        let n = events.len();
        self.events = events;
        self.selected_event = n - 1;
        assert(texts(self.events@) =~= old(self)@.events.push(line@));
    }

    /// Takes the command line out, leaving it empty.
    fn take_command(&mut self) -> (c: String)
        ensures
            c@ == old(self)@.command,
            final(self)@ == (ConsoleView { command: Seq::empty(), ..old(self)@ }),
    {
        proof {
            use_type_invariant(&*self);
        }
        let mut c = String::new();
        std::mem::swap(&mut self.command, &mut c);
        c
    }

    /// Takes in one run event.
    pub fn on_event(&mut self, event: &AgentEvent)
        requires
            event_printable(*event),
        ensures
            final(self)@ == after_event(old(self)@, *event),
    {
        proof {
            use_type_invariant(&*self);
        }
        let line = format_event(event);
        let status = match event {
            AgentEvent::RunStarted { run_name } => {
                let mut s = "Running: ".to_owned();
                s.append(run_name.as_str());
                s
            },
            AgentEvent::RunCompleted { .. } => "Run completed".to_owned(),
            AgentEvent::RunCancelled { .. } => "Run cancelled".to_owned(),
            AgentEvent::WorkerFailed { error, .. } => {
                let mut s = "Worker failed: ".to_owned();
                s.append(error.as_str());
                s
            },
            _ => self.status.clone(),
        };
        self.status = status;
        self.push_event(line);
    }

    /// Takes in one key; the answer says what to ask of the runtime bridge.
    pub fn handle_key(&mut self, key: Key) -> (r: KeyAction)
        ensures
            final(self)@ == after_key(old(self)@, key).0,
            r.intent() == after_key(old(self)@, key).1,
    {
        proof {
            use_type_invariant(&*self);
        }
        match key {
            Key::Char(c) => {
                if self.focus != Focus::Command {
                    if c == 'q' {
                        self.should_quit = true;
                    } else if c == 'c' {
                        self.status = "Cancellation requested".to_owned();
                        return KeyAction::Cancel;
                    }
                } else {
                    let mut command = self.take_command();
                    command.push(c);
                    self.command = command;
                }
                KeyAction::Nothing
            },
            Key::Tab => {
                self.focus = match self.focus {
                    Focus::Tabs => Focus::Command,
                    Focus::Command => Focus::Timeline,
                    Focus::Timeline => Focus::Tabs,
                };
                KeyAction::Nothing
            },
            Key::Left => {
                if self.focus == Focus::Tabs && self.tab > 0 {
                    self.tab = self.tab - 1;
                }
                KeyAction::Nothing
            },
            Key::Right => {
                if self.focus == Focus::Tabs && self.tab < 5 {
                    self.tab = self.tab + 1;
                }
                KeyAction::Nothing
            },
            Key::Up => {
                if self.focus == Focus::Timeline && self.selected_event > 0 {
                    self.selected_event = self.selected_event - 1;
                }
                KeyAction::Nothing
            },
            Key::Down => {
                if self.focus == Focus::Timeline && self.selected_event < self.events.len() - 1 {
                    self.selected_event = self.selected_event + 1;
                }
                KeyAction::Nothing
            },
            Key::Backspace => {
                if self.focus == Focus::Command {
                    let command = self.take_command();
                    let chars = chars_of(command.as_str());
                    let n = chars.len();
                    if n > 0 {
                        self.command = string_of(&chars, 0, n - 1);
                        assert(self.command@ =~= command@.drop_last());
                    } else {
                        self.command = command;
                    }
                }
                KeyAction::Nothing
            },
            Key::Enter => {
                if self.focus == Focus::Command {
                    let trimmed = trim_str(self.command.as_str());
                    if trimmed.as_str().unicode_len() > 0 {
                        return KeyAction::Run(trimmed);
                    }
                }
                KeyAction::Nothing
            },
            Key::Esc => {
                self.take_command();
                self.focus = Focus::Tabs;
                KeyAction::Nothing
            },
            Key::Other => KeyAction::Nothing,
        }
    }

    /// Takes in the bridge's answer to a dispatched command: whether it was sent.
    pub fn dispatched(&mut self, command: &str, sent: bool)
        ensures
            final(self)@ == after_dispatch(old(self)@, command@, sent),
    {
        proof {
            use_type_invariant(&*self);
        }
        let line = if sent {
            let mut l = "command.dispatched · ".to_owned();
            l.append(command);
            l
        } else {
            "command.failed · runtime bridge offline".to_owned()
        };
        let status = if sent {
            let mut l = "Dispatching: ".to_owned();
            l.append(command);
            l
        } else {
            "Runtime bridge offline".to_owned()
        };
        self.status = status;
        self.take_command();
        self.push_event(line);
    }
}

/// What the console asks of the runtime bridge after a key.
#[derive(Debug)]
pub enum KeyAction {
    Nothing,
    Cancel,
    Run(String),
}

impl KeyAction {
    pub open spec fn intent(&self) -> KeyIntent {
        match self {
            KeyAction::Nothing => KeyIntent::Nothing,
            KeyAction::Cancel => KeyIntent::Cancel,
            KeyAction::Run(c) => KeyIntent::Run(c@),
        }
    }
}

/// How many timeline entries report on a worker.
pub open spec fn worker_events(events: Seq<Seq<char>>) -> nat
    decreases events.len(),
{
    if events.len() == 0 {
        0
    } else {
        worker_events(events.drop_last()) + if seq_starts_with(events.last(), "worker."@) {
            1nat
        } else {
            0nat
        }
    }
}

/// Where the shown part of a timeline of `n` entries starts: at most the
/// last ten entries are shown.
pub open spec fn timeline_start(n: nat) -> nat {
    if n > 10 {
        (n - 10) as nat
    } else {
        0
    }
}

/// How the timeline shows entry `i`: the selected one is marked.
pub open spec fn timeline_line(v: ConsoleView, i: int) -> Seq<char> {
    (if i == v.selected {
        "▶ "@
    } else {
        "  "@
    }) + v.events[i]
}

impl App {
    /// The title of the agents panel, with the number of worker events.
    pub fn sidebar_title(&self) -> (r: String)
        ensures
            r@ == "Agents · "@ + decimal(worker_events(self@.events)) + " worker events"@,
    {
        let mut count: usize = 0;
        let mut k: usize = 0;
        while k < self.events.len()
            invariant
                k <= self.events@.len(),
                count <= k,
                count == worker_events(texts(self.events@).take(k as int)),
            decreases self.events@.len() - k,
        {
            proof {
                let t = texts(self.events@).take(k + 1);
                assert(t.drop_last() =~= texts(self.events@).take(k as int));
                assert(t.last() == self.events@[k as int]@);
            }
            if starts_with(self.events[k].as_str(), "worker.") {
                count = count + 1;
            }
            k = k + 1;
        }
        assert(texts(self.events@).take(self.events@.len() as int) =~= texts(self.events@));
        let mut s = "Agents · ".to_owned();
        s.append(to_decimal(count).as_str());
        s.append(" worker events");
        s
    }

    /// The command line as shown, with a cursor while it has the focus.
    pub fn prompt_line(&self) -> (r: String)
        ensures
            r@ == "> "@ + self@.command + if self@.focus == Focus::Command {
                "▌"@
            } else {
                Seq::empty()
            },
    {
        let mut s = "> ".to_owned();
        s.append(self.command.as_str());
        if self.focus == Focus::Command {
            s.append("▌");
        } else {
            assert(s@ =~= s@ + Seq::<char>::empty());
        }
        s
    }

    /// The title of the command line: the status and the key help.
    pub fn command_title(&self) -> (r: String)
        ensures
            r@ == "Command · "@ + self@.status + " · Tab focus · c cancel · q quit"@,
    {
        let mut s = "Command · ".to_owned();
        s.append(self.status.as_str());
        s.append(" · Tab focus · c cancel · q quit");
        s
    }

    /// The shown part of the timeline, oldest first, the selected entry marked.
    pub fn timeline(&self) -> (r: Vec<String>)
        ensures
            texts(r@) == Seq::new(
                (self@.events.len() - timeline_start(self@.events.len())) as nat,
                |k: int| timeline_line(self@, timeline_start(self@.events.len()) + k),
            ),
    {
        let n = self.events.len();
        let start = if n > 10 {
            n - 10
        } else {
            0
        };
        let ghost want = Seq::new(
            (self@.events.len() - timeline_start(self@.events.len())) as nat,
            |k: int| timeline_line(self@, timeline_start(self@.events.len()) + k),
        );
        let mut lines: Vec<String> = Vec::new();
        let mut i = start;
        while i < n
            invariant
                n == self.events@.len(),
                start == timeline_start(n as nat),
                start <= i <= n,
                texts(lines@) == want.take(i - start),
                want.len() == n - start,
                forall|k: int| 0 <= k < want.len() ==> #[trigger] want[k] == timeline_line(self@, start + k),
            decreases n - i,
        {
            let mut l = if i == self.selected_event {
                "▶ ".to_owned()
            } else {
                "  ".to_owned()
            };
            l.append(self.events[i].as_str());
            let ghost before = lines@;
            proof {
                assert(self@.events[i as int] == self.events@[i as int]@);
                assert(l@ == want[i - start]);
            }
            lines.push(l);
            proof {
                assert(texts(lines@) =~= texts(before).push(l@));
                assert(want.take(i + 1 - start) =~= want.take(i - start).push(want[i - start]));
            }
            i = i + 1;
        }
        assert(want.take(n - start) =~= want);
        lines
    }
}

/// The name of a run dispatched from the console: `tui-` and the task's
/// first word, or `tui-run` for a blank task.
pub open spec fn run_name_for(task: Seq<char>) -> Seq<char> {
    "tui-"@ + match first_word(task) {
        Some(w) => w,
        None => "run"@,
    }
}

/// The events a dispatched run reports: started, its one layer, its one
/// worker started and done, completed.
pub open spec fn run_events(events: Seq<AgentEvent>, task: Seq<char>) -> bool {
    let name = run_name_for(task);
    &&& events.len() == 5
    &&& events[0] matches AgentEvent::RunStarted { run_name } && run_name@ == name
    &&& events[1] matches AgentEvent::LayerStarted { tasks } && texts(tasks@) == seq![task]
    &&& events[2] matches AgentEvent::WorkerStarted { task_id, agent_index, workspace } && task_id@
        == task && agent_index == 0 && workspace@ == "runtime-dispatch"@
    &&& events[3] matches AgentEvent::WorkerCompleted { task_id, agent_index } && task_id@ == task
        && agent_index == 0
    &&& events[4] matches AgentEvent::RunCompleted { run_name } && run_name@ == name
}

/// The answer to a run asked for while another is active.
pub open spec fn busy_events(events: Seq<AgentEvent>) -> bool {
    &&& events.len() == 1
    &&& events[0] matches AgentEvent::WorkerFailed { task_id, agent_index, error } && task_id@
        == "dispatch"@ && agent_index == 0 && error@
        == "a run is already active; cancel it before starting another"@
}

/// The runtime side of the console: it runs one task at a time and reports
/// what happens as run events.
pub struct RuntimeBridge {
    active_run: Option<String>,
}

impl RuntimeBridge {
    /// The name of the active run, if any.
    pub closed spec fn active(&self) -> Option<Seq<char>> {
        match self.active_run {
            Some(n) => Some(n@),
            None => None,
        }
    }

    pub fn new() -> (b: Self)
        ensures
            b.active() is None,
    {
        RuntimeBridge { active_run: None }
    }

    /// Answers one command with the events to report, and whether to stop.
    pub fn on_command(&mut self, command: RuntimeCommand) -> (r: (Vec<AgentEvent>, bool))
        ensures
            match command {
                RuntimeCommand::Run(task) => {
                    &&& !r.1
                    &&& old(self).active() is Some ==> busy_events(r.0@) && final(self).active()
                        == old(self).active()
                    &&& old(self).active() is None ==> run_events(r.0@, task@)
                        && final(self).active() is None
                },
                RuntimeCommand::Cancel => {
                    &&& !r.1
                    &&& final(self).active() is None
                    &&& match old(self).active() {
                        Some(name) => r.0@.len() == 1 && (r.0@[0] matches AgentEvent::RunCancelled {
                            run_name,
                        } && run_name@ == name),
                        None => r.0@.len() == 0,
                    }
                },
                RuntimeCommand::Shutdown => r.1 && r.0@.len() == 0
                    && final(self).active() == old(self).active(),
            },
    {
        let mut events: Vec<AgentEvent> = Vec::new();
        match command {
            RuntimeCommand::Run(task) => {
                if self.active_run.is_some() {
                    events.push(
                        AgentEvent::WorkerFailed {
                            task_id: "dispatch".to_owned(),
                            agent_index: 0,
                            error: "a run is already active; cancel it before starting another".to_owned(),
                        },
                    );
                    return (events, false);
                }
                let mut run_name = "tui-".to_owned();
                match first_word_of(task.as_str()) {
                    Some(w) => run_name.append(w.as_str()),
                    None => run_name.append("run"),
                }
                self.active_run = Some(run_name.clone());
                let mut tasks: Vec<String> = Vec::new();
                tasks.push(task.clone());
                events.push(AgentEvent::RunStarted { run_name: run_name.clone() });
                events.push(AgentEvent::LayerStarted { tasks });
                events.push(
                    AgentEvent::WorkerStarted {
                        task_id: task.clone(),
                        agent_index: 0,
                        workspace: "runtime-dispatch".to_owned(),
                    },
                );
                events.push(AgentEvent::WorkerCompleted { task_id: task.clone(), agent_index: 0 });
                events.push(AgentEvent::RunCompleted { run_name });
                self.active_run = None;
                proof {
                    assert(texts(tasks@) =~= seq![task@]);
                }
                (events, false)
            },
            RuntimeCommand::Cancel => {
                match self.active_run.take() {
                    Some(run_name) => events.push(AgentEvent::RunCancelled { run_name }),
                    None => {},
                }
                (events, false)
            },
            RuntimeCommand::Shutdown => (events, true),
        }
    }
}

} // verus!

verus! {

/// Outside the command line (tabs or timeline focused), `q` quits and `c`
/// asks the bridge to cancel, saying so in the status line; neither touches
/// the command line. Inside the command line both are typed. No key ever
/// takes back a request to quit.
pub proof fn lemma_quit_and_cancel_keys(v: ConsoleView, key: Key)
    ensures
        v.focus == Focus::Tabs || v.focus == Focus::Timeline ==> {
            &&& after_key(v, Key::Char('q')).0.quit
            &&& after_key(v, Key::Char('q')).0.command == v.command
            &&& after_key(v, Key::Char('c')).1 is Cancel
            &&& after_key(v, Key::Char('c')).0.status == "Cancellation requested"@
            &&& after_key(v, Key::Char('c')).0.command == v.command
        },
        v.focus == Focus::Command ==> {
            &&& after_key(v, Key::Char('q')).0.command == v.command.push('q')
            &&& after_key(v, Key::Char('q')).0.quit == v.quit
            &&& after_key(v, Key::Char('c')).0.command == v.command.push('c')
            &&& after_key(v, Key::Char('c')).1 is Nothing
        },
        v.quit ==> after_key(v, key).0.quit,
{
}

} // verus!
