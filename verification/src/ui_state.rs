//! The UI's own state, apart from rendering: the top-level view state and
//! how events drive it, the actions the views hand back, the bounded
//! terminal log, and the small per-panel states.

use std::collections::VecDeque;
use vstd::prelude::*;
use vstd::string::StringExecFns;
use crate::auth::DeviceCodeResponse;
use crate::events::AppEvent;

verus! {

/// Where the top-level view stands.
#[derive(Debug, Clone, PartialEq)]
pub enum AppState {
    Login,
    RequestingCode,
    DeviceAuth { response: DeviceCodeResponse },
    Main,
}

impl AppState {
    /// How one backend event moves the view: a device code opens the
    /// verification prompt, a successful authentication enters the main
    /// view, and a failure while a code was being requested falls back to
    /// the login view. Every other event leaves the view where it is.
    pub fn on_auth_event(self, event: &AppEvent) -> (r: AppState)
        ensures
            event matches AppEvent::DeviceCode(res) ==> (r matches AppState::DeviceAuth {
                response,
            } && response == res),
            event is AuthSuccess ==> r is Main,
            event is Error ==> (if self is RequestingCode {
                r is Login
            } else {
                r == self
            }),
            !(event is DeviceCode || event is AuthSuccess || event is Error) ==> r == self,
    {
        match event {
            AppEvent::DeviceCode(res) => AppState::DeviceAuth { response: res.clone() },
            AppEvent::AuthSuccess(_) => AppState::Main,
            AppEvent::Error(_) => {
                match self {
                    AppState::RequestingCode => AppState::Login,
                    other => other,
                }
            },
            _ => self,
        }
    }
}

/// What the login view asks of the app after a frame.
#[derive(Debug, Clone, Copy, PartialEq, Eq, Structural)]
pub enum LoginAction {
    Initiate,
    Idle,
}

/// What the file browser asks of the app after a frame.
#[derive(Debug, Clone, PartialEq)]
pub enum BrowserAction {
    BackToRepoList,
    NavigateTo(String),
    OpenFile(String, String),
    CloseViewer,
}

/// The terminal log panel: a bounded scrollback of prefixed lines. The
/// oldest line falls out when a new one would exceed the bound.
#[derive(Debug, Clone, PartialEq)]
pub struct LogViewer {
    logs: VecDeque<String>,
    max_logs: usize,
}

impl LogViewer {
    /// The lines the scrollback holds, oldest first.
    pub closed spec fn entries(&self) -> Seq<String> {
        self.logs@
    }

    /// How many lines the scrollback may hold.
    pub closed spec fn bound(&self) -> nat {
        self.max_logs as nat
    }

    /// The scrollback never exceeds its bound.
    pub open spec fn wf(&self) -> bool {
        &&& self.entries().len() <= self.bound()
        &&& self.bound() >= 1
    }

    /// Starts with the two banner lines and room for a hundred.
    pub fn new() -> (r: Self)
        ensures
            r.wf(),
            r.bound() == 100,
            r.entries().len() == 2,
            r.entries()[0]@ == "> SYSTEM INITIALIZED"@,
            r.entries()[1]@ == "> AWAITING INPUT..."@,
    {
        let mut logs: VecDeque<String> = VecDeque::new();
        logs.push_back(String::from_str("> SYSTEM INITIALIZED"));
        logs.push_back(String::from_str("> AWAITING INPUT..."));
        LogViewer { logs, max_logs: 100 }
    }

    /// Appends one line, prefixed with `> `; at the bound, the oldest line
    /// leaves first, so the bound is kept.
    pub fn add_log(&mut self, msg: String)
        requires
            old(self).wf(),
        ensures
            final(self).wf(),
            final(self).bound() == old(self).bound(),
            old(self).entries().len() < old(self).bound() ==> {
                &&& final(self).entries().len() == old(self).entries().len() + 1
                &&& (forall|k: int|
                    0 <= k < old(self).entries().len() ==> final(self).entries()[k] == old(
                        self,
                    ).entries()[k])
                &&& final(self).entries().last()@ == "> "@ + msg@
            },
            old(self).entries().len() >= old(self).bound() ==> {
                &&& final(self).entries().len() == old(self).entries().len()
                &&& (forall|k: int|
                    0 <= k < final(self).entries().len() - 1 ==> final(self).entries()[k] == old(
                        self,
                    ).entries()[k + 1])
                &&& final(self).entries().last()@ == "> "@ + msg@
            },
    {
        if self.logs.len() >= self.max_logs {
            self.logs.pop_front();
        }
        let mut line = String::from_str("> ");
        line.append(msg.as_str());
        self.logs.push_back(line);
    }

    /// How many lines the scrollback holds.
    pub fn len(&self) -> (r: usize)
        ensures
            r == self.entries().len(),
    {
        self.logs.len()
    }

    /// One line of the scrollback, oldest first.
    pub fn line(&self, i: usize) -> (r: &String)
        requires
            i < self.entries().len(),
        ensures
            r == self.entries()[i as int],
    {
        &self.logs[i]
    }
}

/// The sidebar's state: which tab of the browsing view is active.
#[derive(Debug, Clone, Copy, PartialEq, Eq, Structural)]
pub struct Sidebar {
    /// Zero for issues, one for pull requests.
    pub active_tab: u8,
}

impl Sidebar {
    pub fn new() -> (r: Self)
        ensures
            r.active_tab == 0,
    {
        Sidebar { active_tab: 0 }
    }
}

/// The command deck panel; it keeps no state of its own.
#[derive(Debug, Clone, Copy, PartialEq, Eq, Structural)]
pub struct CommandDeck;

impl CommandDeck {
    pub fn new() -> Self {
        CommandDeck
    }
}

} // verus!
