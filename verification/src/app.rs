//! The console's state: the tabs, the listeners, the session registry and
//! what is selected, with one method for each thing the operator can do.
//!
//! Every method says what it does as a function on `AppModel`, the state as a
//! mathematical value. Binding sockets, drawing and waiting for keys are the
//! caller's; a method that needs one of them done says so in what it returns.

use vstd::prelude::*;
use vstd::slice::slice_to_vec;
use crossbeam::channel::{Receiver, Sender};
use std::sync::{Arc, Mutex};
use vstd::string::StringSliceAdditionalSpecFns;
use crate::channel::{channel_len, channel_pair, channel_send, channel_try_recv};
use crate::keys::{
    bytes_view, key_bytes, key_encoding, KeyCode, KeyError, KeyEvent, KeyEventKind, CONTROL,
};
use crate::session::{Session, SessionBus};
use crate::terminal::Terminal;

verus! {

/// The port that a new listener is bound to.
pub const LISTEN_PORT: u16 = 1337;

/// Rows of a new session's terminal.
pub const SESSION_ROWS: u16 = 20;

/// Columns of a new session's terminal.
pub const SESSION_COLS: u16 = 80;

/// The first command sent to a new peer: it asks the remote shell for a
/// terminal of its own.
pub const SHELL_UPGRADE: &'static str = "script -qc /usr/bin/bash /dev/null 2>&1\n";

/// The second command sent to a new peer: it switches the remote echo off.
pub const ECHO_OFF: &'static str = "stty -echo nl\n";

/// A terminal's size in character cells.
#[derive(Debug, Clone, Copy, PartialEq, Eq, Structural)]
pub struct TerminalSize {
    pub cols: u16,
    pub rows: u16,
}

impl TerminalSize {
    pub fn new(cols: u16, rows: u16) -> (size: Self)
        ensures
            size.cols == cols,
            size.rows == rows,
    {
        Self { cols, rows }
    }
}

impl Default for TerminalSize {
    /// Eighty columns by twenty-four rows.
    fn default() -> (size: Self)
        ensures
            size == (TerminalSize { cols: 80, rows: 24 }),
    {
        Self { cols: 80, rows: 24 }
    }
}

/// What an acceptor tells the control thread.
pub enum NetworkEvent {
    /// A connection was accepted; this is its bus.
    NewSession(SessionBus),
}

/// The one channel on which every acceptor reports to the control thread.
#[derive(Clone)]
pub struct NetworkBus {
    pub sender: Sender<NetworkEvent>,
    pub receiver: Receiver<NetworkEvent>,
}

impl Default for NetworkBus {
    fn default() -> (bus: Self) {
        let (sender, receiver) = channel_pair();
        Self { sender, receiver }
    }
}

/// What a listener is doing.
#[derive(Debug, Clone, Copy, PartialEq, Eq, Structural)]
pub enum ListenerStatus {
    Starting,
    Listening,
    Closed,
    Error,
}

impl ListenerStatus {
    /// The status in capitals, as a table shows it.
    pub open spec fn label(self) -> Seq<char> {
        match self {
            ListenerStatus::Starting => "STARTING"@,
            ListenerStatus::Listening => "LISTENING"@,
            ListenerStatus::Closed => "CLOSED"@,
            ListenerStatus::Error => "ERROR"@,
        }
    }

    /// The status in capitals, as a table shows it.
    pub fn to_string(&self) -> (text: String)
        ensures
            text@ == self.label(),
    {
        match self {
            ListenerStatus::Starting => "STARTING".to_owned(),
            ListenerStatus::Listening => "LISTENING".to_owned(),
            ListenerStatus::Closed => "CLOSED".to_owned(),
            ListenerStatus::Error => "ERROR".to_owned(),
        }
    }
}

/// A bound listening socket as the console shows it.
#[derive(Debug, Clone, Copy, PartialEq, Eq, Structural)]
pub struct Listener {
    pub port: u16,
    pub status: ListenerStatus,
}

/// The two panes of the local tab.
#[derive(PartialEq, Eq, Debug, Clone, Copy, Structural)]
pub enum LocalTabs {
    Listeners,
    Sessions,
}

/// The tab bar: the titles and which of them is shown.
pub struct TabsState<'a> {
    pub titles: Vec<&'a str>,
    pub index: usize,
}

/// The tab after the one at `index` among `count` tabs: the one to its right,
/// and the first one after the last. An index beyond the tabs is counted on
/// round the tabs.
pub open spec fn next_tab(index: usize, count: nat) -> usize {
    if index + 1 < count {
        (index + 1) as usize
    } else if index + 1 == count {
        0
    } else {
        ((index + 1) % (count as int)) as usize
    }
}

impl<'a> TabsState<'a> {
    /// There is a tab, and the one shown is one of them.
    pub open spec fn wf(&self) -> bool {
        0 < self.titles@.len() && self.index < self.titles@.len()
    }

    /// Shows the tab to the right, and the first one after the last.
    pub fn next(&mut self)
        requires
            old(self).titles@.len() > 0,
            old(self).index < usize::MAX,
        ensures
            final(self).titles == old(self).titles,
            final(self).index == next_tab(old(self).index, old(self).titles@.len()),
            final(self).index == (old(self).index + 1) % (old(self).titles@.len() as int),
            final(self).index < final(self).titles@.len(),
    {
        proof {
            let count = self.titles@.len();
            if self.index + 1 < count {
                vstd::arithmetic::div_mod::lemma_small_mod((self.index + 1) as nat, count);
            } else if self.index + 1 == count {
                vstd::arithmetic::div_mod::lemma_mod_self_0(count as int);
            }
        }
        self.index = (self.index + 1) % self.titles.len();
    }

    /// Shows the tab to the left, and the last one before the first.
    pub fn previous(&mut self)
        requires
            old(self).index == 0 ==> old(self).titles@.len() > 0,
        ensures
            final(self).titles == old(self).titles,
            final(self).index == if old(self).index == 0 {
                old(self).titles@.len() - 1
            } else {
                old(self).index - 1
            },
            old(self).wf() ==> final(self).wf(),
    {
        if self.index == 0 {
            self.index = self.titles.len() - 1;
        } else {
            self.index -= 1;
        }
    }
}

/// The console's state.
pub struct App<'a> {
    pub tabs: TabsState<'a>,
    pub active_tab: LocalTabs,
    pub remote_size: TerminalSize,
    pub listeners: Vec<Listener>,
    pub listener_selection_index: usize,
    pub sessions: Vec<Arc<Session>>,
    pub highest_session_number: usize,
    pub session_selection_index: usize,
    pub session: Option<Arc<Session>>,
    pub network_bus: NetworkBus,
}

/// The console's state as a mathematical value.
pub struct AppModel<'a> {
    pub tabs: TabsState<'a>,
    pub active_tab: LocalTabs,
    pub remote_size: TerminalSize,
    pub listeners: Seq<Listener>,
    pub listener_selection_index: usize,
    pub sessions: Seq<Arc<Session>>,
    pub highest_session_number: usize,
    pub session_selection_index: usize,
    pub session: Option<Arc<Session>>,
    pub network_bus: NetworkBus,
}

impl<'a> View for App<'a> {
    type V = AppModel<'a>;

    open spec fn view(&self) -> AppModel<'a> {
        AppModel {
            tabs: self.tabs,
            active_tab: self.active_tab,
            remote_size: self.remote_size,
            listeners: self.listeners@,
            listener_selection_index: self.listener_selection_index,
            sessions: self.sessions@,
            highest_session_number: self.highest_session_number,
            session_selection_index: self.session_selection_index,
            session: self.session,
            network_bus: self.network_bus,
        }
    }
}

/// The identifiers of the registered sessions rise along the list, and none
/// is zero or above the highest one handed out.
pub open spec fn ids_ordered(sessions: Seq<Arc<Session>>, highest: usize) -> bool {
    &&& forall|i: int| 0 <= i < sessions.len() ==> 1 <= (#[trigger] sessions[i]).id <= highest
    &&& forall|i: int, j: int|
        0 <= i < j < sessions.len() ==> (#[trigger] sessions[i]).id < (#[trigger] sessions[j]).id
}

/// What the operator's key asks of the console.
#[derive(Clone, Copy, Debug, PartialEq, Eq, Structural)]
pub enum KeyRoute {
    /// Nothing: the key was not pressed, or means nothing here.
    Ignored,
    /// Show the other tab.
    SwitchTab,
    /// Pass the key on to the attached session.
    Remote,
    Quit,
    Tab,
    Down,
    Up,
    Space,
    Enter,
    Create,
    Delete,
}

/// What the caller has to do after a key.
#[derive(Clone, Copy, Debug, PartialEq, Eq, Structural)]
pub enum Command {
    /// Nothing.
    Idle,
    /// Leave the console.
    Quit,
    /// Bind a listener to this port on every address; report it with
    /// `listener_bound` once it is bound.
    Bind(u16),
}

/// What became of a key that was meant for the attached session.
#[derive(Clone, Copy, Debug, PartialEq, Eq, Structural)]
pub enum Delivery {
    /// Nothing was to be sent: the key was not pressed, or no session is
    /// attached.
    Ignored,
    /// The key's bytes were queued for the peer.
    Sent,
    /// The session's outbound channel took nothing: it is closed.
    Refused,
}

impl<'a> AppModel<'a> {
    /// The state that every method keeps: the tab bar is sound and the
    /// registry's identifiers are in order.
    pub open spec fn wf(self) -> bool {
        &&& self.tabs.wf()
        &&& ids_ordered(self.sessions, self.highest_session_number)
    }

    /// Whether the tab bar can go on to the next tab: there is a tab, and
    /// the number after that of the shown one fits a `usize`. A sound tab
    /// bar can.
    pub open spec fn can_switch(self) -> bool {
        self.tabs.titles@.len() > 0 && self.tabs.index < usize::MAX
    }

    /// Whether the local tab is the one shown.
    pub open spec fn local(self) -> bool {
        self.tabs.index == 0
    }

    /// The state once the next tab is shown, the first one after the last.
    pub open spec fn after_next(self) -> Self {
        AppModel {
            tabs: TabsState {
                titles: self.tabs.titles,
                index: next_tab(self.tabs.index, self.tabs.titles@.len()),
            },
            ..self
        }
    }

    /// The state once the focus moved to the other pane, which it does on
    /// the local tab only.
    pub open spec fn after_tab(self) -> Self {
        if self.local() {
            AppModel {
                active_tab: match self.active_tab {
                    LocalTabs::Listeners => LocalTabs::Sessions,
                    LocalTabs::Sessions => LocalTabs::Listeners,
                },
                ..self
            }
        } else {
            self
        }
    }

    /// The port to bind if the operator asks for a listener now.
    pub open spec fn create_port(self) -> Option<u16> {
        if self.local() && self.active_tab == LocalTabs::Listeners {
            Some(LISTEN_PORT)
        } else {
            None
        }
    }

    /// The state once a listener bound to `port` is listed as listening.
    pub open spec fn after_bound(self, port: u16) -> Self {
        AppModel {
            listeners: self.listeners.push(Listener { port, status: ListenerStatus::Listening }),
            ..self
        }
    }

    /// The state once the selected session is attached, which needs the
    /// local tab, the focus on the sessions and a session in the selected
    /// row.
    pub open spec fn after_space(self) -> Self {
        if self.local() && self.active_tab == LocalTabs::Sessions && self.session_selection_index
            < self.sessions.len() {
            AppModel {
                session: Some(self.sessions[self.session_selection_index as int]),
                ..self
            }
        } else {
            self
        }
    }

    /// The state once the selected listener left the list, which needs the
    /// local tab, the focus on the listeners and a listener in the selected
    /// row.
    pub open spec fn after_delete(self) -> Self {
        if self.local() && self.active_tab == LocalTabs::Listeners && self.listener_selection_index
            < self.listeners.len() {
            AppModel {
                listeners: self.listeners.remove(self.listener_selection_index as int),
                ..self
            }
        } else {
            self
        }
    }

    /// The state once the selection of the focused pane moved one row down,
    /// which needs the local tab and a row below the selected one.
    pub open spec fn after_down(self) -> Self {
        if !self.local() {
            self
        } else {
            match self.active_tab {
                LocalTabs::Listeners => if self.listener_selection_index + 1
                    < self.listeners.len() {
                    AppModel {
                        listener_selection_index: (self.listener_selection_index + 1) as usize,
                        ..self
                    }
                } else {
                    self
                },
                LocalTabs::Sessions => if self.session_selection_index + 1 < self.sessions.len() {
                    AppModel {
                        session_selection_index: (self.session_selection_index + 1) as usize,
                        ..self
                    }
                } else {
                    self
                },
            }
        }
    }

    /// The state once the selection of the focused pane moved one row up,
    /// which needs the local tab and a row above the selected one.
    pub open spec fn after_up(self) -> Self {
        if !self.local() {
            self
        } else {
            match self.active_tab {
                LocalTabs::Listeners => if self.listener_selection_index > 0 {
                    AppModel {
                        listener_selection_index: (self.listener_selection_index - 1) as usize,
                        ..self
                    }
                } else {
                    self
                },
                LocalTabs::Sessions => if self.session_selection_index > 0 {
                    AppModel {
                        session_selection_index: (self.session_selection_index - 1) as usize,
                        ..self
                    }
                } else {
                    self
                },
            }
        }
    }

    /// The state once `session` joined the registry under the next
    /// identifier.
    pub open spec fn after_register(self, session: Arc<Session>) -> Self {
        AppModel {
            sessions: self.sessions.push(session),
            highest_session_number: (self.highest_session_number + 1) as usize,
            ..self
        }
    }

    /// The state once the session at `index` left the registry. The highest
    /// identifier stays, so no later session gets an identifier again.
    pub open spec fn after_evict(self, index: usize) -> Self {
        if index < self.sessions.len() {
            AppModel { sessions: self.sessions.remove(index as int), ..self }
        } else {
            self
        }
    }

    /// The state once each of `added` joined the registry in turn.
    pub open spec fn after_drain(self, added: Seq<Arc<Session>>) -> Self {
        AppModel {
            sessions: self.sessions + added,
            highest_session_number: (self.highest_session_number + added.len()) as usize,
            ..self
        }
    }

    /// The state once the remote pane was laid out at column `x`, row `y`.
    pub open spec fn after_remote_area(self, x: u16, y: u16) -> Self {
        if self.session is Some {
            AppModel { remote_size: TerminalSize { cols: y, rows: x }, ..self }
        } else {
            self
        }
    }

    /// Where a key goes. Control-a switches tabs from anywhere; on the remote
    /// tab every other key is the session's; on the local tab a few keys
    /// drive the console.
    pub open spec fn route(self, key: KeyEvent) -> KeyRoute {
        if key.kind != KeyEventKind::Press {
            KeyRoute::Ignored
        } else if key.code == KeyCode::Char('a') && key.modifiers == CONTROL {
            KeyRoute::SwitchTab
        } else if self.tabs.index == 1 {
            KeyRoute::Remote
        } else {
            match key.code {
                KeyCode::Char(c) => if c == 'q' {
                    KeyRoute::Quit
                } else if c == ' ' {
                    KeyRoute::Space
                } else if c == 'c' {
                    KeyRoute::Create
                } else if c == 'd' {
                    KeyRoute::Delete
                } else {
                    KeyRoute::Ignored
                },
                KeyCode::Tab => KeyRoute::Tab,
                KeyCode::Down => KeyRoute::Down,
                KeyCode::Up => KeyRoute::Up,
                KeyCode::Enter => KeyRoute::Enter,
                _ => KeyRoute::Ignored,
            }
        }
    }

    /// The state after a key.
    pub open spec fn after_key(self, key: KeyEvent) -> Self {
        match self.route(key) {
            KeyRoute::SwitchTab => self.after_next(),
            KeyRoute::Tab => self.after_tab(),
            KeyRoute::Down => self.after_down(),
            KeyRoute::Up => self.after_up(),
            KeyRoute::Space => self.after_space(),
            KeyRoute::Delete => self.after_delete(),
            _ => self,
        }
    }

    /// What the caller has to do after a key that is not the session's.
    pub open spec fn command_for(self, key: KeyEvent) -> Command {
        match self.route(key) {
            KeyRoute::Quit => Command::Quit,
            KeyRoute::Create => match self.create_port() {
                Some(port) => Command::Bind(port),
                None => Command::Idle,
            },
            _ => Command::Idle,
        }
    }

    /// The bytes that a key sends to the attached session: `Ok(None)` where
    /// nothing is to be sent, an error where the key has no bytes.
    pub open spec fn remote_input(self, key: KeyEvent) -> Result<Option<Seq<u8>>, KeyError> {
        if key.kind != KeyEventKind::Press || self.session is None {
            Ok(None)
        } else {
            match key_encoding(key.code) {
                Some(bytes) => Ok(Some(bytes)),
                None => Err(KeyError::NoEncoding(key.code)),
            }
        }
    }
}

/// What became of a key's bytes once they were handed to the session's
/// outbound channel.
pub fn delivery_of(sent: Result<(), Vec<u8>>) -> (delivery: Delivery)
    ensures
        delivery == (match sent {
            Ok(_) => Delivery::Sent,
            Err(_) => Delivery::Refused,
        }),
{
    match sent {
        Ok(_) => Delivery::Sent,
        Err(_) => Delivery::Refused,
    }
}

impl<'a> App<'a> {
    /// A console with the tabs "Local" and "Remote", the local one shown, no
    /// listener, no session and nothing attached.
    pub fn new() -> (app: App<'a>)
        ensures
            app@.wf(),
            app.tabs.titles@ == seq!["Local", "Remote"],
            app.tabs.index == 0,
            app.active_tab == LocalTabs::Listeners,
            app.remote_size == (TerminalSize { cols: 80, rows: 24 }),
            app.listeners@ == Seq::<Listener>::empty(),
            app.listener_selection_index == 0,
            app.sessions@ == Seq::<Arc<Session>>::empty(),
            app.highest_session_number == 0,
            app.session_selection_index == 0,
            app.session is None,
    {
        let mut titles: Vec<&'a str> = Vec::new();
        titles.push("Local");
        titles.push("Remote");
        assert(titles@ =~= seq!["Local", "Remote"]);
        App {
            tabs: TabsState { titles, index: 0 },
            listeners: Vec::new(),
            listener_selection_index: 0,
            active_tab: LocalTabs::Listeners,
            sessions: Vec::new(),
            highest_session_number: 0,
            session_selection_index: 0,
            session: None,
            network_bus: NetworkBus::default(),
            remote_size: TerminalSize::default(),
        }
    }

    /// Shows the other tab. There has to be a tab to show, and the number
    /// of the one after the shown one has to fit a `usize`.
    pub fn on_next(&mut self)
        requires
            old(self)@.can_switch(),
        ensures
            old(self)@.wf() ==> final(self)@.wf(),
            final(self)@ == old(self)@.after_next(),
    {
        self.tabs.next();
    }

    /// On the local tab, moves the focus to the other pane.
    pub fn on_tab(&mut self)
        ensures
            old(self)@.wf() ==> final(self)@.wf(),
            final(self)@ == old(self)@.after_tab(),
    {
        if self.tabs.index == 0 {
            self.active_tab = match self.active_tab {
                LocalTabs::Listeners => LocalTabs::Sessions,
                LocalTabs::Sessions => LocalTabs::Listeners,
            };
        }
    }

    /// The port to bind a new listener to, if the operator may create one
    /// now: on the local tab, with the focus on the listeners.
    pub fn on_create(&self) -> (port: Option<u16>)
        ensures
            port == self@.create_port(),
    {
        if self.tabs.index == 0 && self.active_tab == LocalTabs::Listeners {
            Some(LISTEN_PORT)
        } else {
            None
        }
    }

    /// Records a listener that was bound to `port` and is accepting.
    pub fn listener_bound(&mut self, port: u16)
        ensures
            old(self)@.wf() ==> final(self)@.wf(),
            final(self)@ == old(self)@.after_bound(port),
    {
        self.listeners.push(Listener { port, status: ListenerStatus::Listening });
    }

    /// With the focus on the sessions, attaches the selected one.
    pub fn on_space(&mut self)
        ensures
            old(self)@.wf() ==> final(self)@.wf(),
            final(self)@ == old(self)@.after_space(),
    {
        if self.tabs.index == 0 {
            match self.active_tab {
                LocalTabs::Sessions => {
                    if self.session_selection_index < self.sessions.len() {
                        let session = self.sessions[self.session_selection_index].clone();
                        self.session = Some(session);
                    }
                },
                LocalTabs::Listeners => {},
            }
        }
    }

    /// Enter means nothing to the console itself: the state stays as it is.
    pub fn on_enter(&mut self)
        ensures
            final(self)@ == old(self)@,
    {
    }

    /// With the focus on the listeners, removes the selected one from the
    /// list.
    pub fn on_delete(&mut self)
        ensures
            old(self)@.wf() ==> final(self)@.wf(),
            final(self)@ == old(self)@.after_delete(),
    {
        if self.tabs.index == 0 && self.active_tab == LocalTabs::Listeners
            && self.listener_selection_index < self.listeners.len() {
            self.listeners.remove(self.listener_selection_index);
        }
    }

    /// Moves the selection of the focused pane one row down, if there is a
    /// row below.
    pub fn on_down(&mut self)
        ensures
            old(self)@.wf() ==> final(self)@.wf(),
            final(self)@ == old(self)@.after_down(),
    {
        if self.tabs.index == 0 {
            match self.active_tab {
                LocalTabs::Listeners => {
                    if self.listeners.len() > 0 && self.listener_selection_index
                        < self.listeners.len() - 1 {
                        self.listener_selection_index += 1;
                    }
                },
                LocalTabs::Sessions => {
                    if self.sessions.len() > 0 && self.session_selection_index < self.sessions.len()
                        - 1 {
                        self.session_selection_index += 1;
                    }
                },
            }
        }
    }

    /// Moves the selection of the focused pane one row up, if there is a row
    /// above.
    pub fn on_up(&mut self)
        ensures
            old(self)@.wf() ==> final(self)@.wf(),
            final(self)@ == old(self)@.after_up(),
    {
        if self.tabs.index == 0 {
            match self.active_tab {
                LocalTabs::Listeners => {
                    if self.listener_selection_index > 0 {
                        self.listener_selection_index -= 1;
                    }
                },
                LocalTabs::Sessions => {
                    if self.session_selection_index > 0 {
                        self.session_selection_index -= 1;
                    }
                },
            }
        }
    }

    /// The bytes that a key sends to the attached session: `Ok(None)` where
    /// nothing is to be sent, because the key was not pressed or no session
    /// is attached, and an error where a pressed key has no bytes.
    pub fn remote_input(&self, key: KeyEvent) -> (input: Result<Option<Vec<u8>>, KeyError>)
        ensures
            match input {
                Ok(bytes) => self@.remote_input(key) == Ok::<Option<Seq<u8>>, KeyError>(
                    bytes_view(bytes),
                ),
                Err(e) => self@.remote_input(key) == Err::<Option<Seq<u8>>, KeyError>(e),
            },
    {
        if key.kind != KeyEventKind::Press || self.session.is_none() {
            return Ok(None);
        }
        match key_bytes(key.code) {
            Some(bytes) => Ok(Some(bytes)),
            None => Err(KeyError::NoEncoding(key.code)),
        }
    }

    /// Passes a pressed key on to the attached session as the bytes that
    /// stand for it. A key that was not pressed, or one pressed while no
    /// session is attached, is ignored; a pressed key without bytes is an
    /// error. The console's state stays as it is.
    pub fn on_remote_interact(&mut self, input_key: KeyEvent) -> (outcome: Result<
        Delivery,
        KeyError,
    >)
        ensures
            final(self)@ == old(self)@,
            match old(self)@.remote_input(input_key) {
                Ok(None) => outcome == Ok::<Delivery, KeyError>(Delivery::Ignored),
                Ok(Some(_)) => outcome == Ok::<Delivery, KeyError>(Delivery::Sent) || outcome
                    == Ok::<Delivery, KeyError>(Delivery::Refused),
                Err(e) => outcome == Err::<Delivery, KeyError>(e),
            },
    {
        match self.remote_input(input_key) {
            Err(e) => Err(e),
            Ok(None) => Ok(Delivery::Ignored),
            Ok(Some(bytes)) => match &self.session {
                Some(session) => Ok(delivery_of(session.bus.s2c.send(bytes))),
                None => Ok(Delivery::Ignored),
            },
        }
    }
}

/// The two commands that greet a new peer, as the chunks to send, in order.
pub fn greeting() -> (chunks: (Vec<u8>, Vec<u8>))
    ensures
        chunks.0@ == SHELL_UPGRADE.spec_bytes(),
        chunks.1@ == ECHO_OFF.spec_bytes(),
{
    (slice_to_vec(SHELL_UPGRADE.as_bytes()), slice_to_vec(ECHO_OFF.as_bytes()))
}

/// Queues the greeting on a new session's outbound channel. A closed channel
/// takes nothing, and nothing is done about that here: the session is
/// registered all the same.
fn greet(bus: &SessionBus) {
    let (upgrade, echo_off) = greeting();
    let _ = bus.s2c.send(upgrade);
    let _ = bus.s2c.send(echo_off);
}

/// How long the caller may wait for a key before the next tick is due, in
/// the unit of its arguments: what is left of the tick, and nothing once it
/// is over.
pub fn poll_timeout(tick_rate: u64, elapsed: u64) -> (wait: u64)
    ensures
        wait == if elapsed >= tick_rate {
            0
        } else {
            tick_rate - elapsed
        },
{
    if elapsed >= tick_rate {
        0
    } else {
        tick_rate - elapsed
    }
}

/// Whether a tick is due: the time since the last one has reached the rate.
pub fn tick_due(tick_rate: u64, elapsed: u64) -> (due: bool)
    ensures
        due == (elapsed >= tick_rate),
{
    elapsed >= tick_rate
}

/// What an acceptor hands to its relay once it tried to publish a new
/// session: the bus if the event was taken, nothing if the control thread's
/// channel is closed.
pub fn announced(bus: SessionBus, sent: Result<(), NetworkEvent>) -> (relayed: Option<SessionBus>)
    ensures
        relayed == (match sent {
            Ok(_) => Some(bus),
            Err(_) => None,
        }),
{
    match sent {
        Ok(_) => Some(bus),
        Err(_) => None,
    }
}

impl NetworkBus {
    /// Makes the bus of a connection just accepted and publishes it. The
    /// relay gets the bus only from here, after the event is queued, so the
    /// control thread learns of a session before any of its bytes can move.
    pub fn announce(&self) -> (relayed: Option<SessionBus>) {
        let bus = SessionBus::new();
        let event = NetworkEvent::NewSession(bus.clone());
        announced(bus, channel_send(&self.sender, event))
    }
}

impl<'a> App<'a> {
    /// Takes a new session into the registry under the next identifier,
    /// which is one above the highest ever handed out, and greets the peer.
    /// Nothing is registered once the identifiers are used up.
    pub fn register_session(&mut self, bus: SessionBus) -> (added: Option<Arc<Session>>)
        ensures
            old(self)@.wf() ==> final(self)@.wf(),
            added is Some <==> old(self).highest_session_number < usize::MAX,
            added matches Some(s) ==> {
                &&& s.id == old(self).highest_session_number + 1
                &&& s.bus == bus
                &&& final(self)@ == old(self)@.after_register(s)
            },
            added is None ==> final(self)@ == old(self)@,
    {
        if self.highest_session_number == usize::MAX {
            return None;
        }
        greet(&bus);
        let term = match Terminal::new(SESSION_ROWS, SESSION_COLS) {
            Some(term) => term,
            None => vstd::pervasive::unreached(),
        };
        self.highest_session_number += 1;
        let session = Arc::new(
            Session { id: self.highest_session_number, bus, term: Mutex::new(term) },
        );
        self.sessions.push(session.clone());
        Some(session)
    }

    /// Takes every event that is queued on the network bus at the moment of
    /// the call and registers its session. Returns the sessions registered,
    /// in the order of their events: each needs a loop that feeds its
    /// terminal.
    pub fn drain_events(&mut self) -> (added: Vec<Arc<Session>>)
        ensures
            old(self)@.wf() ==> final(self)@.wf(),
            final(self)@ == old(self)@.after_drain(added@),
            forall|i: int|
                0 <= i < added@.len() ==> (#[trigger] added@[i]).id == old(
                    self,
                ).highest_session_number + 1 + i,
    {
        let queued = channel_len(&self.network_bus.receiver);
        let mut events: Vec<NetworkEvent> = Vec::new();
        let mut taken: usize = 0;
        while taken < queued
            invariant
                taken <= queued,
            decreases queued - taken,
        {
            match channel_try_recv(&self.network_bus.receiver) {
                Some(event) => {
                    events.push(event);
                    taken += 1;
                },
                None => {
                    taken = queued;
                },
            }
        }
        self.register_events(events)
    }

    /// Registers the session of each event, in the order of the events, and
    /// returns the sessions registered. Each gets the identifier after the
    /// one before it. Once the identifiers are used up the events that are
    /// left are dropped.
    pub fn register_events(&mut self, events: Vec<NetworkEvent>) -> (added: Vec<Arc<Session>>)
        ensures
            old(self)@.wf() ==> final(self)@.wf(),
            final(self)@ == old(self)@.after_drain(added@),
            added@.len() == if events@.len() <= usize::MAX - old(self).highest_session_number {
                events@.len() as int
            } else {
                usize::MAX - old(self).highest_session_number
            },
            forall|i: int|
                0 <= i < added@.len() ==> {
                    &&& (#[trigger] added@[i]).id == old(self).highest_session_number + 1 + i
                    &&& added@[i].bus == event_bus(events@[i])
                },
    {
        let ghost before = self@;
        let ghost all = events@;
        let mut added: Vec<Arc<Session>> = Vec::new();
        assert(self@.sessions =~= before.after_drain(added@).sessions);
        for event in it: events
            invariant
                before.wf() ==> self@.wf(),
                self@ == before.after_drain(added@),
                it.seq() == all,
                added@.len() == if it.index() <= usize::MAX - before.highest_session_number {
                    it.index() as int
                } else {
                    usize::MAX - before.highest_session_number
                },
                forall|i: int|
                    0 <= i < added@.len() ==> {
                        &&& (#[trigger] added@[i]).id == before.highest_session_number + 1 + i
                        &&& added@[i].bus == event_bus(all[i])
                    },
        {
            match event {
                NetworkEvent::NewSession(bus) => {
                    match self.register_session(bus) {
                        Some(session) => {
                            added.push(session);
                            assert(self@.sessions =~= before.sessions + added@);
                        },
                        None => {},
                    }
                },
            }
        }
        added
    }

    /// Whether the console is in a sound state. Every method keeps it so; a
    /// caller that has written to the fields itself can ask here before it
    /// calls one.
    pub fn is_sound(&self) -> (sound: bool)
        ensures
            sound == self@.wf(),
    {
        if self.tabs.titles.len() == 0 || self.tabs.index >= self.tabs.titles.len() {
            return false;
        }
        let mut below: usize = 0;
        let mut i: usize = 0;
        while i < self.sessions.len()
            invariant
                i <= self.sessions@.len(),
                below <= self.highest_session_number,
                i == 0 ==> below == 0,
                i > 0 ==> below == self.sessions@[i - 1].id,
                ids_ordered(self.sessions@.subrange(0, i as int), self.highest_session_number),
            decreases self.sessions@.len() - i,
        {
            let id = self.sessions[i].id;
            if id <= below || id > self.highest_session_number {
                proof {
                    let all = self.sessions@;
                    if ids_ordered(all, self.highest_session_number) {
                        assert(1 <= all[i as int].id <= self.highest_session_number);
                        if i > 0 {
                            assert(all[i - 1].id < all[i as int].id);
                        }
                    }
                }
                return false;
            }
            proof {
                let seen = self.sessions@.subrange(0, i as int);
                let more = self.sessions@.subrange(0, i + 1);
                assert forall|a: int, b: int| 0 <= a < b < more.len() implies
                    (#[trigger] more[a]).id < (#[trigger] more[b]).id by {
                    if b < i {
                        assert(seen[a].id < seen[b].id);
                    } else if a < i - 1 {
                        assert(seen[a].id < seen[i - 1].id);
                    }
                }
                assert forall|a: int| 0 <= a < more.len() implies 1 <= (#[trigger] more[a]).id
                    <= self.highest_session_number by {
                    if a < i {
                        assert(1 <= seen[a].id);
                    }
                }
            }
            below = id;
            i += 1;
        }
        assert(self.sessions@.subrange(0, i as int) =~= self.sessions@);
        true
    }

    /// The session in row `index` of the registry, if there is one.
    pub fn session_at(&self, index: usize) -> (found: Option<Arc<Session>>)
        ensures
            found == if index < self.sessions@.len() {
                Some(self.sessions@[index as int])
            } else {
                None
            },
    {
        if index < self.sessions.len() {
            Some(self.sessions[index].clone())
        } else {
            None
        }
    }

    /// Drops the registry's hold on the session in row `index` and returns
    /// it. The session's relay is not stopped, and its identifier is never
    /// given to another session.
    pub fn remove_session(&mut self, index: usize) -> (removed: Option<Arc<Session>>)
        ensures
            old(self)@.wf() ==> final(self)@.wf(),
            final(self)@ == old(self)@.after_evict(index),
            removed == if index < old(self).sessions@.len() {
                Some(old(self).sessions@[index as int])
            } else {
                None
            },
    {
        if index < self.sessions.len() {
            let removed = self.sessions.remove(index);
            Some(removed)
        } else {
            None
        }
    }

    /// Notes where the remote pane was laid out, if a session is attached,
    /// and returns that session.
    pub fn on_remote_area(&mut self, x: u16, y: u16) -> (attached: Option<Arc<Session>>)
        ensures
            final(self)@ == old(self)@.after_remote_area(x, y),
            attached == old(self).session,
    {
        match &self.session {
            Some(session) => {
                let attached = session.clone();
                self.remote_size = TerminalSize::new(y, x);
                Some(attached)
            },
            None => None,
        }
    }

    /// Where a key goes.
    pub fn route(&self, key: KeyEvent) -> (route: KeyRoute)
        ensures
            route == self@.route(key),
    {
        if key.kind != KeyEventKind::Press {
            KeyRoute::Ignored
        } else if key.code == KeyCode::Char('a') && key.modifiers == CONTROL {
            KeyRoute::SwitchTab
        } else if self.tabs.index == 1 {
            KeyRoute::Remote
        } else {
            match key.code {
                KeyCode::Char(c) => if c == 'q' {
                    KeyRoute::Quit
                } else if c == ' ' {
                    KeyRoute::Space
                } else if c == 'c' {
                    KeyRoute::Create
                } else if c == 'd' {
                    KeyRoute::Delete
                } else {
                    KeyRoute::Ignored
                },
                KeyCode::Tab => KeyRoute::Tab,
                KeyCode::Down => KeyRoute::Down,
                KeyCode::Up => KeyRoute::Up,
                KeyCode::Enter => KeyRoute::Enter,
                _ => KeyRoute::Ignored,
            }
        }
    }

    /// Handles one report of the keyboard and says what is left for the
    /// caller to do. A key for the attached session is passed on to it; the
    /// only error is such a key without bytes.
    pub fn handle_key(&mut self, key: KeyEvent) -> (outcome: Result<Command, KeyError>)
        requires
            old(self)@.route(key) == KeyRoute::SwitchTab ==> old(self)@.can_switch(),
        ensures
            old(self)@.wf() ==> final(self)@.wf(),
            final(self)@ == old(self)@.after_key(key),
            old(self)@.route(key) != KeyRoute::Remote ==> outcome == Ok::<Command, KeyError>(
                old(self)@.command_for(key),
            ),
            old(self)@.route(key) == KeyRoute::Remote ==> match old(self)@.remote_input(key) {
                Ok(_) => outcome == Ok::<Command, KeyError>(Command::Idle),
                Err(e) => outcome == Err::<Command, KeyError>(e),
            },
    {
        match self.route(key) {
            KeyRoute::Ignored => Ok(Command::Idle),
            KeyRoute::SwitchTab => {
                self.on_next();
                Ok(Command::Idle)
            },
            KeyRoute::Remote => match self.on_remote_interact(key) {
                Ok(_) => Ok(Command::Idle),
                Err(e) => Err(e),
            },
            KeyRoute::Quit => Ok(Command::Quit),
            KeyRoute::Tab => {
                self.on_tab();
                Ok(Command::Idle)
            },
            KeyRoute::Down => {
                self.on_down();
                Ok(Command::Idle)
            },
            KeyRoute::Up => {
                self.on_up();
                Ok(Command::Idle)
            },
            KeyRoute::Space => {
                self.on_space();
                Ok(Command::Idle)
            },
            KeyRoute::Enter => {
                self.on_enter();
                Ok(Command::Idle)
            },
            KeyRoute::Create => match self.on_create() {
                Some(port) => Ok(Command::Bind(port)),
                None => Ok(Command::Idle),
            },
            KeyRoute::Delete => {
                self.on_delete();
                Ok(Command::Idle)
            },
        }
    }
}

/// The bus that an event carries.
pub open spec fn event_bus(event: NetworkEvent) -> SessionBus {
    match event {
        NetworkEvent::NewSession(bus) => bus,
    }
}

} // verus!
