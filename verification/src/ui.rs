//! What the dashboard shows, as plain values for a front end to draw: the
//! rows of the two tables, which pane has the focus and which view fills the
//! screen.

use vstd::prelude::*;
use crate::app::{App, AppModel, ListenerStatus, LocalTabs};

verus! {

/// One row of the listeners' table.
#[derive(Clone, Copy, Debug, PartialEq, Eq, Structural)]
pub struct ListenerRow {
    /// The row's number, shown in the first column.
    pub index: usize,
    pub port: u16,
    pub status: ListenerStatus,
    /// Whether the row is the selected one of the focused pane.
    pub highlighted: bool,
}

/// One row of the sessions' table.
#[derive(Clone, Copy, Debug, PartialEq, Eq, Structural)]
pub struct SessionRow {
    /// The row's number, shown in the first column unless the session is
    /// the attached one.
    pub index: usize,
    /// The session's identifier.
    pub id: usize,
    /// Whether the session is the attached one, which is marked.
    pub attached: bool,
    /// Whether the row is the selected one of the focused pane.
    pub highlighted: bool,
}

/// What fills the screen below the tab bar.
#[derive(Clone, Copy, Debug, PartialEq, Eq, Structural)]
pub enum MainView {
    /// The two tables.
    Local,
    /// The attached session's terminal.
    Remote,
    /// Nothing: the tab shown is neither of the two.
    Blank,
}

/// Row `i` of the listeners' table.
pub open spec fn listener_row(m: AppModel, i: int) -> ListenerRow {
    ListenerRow {
        index: i as usize,
        port: m.listeners[i].port,
        status: m.listeners[i].status,
        highlighted: m.active_tab == LocalTabs::Listeners && i == m.listener_selection_index,
    }
}

/// Row `i` of the sessions' table.
pub open spec fn session_row(m: AppModel, i: int) -> SessionRow {
    SessionRow {
        index: i as usize,
        id: m.sessions[i].id,
        attached: match m.session {
            Some(attached) => m.sessions[i].id == attached.id,
            None => false,
        },
        highlighted: m.active_tab == LocalTabs::Sessions && i == m.session_selection_index,
    }
}

/// What fills the screen below the tab bar.
pub open spec fn main_view_of(m: AppModel) -> MainView {
    if m.tabs.index == 0 {
        MainView::Local
    } else if m.tabs.index == 1 {
        MainView::Remote
    } else {
        MainView::Blank
    }
}

/// The rows of the listeners' table, one for each listener, in the order of
/// the list.
pub fn listener_rows(app: &App) -> (rows: Vec<ListenerRow>)
    ensures
        rows@.len() == app@.listeners.len(),
        forall|i: int| 0 <= i < rows@.len() ==> #[trigger] rows@[i] == listener_row(app@, i),
{
    let mut rows: Vec<ListenerRow> = Vec::new();
    let mut i: usize = 0;
    while i < app.listeners.len()
        invariant
            i <= app.listeners@.len(),
            rows@.len() == i,
            forall|k: int| 0 <= k < i ==> #[trigger] rows@[k] == listener_row(app@, k),
        decreases app.listeners@.len() - i,
    {
        let highlighted = app.active_tab == LocalTabs::Listeners && i
            == app.listener_selection_index;
        rows.push(
            ListenerRow {
                index: i,
                port: app.listeners[i].port,
                status: app.listeners[i].status,
                highlighted,
            },
        );
        i += 1;
    }
    rows
}

/// The rows of the sessions' table, one for each registered session, in the
/// order of the registry.
pub fn session_rows(app: &App) -> (rows: Vec<SessionRow>)
    ensures
        rows@.len() == app@.sessions.len(),
        forall|i: int| 0 <= i < rows@.len() ==> #[trigger] rows@[i] == session_row(app@, i),
{
    let mut rows: Vec<SessionRow> = Vec::new();
    let mut i: usize = 0;
    while i < app.sessions.len()
        invariant
            i <= app.sessions@.len(),
            rows@.len() == i,
            forall|k: int| 0 <= k < i ==> #[trigger] rows@[k] == session_row(app@, k),
        decreases app.sessions@.len() - i,
    {
        let id = app.sessions[i].id;
        let attached = match &app.session {
            Some(attached) => id == attached.id,
            None => false,
        };
        let highlighted = app.active_tab == LocalTabs::Sessions && i
            == app.session_selection_index;
        rows.push(SessionRow { index: i, id, attached, highlighted });
        i += 1;
    }
    rows
}

/// Whether the listeners' pane has the focus.
pub fn listeners_focused(app: &App) -> (focused: bool)
    ensures
        focused == (app.active_tab == LocalTabs::Listeners),
{
    app.active_tab == LocalTabs::Listeners
}

/// Whether the sessions' pane has the focus.
pub fn sessions_focused(app: &App) -> (focused: bool)
    ensures
        focused == (app.active_tab == LocalTabs::Sessions),
{
    app.active_tab == LocalTabs::Sessions
}

/// What fills the screen below the tab bar: the tables on the first tab, the
/// terminal on the second.
pub fn main_view(app: &App) -> (view: MainView)
    ensures
        view == main_view_of(app@),
{
    if app.tabs.index == 0 {
        MainView::Local
    } else if app.tabs.index == 1 {
        MainView::Remote
    } else {
        MainView::Blank
    }
}

} // verus!
