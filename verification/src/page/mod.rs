//! Tabs, their sessions, and the state that the main loop owns.
use crate::page::liveroom::LiveRoomPage;
use crate::page::login::LoginPage;
use vstd::prelude::*;
use vstd::string::StringExecFns;

pub mod laws;
pub mod liveroom;
pub mod login;

verus! {

broadcast use vstd::string::group_string_axioms;

/// The reading end of a single-slot cell that always holds the latest state of
/// a session.
#[verifier::external_type_specification]
#[verifier::external_body]
#[verifier::reject_recursive_types(T)]
pub struct ExWatchReceiver<T>(tokio::sync::watch::Receiver<T>);

/// The owner's grip on a spawned task.
#[verifier::external_type_specification]
#[verifier::external_body]
#[verifier::reject_recursive_types(T)]
pub struct ExJoinHandle<T>(tokio::task::JoinHandle<T>);

/// Why a task did not run to its end: what awaiting a `JoinHandle` may yield.
/// The library never awaits one.
#[verifier::external_type_specification]
#[verifier::external_body]
pub struct ExJoinError(tokio::task::JoinError);

/// Copies what `tokio::sync::watch::Receiver::borrow` lends: the value that
/// the cell holds at this moment. The session's task may write at any time, so
/// nothing is claimed of the value.
#[verifier::external_body]
fn latest<P: Clone>(watcher: &tokio::sync::watch::Receiver<P>) -> (state: P) {
    watcher.borrow().clone()
}

/// Asks with `tokio::task::JoinHandle::abort` that the task be stopped. The
/// call does not wait for the task, and is harmless once the task has ended.
#[verifier::external_body]
fn abort_task(handle: &tokio::task::JoinHandle<()>) {
    handle.abort()
}

/// What the owner of a tab holds of its running session: the reading end of
/// the session's cell, and the means to cancel its task.
#[verifier::reject_recursive_types(P)]
pub struct PageServiceHandle<P> {
    pub watcher: tokio::sync::watch::Receiver<P>,
    pub handle: tokio::task::JoinHandle<()>,
}

impl<P: Clone> PageServiceHandle<P> {
    /// The latest state that the session has published.
    pub fn peek(&self) -> (state: P) {
        latest(&self.watcher)
    }
}

impl<P> PageServiceHandle<P> {
    /// Asks the session's task to stop, without waiting for it.
    pub fn cancel(&self) {
        abort_task(&self.handle)
    }
}

/// The handle of a session, by the kind of the session.
pub enum Psh {
    LoginPageService(PageServiceHandle<LoginPage>),
    LiveRoomPageService(PageServiceHandle<LiveRoomPage>),
}

impl Psh {
    /// Whether this is the session of a live room.
    pub open spec fn is_live_room(self) -> bool {
        self is LiveRoomPageService
    }

    /// Asks the session's task to stop and gives the handle up.
    pub fn abort(self) {
        match self {
            Psh::LoginPageService(h) => h.cancel(),
            Psh::LiveRoomPageService(h) => h.cancel(),
        }
    }

    /// The room of a live room session, as its latest state has it; `None` for
    /// a session of another kind.
    pub fn live_roomid(&self) -> (roomid: Option<u64>)
        ensures
            roomid is Some <==> self.is_live_room(),
    {
        match self {
            Psh::LoginPageService(_) => None,
            Psh::LiveRoomPageService(h) => Some(h.peek().roomid),
        }
    }
}

/// An action that needs a line of text from the user before it can run.
#[derive(Clone, Copy, Debug, PartialEq, Eq, Structural)]
pub enum Action {
    /// Open the live room whose number the user types.
    CreatLiveRoomPage,
    /// Send the text that the user types to this live room.
    SendDanmakuToLive(u64),
}

impl Action {
    /// The name of the action in the prompt.
    pub open spec fn label_spec(self) -> Seq<char> {
        match self {
            Action::CreatLiveRoomPage => "创建房间"@,
            Action::SendDanmakuToLive(_) => "发送弹幕"@,
        }
    }

    /// The name of the action in the prompt.
    pub fn label(&self) -> (text: String)
        ensures
            text@ == self.label_spec(),
    {
        match self {
            Action::CreatLiveRoomPage => "创建房间".to_string(),
            Action::SendDanmakuToLive(_) => "发送弹幕".to_string(),
        }
    }
}

/// Whether the user moves between tabs or types the text for an action.
#[derive(Clone, Debug, PartialEq, Eq)]
pub enum InputState {
    EditAction { action: Action, display: String, buffer: String },
    Normal,
}

/// An input state with its texts as sequences of characters.
pub enum InputView {
    EditAction { action: Action, display: Seq<char>, buffer: Seq<char> },
    Normal,
}

impl View for InputState {
    type V = InputView;

    open spec fn view(&self) -> InputView {
        match *self {
            InputState::EditAction { action, display, buffer } => InputView::EditAction {
                action,
                display: display@,
                buffer: buffer@,
            },
            InputState::Normal => InputView::Normal,
        }
    }
}

impl InputView {
    /// The state in which the user starts to type the text for `action`.
    pub open spec fn editing(action: Action) -> InputView {
        InputView::EditAction { action, display: Seq::empty(), buffer: Seq::empty() }
    }

    /// The state after the character `c` was typed.
    pub open spec fn typed(self, c: char) -> InputView {
        match self {
            InputView::EditAction { action, display, buffer } => InputView::EditAction {
                action,
                display,
                buffer: buffer.push(c),
            },
            InputView::Normal => InputView::Normal,
        }
    }

    /// The state after the last character was taken back; an empty text stays
    /// empty.
    pub open spec fn erased(self) -> InputView {
        match self {
            InputView::EditAction { action, display, buffer } => InputView::EditAction {
                action,
                display,
                buffer: if buffer.len() > 0 {
                    buffer.drop_last()
                } else {
                    buffer
                },
            },
            InputView::Normal => InputView::Normal,
        }
    }

    /// The action and the text that a commit hands over, if the user is typing.
    pub open spec fn pending(self) -> Option<(Action, Seq<char>)> {
        match self {
            InputView::EditAction { action, display, buffer } => Some((action, buffer)),
            InputView::Normal => None,
        }
    }
}

impl InputState {
    /// The state in which the user starts to type the text for `action`.
    pub fn edit_action(action: Action) -> (state: Self)
        ensures
            state@ == InputView::editing(action),
    {
        InputState::EditAction { action, display: String::new(), buffer: String::new() }
    }

    /// Whether the user is typing the text for an action.
    pub fn is_editing(&self) -> (editing: bool)
        ensures
            editing == (self@ is EditAction),
    {
        match self {
            InputState::EditAction { .. } => true,
            InputState::Normal => false,
        }
    }

    /// Puts `c` behind the text that the user is typing.
    pub fn type_char(&mut self, c: char)
        ensures
            final(self)@ == old(self)@.typed(c),
    {
        match self {
            InputState::EditAction { action: _, display: _, buffer } => {
                buffer.push(c);
            },
            InputState::Normal => {},
        }
    }

    /// Takes the last character of the text back, if there is one.
    pub fn backspace(&mut self)
        ensures
            final(self)@ == old(self)@.erased(),
    {
        match self {
            InputState::EditAction { action: _, display: _, buffer } => {
                buffer.pop();
            },
            InputState::Normal => {},
        }
    }

    /// Drops what the user has typed and goes back to moving between tabs.
    pub fn cancel(&mut self)
        ensures
            final(self)@ is Normal,
    {
        *self = InputState::Normal;
    }

    /// Ends the typing: hands over the action with its text, and goes back to
    /// moving between tabs.
    pub fn commit(&mut self) -> (taken: Option<(Action, String)>)
        ensures
            final(self)@ is Normal,
            match taken {
                Some((action, text)) => old(self)@.pending() == Some((action, text@)),
                None => old(self)@.pending() is None,
            },
    {
        let mut state = InputState::Normal;
        std::mem::swap(self, &mut state);
        match state {
            InputState::EditAction { action, display: _, buffer } => Some((action, buffer)),
            InputState::Normal => None,
        }
    }
}

impl Default for InputState {
    fn default() -> (state: Self)
        ensures
            state@ is Normal,
    {
        InputState::Normal
    }
}

/// The tabs with their sessions and the current selection, the lines told to
/// the user, and the input state.
pub struct GlobalState {
    /// The tabs in the order they were opened: a title and the session's handle.
    pub pages: Vec<(String, Psh)>,
    /// The position of the selected tab.
    pub current_page: Option<usize>,
    /// The lines told to the user, oldest first.
    pub messages: Vec<String>,
    pub input_state: InputState,
}

/// The selection after a step to the next of `len` tabs: the first tab follows
/// the last one, and comes first where none was selected.
pub open spec fn next_index(len: nat, current: Option<usize>) -> Option<usize> {
    if len == 0 {
        current
    } else {
        match current {
            Some(i) => if i == len - 1 {
                Some(0)
            } else {
                Some((i + 1) as usize)
            },
            None => Some(0),
        }
    }
}

/// The selection after a step to the tab before, among `len` tabs: the last
/// tab precedes the first one, and comes first where none was selected.
pub open spec fn prev_index(len: nat, current: Option<usize>) -> Option<usize> {
    if len == 0 {
        current
    } else {
        match current {
            Some(i) => if i == 0 {
                Some((len - 1) as usize)
            } else {
                Some((i - 1) as usize)
            },
            None => Some((len - 1) as usize),
        }
    }
}

/// The selection after the selected one of `len` tabs was closed: none where
/// no tab is left, the first tab where the last one was closed, else the tab
/// that moved into the place of the closed one.
pub open spec fn index_after_close(len: nat, current: Option<usize>) -> Option<usize> {
    match current {
        Some(i) => if len <= 1 {
            None
        } else if i == len - 1 {
            Some(0)
        } else {
            Some(i)
        },
        None => None,
    }
}

/// The tabs after the selected one was closed.
pub open spec fn pages_after_close<T>(pages: Seq<T>, current: Option<usize>) -> Seq<T> {
    match current {
        Some(i) => pages.remove(i as int),
        None => pages,
    }
}

/// Whether `current` selects one of `len` tabs, or none where there is none.
pub open spec fn selects(len: nat, current: Option<usize>) -> bool {
    match current {
        Some(i) => i < len,
        None => len == 0,
    }
}

impl GlobalState {
    /// Whether the selection, if there is one, points at a tab.
    pub open spec fn selection_valid(self) -> bool {
        match self.current_page {
            Some(i) => i < self.pages@.len(),
            None => true,
        }
    }

    /// Whether the state is well formed: a tab is selected exactly if there is
    /// one, and the selection points at a tab.
    pub open spec fn wf(self) -> bool {
        selects(self.pages@.len(), self.current_page)
    }

    /// The titles of the tabs, in their order.
    pub open spec fn titles(self) -> Seq<Seq<char>> {
        Seq::new(self.pages@.len(), |k: int| self.pages@[k].0@)
    }

    /// The lines told to the user, oldest first.
    pub open spec fn lines(self) -> Seq<Seq<char>> {
        Seq::new(self.messages@.len(), |k: int| self.messages@[k]@)
    }

    /// Whether the selected tab shows a live room.
    pub open spec fn on_live_room(self) -> bool {
        match self.current_page {
            Some(i) => i < self.pages@.len() && self.pages@[i as int].1.is_live_room(),
            None => false,
        }
    }

    /// A state without tabs or messages, in which the user moves between tabs.
    pub fn new() -> (state: Self)
        ensures
            state.wf(),
            state.pages@.len() == 0,
            state.current_page is None,
            state.messages@.len() == 0,
            state.input_state@ is Normal,
    {
        GlobalState {
            pages: Vec::new(),
            current_page: None,
            messages: Vec::new(),
            input_state: InputState::Normal,
        }
    }

    /// The session of the selected tab.
    pub fn current_page_psh<'a>(&'a self) -> (psh: Option<&'a Psh>)
        requires
            self.selection_valid(),
        ensures
            match self.current_page {
                Some(i) => psh == Some(&self.pages@[i as int].1),
                None => psh is None,
            },
    {
        match self.current_page {
            Some(idx) => Some(&self.pages[idx].1),
            None => None,
        }
    }

    /// Opens a tab behind the others and selects it.
    pub fn regist_page(&mut self, title: String, psh: Psh)
        ensures
            final(self).pages@ == old(self).pages@.push((title, psh)),
            final(self).current_page == Some(old(self).pages@.len() as usize),
            final(self).messages == old(self).messages,
            final(self).input_state == old(self).input_state,
            final(self).wf(),
    {
        self.pages.push((title, psh));
        self.to_last_page();
    }

    /// Closes the selected tab, if there is one, and cancels its session.
    pub fn close_page(&mut self)
        requires
            old(self).selection_valid(),
        ensures
            final(self).pages@ == pages_after_close(old(self).pages@, old(self).current_page),
            final(self).current_page == index_after_close(
                old(self).pages@.len(),
                old(self).current_page,
            ),
            final(self).messages == old(self).messages,
            final(self).input_state == old(self).input_state,
            old(self).wf() ==> final(self).wf(),
    {
        if let Some(idx) = self.current_page {
            let (_, psh) = self.pages.remove(idx);
            psh.abort();
            let len = self.pages.len();
            self.current_page = if len == 0 {
                None
            } else if len == idx {
                Some(0)
            } else {
                Some(idx)
            };
        }
    }

    /// Tells the user `s`: the line goes behind the earlier ones.
    pub fn message(&mut self, s: String)
        ensures
            final(self).messages@ == old(self).messages@.push(s),
            final(self).lines() == old(self).lines().push(s@),
            final(self).pages == old(self).pages,
            final(self).current_page == old(self).current_page,
            final(self).input_state == old(self).input_state,
    {
        self.messages.push(s);
        assert(self.lines() =~= old(self).lines().push(s@));
    }

    /// Selects the last tab, if there is a tab.
    pub fn to_last_page(&mut self)
        ensures
            final(self).current_page == if old(self).pages@.len() > 0 {
                Some((old(self).pages@.len() - 1) as usize)
            } else {
                old(self).current_page
            },
            final(self).pages == old(self).pages,
            final(self).messages == old(self).messages,
            final(self).input_state == old(self).input_state,
    {
        if !self.pages.is_empty() {
            self.current_page = Some(self.pages.len() - 1);
        }
    }

    /// Selects the tab before the selected one; the last tab comes before the
    /// first.
    pub fn to_prev_page(&mut self)
        requires
            old(self).selection_valid(),
        ensures
            final(self).current_page == prev_index(old(self).pages@.len(), old(self).current_page),
            final(self).pages == old(self).pages,
            final(self).messages == old(self).messages,
            final(self).input_state == old(self).input_state,
            final(self).selection_valid(),
            old(self).wf() ==> final(self).wf(),
    {
        let len = self.pages.len();
        if len != 0 {
            self.current_page = match self.current_page {
                Some(idx) => if idx == 0 {
                    Some(len - 1)
                } else {
                    Some(idx - 1)
                },
                None => Some(len - 1),
            };
        }
    }

    /// Selects the tab behind the selected one; the first tab comes behind the
    /// last.
    pub fn to_next_page(&mut self)
        requires
            old(self).selection_valid(),
        ensures
            final(self).current_page == next_index(old(self).pages@.len(), old(self).current_page),
            final(self).pages == old(self).pages,
            final(self).messages == old(self).messages,
            final(self).input_state == old(self).input_state,
            final(self).selection_valid(),
            old(self).wf() ==> final(self).wf(),
    {
        let len = self.pages.len();
        if len != 0 {
            self.current_page = match self.current_page {
                Some(idx) => if idx == len - 1 {
                    Some(0)
                } else {
                    Some(idx + 1)
                },
                None => Some(0),
            };
        }
    }
}

impl Default for GlobalState {
    fn default() -> (state: Self)
        ensures
            state.wf(),
            state.pages@.len() == 0,
            state.current_page is None,
            state.messages@.len() == 0,
            state.input_state@ is Normal,
    {
        GlobalState::new()
    }
}

} // verus!
