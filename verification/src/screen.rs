//! What the screen shows of the state: the tab bar, the pages behind the tabs,
//! and the line at the bottom.
use crate::page::liveroom::LiveRoomPage;
use crate::page::login::LoginPage;
use crate::page::{GlobalState, InputState, InputView, Psh};
use vstd::prelude::*;
use vstd::string::StringExecFns;

verus! {

broadcast use vstd::string::group_string_axioms;

/// The state of a session, by the kind of the session.
#[derive(Clone, Debug, PartialEq, Eq)]
pub enum Page {
    Login(LoginPage),
    LiveRoom(LiveRoomPage),
}

/// The bottom line while the user types `buffer` for an action named `label`.
pub open spec fn prompt(label: Seq<char>, buffer: Seq<char>) -> Seq<char> {
    seq!['['] + label + seq![']', ':'] + buffer
}

impl Psh {
    /// The latest state that the session has published.
    pub fn peek(&self) -> (page: Page)
        ensures
            page is LiveRoom <==> self.is_live_room(),
    {
        match self {
            Psh::LoginPageService(h) => Page::Login(h.peek()),
            Psh::LiveRoomPageService(h) => Page::LiveRoom(h.peek()),
        }
    }
}

impl GlobalState {
    /// The bottom line: the prompt while the user types, else the newest line
    /// told to the user, or nothing where none was told.
    pub open spec fn status_line_spec(self) -> Seq<char> {
        match self.input_state@ {
            InputView::EditAction { action, display, buffer } => prompt(
                action.label_spec(),
                buffer,
            ),
            InputView::Normal => if self.lines().len() > 0 {
                self.lines().last()
            } else {
                Seq::empty()
            },
        }
    }

    /// The titles of the tabs, in their order.
    pub fn tab_titles(&self) -> (titles: Vec<String>)
        ensures
            titles@.len() == self.pages@.len(),
            forall|k: int| 0 <= k < titles@.len() ==> (#[trigger] titles@[k])@ == self.titles()[k],
    {
        let mut titles: Vec<String> = Vec::new();
        let mut i: usize = 0;
        while i < self.pages.len()
            invariant
                i <= self.pages@.len(),
                titles@.len() == i,
                forall|k: int| 0 <= k < i ==> (#[trigger] titles@[k])@ == self.titles()[k],
            decreases self.pages@.len() - i,
        {
            titles.push(self.pages[i].0.clone());
            i = i + 1;
        }
        titles
    }

    /// The tab that the tab bar marks: the selected one, or the first where
    /// none is selected.
    pub fn selected_tab(&self) -> (index: usize)
        ensures
            index == match self.current_page {
                Some(i) => i,
                None => 0,
            },
    {
        match self.current_page {
            Some(i) => i,
            None => 0,
        }
    }

    /// The tabs in their order, each with its title and the latest state of its
    /// session.
    pub fn tabs(&self) -> (tabs: Vec<(String, Page)>)
        ensures
            tabs@.len() == self.pages@.len(),
            forall|k: int|
                0 <= k < tabs@.len() ==> (#[trigger] tabs@[k]).0@ == self.titles()[k] && (
                tabs@[k].1 is LiveRoom <==> self.pages@[k].1.is_live_room()),
    {
        let mut tabs: Vec<(String, Page)> = Vec::new();
        let mut i: usize = 0;
        while i < self.pages.len()
            invariant
                i <= self.pages@.len(),
                tabs@.len() == i,
                forall|k: int|
                    0 <= k < i ==> (#[trigger] tabs@[k]).0@ == self.titles()[k] && (
                    tabs@[k].1 is LiveRoom <==> self.pages@[k].1.is_live_room()),
            decreases self.pages@.len() - i,
        {
            let title = self.pages[i].0.clone();
            let page = self.pages[i].1.peek();
            tabs.push((title, page));
            i = i + 1;
        }
        tabs
    }

    /// The bottom line of the screen.
    pub fn status_line(&self) -> (line: String)
        ensures
            line@ == self.status_line_spec(),
    {
        match &self.input_state {
            InputState::EditAction { action, display: _, buffer } => {
                let mut line = "[".to_string();
                proof {
                    reveal_strlit("[");
                    reveal_strlit("]:");
                }
                line.append(action.label().as_str());
                line.append("]:");
                line.append(buffer.as_str());
                assert(line@ =~= prompt(action.label_spec(), buffer@));
                line
            },
            InputState::Normal => {
                let n = self.messages.len();
                if n > 0 {
                    self.messages[n - 1].clone()
                } else {
                    String::new()
                }
            },
        }
    }
}

} // verus!
