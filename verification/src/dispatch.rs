//! What each command does to the state, and what it leaves for the main loop
//! to carry out.
use crate::decimal::{decimal_text, format_u64, parse_u64, parse_u64_spec};
use crate::event::{command_spec, Command, Evnet};
use crate::page::liveroom::LiveRoomPage;
use crate::page::login::LoginPage;
use crate::page::{
    index_after_close, next_index, pages_after_close, prev_index, Action, GlobalState, InputState,
    InputView, PageServiceHandle, Psh,
};
use vstd::prelude::*;
use vstd::string::StringExecFns;

verus! {

broadcast use vstd::string::group_string_axioms;

/// What is left for the main loop to do after a command.
#[derive(Clone, Debug, PartialEq, Eq)]
pub enum Effect {
    Nothing,
    /// Draw the screen anew.
    Redraw,
    /// Leave the main loop.
    Quit,
    /// Start a login session and attach it.
    OpenLogin,
    /// Connect to this live room and attach its session.
    OpenLiveRoom(u64),
    /// Send this text to this live room.
    SendDanmaku { roomid: u64, danmaku: String },
}

/// An effect with its text as a sequence of characters.
pub enum EffectView {
    Nothing,
    Redraw,
    Quit,
    OpenLogin,
    OpenLiveRoom(u64),
    SendDanmaku { roomid: u64, danmaku: Seq<char> },
}

impl View for Effect {
    type V = EffectView;

    open spec fn view(&self) -> EffectView {
        match *self {
            Effect::Nothing => EffectView::Nothing,
            Effect::Redraw => EffectView::Redraw,
            Effect::Quit => EffectView::Quit,
            Effect::OpenLogin => EffectView::OpenLogin,
            Effect::OpenLiveRoom(roomid) => EffectView::OpenLiveRoom(roomid),
            Effect::SendDanmaku { roomid, danmaku } => EffectView::SendDanmaku {
                roomid,
                danmaku: danmaku@,
            },
        }
    }
}

/// The tabs after `command`.
pub open spec fn pages_after<T>(pages: Seq<T>, current: Option<usize>, command: Command) -> Seq<
    T,
> {
    if command is ClosePage {
        pages_after_close(pages, current)
    } else {
        pages
    }
}

/// The selection among `len` tabs after `command`.
pub open spec fn selection_after(len: nat, current: Option<usize>, command: Command) -> Option<
    usize,
> {
    match command {
        Command::ClosePage => index_after_close(len, current),
        Command::NextPage => next_index(len, current),
        Command::PrevPage => prev_index(len, current),
        _ => current,
    }
}

/// The input state after `command`, where `live_room` is the room of the
/// selected tab if that tab shows a live room.
pub open spec fn input_after(input: InputView, command: Command, live_room: Option<u64>)
    -> InputView {
    match command {
        Command::EditRoom => InputView::editing(Action::CreatLiveRoomPage),
        Command::Insert(c) => if input is EditAction {
            input.typed(c)
        } else if c == 't' && live_room is Some {
            InputView::editing(Action::SendDanmakuToLive(live_room->0))
        } else {
            input
        },
        Command::Backspace => input.erased(),
        Command::Escape | Command::Enter => InputView::Normal,
        _ => input,
    }
}

/// The line that `command` tells the user, if it tells one: why the text typed
/// for a live room is not the number of a room.
pub open spec fn line_after(input: InputView, command: Command) -> Option<Seq<char>> {
    match (command, input.pending()) {
        (Command::Enter, Some((Action::CreatLiveRoomPage, text))) => match parse_u64_spec(text) {
            Ok(_) => None,
            Err(error) => Some(error.message_spec()),
        },
        _ => None,
    }
}

/// The lines told to the user after `command`.
pub open spec fn lines_after(lines: Seq<Seq<char>>, input: InputView, command: Command) -> Seq<
    Seq<char>,
> {
    match line_after(input, command) {
        Some(line) => lines.push(line),
        None => lines,
    }
}

/// What `command` leaves for the main loop to do.
pub open spec fn effect_after(input: InputView, command: Command) -> EffectView {
    match command {
        Command::Quit => EffectView::Quit,
        Command::Login => EffectView::OpenLogin,
        Command::ClosePage | Command::EditRoom | Command::NextPage | Command::PrevPage
        | Command::Tick => EffectView::Redraw,
        Command::Insert(_) | Command::Backspace | Command::Escape => if input is EditAction {
            EffectView::Redraw
        } else {
            EffectView::Nothing
        },
        Command::Enter => match input.pending() {
            Some((Action::CreatLiveRoomPage, text)) => match parse_u64_spec(text) {
                Ok(roomid) => EffectView::OpenLiveRoom(roomid),
                Err(_) => EffectView::Redraw,
            },
            Some((Action::SendDanmakuToLive(roomid), text)) => EffectView::SendDanmaku {
                roomid,
                danmaku: text,
            },
            None => EffectView::Redraw,
        },
        Command::Ignore => EffectView::Nothing,
    }
}

/// Whether `command` leads from `before` to `after` and leaves `effect`,
/// where `live_room` is the room of the selected tab if that tab shows a live
/// room.
pub open spec fn executed(
    before: GlobalState,
    after: GlobalState,
    command: Command,
    live_room: Option<u64>,
    effect: EffectView,
) -> bool {
    &&& after.pages@ == pages_after(before.pages@, before.current_page, command)
    &&& after.current_page == selection_after(before.pages@.len(), before.current_page, command)
    &&& after.lines() == lines_after(before.lines(), before.input_state@, command)
    &&& after.input_state@ == input_after(before.input_state@, command, live_room)
    &&& effect == effect_after(before.input_state@, command)
}

/// The title of the tab of a live room.
pub open spec fn live_room_title(roomid: u64) -> Seq<char> {
    "直播"@ + decimal_text(roomid as nat)
}

impl GlobalState {
    /// The room of the selected tab, as the latest state of its session has
    /// it, if that tab shows a live room.
    pub fn current_live_room(&self) -> (roomid: Option<u64>)
        requires
            self.selection_valid(),
        ensures
            roomid is Some <==> self.on_live_room(),
    {
        match self.current_page_psh() {
            Some(psh) => psh.live_roomid(),
            None => None,
        }
    }

    /// Carries out `command`, where `live_room` is the room of the selected tab
    /// if that tab shows a live room.
    pub fn execute(&mut self, command: Command, live_room: Option<u64>) -> (effect: Effect)
        requires
            old(self).selection_valid(),
        ensures
            executed(*old(self), *final(self), command, live_room, effect@),
            final(self).selection_valid(),
            old(self).wf() ==> final(self).wf(),
    {
        match command {
            Command::Quit => Effect::Quit,
            Command::Login => Effect::OpenLogin,
            Command::ClosePage => {
                self.close_page();
                Effect::Redraw
            },
            Command::EditRoom => {
                self.input_state = InputState::edit_action(Action::CreatLiveRoomPage);
                Effect::Redraw
            },
            Command::NextPage => {
                self.to_next_page();
                Effect::Redraw
            },
            Command::PrevPage => {
                self.to_prev_page();
                Effect::Redraw
            },
            Command::Tick => Effect::Redraw,
            Command::Insert(c) => {
                if self.input_state.is_editing() {
                    self.input_state.type_char(c);
                    Effect::Redraw
                } else {
                    if c == 't' {
                        if let Some(roomid) = live_room {
                            self.input_state = InputState::edit_action(
                                Action::SendDanmakuToLive(roomid),
                            );
                        }
                    }
                    Effect::Nothing
                }
            },
            Command::Backspace => {
                if self.input_state.is_editing() {
                    self.input_state.backspace();
                    Effect::Redraw
                } else {
                    Effect::Nothing
                }
            },
            Command::Escape => {
                if self.input_state.is_editing() {
                    self.input_state.cancel();
                    Effect::Redraw
                } else {
                    Effect::Nothing
                }
            },
            Command::Enter => {
                match self.input_state.commit() {
                    Some((Action::CreatLiveRoomPage, text)) => match parse_u64(text.as_str()) {
                        Ok(roomid) => Effect::OpenLiveRoom(roomid),
                        Err(error) => {
                            self.message(error.message());
                            Effect::Redraw
                        },
                    },
                    Some((Action::SendDanmakuToLive(roomid), text)) => Effect::SendDanmaku {
                        roomid,
                        danmaku: text,
                    },
                    None => Effect::Redraw,
                }
            },
            Command::Ignore => Effect::Nothing,
        }
    }

    /// Takes in one event of the bus: carries out the command that it stands
    /// for. Where the command depends on the room of the selected tab, the room
    /// is read from the latest state of its session; the state afterwards is
    /// that for some room if the tab shows a live room, and for none if not.
    pub fn on_event(&mut self, event: &Evnet) -> (effect: Effect)
        requires
            old(self).selection_valid(),
        ensures
            exists|live_room: Option<u64>|
                (live_room is Some <==> old(self).on_live_room()) && #[trigger] executed(
                    *old(self),
                    *final(self),
                    command_spec(*event),
                    live_room,
                    effect@,
                ),
            final(self).selection_valid(),
            old(self).wf() ==> final(self).wf(),
    {
        let command = event.command();
        let live_room = match command {
            Command::Insert(c) => if c == 't' && !self.input_state.is_editing() {
                self.current_live_room()
            } else {
                None
            },
            _ => None,
        };
        let effect = self.execute(command, live_room);
        proof {
            let read = match command {
                Command::Insert(c) => c == 't' && !(old(self).input_state@ is EditAction),
                _ => false,
            };
            let witness = if read {
                live_room
            } else if old(self).on_live_room() {
                Some(0u64)
            } else {
                None
            };
            assert(executed(*old(self), *self, command, witness, effect@));
        }
        effect
    }

    /// Attaches the session of live room `roomid` as a new tab and selects it.
    pub fn attach_live_room(&mut self, roomid: u64, handle: PageServiceHandle<LiveRoomPage>)
        ensures
            final(self).pages@.len() == old(self).pages@.len() + 1,
            final(self).pages@.drop_last() == old(self).pages@,
            final(self).pages@.last().0@ == live_room_title(roomid),
            final(self).pages@.last().1 == Psh::LiveRoomPageService(handle),
            final(self).current_page == Some(old(self).pages@.len() as usize),
            final(self).messages == old(self).messages,
            final(self).input_state == old(self).input_state,
            final(self).wf(),
    {
        let mut title = "直播".to_string();
        title.append(format_u64(roomid).as_str());
        self.regist_page(title, Psh::LiveRoomPageService(handle));
        assert(self.pages@.drop_last() =~= old(self).pages@);
    }

    /// Attaches a login session as a new tab and selects it, and tells the user
    /// that the session runs.
    pub fn attach_login(&mut self, handle: PageServiceHandle<LoginPage>)
        ensures
            final(self).pages@.len() == old(self).pages@.len() + 1,
            final(self).pages@.drop_last() == old(self).pages@,
            final(self).pages@.last().0@ == "登录"@,
            final(self).pages@.last().1 == Psh::LoginPageService(handle),
            final(self).current_page == Some(old(self).pages@.len() as usize),
            final(self).lines() == old(self).lines().push("psh is running"@),
            final(self).input_state == old(self).input_state,
            final(self).wf(),
    {
        self.message("psh is running".to_string());
        self.regist_page("登录".to_string(), Psh::LoginPageService(handle));
        assert(self.pages@.drop_last() =~= old(self).pages@);
    }
}

} // verus!
