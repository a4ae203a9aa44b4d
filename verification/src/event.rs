//! What reaches the main loop, and the command that each event stands for.
use vstd::prelude::*;

verus! {

/// The key of a key event, as far as the bindings tell keys apart.
#[derive(Clone, Copy, Debug, PartialEq, Eq, Structural)]
pub enum KeyCode {
    Char(char),
    Tab,
    PageUp,
    PageDown,
    Backspace,
    Esc,
    Enter,
    /// Any other key.
    Other,
}

/// The modifier keys held with a key.
#[derive(Clone, Copy, Debug, PartialEq, Eq, Structural)]
pub enum KeyModifiers {
    /// No modifier key.
    Plain,
    /// The control key and no other.
    Control,
    /// Any other set of modifier keys.
    Other,
}

/// What happened to the key.
#[derive(Clone, Copy, Debug, PartialEq, Eq, Structural)]
pub enum KeyEventKind {
    Press,
    /// The key repeats or was released.
    Other,
}

/// One event of the keyboard.
#[derive(Clone, Copy, Debug, PartialEq, Eq, Structural)]
pub struct KeyEvent {
    pub code: KeyCode,
    pub kind: KeyEventKind,
    pub modifiers: KeyModifiers,
}

/// One event of the terminal.
#[derive(Clone, Copy, Debug, PartialEq, Eq, Structural)]
pub enum XtEvent {
    Key(KeyEvent),
    /// The mouse, the focus, a paste or a new size.
    Other,
}

/// What the event bus delivers to the main loop.
#[derive(Clone, Copy, Debug, PartialEq, Eq, Structural)]
pub enum Evnet {
    /// The timer has ticked.
    Tick,
    /// The terminal has reported something.
    Xt(XtEvent),
    /// The terminal could not deliver an event.
    Error,
}

/// What the user, or the timer, asks for.
#[derive(Clone, Copy, Debug, PartialEq, Eq, Structural)]
pub enum Command {
    Quit,
    ClosePage,
    /// Start to type the number of a live room to open.
    EditRoom,
    Login,
    NextPage,
    PrevPage,
    /// A character was typed.
    Insert(char),
    Backspace,
    Escape,
    Enter,
    Tick,
    /// Nothing is bound to the event.
    Ignore,
}

/// The command bound to a pressed key with the control key held.
pub open spec fn control_binding(code: KeyCode) -> Command {
    match code {
        KeyCode::Char(c) => if c == 'c' {
            Command::Quit
        } else if c == 'w' {
            Command::ClosePage
        } else if c == 'r' {
            Command::EditRoom
        } else if c == 'l' {
            Command::Login
        } else if c == ',' {
            Command::NextPage
        } else if c == '.' {
            Command::PrevPage
        } else {
            Command::Ignore
        },
        KeyCode::Tab => Command::NextPage,
        _ => Command::Ignore,
    }
}

/// The command bound to a pressed key with no modifier key held.
pub open spec fn plain_binding(code: KeyCode) -> Command {
    match code {
        KeyCode::Char(c) => Command::Insert(c),
        KeyCode::PageDown => Command::NextPage,
        KeyCode::PageUp => Command::PrevPage,
        KeyCode::Backspace => Command::Backspace,
        KeyCode::Esc => Command::Escape,
        KeyCode::Enter => Command::Enter,
        _ => Command::Ignore,
    }
}

/// The command bound to a key event: only a pressed key, alone or with the
/// control key, is bound to anything.
pub open spec fn key_binding(key: KeyEvent) -> Command {
    if key.kind != KeyEventKind::Press {
        Command::Ignore
    } else {
        match key.modifiers {
            KeyModifiers::Control => control_binding(key.code),
            KeyModifiers::Plain => plain_binding(key.code),
            KeyModifiers::Other => Command::Ignore,
        }
    }
}

/// The command that an event stands for: a tick asks for a new drawing, a key
/// for what is bound to it, anything else for nothing.
pub open spec fn command_spec(event: Evnet) -> Command {
    match event {
        Evnet::Tick => Command::Tick,
        Evnet::Xt(XtEvent::Key(key)) => key_binding(key),
        Evnet::Xt(XtEvent::Other) => Command::Ignore,
        Evnet::Error => Command::Ignore,
    }
}

impl KeyEvent {
    /// The command bound to this key event.
    pub fn binding(&self) -> (bound: Command)
        ensures
            bound == key_binding(*self),
    {
        match self.kind {
            KeyEventKind::Press => {},
            KeyEventKind::Other => {
                return Command::Ignore;
            },
        }
        match self.modifiers {
            KeyModifiers::Control => match self.code {
                KeyCode::Char(c) => if c == 'c' {
                    Command::Quit
                } else if c == 'w' {
                    Command::ClosePage
                } else if c == 'r' {
                    Command::EditRoom
                } else if c == 'l' {
                    Command::Login
                } else if c == ',' {
                    Command::NextPage
                } else if c == '.' {
                    Command::PrevPage
                } else {
                    Command::Ignore
                },
                KeyCode::Tab => Command::NextPage,
                _ => Command::Ignore,
            },
            KeyModifiers::Plain => match self.code {
                KeyCode::Char(c) => Command::Insert(c),
                KeyCode::PageDown => Command::NextPage,
                KeyCode::PageUp => Command::PrevPage,
                KeyCode::Backspace => Command::Backspace,
                KeyCode::Esc => Command::Escape,
                KeyCode::Enter => Command::Enter,
                _ => Command::Ignore,
            },
            KeyModifiers::Other => Command::Ignore,
        }
    }
}

impl Evnet {
    /// The command that this event stands for.
    pub fn command(&self) -> (bound: Command)
        ensures
            bound == command_spec(*self),
    {
        match self {
            Evnet::Tick => Command::Tick,
            Evnet::Xt(XtEvent::Key(key)) => key.binding(),
            Evnet::Xt(XtEvent::Other) => Command::Ignore,
            Evnet::Error => Command::Ignore,
        }
    }
}

} // verus!
