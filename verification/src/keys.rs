//! The key map: which command a key press stands for, in the main view, in
//! each popup and while a search is being typed.
use vstd::prelude::*;

verus! {

/// A key as the console reads it.
#[derive(Debug, Clone, Copy, PartialEq, Eq, Structural)]
pub enum KeyCode {
    Char(char),
    F(u8),
    Up,
    Down,
    Left,
    Right,
    PageUp,
    PageDown,
    Home,
    End,
    Enter,
    Backspace,
    Delete,
    Esc,
    Other,
}

/// A key press: the key and whether Control was held.
#[derive(Debug, Clone, Copy, PartialEq, Eq, Structural)]
pub struct Key {
    pub code: KeyCode,
    pub ctrl: bool,
}

/// What a key does in the main view.
#[derive(Debug, Clone, Copy, PartialEq, Eq, Structural)]
pub enum MainCommand {
    Quit,
    ShowHelp,
    ShowPorts,
    ShowSettings,
    NextView,
    ToggleLogging,
    ShowMacros,
    StartSearch,
    ClearLog,
    ScrollToBottom,
    DropPort,
    NextTxNewline,
    ToggleEcho,
    ToggleRawInput,
    ToggleStats,
    CopyLog,
    ScrollUp(usize),
    ScrollDown(usize),
    ScrollHome,
    ScrollEnd,
    HistoryUp,
    HistoryDown,
    Send,
    Backspace,
    Delete,
    Left,
    Right,
    Type(char),
    Escape,
    Ignore,
}

/// The main view's key map.  The arrow keys scroll the log while the input
/// line is empty and browse the history otherwise.
pub open spec fn main_command(key: Key, input_empty: bool) -> MainCommand {
    match key.code {
        KeyCode::Char(c) => if key.ctrl {
            if c == 'c' || c == 'q' {
                MainCommand::Quit
            } else if c == 'l' {
                MainCommand::ClearLog
            } else if c == 'k' {
                MainCommand::ScrollToBottom
            } else if c == 'x' {
                MainCommand::DropPort
            } else if c == 'e' {
                MainCommand::NextTxNewline
            } else if c == 'r' {
                MainCommand::ToggleEcho
            } else if c == 'w' {
                MainCommand::ToggleRawInput
            } else if c == 'i' {
                MainCommand::ToggleStats
            } else if c == 'y' {
                MainCommand::CopyLog
            } else {
                MainCommand::Ignore
            }
        } else if c == '/' {
            MainCommand::StartSearch
        } else {
            MainCommand::Type(c)
        },
        KeyCode::F(n) => if n == 1 {
            MainCommand::ShowHelp
        } else if n == 2 {
            MainCommand::ShowPorts
        } else if n == 3 {
            MainCommand::ShowSettings
        } else if n == 4 {
            MainCommand::NextView
        } else if n == 5 {
            MainCommand::ToggleLogging
        } else if n == 6 {
            MainCommand::ShowMacros
        } else if n == 7 {
            MainCommand::StartSearch
        } else {
            MainCommand::Ignore
        },
        KeyCode::Up => if input_empty {
            MainCommand::ScrollUp(1)
        } else {
            MainCommand::HistoryUp
        },
        KeyCode::Down => if input_empty {
            MainCommand::ScrollDown(1)
        } else {
            MainCommand::HistoryDown
        },
        KeyCode::PageUp => MainCommand::ScrollUp(20),
        KeyCode::PageDown => MainCommand::ScrollDown(20),
        KeyCode::Home => MainCommand::ScrollHome,
        KeyCode::End => MainCommand::ScrollEnd,
        KeyCode::Enter => MainCommand::Send,
        KeyCode::Backspace => MainCommand::Backspace,
        KeyCode::Delete => MainCommand::Delete,
        KeyCode::Left => MainCommand::Left,
        KeyCode::Right => MainCommand::Right,
        KeyCode::Esc => MainCommand::Escape,
        KeyCode::Other => MainCommand::Ignore,
    }
}

/// Looks `key` up in the main view's key map.
pub fn classify_main(key: Key, input_empty: bool) -> (c: MainCommand)
    ensures
        c == main_command(key, input_empty),
{
    match key.code {
        KeyCode::Char(c) => if key.ctrl {
            if c == 'c' || c == 'q' {
                MainCommand::Quit
            } else if c == 'l' {
                MainCommand::ClearLog
            } else if c == 'k' {
                MainCommand::ScrollToBottom
            } else if c == 'x' {
                MainCommand::DropPort
            } else if c == 'e' {
                MainCommand::NextTxNewline
            } else if c == 'r' {
                MainCommand::ToggleEcho
            } else if c == 'w' {
                MainCommand::ToggleRawInput
            } else if c == 'i' {
                MainCommand::ToggleStats
            } else if c == 'y' {
                MainCommand::CopyLog
            } else {
                MainCommand::Ignore
            }
        } else if c == '/' {
            MainCommand::StartSearch
        } else {
            MainCommand::Type(c)
        },
        KeyCode::F(n) => if n == 1 {
            MainCommand::ShowHelp
        } else if n == 2 {
            MainCommand::ShowPorts
        } else if n == 3 {
            MainCommand::ShowSettings
        } else if n == 4 {
            MainCommand::NextView
        } else if n == 5 {
            MainCommand::ToggleLogging
        } else if n == 6 {
            MainCommand::ShowMacros
        } else if n == 7 {
            MainCommand::StartSearch
        } else {
            MainCommand::Ignore
        },
        KeyCode::Up => if input_empty {
            MainCommand::ScrollUp(1)
        } else {
            MainCommand::HistoryUp
        },
        KeyCode::Down => if input_empty {
            MainCommand::ScrollDown(1)
        } else {
            MainCommand::HistoryDown
        },
        KeyCode::PageUp => MainCommand::ScrollUp(20),
        KeyCode::PageDown => MainCommand::ScrollDown(20),
        KeyCode::Home => MainCommand::ScrollHome,
        KeyCode::End => MainCommand::ScrollEnd,
        KeyCode::Enter => MainCommand::Send,
        KeyCode::Backspace => MainCommand::Backspace,
        KeyCode::Delete => MainCommand::Delete,
        KeyCode::Left => MainCommand::Left,
        KeyCode::Right => MainCommand::Right,
        KeyCode::Esc => MainCommand::Escape,
        KeyCode::Other => MainCommand::Ignore,
    }
}

/// What a key does while a search is being typed.
#[derive(Debug, Clone, Copy, PartialEq, Eq, Structural)]
pub enum SearchCommand {
    Cancel,
    NextMatch,
    PrevMatch,
    ToggleFilter,
    Erase,
    Extend(char),
    Ignore,
}

/// The search bar's key map.
pub open spec fn search_command(key: Key) -> SearchCommand {
    match key.code {
        KeyCode::Esc => SearchCommand::Cancel,
        KeyCode::Enter => SearchCommand::NextMatch,
        KeyCode::Char(c) => if c == 'n' && !key.ctrl {
            SearchCommand::NextMatch
        } else if c == 'N' {
            SearchCommand::PrevMatch
        } else if c == 'f' && key.ctrl {
            SearchCommand::ToggleFilter
        } else if !key.ctrl {
            SearchCommand::Extend(c)
        } else {
            SearchCommand::Ignore
        },
        KeyCode::Backspace => SearchCommand::Erase,
        _ => SearchCommand::Ignore,
    }
}

/// Looks `key` up in the search bar's key map.
pub fn classify_search(key: Key) -> (c: SearchCommand)
    ensures
        c == search_command(key),
{
    match key.code {
        KeyCode::Esc => SearchCommand::Cancel,
        KeyCode::Enter => SearchCommand::NextMatch,
        KeyCode::Char(c) => if c == 'n' && !key.ctrl {
            SearchCommand::NextMatch
        } else if c == 'N' {
            SearchCommand::PrevMatch
        } else if c == 'f' && key.ctrl {
            SearchCommand::ToggleFilter
        } else if !key.ctrl {
            SearchCommand::Extend(c)
        } else {
            SearchCommand::Ignore
        },
        KeyCode::Backspace => SearchCommand::Erase,
        _ => SearchCommand::Ignore,
    }
}

/// What a key does in a popup list (ports, settings, macros).
#[derive(Debug, Clone, Copy, PartialEq, Eq, Structural)]
pub enum ListCommand {
    Close,
    Up,
    Down,
    Rescan,
    Choose,
    Back,
    Ignore,
}

/// The port list's key map: `r` scans again, Enter connects.
pub open spec fn port_list_command(key: Key) -> ListCommand {
    match key.code {
        KeyCode::Esc => ListCommand::Close,
        KeyCode::Up => ListCommand::Up,
        KeyCode::Down => ListCommand::Down,
        KeyCode::Char(c) => if c == 'r' {
            ListCommand::Rescan
        } else {
            ListCommand::Ignore
        },
        KeyCode::Enter => ListCommand::Choose,
        _ => ListCommand::Ignore,
    }
}

/// The settings list's key map: Enter and Right change the selected setting
/// forwards, Left backwards.
pub open spec fn settings_list_command(key: Key) -> ListCommand {
    match key.code {
        KeyCode::Esc => ListCommand::Close,
        KeyCode::Up => ListCommand::Up,
        KeyCode::Down => ListCommand::Down,
        KeyCode::Enter => ListCommand::Choose,
        KeyCode::Right => ListCommand::Choose,
        KeyCode::Left => ListCommand::Back,
        _ => ListCommand::Ignore,
    }
}

/// The macro list's key map: Enter runs the selected macro.
pub open spec fn macro_list_command(key: Key) -> ListCommand {
    match key.code {
        KeyCode::Esc => ListCommand::Close,
        KeyCode::Up => ListCommand::Up,
        KeyCode::Down => ListCommand::Down,
        KeyCode::Enter => ListCommand::Choose,
        _ => ListCommand::Ignore,
    }
}

/// Looks `key` up in the port list's key map.
pub fn classify_port_list(key: Key) -> (c: ListCommand)
    ensures
        c == port_list_command(key),
{
    match key.code {
        KeyCode::Esc => ListCommand::Close,
        KeyCode::Up => ListCommand::Up,
        KeyCode::Down => ListCommand::Down,
        KeyCode::Char(c) => if c == 'r' {
            ListCommand::Rescan
        } else {
            ListCommand::Ignore
        },
        KeyCode::Enter => ListCommand::Choose,
        _ => ListCommand::Ignore,
    }
}

/// Looks `key` up in the settings list's key map.
pub fn classify_settings_list(key: Key) -> (c: ListCommand)
    ensures
        c == settings_list_command(key),
{
    match key.code {
        KeyCode::Esc => ListCommand::Close,
        KeyCode::Up => ListCommand::Up,
        KeyCode::Down => ListCommand::Down,
        KeyCode::Enter => ListCommand::Choose,
        KeyCode::Right => ListCommand::Choose,
        KeyCode::Left => ListCommand::Back,
        _ => ListCommand::Ignore,
    }
}

/// Looks `key` up in the macro list's key map.
pub fn classify_macro_list(key: Key) -> (c: ListCommand)
    ensures
        c == macro_list_command(key),
{
    match key.code {
        KeyCode::Esc => ListCommand::Close,
        KeyCode::Up => ListCommand::Up,
        KeyCode::Down => ListCommand::Down,
        KeyCode::Enter => ListCommand::Choose,
        _ => ListCommand::Ignore,
    }
}

} // verus!
