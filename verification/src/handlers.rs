//! Key presses in the main view: what each command does to the console's
//! state, and the one function that carries out any of them.
use vstd::prelude::*;
use crate::app::{AppState, PopupKind, bottom, saturating_sub};
use crate::commands::{
    backspaced, bytes, deleted, history_recalled, input_sent, is_clipboard_text_of, just,
    log_cleared_by_user, logging_toggled, main_command_safe, no_work, port_dropped, typed,
    clipboard_text_of, keeps_invariant_parts,
};
use crate::control::{Action, KeyOutcome, status_set};
use crate::keys::MainCommand;

verus! {

/// `post` is `pre` with popup `p` open.
#[verifier::opaque]
pub open spec fn popup_opened(pre: AppState, p: PopupKind, post: AppState) -> bool {
    post == (AppState { active_popup: Some(p), ..pre })
}

/// `post` is `pre` with the next view mode.
#[verifier::opaque]
pub open spec fn view_cycled(pre: AppState, post: AppState) -> bool {
    post == (AppState { view_mode: pre.view_mode.spec_next(), ..pre })
}

/// `post` is `pre` with a search started from an empty query.
#[verifier::opaque]
pub open spec fn search_started(pre: AppState, post: AppState) -> bool {
    &&& post.search_query@.len() == 0
    &&& post == (AppState { search_active: true, search_query: post.search_query, ..pre })
}

/// `post` is `pre` with the next line ending for sending.
#[verifier::opaque]
pub open spec fn tx_newline_cycled(pre: AppState, post: AppState) -> bool {
    post == (AppState { tx_newline: pre.tx_newline.spec_next_send(), ..pre })
}

/// `post` is `pre` with the statistics panel shown or hidden in turn.
#[verifier::opaque]
pub open spec fn stats_toggled(pre: AppState, post: AppState) -> bool {
    post == (AppState { show_stats: !pre.show_stats, ..pre })
}

/// `post` is `pre` with local echo switched, and the status bar saying how
/// it now stands.
#[verifier::opaque]
pub open spec fn echo_toggled(pre: AppState, post: AppState) -> bool {
    status_set(
        AppState { local_echo: !pre.local_echo, ..pre },
        post,
        if !pre.local_echo {
            "Local echo ON"@
        } else {
            "Local echo OFF"@
        },
        false,
    )
}

/// `post` is `pre` with raw input (each key sent at once) switched, and the
/// status bar saying how it now stands.
#[verifier::opaque]
pub open spec fn raw_input_toggled(pre: AppState, post: AppState) -> bool {
    status_set(
        AppState { raw_mode_input: !pre.raw_mode_input, ..pre },
        post,
        if !pre.raw_mode_input {
            "Raw mode ON"@
        } else {
            "Raw mode OFF"@
        },
        false,
    )
}

/// `post` is `pre` with the search bar and any popup closed.
#[verifier::opaque]
pub open spec fn escaped(pre: AppState, post: AppState) -> bool {
    post == (AppState { search_active: false, active_popup: None, ..pre })
}

/// `post` is `pre` scrolled `n` lines towards the oldest, not past the first,
/// no longer following new lines.
#[verifier::opaque]
pub open spec fn scrolled_up(pre: AppState, n: usize, post: AppState) -> bool {
    post == (AppState {
        scroll_offset: saturating_sub(pre.scroll_offset as int, n as int) as usize,
        scroll_locked: true,
        ..pre
    })
}

/// `post` is `pre` scrolled `n` lines towards the newest, not past the last;
/// reaching it resumes following new lines.
#[verifier::opaque]
pub open spec fn scrolled_down(pre: AppState, n: usize, post: AppState) -> bool {
    let max = bottom(pre.log_lines@.len());
    let target = if pre.scroll_offset + n < max {
        (pre.scroll_offset + n) as usize
    } else {
        max
    };
    post == (AppState {
        scroll_offset: target,
        scroll_locked: if target >= max {
            false
        } else {
            pre.scroll_locked
        },
        ..pre
    })
}

/// `post` is `pre` at the oldest line, no longer following new lines.
#[verifier::opaque]
pub open spec fn scrolled_home(pre: AppState, post: AppState) -> bool {
    post == (AppState { scroll_offset: 0, scroll_locked: true, ..pre })
}

/// `post` is `pre` at the newest line, following new lines.
#[verifier::opaque]
pub open spec fn scrolled_end(pre: AppState, post: AppState) -> bool {
    post == (AppState { scroll_offset: bottom(pre.log_lines@.len()), scroll_locked: false, ..pre })
}

/// `post` is `pre` at the newest line, following or not as before.
#[verifier::opaque]
pub open spec fn scrolled_to_bottom(pre: AppState, post: AppState) -> bool {
    post == (AppState { scroll_offset: bottom(pre.log_lines@.len()), ..pre })
}

/// `post` is `pre` with the cursor one byte to the left, if it can go.
#[verifier::opaque]
pub open spec fn cursor_moved_left(pre: AppState, post: AppState) -> bool {
    post == (AppState {
        cursor_pos: if pre.cursor_pos > 0 {
            (pre.cursor_pos - 1) as usize
        } else {
            pre.cursor_pos
        },
        ..pre
    })
}

/// `post` is `pre` with the cursor one byte to the right, if it can go.
#[verifier::opaque]
pub open spec fn cursor_moved_right(pre: AppState, post: AppState) -> bool {
    post == (AppState {
        cursor_pos: if pre.cursor_pos < bytes(pre.input@).len() {
            (pre.cursor_pos + 1) as usize
        } else {
            pre.cursor_pos
        },
        ..pre
    })
}

/// `post` and `out` are what main-view command `cmd` does to `pre`.
pub open spec fn main_done(pre: AppState, cmd: MainCommand, post: AppState, out: KeyOutcome) -> bool {
    match cmd {
        MainCommand::Quit => post == pre && out.quit && out.actions@.len() == 0,
        MainCommand::ShowHelp => popup_opened(pre, PopupKind::Help, post) && no_work(out),
        MainCommand::ShowPorts => popup_opened(pre, PopupKind::PortSelect, post) && just(
            out,
            Action::ScanPorts,
        ),
        MainCommand::ShowSettings => popup_opened(pre, PopupKind::Settings, post) && no_work(out),
        MainCommand::ShowMacros => popup_opened(pre, PopupKind::Macros, post) && no_work(out),
        MainCommand::NextView => view_cycled(pre, post) && no_work(out),
        MainCommand::ToggleLogging => logging_toggled(pre, post, out),
        MainCommand::StartSearch => search_started(pre, post) && no_work(out),
        MainCommand::ClearLog => log_cleared_by_user(pre, post, out),
        MainCommand::ScrollToBottom => scrolled_to_bottom(pre, post) && no_work(out),
        MainCommand::DropPort => port_dropped(pre, post, out),
        MainCommand::NextTxNewline => tx_newline_cycled(pre, post) && no_work(out),
        MainCommand::ToggleEcho => echo_toggled(pre, post) && no_work(out),
        MainCommand::ToggleRawInput => raw_input_toggled(pre, post) && no_work(out),
        MainCommand::ToggleStats => stats_toggled(pre, post) && no_work(out),
        MainCommand::CopyLog => {
            &&& post == pre
            &&& !out.quit
            &&& out.actions@.len() == 1
            &&& out.actions@[0] matches Action::CopyToClipboard(t) && is_clipboard_text_of(
                pre.log_lines@,
                t@,
            )
        },
        MainCommand::ScrollUp(n) => scrolled_up(pre, n, post) && no_work(out),
        MainCommand::ScrollDown(n) => scrolled_down(pre, n, post) && no_work(out),
        MainCommand::ScrollHome => scrolled_home(pre, post) && no_work(out),
        MainCommand::ScrollEnd => scrolled_end(pre, post) && no_work(out),
        MainCommand::HistoryUp => history_recalled(
            pre,
            post,
            pre.send_history@.after_up(pre.input@),
            pre.send_history@.up_result(pre.input@),
        ) && no_work(out),
        MainCommand::HistoryDown => history_recalled(
            pre,
            post,
            pre.send_history@.after_down(),
            pre.send_history@.down_result(),
        ) && no_work(out),
        MainCommand::Send => input_sent(pre, post, out),
        MainCommand::Backspace => backspaced(pre, post) && no_work(out),
        MainCommand::Delete => deleted(pre, post) && no_work(out),
        MainCommand::Left => cursor_moved_left(pre, post) && no_work(out),
        MainCommand::Right => cursor_moved_right(pre, post) && no_work(out),
        MainCommand::Type(c) => typed(pre, c, post, out),
        MainCommand::Escape => escaped(pre, post) && no_work(out),
        MainCommand::Ignore => post == pre && no_work(out),
    }
}

impl AppState {
    /// Carries out a main-view command (see `main_done`).
    pub fn run_main_command(&mut self, cmd: MainCommand) -> (out: KeyOutcome)
        requires
            old(self).wf(),
            main_command_safe(*old(self), cmd),
        ensures
            final(self).wf(),
            main_done(*old(self), cmd, *final(self), out),
    {
        match cmd {
            MainCommand::Quit => KeyOutcome { quit: true, actions: Vec::new() },
            MainCommand::ShowHelp => {
                self.open_popup(PopupKind::Help);
                KeyOutcome { quit: false, actions: Vec::new() }
            },
            MainCommand::ShowPorts => {
                self.open_popup(PopupKind::PortSelect);
                let mut actions: Vec<Action> = Vec::new();
                actions.push(Action::ScanPorts);
                assert(actions@ =~= seq![Action::ScanPorts]);
                KeyOutcome { quit: false, actions }
            },
            MainCommand::ShowSettings => {
                self.open_popup(PopupKind::Settings);
                KeyOutcome { quit: false, actions: Vec::new() }
            },
            MainCommand::ShowMacros => {
                self.open_popup(PopupKind::Macros);
                KeyOutcome { quit: false, actions: Vec::new() }
            },
            MainCommand::NextView => {
                self.cycle_view();
                KeyOutcome { quit: false, actions: Vec::new() }
            },
            MainCommand::ToggleLogging => self.toggle_logging(),
            MainCommand::StartSearch => {
                self.start_search();
                KeyOutcome { quit: false, actions: Vec::new() }
            },
            MainCommand::ClearLog => self.clear_log_by_user(),
            MainCommand::ScrollToBottom => {
                self.jump_to_bottom();
                KeyOutcome { quit: false, actions: Vec::new() }
            },
            MainCommand::DropPort => self.drop_port(),
            MainCommand::NextTxNewline => {
                self.cycle_tx_newline();
                KeyOutcome { quit: false, actions: Vec::new() }
            },
            MainCommand::ToggleEcho => {
                self.toggle_echo();
                KeyOutcome { quit: false, actions: Vec::new() }
            },
            MainCommand::ToggleRawInput => {
                self.toggle_raw_input();
                KeyOutcome { quit: false, actions: Vec::new() }
            },
            MainCommand::ToggleStats => {
                self.toggle_stats();
                KeyOutcome { quit: false, actions: Vec::new() }
            },
            MainCommand::CopyLog => {
                let text = clipboard_text_of(&self.log_lines);
                let mut actions: Vec<Action> = Vec::new();
                actions.push(Action::CopyToClipboard(text));
                KeyOutcome { quit: false, actions }
            },
            MainCommand::ScrollUp(n) => {
                self.scroll_up_by(n);
                KeyOutcome { quit: false, actions: Vec::new() }
            },
            MainCommand::ScrollDown(n) => {
                self.scroll_down_by(n);
                KeyOutcome { quit: false, actions: Vec::new() }
            },
            MainCommand::ScrollHome => {
                self.scroll_home();
                KeyOutcome { quit: false, actions: Vec::new() }
            },
            MainCommand::ScrollEnd => {
                self.scroll_end();
                KeyOutcome { quit: false, actions: Vec::new() }
            },
            MainCommand::HistoryUp => {
                self.recall_older();
                KeyOutcome { quit: false, actions: Vec::new() }
            },
            MainCommand::HistoryDown => {
                self.recall_newer();
                KeyOutcome { quit: false, actions: Vec::new() }
            },
            MainCommand::Send => self.send_input(),
            MainCommand::Backspace => {
                self.erase_before_cursor();
                KeyOutcome { quit: false, actions: Vec::new() }
            },
            MainCommand::Delete => {
                self.erase_at_cursor();
                KeyOutcome { quit: false, actions: Vec::new() }
            },
            MainCommand::Left => {
                self.cursor_left();
                KeyOutcome { quit: false, actions: Vec::new() }
            },
            MainCommand::Right => {
                self.cursor_right();
                KeyOutcome { quit: false, actions: Vec::new() }
            },
            MainCommand::Type(c) => self.type_char(c),
            MainCommand::Escape => {
                self.escape();
                KeyOutcome { quit: false, actions: Vec::new() }
            },
            MainCommand::Ignore => KeyOutcome { quit: false, actions: Vec::new() },
        }
    }

    /// Opens popup `p`.
    fn open_popup(&mut self, p: PopupKind)
        ensures
            popup_opened(*old(self), p, *final(self)),
            keeps_invariant_parts(*old(self), *final(self)),
    {
        proof {
            reveal(popup_opened);
        }
        self.active_popup = Some(p);
    }

    /// Moves on to the next view mode.
    fn cycle_view(&mut self)
        ensures
            view_cycled(*old(self), *final(self)),
            keeps_invariant_parts(*old(self), *final(self)),
    {
        proof {
            reveal(view_cycled);
        }
        self.view_mode = self.view_mode.next();
    }

    /// Opens the search bar with an empty query.
    fn start_search(&mut self)
        ensures
            search_started(*old(self), *final(self)),
            keeps_invariant_parts(*old(self), *final(self)),
    {
        proof {
            reveal(search_started);
        }
        self.search_active = true;
        self.search_query = String::new();
    }

    /// Moves on to the next line ending for sending.
    fn cycle_tx_newline(&mut self)
        ensures
            tx_newline_cycled(*old(self), *final(self)),
            keeps_invariant_parts(*old(self), *final(self)),
    {
        proof {
            reveal(tx_newline_cycled);
        }
        self.tx_newline = self.tx_newline.next_send();
    }

    /// Shows or hides the statistics panel.
    fn toggle_stats(&mut self)
        ensures
            stats_toggled(*old(self), *final(self)),
            keeps_invariant_parts(*old(self), *final(self)),
    {
        proof {
            reveal(stats_toggled);
        }
        self.show_stats = !self.show_stats;
    }

    /// Switches local echo.
    fn toggle_echo(&mut self)
        ensures
            echo_toggled(*old(self), *final(self)),
            keeps_invariant_parts(*old(self), *final(self)),
    {
        proof {
            reveal(echo_toggled);
        }
        self.local_echo = !self.local_echo;
        let msg = if self.local_echo {
            "Local echo ON"
        } else {
            "Local echo OFF"
        };
        self.set_status(msg.to_owned(), false);
    }

    /// Switches raw input.
    fn toggle_raw_input(&mut self)
        ensures
            raw_input_toggled(*old(self), *final(self)),
            keeps_invariant_parts(*old(self), *final(self)),
    {
        proof {
            reveal(raw_input_toggled);
        }
        self.raw_mode_input = !self.raw_mode_input;
        let msg = if self.raw_mode_input {
            "Raw mode ON"
        } else {
            "Raw mode OFF"
        };
        self.set_status(msg.to_owned(), false);
    }

    /// Closes the search bar and any popup.
    fn escape(&mut self)
        ensures
            escaped(*old(self), *final(self)),
            keeps_invariant_parts(*old(self), *final(self)),
    {
        proof {
            reveal(escaped);
        }
        self.search_active = false;
        self.active_popup = None;
    }

    /// Scrolls `n` lines towards the oldest.
    fn scroll_up_by(&mut self, n: usize)
        ensures
            scrolled_up(*old(self), n, *final(self)),
            keeps_invariant_parts(*old(self), *final(self)),
    {
        proof {
            reveal(scrolled_up);
        }
        self.scroll_up(n);
    }

    /// Scrolls `n` lines towards the newest.
    fn scroll_down_by(&mut self, n: usize)
        requires
            old(self).scroll_offset + n <= usize::MAX,
        ensures
            scrolled_down(*old(self), n, *final(self)),
            keeps_invariant_parts(*old(self), *final(self)),
    {
        proof {
            reveal(scrolled_down);
        }
        self.scroll_down(n);
    }

    /// Goes to the oldest line.
    fn scroll_home(&mut self)
        ensures
            scrolled_home(*old(self), *final(self)),
            keeps_invariant_parts(*old(self), *final(self)),
    {
        proof {
            reveal(scrolled_home);
        }
        self.scroll_offset = 0;
        self.scroll_locked = true;
    }

    /// Goes to the newest line and follows new lines.
    fn scroll_end(&mut self)
        ensures
            scrolled_end(*old(self), *final(self)),
            keeps_invariant_parts(*old(self), *final(self)),
    {
        proof {
            reveal(scrolled_end);
        }
        self.scroll_to_bottom();
        self.scroll_locked = false;
    }

    /// Goes to the newest line.
    fn jump_to_bottom(&mut self)
        ensures
            scrolled_to_bottom(*old(self), *final(self)),
            keeps_invariant_parts(*old(self), *final(self)),
    {
        proof {
            reveal(scrolled_to_bottom);
        }
        self.scroll_to_bottom();
    }

    /// Moves the cursor one byte left.
    fn cursor_left(&mut self)
        ensures
            cursor_moved_left(*old(self), *final(self)),
            keeps_invariant_parts(*old(self), *final(self)),
    {
        proof {
            reveal(cursor_moved_left);
        }
        if self.cursor_pos > 0 {
            self.cursor_pos = self.cursor_pos - 1;
        }
    }

    /// Moves the cursor one byte right.
    fn cursor_right(&mut self)
        ensures
            cursor_moved_right(*old(self), *final(self)),
            keeps_invariant_parts(*old(self), *final(self)),
    {
        proof {
            reveal(cursor_moved_right);
        }
        if self.cursor_pos < self.input.as_str().as_bytes().len() {
            self.cursor_pos = self.cursor_pos + 1;
        }
    }
}

} // verus!
