//! Key presses in the search bar and in the popups, and the entry point that
//! routes a key to whichever part of the console has the focus.
use vstd::prelude::*;
use crate::app::{AppState, PopupKind, log_texts};
use crate::commands::{
    connect_requested,
    just,
    line_to_send,
    macro_started,
    main_command_safe,
    no_work,
    setting_changed,
};
use crate::control::{Action, KeyOutcome};
use crate::handlers::main_done;
use crate::keys::{
    Key, KeyCode, ListCommand, MainCommand, SearchCommand, classify_macro_list, classify_main,
    classify_port_list, classify_search, classify_settings_list, macro_list_command, main_command,
    port_list_command, search_command, settings_list_command,
};
use crate::macros::{expand_escapes_checked};
use crate::search::{SearchState, match_indices, pattern_of, regex_compiles};
use crate::text::{chars_of, string_from_chars};

verus! {

// ---------------------------------------------------------------------------
// The search bar
// ---------------------------------------------------------------------------

/// The log line of the selected match, if any.
pub open spec fn selected_line(ss: SearchState) -> Option<usize> {
    match ss.current_match {
        Some(i) => if i < ss.matches@.len() {
            Some(ss.matches@[i as int])
        } else {
            None
        },
        None => None,
    }
}

/// `post` is `pre` with the search bar closed and the search forgotten.
#[verifier::opaque]
pub open spec fn search_cancelled(pre: AppState, post: AppState) -> bool {
    &&& post.search_query@.len() == 0
    &&& post.search_state.query@.len() == 0
    &&& post.search_state.regex is None
    &&& post.search_state.matches@.len() == 0
    &&& post.search_state.current_match is None
    &&& !post.search_state.filter_mode
    &&& post == (AppState {
        search_active: false,
        search_query: post.search_query,
        search_state: post.search_state,
        ..pre
    })
}

/// `post` is `pre` with the next (or, backwards, the previous) match
/// selected, and the log scrolled to its line, scrolling then locked.
#[verifier::opaque]
pub open spec fn stepped_to_match(pre: AppState, forward: bool, post: AppState) -> bool {
    let count = pre.search_state.matches@.len();
    let current = if forward {
        SearchState::next_position(pre.search_state.current_match, count)
    } else {
        SearchState::prev_position(pre.search_state.current_match, count)
    };
    let ss = SearchState { current_match: current, ..pre.search_state };
    match selected_line(ss) {
        Some(i) => post == (AppState {
            search_state: ss,
            scroll_offset: i,
            scroll_locked: true,
            ..pre
        }),
        None => post == (AppState { search_state: ss, ..pre }),
    }
}

/// `post` is `pre` with filtering (showing only matching lines) switched.
#[verifier::opaque]
pub open spec fn filter_toggled(pre: AppState, post: AppState) -> bool {
    post == (AppState { filter_mode: !pre.filter_mode, ..pre })
}

/// `post` is `pre` with the query `q`: compiled afresh (an invalid pattern
/// compiles to nothing and matches no line), its matches found in the log,
/// and the first of them selected.
#[verifier::opaque]
pub open spec fn query_changed(pre: AppState, q: Seq<char>, post: AppState) -> bool {
    let ss = post.search_state;
    &&& post.search_query@ == q
    &&& ss.query@ == q
    &&& (ss.regex is Some <==> regex_compiles(q))
    &&& (ss.regex matches Some(r) ==> r.pattern() == q)
    &&& ss.matches@ == match_indices(
        pattern_of(ss.regex),
        log_texts(pre.log_lines@),
        pre.log_lines@.len() as int,
    )
    &&& ss.current_match == (if ss.matches@.len() == 0 {
        None
    } else {
        Some(0usize)
    })
    &&& ss.filter_mode == pre.search_state.filter_mode
    &&& post == (AppState { search_query: post.search_query, search_state: ss, ..pre })
}

/// The query after Backspace: its last character gone, if it has one.
pub open spec fn erased(q: Seq<char>) -> Seq<char> {
    if q.len() == 0 {
        q
    } else {
        q.drop_last()
    }
}

/// `post` and `out` are what search-bar command `cmd` does to `pre`.
pub open spec fn search_done(pre: AppState, cmd: SearchCommand, post: AppState, out: KeyOutcome) -> bool {
    &&& no_work(out)
    &&& match cmd {
        SearchCommand::Cancel => search_cancelled(pre, post),
        SearchCommand::NextMatch => stepped_to_match(pre, true, post),
        SearchCommand::PrevMatch => stepped_to_match(pre, false, post),
        SearchCommand::ToggleFilter => filter_toggled(pre, post),
        SearchCommand::Erase => query_changed(pre, erased(pre.search_query@), post),
        SearchCommand::Extend(c) => query_changed(pre, pre.search_query@.push(c), post),
        SearchCommand::Ignore => post == pre,
    }
}

// ---------------------------------------------------------------------------
// The popups
// ---------------------------------------------------------------------------

/// `post` is `pre` with the popup closed.
#[verifier::opaque]
pub open spec fn popup_closed(pre: AppState, post: AppState) -> bool {
    post == (AppState { active_popup: None, ..pre })
}

/// The position one up a list, stopping at the top.
pub open spec fn one_up(i: usize) -> usize {
    if i > 0 {
        (i - 1) as usize
    } else {
        i
    }
}

/// The position one down a list of `len` entries, stopping at the bottom.
pub open spec fn one_down(i: usize, len: nat) -> usize {
    if len > 0 && i < len - 1 {
        (i + 1) as usize
    } else {
        i
    }
}

/// `post` is `pre` with the port list's selection moved up or down.
#[verifier::opaque]
pub open spec fn port_selection_moved(pre: AppState, up: bool, post: AppState) -> bool {
    post == (AppState {
        port_select_index: if up {
            one_up(pre.port_select_index)
        } else {
            one_down(pre.port_select_index, pre.available_ports@.len())
        },
        ..pre
    })
}

/// `post` is `pre` with the settings list's selection moved up or down
/// (there are 14 rows).
#[verifier::opaque]
pub open spec fn setting_selection_moved(pre: AppState, up: bool, post: AppState) -> bool {
    post == (AppState {
        settings_field_index: if up {
            one_up(pre.settings_field_index)
        } else {
            one_down(pre.settings_field_index, 14)
        },
        ..pre
    })
}

/// `post` is `pre` with the macro list's selection moved up or down.
#[verifier::opaque]
pub open spec fn macro_selection_moved(pre: AppState, up: bool, post: AppState) -> bool {
    post == (AppState {
        macro_select_index: if up {
            one_up(pre.macro_select_index)
        } else {
            one_down(pre.macro_select_index, pre.macros@.len())
        },
        ..pre
    })
}

/// `post` and `out` are what Enter in the port list does: nothing when the
/// list is empty; otherwise the selected port becomes the chosen one, the
/// popup closes and connecting is asked for (see `connect_requested`).
#[verifier::opaque]
pub open spec fn port_chosen(pre: AppState, post: AppState, out: KeyOutcome) -> bool {
    if pre.available_ports@.len() == 0 {
        post == pre && no_work(out)
    } else {
        connect_requested(
            AppState {
                port_path: Some(pre.available_ports@[pre.port_select_index as int]),
                active_popup: None,
                ..pre
            },
            post,
            out,
        )
    }
}

/// `post` and `out` are what Enter in the macro list does: nothing when the
/// list is empty; otherwise the popup closes and the selected macro runs
/// (see `macro_started`).
#[verifier::opaque]
pub open spec fn macro_chosen(pre: AppState, post: AppState, out: KeyOutcome) -> bool {
    if pre.macros@.len() == 0 {
        post == pre && no_work(out)
    } else {
        macro_started(AppState { active_popup: None, ..pre }, pre.macro_select_index, post, out)
    }
}

/// `post` and `out` are what `key` does in the port list.
pub open spec fn port_list_done(pre: AppState, key: Key, post: AppState, out: KeyOutcome) -> bool {
    match port_list_command(key) {
        ListCommand::Close => popup_closed(pre, post) && no_work(out),
        ListCommand::Up => port_selection_moved(pre, true, post) && no_work(out),
        ListCommand::Down => port_selection_moved(pre, false, post) && no_work(out),
        ListCommand::Rescan => post == (AppState { port_select_index: 0, ..pre }) && just(
            out,
            Action::ScanPorts,
        ),
        ListCommand::Choose => port_chosen(pre, post, out),
        _ => post == pre && no_work(out),
    }
}

/// `post` and `out` are what `key` does in the settings list.
pub open spec fn settings_list_done(pre: AppState, key: Key, post: AppState, out: KeyOutcome) -> bool {
    match settings_list_command(key) {
        ListCommand::Close => popup_closed(pre, post) && no_work(out),
        ListCommand::Up => setting_selection_moved(pre, true, post) && no_work(out),
        ListCommand::Down => setting_selection_moved(pre, false, post) && no_work(out),
        ListCommand::Choose => setting_changed(pre, false, post, out),
        ListCommand::Back => setting_changed(pre, true, post, out),
        _ => post == pre && no_work(out),
    }
}

/// `post` and `out` are what `key` does in the macro list.
pub open spec fn macro_list_done(pre: AppState, key: Key, post: AppState, out: KeyOutcome) -> bool {
    match macro_list_command(key) {
        ListCommand::Close => popup_closed(pre, post) && no_work(out),
        ListCommand::Up => macro_selection_moved(pre, true, post) && no_work(out),
        ListCommand::Down => macro_selection_moved(pre, false, post) && no_work(out),
        ListCommand::Choose => macro_chosen(pre, post, out),
        _ => post == pre && no_work(out),
    }
}

/// `post` and `out` are what `key` does in popup `p`; any key closes the
/// help.
pub open spec fn popup_done(pre: AppState, p: PopupKind, key: Key, post: AppState, out: KeyOutcome) -> bool {
    match p {
        PopupKind::Help => popup_closed(pre, post) && no_work(out),
        PopupKind::PortSelect => port_list_done(pre, key, post, out),
        PopupKind::Settings => settings_list_done(pre, key, post, out),
        PopupKind::Macros => macro_list_done(pre, key, post, out),
    }
}

// ---------------------------------------------------------------------------
// Routing
// ---------------------------------------------------------------------------

/// `post` and `out` are what `key` does to `pre`: an open popup takes it
/// first, then the search bar when a search is being typed, else the main
/// view.
pub open spec fn key_done(pre: AppState, key: Key, post: AppState, out: KeyOutcome) -> bool {
    match pre.active_popup {
        Some(p) => popup_done(pre, p, key, post, out),
        None => if pre.search_active {
            search_done(pre, search_command(key), post, out)
        } else {
            main_done(pre, main_command(key, pre.input@.len() == 0), post, out)
        },
    }
}

/// The keys the console can take in state `pre` without stopping with an
/// error: the port list's selection must be in the list when Enter picks
/// from it, and a main-view command must be safe (see `main_command_safe`).
pub open spec fn key_safe(pre: AppState, key: Key) -> bool {
    match pre.active_popup {
        Some(p) => p == PopupKind::PortSelect && port_list_command(key) is Choose
            && pre.available_ports@.len() > 0 ==> pre.port_select_index
            < pre.available_ports@.len(),
        None => pre.search_active || main_command_safe(pre, main_command(key, pre.input@.len() == 0)),
    }
}

impl AppState {
    /// Handles a key press (see `key_done`); `out.quit` says whether to
    /// quit, and `out.actions` lists the work to do outside, in order.
    pub fn handle_key_event(&mut self, key: Key) -> (out: KeyOutcome)
        requires
            old(self).wf(),
            key_safe(*old(self), key),
        ensures
            final(self).wf(),
            key_done(*old(self), key, *final(self), out),
    {
        match self.active_popup {
            Some(p) => self.handle_popup_key(p, key),
            None => if self.search_active {
                self.handle_search_key(key)
            } else {
                let cmd = classify_main(key, self.input.as_str().is_empty());
                self.run_main_command(cmd)
            },
        }
    }

    /// Handles a key in the search bar (see `search_done`).
    fn handle_search_key(&mut self, key: Key) -> (out: KeyOutcome)
        requires
            old(self).wf(),
            old(self).search_active,
        ensures
            final(self).wf(),
            search_done(*old(self), search_command(key), *final(self), out),
    {
        match classify_search(key) {
            SearchCommand::Cancel => self.cancel_search(),
            SearchCommand::NextMatch => self.step_match(true),
            SearchCommand::PrevMatch => self.step_match(false),
            SearchCommand::ToggleFilter => self.toggle_filter(),
            SearchCommand::Erase => {
                let mut q = chars_of(self.search_query.as_str());
                if q.len() > 0 {
                    q.pop();
                }
                assert(q@ =~= erased(old(self).search_query@));
                let text = string_from_chars(&q);
                self.set_search_query(text);
            },
            SearchCommand::Extend(c) => {
                let mut q = chars_of(self.search_query.as_str());
                q.push(c);
                let text = string_from_chars(&q);
                self.set_search_query(text);
            },
            SearchCommand::Ignore => {},
        }
        KeyOutcome { quit: false, actions: Vec::new() }
    }

    /// Closes the search bar and forgets the search.
    fn cancel_search(&mut self)
        requires
            old(self).wf(),
        ensures
            final(self).wf(),
            search_cancelled(*old(self), *final(self)),
    {
        proof {
            reveal(search_cancelled);
        }
        self.search_active = false;
        self.search_query = String::new();
        self.search_state = SearchState::default();
    }

    /// Selects the next or previous match and scrolls to its line.
    fn step_match(&mut self, forward: bool)
        requires
            old(self).wf(),
        ensures
            final(self).wf(),
            stepped_to_match(*old(self), forward, *final(self)),
    {
        proof {
            reveal(stepped_to_match);
        }
        let mut ss = SearchState::default();
        std::mem::swap(&mut ss, &mut self.search_state);
        if forward {
            ss.next_match();
        } else {
            ss.prev_match();
        }
        let target = ss.current_line_index();
        let (offset, locked) = match target {
            Some(i) => (i, true),
            None => (self.scroll_offset, self.scroll_locked),
        };
        self.search_state = ss;
        self.scroll_offset = offset;
        self.scroll_locked = locked;
    }

    /// Switches filtering.
    fn toggle_filter(&mut self)
        requires
            old(self).wf(),
        ensures
            final(self).wf(),
            filter_toggled(*old(self), *final(self)),
    {
        proof {
            reveal(filter_toggled);
        }
        self.filter_mode = !self.filter_mode;
    }

    /// Makes `q` the query and finds its matches in the log.
    fn set_search_query(&mut self, q: String)
        requires
            old(self).wf(),
            old(self).search_active,
        ensures
            final(self).wf(),
            query_changed(*old(self), q@, *final(self)),
    {
        proof {
            reveal(query_changed);
        }
        self.search_state.set_query(q.as_str());
        self.search_query = q;
        self.update_search();
    }

    /// Handles a key in popup `p` (see `popup_done`).
    fn handle_popup_key(&mut self, p: PopupKind, key: Key) -> (out: KeyOutcome)
        requires
            old(self).wf(),
            old(self).active_popup == Some(p),
            key_safe(*old(self), key),
        ensures
            final(self).wf(),
            popup_done(*old(self), p, key, *final(self), out),
    {
        match p {
            PopupKind::Help => {
                self.close_popup();
                KeyOutcome { quit: false, actions: Vec::new() }
            },
            PopupKind::PortSelect => self.handle_port_list_key(key),
            PopupKind::Settings => self.handle_settings_list_key(key),
            PopupKind::Macros => self.handle_macro_list_key(key),
        }
    }

    /// Closes the popup.
    fn close_popup(&mut self)
        requires
            old(self).wf(),
        ensures
            final(self).wf(),
            popup_closed(*old(self), *final(self)),
    {
        proof {
            reveal(popup_closed);
        }
        self.active_popup = None;
    }

    /// Handles a key in the port list (see `port_list_done`).
    fn handle_port_list_key(&mut self, key: Key) -> (out: KeyOutcome)
        requires
            old(self).wf(),
            port_list_command(key) is Choose && old(self).available_ports@.len() > 0
                ==> old(self).port_select_index < old(self).available_ports@.len(),
        ensures
            final(self).wf(),
            port_list_done(*old(self), key, *final(self), out),
    {
        match classify_port_list(key) {
            ListCommand::Close => {
                self.close_popup();
                KeyOutcome { quit: false, actions: Vec::new() }
            },
            ListCommand::Up => {
                self.move_port_selection(true);
                KeyOutcome { quit: false, actions: Vec::new() }
            },
            ListCommand::Down => {
                self.move_port_selection(false);
                KeyOutcome { quit: false, actions: Vec::new() }
            },
            ListCommand::Rescan => {
                self.port_select_index = 0;
                let mut actions: Vec<Action> = Vec::new();
                actions.push(Action::ScanPorts);
                assert(actions@ =~= seq![Action::ScanPorts]);
                KeyOutcome { quit: false, actions }
            },
            ListCommand::Choose => self.choose_port(),
            _ => KeyOutcome { quit: false, actions: Vec::new() },
        }
    }

    /// Moves the port list's selection.
    fn move_port_selection(&mut self, up: bool)
        requires
            old(self).wf(),
        ensures
            final(self).wf(),
            port_selection_moved(*old(self), up, *final(self)),
    {
        proof {
            reveal(port_selection_moved);
        }
        let i = self.port_select_index;
        let n = self.available_ports.len();
        self.port_select_index = if up {
            if i > 0 {
                i - 1
            } else {
                i
            }
        } else if n > 0 && i < n - 1 {
            i + 1
        } else {
            i
        };
    }

    /// Connects to the selected port (see `port_chosen`).
    fn choose_port(&mut self) -> (out: KeyOutcome)
        requires
            old(self).wf(),
            old(self).available_ports@.len() > 0 ==> old(self).port_select_index
                < old(self).available_ports@.len(),
        ensures
            final(self).wf(),
            port_chosen(*old(self), *final(self), out),
    {
        proof {
            reveal(port_chosen);
        }
        if self.available_ports.len() == 0 {
            return KeyOutcome { quit: false, actions: Vec::new() };
        }
        let port = self.available_ports[self.port_select_index].clone();
        self.port_path = Some(port);
        self.active_popup = None;
        self.connect_port()
    }

    /// Handles a key in the settings list (see `settings_list_done`).
    fn handle_settings_list_key(&mut self, key: Key) -> (out: KeyOutcome)
        requires
            old(self).wf(),
        ensures
            final(self).wf(),
            settings_list_done(*old(self), key, *final(self), out),
    {
        match classify_settings_list(key) {
            ListCommand::Close => {
                self.close_popup();
                KeyOutcome { quit: false, actions: Vec::new() }
            },
            ListCommand::Up => {
                self.move_setting_selection(true);
                KeyOutcome { quit: false, actions: Vec::new() }
            },
            ListCommand::Down => {
                self.move_setting_selection(false);
                KeyOutcome { quit: false, actions: Vec::new() }
            },
            ListCommand::Choose => self.change_setting(false),
            ListCommand::Back => self.change_setting(true),
            _ => KeyOutcome { quit: false, actions: Vec::new() },
        }
    }

    /// Changes the selected setting, keeping the invariants.
    fn change_setting(&mut self, reverse: bool) -> (out: KeyOutcome)
        requires
            old(self).wf(),
        ensures
            final(self).wf(),
            setting_changed(*old(self), reverse, *final(self), out),
    {
        self.cycle_settings_field(reverse)
    }

    /// Moves the settings list's selection.
    fn move_setting_selection(&mut self, up: bool)
        requires
            old(self).wf(),
        ensures
            final(self).wf(),
            setting_selection_moved(*old(self), up, *final(self)),
    {
        proof {
            reveal(setting_selection_moved);
        }
        let i = self.settings_field_index;
        self.settings_field_index = if up {
            if i > 0 {
                i - 1
            } else {
                i
            }
        } else if i < 13 {
            i + 1
        } else {
            i
        };
    }

    /// Handles a key in the macro list (see `macro_list_done`).
    fn handle_macro_list_key(&mut self, key: Key) -> (out: KeyOutcome)
        requires
            old(self).wf(),
        ensures
            final(self).wf(),
            macro_list_done(*old(self), key, *final(self), out),
    {
        match classify_macro_list(key) {
            ListCommand::Close => {
                self.close_popup();
                KeyOutcome { quit: false, actions: Vec::new() }
            },
            ListCommand::Up => {
                self.move_macro_selection(true);
                KeyOutcome { quit: false, actions: Vec::new() }
            },
            ListCommand::Down => {
                self.move_macro_selection(false);
                KeyOutcome { quit: false, actions: Vec::new() }
            },
            ListCommand::Choose => self.choose_macro(),
            _ => KeyOutcome { quit: false, actions: Vec::new() },
        }
    }

    /// Moves the macro list's selection.
    fn move_macro_selection(&mut self, up: bool)
        requires
            old(self).wf(),
        ensures
            final(self).wf(),
            macro_selection_moved(*old(self), up, *final(self)),
    {
        proof {
            reveal(macro_selection_moved);
        }
        let i = self.macro_select_index;
        let n = self.macros.len();
        self.macro_select_index = if up {
            if i > 0 {
                i - 1
            } else {
                i
            }
        } else if n > 0 && i < n - 1 {
            i + 1
        } else {
            i
        };
    }

    /// Runs the selected macro (see `macro_chosen`).
    fn choose_macro(&mut self) -> (out: KeyOutcome)
        requires
            old(self).wf(),
        ensures
            final(self).wf(),
            macro_chosen(*old(self), *final(self), out),
    {
        proof {
            reveal(macro_chosen);
        }
        if self.macros.len() == 0 {
            return KeyOutcome { quit: false, actions: Vec::new() };
        }
        let idx = self.macro_select_index;
        self.active_popup = None;
        self.execute_macro(idx)
    }

    /// Whether the console can take `key` now (see `key_safe`): a key for
    /// which this is false would stop it with an error.
    pub fn key_is_safe(&self, key: Key) -> (b: bool)
        ensures
            b == key_safe(*self, key),
    {
        match self.active_popup {
            Some(p) => {
                if p == PopupKind::PortSelect && classify_port_list(key) == ListCommand::Choose
                    && self.available_ports.len() > 0 {
                    self.port_select_index < self.available_ports.len()
                } else {
                    true
                }
            },
            None => {
                if self.search_active {
                    true
                } else {
                    let cmd = classify_main(key, self.input.as_str().is_empty());
                    self.command_is_safe(cmd)
                }
            },
        }
    }

    /// Whether main-view command `cmd` can run now (see `main_command_safe`).
    pub fn command_is_safe(&self, cmd: MainCommand) -> (b: bool)
        ensures
            b == main_command_safe(*self, cmd),
    {
        let s = self.input.as_str();
        let len = s.as_bytes().len();
        let c = self.cursor_pos;
        match cmd {
            MainCommand::ScrollDown(n) => self.scroll_offset <= usize::MAX - n,
            MainCommand::Backspace => c == 0 || (s.is_char_boundary(c - 1) && c - 1 < len),
            MainCommand::Delete => c >= len || s.is_char_boundary(c),
            MainCommand::Type(_) => if self.raw_mode_input {
                !self.local_echo || self.stats.tx_bytes < u64::MAX
            } else {
                s.is_char_boundary(c) && c < usize::MAX
            },
            MainCommand::Send => {
                if s.is_empty() {
                    true
                } else {
                    match expand_escapes_checked(s) {
                        None => false,
                        Some(v) => {
                            let suffix = self.tx_newline.suffix();
                            assert(line_to_send(*self).len() == v@.len() + suffix@.len());
                            let vl = v.len() as u64;
                            let sl = suffix.len() as u64;
                            if !self.local_echo {
                                true
                            } else if vl > u64::MAX - sl {
                                false
                            } else {
                                self.stats.tx_bytes <= u64::MAX - (vl + sl)
                            }
                        },
                    }
                }
            },
            _ => true,
        }
    }
}

} // verus!

verus! {

/// Only Ctrl+C and Ctrl+Q in the main view (no popup open, no search being
/// typed) make the console quit.
pub proof fn law_only_quit_keys_quit(pre: AppState, key: Key, post: AppState, out: KeyOutcome)
    requires
        key_done(pre, key, post, out),
    ensures
        out.quit <==> (pre.active_popup is None && !pre.search_active && key.ctrl && (key.code
            == crate::keys::KeyCode::Char('c') || key.code == crate::keys::KeyCode::Char('q'))),
{
    reveal(crate::commands::logging_toggled);
    reveal(crate::commands::log_cleared_by_user);
    reveal(crate::commands::port_dropped);
    reveal(crate::commands::input_sent);
    reveal(crate::commands::typed);
    reveal(crate::commands::setting_changed);
    reveal(crate::commands::line_setting_changed);
    reveal(crate::commands::macro_started);
    reveal(crate::commands::connect_requested);
    reveal(port_chosen);
    reveal(macro_chosen);
}

} // verus!

verus! {

/// What the popup lists select from, and where their selections stand.
pub open spec fn selection_key(s: AppState) -> (Seq<String>, usize, usize, nat, usize) {
    (
        s.available_ports@,
        s.port_select_index,
        s.settings_field_index,
        s.macros@.len(),
        s.macro_select_index,
    )
}

/// Every popup list's selection lies within its list.
pub open spec fn selections_in_bounds(s: AppState) -> bool {
    &&& (s.available_ports@.len() == 0 || s.port_select_index < s.available_ports@.len())
    &&& s.settings_field_index <= 13
    &&& (s.macros@.len() == 0 || s.macro_select_index < s.macros@.len())
}

proof fn lemma_announced_keeps_selection(pre: AppState, post: AppState, msg: Seq<char>, e: bool)
    requires
        crate::control::announced(pre, post, msg, e),
    ensures
        selection_key(post) == selection_key(pre),
{
    let logged = choose|logged: AppState|
        #![trigger crate::app::message_logged(pre, logged, msg)]
        crate::app::message_logged(pre, logged, msg) && crate::control::status_set(logged, post, msg, e);
    let l = choose|l: crate::app::LogLine|
        #![trigger crate::app::log_appended(pre, logged, l)]
        l.direction == crate::app::Direction::System && l.text@ == msg && l.raw@
            == vstd::utf8::encode_utf8(msg) && l.wf() && crate::app::log_appended(pre, logged, l);
}

proof fn lemma_setting_keeps_selection(pre: AppState, r: bool, post: AppState, out: KeyOutcome)
    requires
        setting_changed(pre, r, post, out),
    ensures
        selection_key(post) == selection_key(pre),
        !out.quit,
{
    reveal(setting_changed);
    reveal(crate::commands::stepped_setting);
    reveal(crate::commands::line_setting_changed);
}

proof fn lemma_choice_keeps_selection(pre: AppState, post: AppState, out: KeyOutcome)
    requires
        pre.active_popup == Some(PopupKind::PortSelect) ==> port_chosen(pre, post, out),
        pre.active_popup == Some(PopupKind::Macros) ==> macro_chosen(pre, post, out),
        pre.active_popup == Some(PopupKind::PortSelect) || pre.active_popup == Some(PopupKind::Macros),
    ensures
        selection_key(post) == selection_key(pre),
        !out.quit,
{
    reveal(port_chosen);
    reveal(macro_chosen);
    reveal(connect_requested);
    reveal(macro_started);
    if pre.active_popup == Some(PopupKind::Macros) && pre.macros@.len() > 0 {
        let mid = AppState { active_popup: None, ..pre };
        let idx = pre.macro_select_index;
        if idx < mid.macros@.len() && mid.tx_open {
            lemma_announced_keeps_selection(
                mid,
                post,
                "Macro '"@ + mid.macros@[idx as int].name@ + "' started."@,
                false,
            );
        }
    }
}

/// While a popup is open, every key (`handle_key_event`) keeps each list's
/// selection within its list: Up stops at the top, Down at the last entry
/// (the last of the 14 settings), a rescan starts again from the top, and
/// choosing changes no list.  No key in a popup quits.
pub proof fn law_popup_keeps_selections(pre: AppState, p: PopupKind, key: Key, post: AppState, out: KeyOutcome)
    requires
        pre.active_popup == Some(p),
        selections_in_bounds(pre),
        key_done(pre, key, post, out),
    ensures
        selections_in_bounds(post),
        !out.quit,
{
    assert(popup_done(pre, p, key, post, out));
    match p {
        PopupKind::PortSelect => {
            assert(port_list_done(pre, key, post, out));
            lemma_port_list_keeps(pre, key, post, out);
        },
        PopupKind::Settings => {
            assert(settings_list_done(pre, key, post, out));
            lemma_settings_list_keeps(pre, key, post, out);
        },
        PopupKind::Macros => {
            assert(macro_list_done(pre, key, post, out));
            lemma_macro_list_keeps(pre, key, post, out);
        },
        PopupKind::Help => {
            reveal(popup_closed);
        },
    }
}

proof fn lemma_port_list_keeps(pre: AppState, key: Key, post: AppState, out: KeyOutcome)
    requires
        pre.active_popup == Some(PopupKind::PortSelect),
        selections_in_bounds(pre),
        port_list_done(pre, key, post, out),
    ensures
        selections_in_bounds(post),
        !out.quit,
{
    let c = port_list_command(key);
    if c is Choose {
        lemma_choice_keeps_selection(pre, post, out);
    } else if c is Close {
        reveal(popup_closed);
    } else if c is Up || c is Down {
        reveal(port_selection_moved);
    }
}

proof fn lemma_settings_list_keeps(pre: AppState, key: Key, post: AppState, out: KeyOutcome)
    requires
        selections_in_bounds(pre),
        settings_list_done(pre, key, post, out),
    ensures
        selections_in_bounds(post),
        !out.quit,
{
    let c = settings_list_command(key);
    if c is Choose || c is Back {
        lemma_setting_keeps_selection(pre, c is Back, post, out);
    } else if c is Close {
        reveal(popup_closed);
    } else if c is Up || c is Down {
        reveal(setting_selection_moved);
    }
}

proof fn lemma_macro_list_keeps(pre: AppState, key: Key, post: AppState, out: KeyOutcome)
    requires
        pre.active_popup == Some(PopupKind::Macros),
        selections_in_bounds(pre),
        macro_list_done(pre, key, post, out),
    ensures
        selections_in_bounds(post),
        !out.quit,
{
    let c = macro_list_command(key);
    if c is Choose {
        lemma_choice_keeps_selection(pre, post, out);
    } else if c is Close {
        reveal(popup_closed);
    } else if c is Up || c is Down {
        reveal(macro_selection_moved);
    }
}

/// Stepping through search results: while a search is typed and match `i`
/// of the `n` matches is selected, Enter and `n` select match `i + 1`,
/// wrapping from the last to the first, and `N` selects match `i - 1`,
/// wrapping from the first to the last; the log scrolls to the selected
/// match's line and stays there, and the matches themselves are kept.
pub proof fn law_search_keys_step_through_matches(
    pre: AppState,
    key: Key,
    post: AppState,
    out: KeyOutcome,
    i: usize,
)
    requires
        pre.active_popup is None,
        pre.search_active,
        key_done(pre, key, post, out),
        pre.search_state.current_match == Some(i),
        i < pre.search_state.matches@.len(),
    ensures
        key.code == KeyCode::Enter || (key.code == KeyCode::Char('n') && !key.ctrl) ==> {
            let j = (i + 1) % (pre.search_state.matches@.len() as int);
            &&& post.search_state.current_match == Some(j as usize)
            &&& post.scroll_offset == pre.search_state.matches@[j]
            &&& post.scroll_locked
            &&& post.search_state.matches == pre.search_state.matches
        },
        key.code == KeyCode::Char('N') ==> {
            let j = if i == 0 {
                pre.search_state.matches@.len() - 1
            } else {
                i - 1
            };
            &&& post.search_state.current_match == Some(j as usize)
            &&& post.scroll_offset == pre.search_state.matches@[j]
            &&& post.scroll_locked
            &&& post.search_state.matches == pre.search_state.matches
        },
        !out.quit,
{
    let n = pre.search_state.matches@.len() as int;
    assert(pre.search_state.matches.len() == n);
    assert(search_done(pre, search_command(key), post, out));
    if key.code == KeyCode::Enter || (key.code == KeyCode::Char('n') && !key.ctrl) {
        assert(search_command(key) == SearchCommand::NextMatch);
        let j = (i + 1) % n;
        assert(0 <= j < n);
        assert(SearchState::next_position(pre.search_state.current_match, n as nat) == Some(j as usize));
        let ss = SearchState { current_match: Some(j as usize), ..pre.search_state };
        assert(selected_line(ss) == Some(pre.search_state.matches@[j]));
        assert(post == (AppState { search_state: ss, scroll_offset: pre.search_state.matches@[j], scroll_locked: true, ..pre })) by {
            reveal(stepped_to_match);
        }
    }
    if key.code == KeyCode::Char('N') {
        assert(search_command(key) == SearchCommand::PrevMatch);
        let j = if i == 0 { n - 1 } else { i - 1 };
        assert(0 <= j < n);
        assert(SearchState::prev_position(pre.search_state.current_match, n as nat) == Some(j as usize));
        let ss = SearchState { current_match: Some(j as usize), ..pre.search_state };
        assert(selected_line(ss) == Some(pre.search_state.matches@[j]));
        assert(post == (AppState { search_state: ss, scroll_offset: pre.search_state.matches@[j], scroll_locked: true, ..pre })) by {
            reveal(stepped_to_match);
        }
    }
}

} // verus!
