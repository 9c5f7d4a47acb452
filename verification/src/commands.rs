//! What the commands of the main view do to the console's state, and the
//! work they hand to the program around the library.
use vstd::prelude::*;
use vstd::utf8::{encode_utf8, is_char_boundary};
use crate::app::{
    AppState,
    Direction,
    LogLine,
    disconnected,
    log_cleared,
    message_logged,
    sent_logged,
};
use crate::clock::{clock_text, is_clock_text};
use crate::control::{Action, KeyOutcome, announced, status_set};
use crate::input::history::HistoryView;
use crate::keys::MainCommand;
use crate::macros::{escape_expansion, expand_escapes};
use crate::serial::{ControlSignals, SerialConfig, TxCommand};
use crate::text::{
    lowered,
    concat3,
    push_str,
    str_equals,
    string_from_chars,
    string_insert,
    string_remove,
    to_lowercase,
};

verus! {

broadcast use vstd::string::group_string_axioms;

/// Nothing to do outside, and no quitting.
pub open spec fn no_work(out: KeyOutcome) -> bool {
    !out.quit && out.actions@.len() == 0
}

/// Exactly the one action `a`, and no quitting.
pub open spec fn just(out: KeyOutcome, a: Action) -> bool {
    !out.quit && out.actions@ == seq![a]
}

/// `a` asks the writer to send `data`.
pub open spec fn is_send(a: Action, data: Seq<u8>) -> bool {
    a matches Action::Transmit(TxCommand::Send(v)) && v@ == data
}

/// `a` asks for `data` to be written to the log file as sent bytes.
pub open spec fn is_log_tx(a: Action, data: Seq<u8>) -> bool {
    a matches Action::LogTx(v) && v@ == data
}

/// The bytes of `s`, as the input line holds them.
pub open spec fn bytes(s: Seq<char>) -> Seq<u8> {
    encode_utf8(s)
}

/// `after` is `before` without the character `ch` whose encoding starts at
/// byte `at`.
pub open spec fn char_removed(before: Seq<char>, at: int, ch: char, after: Seq<char>) -> bool {
    let b = bytes(before);
    let k = bytes(seq![ch]).len();
    &&& 0 <= at
    &&& at + k <= b.len()
    &&& b.subrange(at, at + k) == bytes(seq![ch])
    &&& bytes(after) == b.take(at) + b.skip(at + k)
}

/// `post` is `pre` after the history moved to `h` and showed `shown`: the
/// text shown replaces the input line and the cursor goes to its end; when
/// nothing is shown the input line stays.
#[verifier::opaque]
pub open spec fn history_recalled(pre: AppState, post: AppState, h: HistoryView, shown: Option<
    Seq<char>,
>) -> bool {
    &&& post.send_history@ == h
    &&& match shown {
        Some(e) => {
            &&& post.input@ == e
            &&& post == (AppState {
                send_history: post.send_history,
                input: post.input,
                cursor_pos: bytes(e).len() as usize,
                ..pre
            })
        },
        None => post == (AppState { send_history: post.send_history, ..pre }),
    }
}

/// The byte sent for a key typed in raw mode: the low byte of the
/// character's code.
pub open spec fn raw_byte(c: char) -> u8 {
    ((c as u32) % 256) as u8
}

/// What sending the input line puts on the wire: its escapes expanded, then
/// the line ending for sending.
pub open spec fn line_to_send(pre: AppState) -> Seq<u8> {
    escape_expansion(bytes(pre.input@))->Some_0 + pre.tx_newline.spec_suffix()
}

/// `post` and `out` are what sending the input line of `pre` gives: nothing
/// when the line is empty; otherwise the bytes of `line_to_send` go to the
/// writer if its channel is open (else the status bar says the port is not
/// connected), they are echoed into the log (and the log file, when logging)
/// if local echo is on, the line joins the history, and the input line is
/// emptied.
#[verifier::opaque]
pub open spec fn input_sent(pre: AppState, post: AppState, out: KeyOutcome) -> bool {
    if pre.input@.len() == 0 {
        post == pre && no_work(out)
    } else {
        let data = line_to_send(pre);
        let first = if pre.tx_open {
            1int
        } else {
            0int
        };
        &&& !out.quit
        &&& out.actions@.len() == first + (if pre.local_echo && pre.logging {
            1int
        } else {
            0int
        })
        &&& pre.tx_open ==> is_send(out.actions@[0], data)
        &&& pre.local_echo && pre.logging ==> is_log_tx(out.actions@[first], data)
        &&& if pre.tx_open {
            post.status_message == pre.status_message && post.status_is_error == pre.status_is_error
        } else {
            post.status_message@ == "Not connected. Press F2 to select port."@ && post.status_is_error
        }
        &&& {
            let told = AppState {
                status_message: post.status_message,
                status_is_error: post.status_is_error,
                ..pre
            };
            let echoed = AppState {
                send_history: pre.send_history,
                input: pre.input,
                cursor_pos: pre.cursor_pos,
                ..post
            };
            &&& post.cursor_pos == 0
            &&& if pre.local_echo {
                sent_logged(told, echoed, data)
            } else {
                echoed == told
            }
        }
        &&& post.send_history@ == pre.send_history@.after_push(pre.input@)
        &&& post.input@.len() == 0
    }
}

/// `post` and `out` are what typing `c` in `pre` gives: in raw mode its low
/// byte goes straight to the writer (when its channel is open) and is echoed
/// into the log if local echo is on; otherwise `c` is inserted in the input
/// line at the cursor, which moves on by one.
#[verifier::opaque]
pub open spec fn typed(pre: AppState, c: char, post: AppState, out: KeyOutcome) -> bool {
    if pre.raw_mode_input {
        let data = seq![raw_byte(c)];
        &&& !out.quit
        &&& out.actions@.len() == (if pre.tx_open {
            1int
        } else {
            0int
        })
        &&& pre.tx_open ==> is_send(out.actions@[0], data)
        &&& if pre.local_echo {
            sent_logged(pre, post, data)
        } else {
            post == pre
        }
    } else {
        let b = bytes(pre.input@);
        &&& no_work(out)
        &&& bytes(post.input@) == b.take(pre.cursor_pos as int) + bytes(seq![c]) + b.skip(
            pre.cursor_pos as int,
        )
        &&& post == (AppState { input: post.input, cursor_pos: (pre.cursor_pos + 1) as usize, ..pre })
    }
}



/// The mark for a direction in copied text.
pub open spec fn dir_mark(d: Direction) -> char {
    match d {
        Direction::Rx => '>',
        Direction::Tx => '<',
        Direction::System => '*',
    }
}

/// One log line as copied to the clipboard: `[clock] mark text` and a line
/// feed, `ts` being the clock reading of its timestamp.
pub open spec fn clipboard_line(ts: Seq<char>, l: LogLine) -> Seq<char> {
    seq!['['] + ts + seq![']', ' ', dir_mark(l.direction), ' '] + l.text@ + seq!['\n']
}

/// The log lines as copied to the clipboard, `stamps` holding the clock
/// reading of each line's timestamp.
pub open spec fn clipboard_text(lines: Seq<LogLine>, stamps: Seq<Seq<char>>) -> Seq<char>
    decreases lines.len(),
{
    if lines.len() == 0 {
        Seq::empty()
    } else {
        clipboard_text(lines.drop_last(), stamps.drop_last()) + clipboard_line(
            stamps.last(),
            lines.last(),
        )
    }
}

/// `t` is the clipboard text of `lines`, with some clock reading for each.
#[verifier::opaque]
pub open spec fn is_clipboard_text_of(lines: Seq<LogLine>, t: Seq<char>) -> bool {
    exists|stamps: Seq<Seq<char>>|
        #![trigger clipboard_text(lines, stamps)]
        stamps.len() == lines.len() && (forall|i: int|
            0 <= i < stamps.len() ==> is_clock_text(#[trigger] stamps[i])) && t == clipboard_text(
            lines,
            stamps,
        )
}

/// `post` and `out` are what F5 does: stop logging (closing the file) when
/// logging, else ask for a new log file.
#[verifier::opaque]
pub open spec fn logging_toggled(pre: AppState, post: AppState, out: KeyOutcome) -> bool {
    if pre.logging {
        status_set(AppState { logging: false, ..pre }, post, "Logging stopped."@, false) && just(
            out,
            Action::StopLogFile,
        )
    } else {
        post == pre && just(out, Action::StartLogFile)
    }
}

/// The note for the log file that the log was cleared, when logging.
pub open spec fn cleared_note(pre: AppState) -> Seq<Action> {
    if pre.logging {
        seq![Action::LogCleared]
    } else {
        Seq::empty()
    }
}

/// `post` and `out` are what Ctrl+L does: the log is emptied (noted in the
/// log file when logging) and a console message says so.
#[verifier::opaque]
pub open spec fn log_cleared_by_user(pre: AppState, post: AppState, out: KeyOutcome) -> bool {
    &&& !out.quit
    &&& out.actions@ == cleared_note(pre)
    &&& exists|mid: AppState|
        #![trigger message_logged(mid, post, "[Log cleared]"@)]
        log_cleared(pre, mid) && message_logged(mid, post, "[Log cleared]"@)
}

/// `post` and `out` are what Ctrl+X does: the port is marked closed (the
/// writer asked to close if its channel was open), the log emptied (noted in
/// the log file when logging), and no port is selected any more.
#[verifier::opaque]
pub open spec fn port_dropped(pre: AppState, post: AppState, out: KeyOutcome) -> bool {
    &&& !out.quit
    &&& out.actions@ == (if pre.tx_open {
        seq![Action::CloseWriter]
    } else {
        Seq::empty()
    }) + cleared_note(pre)
    &&& exists|gone: AppState, emptied: AppState|
        #![trigger disconnected(pre, gone), log_cleared(gone, emptied)]
        disconnected(pre, gone) && log_cleared(gone, emptied) && post == (AppState {
            port_path: None,
            ..emptied
        })
}


/// The baud rates the settings list steps through.
#[verifier::opaque]
pub open spec fn baud_rates() -> Seq<u32> {
    seq![300u32, 1200, 2400, 4800, 9600, 19200, 38400, 57600, 115200, 230400, 460800, 921600]
}

/// Where a baud rate stands in `baud_rates`; a rate not in the list counts
/// as 115200.
pub open spec fn baud_position(b: u32) -> int {
    if b == 300 {
        0
    } else if b == 1200 {
        1
    } else if b == 2400 {
        2
    } else if b == 4800 {
        3
    } else if b == 9600 {
        4
    } else if b == 19200 {
        5
    } else if b == 38400 {
        6
    } else if b == 57600 {
        7
    } else if b == 230400 {
        9
    } else if b == 460800 {
        10
    } else if b == 921600 {
        11
    } else {
        8
    }
}

/// The data-bit counts the settings list steps through.
#[verifier::opaque]
pub open spec fn data_bit_counts() -> Seq<u8> {
    seq![5u8, 6, 7, 8]
}

/// Where a data-bit count stands in `data_bit_counts`; another count counts
/// as 8.
pub open spec fn data_bits_position(d: u8) -> int {
    if d == 5 {
        0
    } else if d == 6 {
        1
    } else if d == 7 {
        2
    } else {
        3
    }
}

/// The parity words the settings list steps through.
#[verifier::opaque]
pub open spec fn parity_words() -> Seq<Seq<char>> {
    seq!["none"@, "odd"@, "even"@]
}

/// Where a lowercased parity word stands in `parity_words`; another word
/// counts as "none".
pub open spec fn parity_position(w: Seq<char>) -> int {
    if w == "odd"@ {
        1
    } else if w == "even"@ {
        2
    } else {
        0
    }
}

/// The flow-control words the settings list steps through.
#[verifier::opaque]
pub open spec fn flow_words() -> Seq<Seq<char>> {
    seq!["none"@, "hardware"@, "software"@]
}

/// Where a lowercased flow-control word stands in `flow_words`; another word
/// counts as "none".
pub open spec fn flow_position(w: Seq<char>) -> int {
    if w == "hardware"@ {
        1
    } else if w == "software"@ {
        2
    } else {
        0
    }
}

/// One step through a list of `len` choices from position `pos`, forwards
/// or backwards, wrapping around at both ends.
pub open spec fn step_position(pos: int, len: int, reverse: bool) -> int {
    if reverse {
        if pos == 0 {
            len - 1
        } else {
            pos - 1
        }
    } else {
        (pos + 1) % len
    }
}

/// The state after changing a setting that is simply stepped or switched
/// (see `setting_changed`): baud rate, data bits, stop bits, the line ending
/// for sending, local echo, timestamps; any other row is left alone.
#[verifier::opaque]
pub open spec fn stepped_setting(pre: AppState, reverse: bool) -> AppState {
    let cfg = pre.serial_config;
    let f = pre.settings_field_index;
    AppState {
        serial_config: SerialConfig {
            baud_rate: if f == 0 {
                baud_rates()[step_position(baud_position(cfg.baud_rate), 12, reverse)]
            } else {
                cfg.baud_rate
            },
            data_bits: if f == 1 {
                data_bit_counts()[step_position(data_bits_position(cfg.data_bits), 4, reverse)]
            } else {
                cfg.data_bits
            },
            stop_bits: if f == 3 {
                if cfg.stop_bits == 1 {
                    2
                } else {
                    1
                }
            } else {
                cfg.stop_bits
            },
            ..cfg
        },
        tx_newline: if f == 8 {
            pre.tx_newline.spec_next_send()
        } else {
            pre.tx_newline
        },
        local_echo: if f == 11 {
            !pre.local_echo
        } else {
            pre.local_echo
        },
        show_timestamp: if f == 13 {
            !pre.show_timestamp
        } else {
            pre.show_timestamp
        },
        ..pre
    }
}

/// `post` is `pre` after the parity (row 2) or flow control (row 4) stepped
/// through its list of words, from the position of its lowercased word.
pub open spec fn word_setting_changed(pre: AppState, reverse: bool, post: AppState) -> bool {
    let cfg = pre.serial_config;
    if pre.settings_field_index == 2 {
        &&& post.serial_config.parity@ == parity_words()[step_position(
            parity_position(lowered(cfg.parity@)),
            3,
            reverse,
        )]
        &&& post == (AppState {
            serial_config: SerialConfig { parity: post.serial_config.parity, ..cfg },
            ..pre
        })
    } else {
        &&& post.serial_config.flow_control@ == flow_words()[step_position(
            flow_position(lowered(cfg.flow_control@)),
            3,
            reverse,
        )]
        &&& post == (AppState {
            serial_config: SerialConfig { flow_control: post.serial_config.flow_control, ..cfg },
            ..pre
        })
    }
}

/// `post` and `out` are what switching DTR (row 5) or RTS (row 6) gives:
/// the setting and the line switch, and the port is told when its writer
/// is open.
#[verifier::opaque]
pub open spec fn line_setting_changed(pre: AppState, post: AppState, out: KeyOutcome) -> bool {
    let cfg = pre.serial_config;
    let dtr = pre.settings_field_index == 5;
    let on = if dtr {
        !cfg.dtr
    } else {
        !cfg.rts
    };
    let cmd = if dtr {
        TxCommand::SetDtr(on)
    } else {
        TxCommand::SetRts(on)
    };
    &&& !out.quit
    &&& out.actions@ == (if pre.tx_open {
        seq![Action::Transmit(cmd)]
    } else {
        Seq::empty()
    })
    &&& post == if dtr {
        AppState {
            serial_config: SerialConfig { dtr: on, ..cfg },
            signals: ControlSignals { dtr: on, ..pre.signals },
            ..pre
        }
    } else {
        AppState {
            serial_config: SerialConfig { rts: on, ..cfg },
            signals: ControlSignals { rts: on, ..pre.signals },
            ..pre
        }
    }
}

/// `post` and `out` are what changing the selected setting of `pre` gives
/// (forwards, or backwards when `reverse`): baud rate, data bits, parity and
/// flow control step through their lists; stop bits switch between 1 and 2;
/// DTR and RTS switch (and are set on the port when its writer is open);
/// the line ending for sending steps on; local echo and timestamps switch.
/// The other rows (timeout, line ending for receiving, view mode, buffer
/// size) do not change here.
#[verifier::opaque]
pub open spec fn setting_changed(pre: AppState, reverse: bool, post: AppState, out: KeyOutcome) -> bool {
    let f = pre.settings_field_index;
    if f == 5 || f == 6 {
        line_setting_changed(pre, post, out)
    } else if f == 2 || f == 4 {
        no_work(out) && word_setting_changed(pre, reverse, post)
    } else {
        no_work(out) && post == stepped_setting(pre, reverse)
    }
}

/// `post` and `out` are what running macro number `idx` gives: nothing for
/// a number past the list; when the writer's channel is closed, the status
/// bar says so; otherwise the macro's steps are handed out to be sent, and a
/// console message says it started.
#[verifier::opaque]
pub open spec fn macro_started(pre: AppState, idx: usize, post: AppState, out: KeyOutcome) -> bool {
    if idx >= pre.macros@.len() {
        post == pre && no_work(out)
    } else if !pre.tx_open {
        status_set(pre, post, "Not connected."@, true) && no_work(out)
    } else {
        just(out, Action::RunMacro(idx)) && announced(
            pre,
            post,
            "Macro '"@ + pre.macros@[idx as int].name@ + "' started."@,
            false,
        )
    }
}

/// `post` and `out` are what asking to connect gives: with no port chosen
/// the status bar says so; otherwise the writer's channel, if open, is asked
/// to close and dropped, and the chosen port is to be opened.
#[verifier::opaque]
pub open spec fn connect_requested(pre: AppState, post: AppState, out: KeyOutcome) -> bool {
    match pre.port_path {
        None => status_set(pre, post, "No port selected."@, true) && no_work(out),
        Some(p) => {
            &&& post == (AppState { tx_open: false, ..pre })
            &&& !out.quit
            &&& out.actions@.len() == (if pre.tx_open {
                2int
            } else {
                1int
            })
            &&& pre.tx_open ==> out.actions@[0] == Action::CloseWriter
            &&& out.actions@.last() matches Action::OpenPort(q) && q@ == p@
        },
    }
}

/// `post` is `pre` after Backspace: the character before the cursor is
/// removed and the cursor moves back onto its first byte.  (The cursor counts
/// bytes and moves one byte per key, as typing advances it.)
#[verifier::opaque]
pub open spec fn backspaced(pre: AppState, post: AppState) -> bool {
    if pre.cursor_pos == 0 {
        post == pre
    } else {
        &&& exists|ch: char|
            #![trigger char_removed(pre.input@, pre.cursor_pos - 1, ch, post.input@)]
            char_removed(pre.input@, pre.cursor_pos - 1, ch, post.input@)
        &&& post == (AppState { input: post.input, cursor_pos: (pre.cursor_pos - 1) as usize, ..pre })
    }
}

/// `post` is `pre` after Delete: the character at the cursor, if any, is
/// removed.
#[verifier::opaque]
pub open spec fn deleted(pre: AppState, post: AppState) -> bool {
    if pre.cursor_pos >= bytes(pre.input@).len() {
        post == pre
    } else {
        &&& exists|ch: char|
            #![trigger char_removed(pre.input@, pre.cursor_pos as int, ch, post.input@)]
            char_removed(pre.input@, pre.cursor_pos as int, ch, post.input@)
        &&& post == (AppState { input: post.input, ..pre })
    }
}

/// `post` keeps the parts of `pre` that carry invariants: the log, the
/// history, the search and the counters.
pub open spec fn keeps_invariant_parts(pre: AppState, post: AppState) -> bool {
    &&& post.log_lines == pre.log_lines
    &&& post.send_history == pre.send_history
    &&& post.search_state == pre.search_state
    &&& post.stats == pre.stats
}

/// The inputs on which a main-view command can run: the ones on which the
/// console does not stop with an error (a cursor that is not between two
/// characters, an escape that would split a character, a counter that would
/// overflow).
pub open spec fn main_command_safe(pre: AppState, cmd: MainCommand) -> bool {
    let b = bytes(pre.input@);
    let c = pre.cursor_pos as int;
    match cmd {
        MainCommand::ScrollDown(n) => pre.scroll_offset + n <= usize::MAX,
        MainCommand::Backspace => c > 0 ==> is_char_boundary(b, c - 1) && c - 1 < b.len(),
        MainCommand::Delete => c < b.len() ==> is_char_boundary(b, c),
        MainCommand::Type(ch) => if pre.raw_mode_input {
            pre.local_echo ==> pre.stats.tx_bytes + 1 <= u64::MAX
        } else {
            is_char_boundary(b, c) && c + 1 <= usize::MAX
        },
        MainCommand::Send => pre.input@.len() > 0 ==> {
            &&& escape_expansion(b) is Some
            &&& pre.local_echo ==> pre.stats.tx_bytes + line_to_send(pre).len() <= u64::MAX
        },
        _ => true,
    }
}


/// The baud rate at position `k` of `baud_rates`.
fn baud_rate_at(k: usize) -> (b: u32)
    requires
        k < 12,
    ensures
        b == baud_rates()[k as int],
{
    proof {
        reveal(baud_rates);
    }
    match k {
        0 => 300,
        1 => 1200,
        2 => 2400,
        3 => 4800,
        4 => 9600,
        5 => 19200,
        6 => 38400,
        7 => 57600,
        8 => 115200,
        9 => 230400,
        10 => 460800,
        _ => 921600,
    }
}

/// Where `b` stands in `baud_rates` (see `baud_position`).
fn find_baud(b: u32) -> (k: usize)
    ensures
        k == baud_position(b),
{
    if b == 300 {
        0
    } else if b == 1200 {
        1
    } else if b == 2400 {
        2
    } else if b == 4800 {
        3
    } else if b == 9600 {
        4
    } else if b == 19200 {
        5
    } else if b == 38400 {
        6
    } else if b == 57600 {
        7
    } else if b == 230400 {
        9
    } else if b == 460800 {
        10
    } else if b == 921600 {
        11
    } else {
        8
    }
}

/// The data-bit count one step on from `d` (see `data_bits_position`).
fn next_data_bits(d: u8, reverse: bool) -> (n: u8)
    ensures
        n == data_bit_counts()[step_position(data_bits_position(d), 4, reverse)],
{
    proof {
        reveal(data_bit_counts);
    }
    let pos: usize = if d == 5 {
        0
    } else if d == 6 {
        1
    } else if d == 7 {
        2
    } else {
        3
    };
    let k = step(pos, 4, reverse);
    if k == 0 {
        5
    } else if k == 1 {
        6
    } else if k == 2 {
        7
    } else {
        8
    }
}

/// One step from `pos` through `len` choices (see `step_position`).
fn step(pos: usize, len: usize, reverse: bool) -> (k: usize)
    requires
        pos < len,
    ensures
        k == step_position(pos as int, len as int, reverse),
        k < len,
{
    if reverse {
        if pos == 0 {
            len - 1
        } else {
            pos - 1
        }
    } else {
        (pos + 1) % len
    }
}

/// The parity word one step on from `p` (see `parity_position`).
fn next_parity_word(p: &str, reverse: bool) -> (w: String)
    ensures
        w@ == parity_words()[step_position(parity_position(lowered(p@)), 3, reverse)],
{
    proof {
        reveal(parity_words);
    }
    let lower = to_lowercase(p);
    assert(lower@ == lowered(p@));
    let pos: usize = if str_equals(lower.as_str(), "odd") {
        1
    } else if str_equals(lower.as_str(), "even") {
        2
    } else {
        0
    };
    let k = step(pos, 3, reverse);
    word_at(k, "none", "odd", "even")
}

/// The flow-control word one step on from `f` (see `flow_position`).
fn next_flow_word(f: &str, reverse: bool) -> (w: String)
    ensures
        w@ == flow_words()[step_position(flow_position(lowered(f@)), 3, reverse)],
{
    proof {
        reveal(flow_words);
    }
    let lower = to_lowercase(f);
    assert(lower@ == lowered(f@));
    let pos: usize = if str_equals(lower.as_str(), "hardware") {
        1
    } else if str_equals(lower.as_str(), "software") {
        2
    } else {
        0
    };
    let k = step(pos, 3, reverse);
    word_at(k, "none", "hardware", "software")
}

/// The word at position `k` of a three-word list.
fn word_at(k: usize, w0: &str, w1: &str, w2: &str) -> (s: String)
    requires
        k < 3,
    ensures
        s@ == seq![w0@, w1@, w2@][k as int],
{
    if k == 0 {
        w0.to_owned()
    } else if k == 1 {
        w1.to_owned()
    } else {
        w2.to_owned()
    }
}

/// The clipboard text of the log (see `clipboard_text`).
pub fn clipboard_text_of(lines: &Vec<LogLine>) -> (t: String)
    requires
        forall|i: int| 0 <= i < lines@.len() ==> #[trigger] lines@[i].wf(),
    ensures
        is_clipboard_text_of(lines@, t@),
{
    proof {
        reveal(is_clipboard_text_of);
    }
    let mut v: Vec<char> = Vec::new();
    let ghost mut stamps: Seq<Seq<char>> = Seq::empty();
    let mut i: usize = 0;
    while i < lines.len()
        invariant
            i <= lines@.len(),
            forall|j: int| 0 <= j < lines@.len() ==> #[trigger] lines@[j].wf(),
            stamps.len() == i,
            forall|j: int| 0 <= j < stamps.len() ==> is_clock_text(#[trigger] stamps[j]),
            v@ == clipboard_text(lines@.take(i as int), stamps),
        decreases lines.len() - i,
    {
        let l = &lines[i];
        assert(lines@[i as int].wf());
        let ts = clock_text(l.timestamp);
        let ghost before = v@;
        v.push('[');
        push_str(&mut v, ts.as_str());
        v.push(']');
        v.push(' ');
        let mark = match l.direction {
            Direction::Rx => '>',
            Direction::Tx => '<',
            Direction::System => '*',
        };
        v.push(mark);
        v.push(' ');
        push_str(&mut v, l.text.as_str());
        v.push('\n');
        proof {
            let ghost old_stamps = stamps;
            stamps = stamps.push(ts@);
            assert(lines@.take(i + 1).drop_last() =~= lines@.take(i as int));
            assert(stamps.drop_last() =~= old_stamps);
            assert(v@ =~= before + clipboard_line(ts@, lines@[i as int]));
        }
        i += 1;
    }
    assert(lines@.take(lines@.len() as int) =~= lines@);
    string_from_chars(&v)
}

impl AppState {
    /// Sends the input line (see `input_sent`).
    pub fn send_input(&mut self) -> (out: KeyOutcome)
        requires
            old(self).wf(),
            main_command_safe(*old(self), MainCommand::Send),
        ensures
            final(self).wf(),
            input_sent(*old(self), *final(self), out),
    {
        proof {
            reveal(input_sent);
        }
        if self.input.as_str().is_empty() {
            return KeyOutcome { quit: false, actions: Vec::new() };
        }
        let ghost pre = *self;
        let raw_input = self.input.clone();
        let mut data = expand_escapes(raw_input.as_str());
        let suffix = self.tx_newline.suffix();
        let mut i: usize = 0;
        let ghost expanded = data@;
        while i < suffix.len()
            invariant
                i <= suffix@.len(),
                data@ == expanded + suffix@.take(i as int),
            decreases suffix.len() - i,
        {
            data.push(suffix[i]);
            i += 1;
            proof {
                assert(data@ =~= expanded + suffix@.take(i as int));
            }
        }
        assert(suffix@.take(suffix@.len() as int) =~= suffix@);
        assert(data@ == line_to_send(pre));
        let mut actions: Vec<Action> = Vec::new();
        if self.tx_open {
            actions.push(Action::Transmit(TxCommand::Send(data.clone())));
        } else {
            self.set_status("Not connected. Press F2 to select port.".to_owned(), true);
        }
        let ghost told = *self;
        if self.local_echo {
            if self.logging {
                actions.push(Action::LogTx(data.clone()));
            }
            let line = LogLine::new_tx(data);
            let ghost l = line;
            self.add_log_line(line);
            assert(sent_logged(told, *self, line_to_send(pre))) by {
                assert(crate::app::log_appended(told, *self, l));
            }
        }
        let ghost echoed = *self;
        self.send_history.push(raw_input);
        self.input = String::new();
        self.cursor_pos = 0;
        assert(sent_logged(told, echoed, line_to_send(pre)) || !pre.local_echo);
        KeyOutcome { quit: false, actions }
    }


    /// F5: stops logging, or asks for a log file (see `logging_toggled`).
    pub fn toggle_logging(&mut self) -> (out: KeyOutcome)
        requires
            old(self).wf(),
        ensures
            final(self).wf(),
            logging_toggled(*old(self), *final(self), out),
    {
        proof {
            reveal(logging_toggled);
        }
        let mut actions: Vec<Action> = Vec::new();
        if self.logging {
            self.logging = false;
            actions.push(Action::StopLogFile);
            self.set_status("Logging stopped.".to_owned(), false);
        } else {
            actions.push(Action::StartLogFile);
        }
        assert(actions@ == seq![Action::StopLogFile] || actions@ == seq![Action::StartLogFile]);
        KeyOutcome { quit: false, actions }
    }

    /// Ctrl+L: empties the log and says so (see `log_cleared_by_user`).
    pub fn clear_log_by_user(&mut self) -> (out: KeyOutcome)
        requires
            old(self).wf(),
        ensures
            final(self).wf(),
            log_cleared_by_user(*old(self), *final(self), out),
    {
        proof {
            reveal(log_cleared_by_user);
        }
        let mut actions: Vec<Action> = Vec::new();
        if self.logging {
            actions.push(Action::LogCleared);
        }
        assert(actions@ =~= cleared_note(*old(self)));
        self.clear_log();
        let ghost mid = *self;
        let line = LogLine::new_system("[Log cleared]".to_owned());
        let ghost l = line;
        self.add_log_line(line);
        assert(message_logged(mid, *self, "[Log cleared]"@)) by {
            assert(crate::app::log_appended(mid, *self, l));
        }
        KeyOutcome { quit: false, actions }
    }

    /// Ctrl+X: drops the port (see `port_dropped`).
    pub fn drop_port(&mut self) -> (out: KeyOutcome)
        requires
            old(self).wf(),
        ensures
            final(self).wf(),
            port_dropped(*old(self), *final(self), out),
    {
        proof {
            reveal(port_dropped);
        }
        let mut actions: Vec<Action> = Vec::new();
        let close = self.disconnect();
        if close {
            actions.push(Action::CloseWriter);
        }
        let ghost gone = *self;
        if self.logging {
            actions.push(Action::LogCleared);
        }
        assert(actions@ =~= (if old(self).tx_open {
            seq![Action::CloseWriter]
        } else {
            Seq::empty()
        }) + cleared_note(*old(self)));
        self.clear_log();
        let ghost emptied = *self;
        self.port_path = None;
        assert(disconnected(*old(self), gone) && log_cleared(gone, emptied));
        KeyOutcome { quit: false, actions }
    }


    /// Runs macro number `idx` (see `macro_started`).
    pub fn execute_macro(&mut self, idx: usize) -> (out: KeyOutcome)
        requires
            old(self).wf(),
        ensures
            final(self).wf(),
            macro_started(*old(self), idx, *final(self), out),
    {
        proof {
            reveal(macro_started);
        }
        if idx >= self.macros.len() {
            return KeyOutcome { quit: false, actions: Vec::new() };
        }
        if !self.tx_open {
            self.set_status("Not connected.".to_owned(), true);
            return KeyOutcome { quit: false, actions: Vec::new() };
        }
        let msg = concat3("Macro '", self.macros[idx].name.as_str(), "' started.");
        self.announce(msg, false);
        let mut actions: Vec<Action> = Vec::new();
        actions.push(Action::RunMacro(idx));
        assert(actions@ =~= seq![Action::RunMacro(idx)]);
        KeyOutcome { quit: false, actions }
    }

    /// Asks to connect to the chosen port (see `connect_requested`).
    pub fn connect_port(&mut self) -> (out: KeyOutcome)
        ensures
            keeps_invariant_parts(*old(self), *final(self)),
            connect_requested(*old(self), *final(self), out),
    {
        proof {
            reveal(connect_requested);
        }
        let path = match &self.port_path {
            Some(p) => p.clone(),
            None => {
                self.set_status("No port selected.".to_owned(), true);
                return KeyOutcome { quit: false, actions: Vec::new() };
            },
        };
        let mut actions: Vec<Action> = Vec::new();
        if self.tx_open {
            actions.push(Action::CloseWriter);
            self.tx_open = false;
        }
        actions.push(Action::OpenPort(path));
        KeyOutcome { quit: false, actions }
    }

    /// Changes the selected setting (see `setting_changed`).
    pub fn cycle_settings_field(&mut self, reverse: bool) -> (out: KeyOutcome)
        ensures
            keeps_invariant_parts(*old(self), *final(self)),
            setting_changed(*old(self), reverse, *final(self), out),
    {
        proof {
            reveal(setting_changed);
        }
        let f = self.settings_field_index;
        if f == 5 || f == 6 {
            self.switch_line_setting()
        } else if f == 2 || f == 4 {
            self.step_word_setting(reverse);
            KeyOutcome { quit: false, actions: Vec::new() }
        } else {
            self.step_setting(reverse);
            KeyOutcome { quit: false, actions: Vec::new() }
        }
    }

    /// Steps or switches a simple setting (see `stepped_setting`).
    fn step_setting(&mut self, reverse: bool)
        ensures
            keeps_invariant_parts(*old(self), *final(self)),
            *final(self) == stepped_setting(*old(self), reverse),
    {
        let f = self.settings_field_index;
        if f == 0 {
            self.step_baud(reverse);
        } else if f == 1 {
            self.step_data_bits(reverse);
        } else if f == 3 {
            self.switch_stop_bits(reverse);
        } else if f == 8 || f == 11 || f == 13 {
            self.switch_display_setting(reverse);
        } else {
            proof {
                reveal(stepped_setting);
            }
        }
    }

    /// Row 0: steps the baud rate.
    fn step_baud(&mut self, reverse: bool)
        requires
            old(self).settings_field_index == 0,
        ensures
            keeps_invariant_parts(*old(self), *final(self)),
            *final(self) == stepped_setting(*old(self), reverse),
    {
        proof {
            reveal(stepped_setting);
        }
        self.serial_config.baud_rate = baud_rate_at(step(find_baud(self.serial_config.baud_rate), 12, reverse));
    }

    /// Row 1: steps the data bits.
    fn step_data_bits(&mut self, reverse: bool)
        requires
            old(self).settings_field_index == 1,
        ensures
            keeps_invariant_parts(*old(self), *final(self)),
            *final(self) == stepped_setting(*old(self), reverse),
    {
        proof {
            reveal(stepped_setting);
        }
        self.serial_config.data_bits = next_data_bits(self.serial_config.data_bits, reverse);
    }

    /// Row 3: switches between one and two stop bits.
    fn switch_stop_bits(&mut self, reverse: bool)
        requires
            old(self).settings_field_index == 3,
        ensures
            keeps_invariant_parts(*old(self), *final(self)),
            *final(self) == stepped_setting(*old(self), reverse),
    {
        proof {
            reveal(stepped_setting);
        }
        self.serial_config.stop_bits = if self.serial_config.stop_bits == 1 {
            2
        } else {
            1
        };
    }

    /// Rows 8, 11 and 13: the line ending for sending, local echo and
    /// timestamps.
    fn switch_display_setting(&mut self, reverse: bool)
        requires
            old(self).settings_field_index == 8 || old(self).settings_field_index == 11
                || old(self).settings_field_index == 13,
        ensures
            keeps_invariant_parts(*old(self), *final(self)),
            *final(self) == stepped_setting(*old(self), reverse),
    {
        proof {
            reveal(stepped_setting);
        }
        let f = self.settings_field_index;
        let nl = if f == 8 {
            self.tx_newline.next_send()
        } else {
            self.tx_newline
        };
        let echo = if f == 11 {
            !self.local_echo
        } else {
            self.local_echo
        };
        let stamps = if f == 13 {
            !self.show_timestamp
        } else {
            self.show_timestamp
        };
        self.tx_newline = nl;
        self.local_echo = echo;
        self.show_timestamp = stamps;
    }

    /// Steps the parity or the flow control (see `word_setting_changed`).
    fn step_word_setting(&mut self, reverse: bool)
        requires
            old(self).settings_field_index == 2 || old(self).settings_field_index == 4,
        ensures
            keeps_invariant_parts(*old(self), *final(self)),
            word_setting_changed(*old(self), reverse, *final(self)),
    {
        if self.settings_field_index == 2 {
            let w = next_parity_word(self.serial_config.parity.as_str(), reverse);
            self.serial_config.parity = w;
        } else {
            let w = next_flow_word(self.serial_config.flow_control.as_str(), reverse);
            self.serial_config.flow_control = w;
        }
    }

    /// Switches DTR or RTS (see `line_setting_changed`).
    fn switch_line_setting(&mut self) -> (out: KeyOutcome)
        requires
            old(self).settings_field_index == 5 || old(self).settings_field_index == 6,
        ensures
            keeps_invariant_parts(*old(self), *final(self)),
            line_setting_changed(*old(self), *final(self), out),
    {
        proof {
            reveal(line_setting_changed);
        }
        let cmd = if self.settings_field_index == 5 {
            TxCommand::SetDtr(self.switch_dtr())
        } else {
            TxCommand::SetRts(self.switch_rts())
        };
        let mut actions: Vec<Action> = Vec::new();
        if self.tx_open {
            actions.push(Action::Transmit(cmd));
        }
        KeyOutcome { quit: false, actions }
    }

    /// Switches the DTR setting and line; returns the new value.
    fn switch_dtr(&mut self) -> (on: bool)
        ensures
            keeps_invariant_parts(*old(self), *final(self)),
            on == !old(self).serial_config.dtr,
            *final(self) == (AppState {
                serial_config: SerialConfig { dtr: on, ..old(self).serial_config },
                signals: ControlSignals { dtr: on, ..old(self).signals },
                ..*old(self)
            }),
    {
        let on = !self.serial_config.dtr;
        self.serial_config.dtr = on;
        self.signals.dtr = on;
        on
    }

    /// Switches the RTS setting and line; returns the new value.
    fn switch_rts(&mut self) -> (on: bool)
        ensures
            keeps_invariant_parts(*old(self), *final(self)),
            on == !old(self).serial_config.rts,
            *final(self) == (AppState {
                serial_config: SerialConfig { rts: on, ..old(self).serial_config },
                signals: ControlSignals { rts: on, ..old(self).signals },
                ..*old(self)
            }),
    {
        let on = !self.serial_config.rts;
        self.serial_config.rts = on;
        self.signals.rts = on;
        on
    }

    /// Types `c` (see `typed`).
    pub fn type_char(&mut self, c: char) -> (out: KeyOutcome)
        requires
            old(self).wf(),
            main_command_safe(*old(self), MainCommand::Type(c)),
        ensures
            final(self).wf(),
            typed(*old(self), c, *final(self), out),
    {
        proof {
            reveal(typed);
        }
        if self.raw_mode_input {
            let b: u8 = ((c as u32) % 256) as u8;
            let mut data: Vec<u8> = Vec::new();
            data.push(b);
            let mut actions: Vec<Action> = Vec::new();
            if self.tx_open {
                actions.push(Action::Transmit(TxCommand::Send(data.clone())));
            }
            if self.local_echo {
                let ghost pre = *self;
                let line = LogLine::new_tx(data);
                let ghost l = line;
                self.add_log_line(line);
                assert(sent_logged(pre, *self, seq![raw_byte(c)])) by {
                    assert(crate::app::log_appended(pre, *self, l));
                }
            }
            KeyOutcome { quit: false, actions }
        } else {
            let at = self.cursor_pos;
            string_insert(&mut self.input, at, c);
            self.cursor_pos = at + 1;
            KeyOutcome { quit: false, actions: Vec::new() }
        }
    }

    /// Removes the character before the cursor (see `backspaced`).
    pub fn erase_before_cursor(&mut self)
        requires
            old(self).wf(),
            main_command_safe(*old(self), MainCommand::Backspace),
        ensures
            final(self).wf(),
            backspaced(*old(self), *final(self)),
    {
        proof {
            reveal(backspaced);
        }
        if self.cursor_pos > 0 {
            let at = self.cursor_pos - 1;
            self.cursor_pos = at;
            let ch = string_remove(&mut self.input, at);
            assert(char_removed(old(self).input@, at as int, ch, self.input@));
        }
    }

    /// Removes the character at the cursor (see `deleted`).
    pub fn erase_at_cursor(&mut self)
        requires
            old(self).wf(),
            main_command_safe(*old(self), MainCommand::Delete),
        ensures
            final(self).wf(),
            deleted(*old(self), *final(self)),
    {
        proof {
            reveal(deleted);
        }
        if self.cursor_pos < self.input.as_str().as_bytes().len() {
            let at = self.cursor_pos;
            let ch = string_remove(&mut self.input, at);
            assert(char_removed(old(self).input@, old(self).cursor_pos as int, ch, self.input@));
            assert(*self == (AppState { input: self.input, ..*old(self) }));
            assert(old(self).cursor_pos < bytes(old(self).input@).len());
        } else {
            assert(old(self).cursor_pos >= bytes(old(self).input@).len());
        }
    }

    /// Recalls an older sent line into the input line.
    pub fn recall_older(&mut self)
        requires
            old(self).wf(),
        ensures
            final(self).wf(),
            history_recalled(
                *old(self),
                *final(self),
                old(self).send_history@.after_up(old(self).input@),
                old(self).send_history@.up_result(old(self).input@),
            ),
    {
        proof {
            reveal(history_recalled);
        }
        let current = self.input.clone();
        let shown = match self.send_history.navigate_up(current.as_str()) {
            Some(e) => Some(e.to_owned()),
            None => None,
        };
        if let Some(e) = shown {
            self.cursor_pos = e.as_str().len();
            self.input = e;
        }
    }

    /// Recalls a newer sent line (or, past the newest, what was typed) into
    /// the input line.
    pub fn recall_newer(&mut self)
        requires
            old(self).wf(),
        ensures
            final(self).wf(),
            history_recalled(
                *old(self),
                *final(self),
                old(self).send_history@.after_down(),
                old(self).send_history@.down_result(),
            ),
    {
        proof {
            reveal(history_recalled);
        }
        let shown = match self.send_history.navigate_down() {
            Some(e) => Some(e.to_owned()),
            None => None,
        };
        if let Some(e) = shown {
            self.cursor_pos = e.as_str().len();
            self.input = e;
        }
    }
}

} // verus!

verus! {

/// Stepping back through a list undoes stepping forward, and stepping
/// forward undoes stepping back.
pub proof fn law_step_back_undoes_step(pos: int, len: int)
    requires
        0 <= pos < len,
    ensures
        step_position(step_position(pos, len, false), len, true) == pos,
        step_position(step_position(pos, len, true), len, false) == pos,
{
    if pos + 1 == len {
        assert((pos + 1) % len == 0) by (nonlinear_arith)
            requires
                pos + 1 == len,
                len > 0,
        ;
    } else {
        assert((pos + 1) % len == pos + 1) by (nonlinear_arith)
            requires
                0 <= pos + 1 < len,
        ;
    }
    if pos == 0 {
        assert((len - 1 + 1) % len == 0) by (nonlinear_arith)
            requires
                len > 0,
        ;
    } else {
        assert((pos - 1 + 1) % len == pos) by (nonlinear_arith)
            requires
                0 < pos < len,
        ;
    }
}

} // verus!

verus! {

/// A baud rate at a position in the list is found at that position.
proof fn lemma_baud_position(k: int)
    requires
        0 <= k < 12,
    ensures
        baud_position(baud_rates()[k]) == k,
{
    reveal(baud_rates);
}

/// A listed baud rate is the one at its position.
proof fn lemma_listed_baud(b: u32)
    requires
        baud_rates().contains(b),
    ensures
        0 <= baud_position(b) < 12,
        baud_rates()[baud_position(b)] == b,
{
    reveal(baud_rates);
    let i = choose|i: int| 0 <= i < baud_rates().len() && baud_rates()[i] == b;
    lemma_baud_position(i);
}

} // verus!

verus! {

/// A sent line is what the first step back through the history shows,
/// whatever is typed meanwhile.
pub proof fn law_sent_line_recalled(pre: AppState, post: AppState, out: KeyOutcome, typed: Seq<char>)
    requires
        pre.wf(),
        pre.send_history@.max_size > 0,
        pre.input@.len() > 0,
        input_sent(pre, post, out),
    ensures
        post.send_history@.up_result(typed) == Some(pre.input@),
{
    reveal(input_sent);
    crate::input::history::law_up_after_push_shows_sent(pre.send_history@, pre.input@, typed);
}

/// After Ctrl+L the log holds only the note that it was cleared (when it
/// may hold any line at all).
pub proof fn law_clear_leaves_note(pre: AppState, post: AppState, out: KeyOutcome)
    requires
        pre.scroll_buffer_size > 0,
        log_cleared_by_user(pre, post, out),
    ensures
        post.log_lines@.len() == 1,
        post.log_lines@[0].text@ == "[Log cleared]"@,
        post.log_lines@[0].direction == crate::app::Direction::System,
{
    reveal(log_cleared_by_user);
    let mid = choose|mid: AppState|
        #![trigger message_logged(mid, post, "[Log cleared]"@)]
        log_cleared(pre, mid) && message_logged(mid, post, "[Log cleared]"@);
    let l = choose|l: LogLine|
        #![trigger crate::app::log_appended(mid, post, l)]
        l.direction == Direction::System && l.text@ == "[Log cleared]"@ && l.raw@
            == vstd::utf8::encode_utf8("[Log cleared]"@) && l.wf() && crate::app::log_appended(mid, post, l);
    assert(mid.log_lines@.push(l) =~= seq![l]);
}

} // verus!

verus! {

/// A parity word of the list is its own lowercase form and stands at its
/// place in the list.
proof fn lemma_parity_words()
    ensures
        lowered("none"@) == "none"@ && parity_position("none"@) == 0,
        lowered("odd"@) == "odd"@ && parity_position("odd"@) == 1,
        lowered("even"@) == "even"@ && parity_position("even"@) == 2,
        parity_words() == seq!["none"@, "odd"@, "even"@],
{
    reveal(parity_words);
    reveal_strlit("none");
    reveal_strlit("odd");
    reveal_strlit("even");
    assert(vstd::utf8::is_ascii_chars("none"@));
    assert(vstd::utf8::is_ascii_chars("odd"@));
    assert(vstd::utf8::is_ascii_chars("even"@));
    assert("none"@ != "odd"@ && "none"@ != "even"@ && "odd"@ != "even"@) by {
        assert("none"@.len() != "odd"@.len());
        assert("none"@[0] != "even"@[0]);
        assert("odd"@.len() != "even"@.len());
    }
    assert("none"@.map_values(|c: char| crate::text::ascii_lower_char(c)) =~= "none"@);
    assert("odd"@.map_values(|c: char| crate::text::ascii_lower_char(c)) =~= "odd"@);
    assert("even"@.map_values(|c: char| crate::text::ascii_lower_char(c)) =~= "even"@);
}

/// A flow-control word of the list is its own lowercase form and stands at
/// its place in the list.
proof fn lemma_flow_words()
    ensures
        lowered("none"@) == "none"@ && flow_position("none"@) == 0,
        lowered("hardware"@) == "hardware"@ && flow_position("hardware"@) == 1,
        lowered("software"@) == "software"@ && flow_position("software"@) == 2,
        flow_words() == seq!["none"@, "hardware"@, "software"@],
{
    reveal(flow_words);
    reveal_strlit("none");
    reveal_strlit("hardware");
    reveal_strlit("software");
    assert(vstd::utf8::is_ascii_chars("none"@));
    assert(vstd::utf8::is_ascii_chars("hardware"@));
    assert(vstd::utf8::is_ascii_chars("software"@));
    assert("none"@ != "hardware"@ && "none"@ != "software"@ && "hardware"@ != "software"@) by {
        assert("none"@.len() != "hardware"@.len());
        assert("none"@.len() != "software"@.len());
        assert("hardware"@[0] != "software"@[0]);
    }
    assert("none"@.map_values(|c: char| crate::text::ascii_lower_char(c)) =~= "none"@);
    assert("hardware"@.map_values(|c: char| crate::text::ascii_lower_char(c)) =~= "hardware"@);
    assert("software"@.map_values(|c: char| crate::text::ascii_lower_char(c)) =~= "software"@);
}

/// The settings a setting change may touch, and the selected row.
pub open spec fn settings_key(s: AppState) -> (
    u32,
    u8,
    u8,
    Seq<char>,
    Seq<char>,
    bool,
    bool,
    u64,
    ControlSignals,
    crate::app::NewlineMode,
    bool,
    bool,
    usize,
) {
    let c = s.serial_config;
    (
        c.baud_rate,
        c.data_bits,
        c.stop_bits,
        c.parity@,
        c.flow_control@,
        c.dtr,
        c.rts,
        c.timeout_ms,
        s.signals,
        s.tx_newline,
        s.local_echo,
        s.show_timestamp,
        s.settings_field_index,
    )
}

/// The settings a setting change may touch are as in `pre`.
pub open spec fn same_settings(pre: AppState, post: AppState) -> bool {
    settings_key(post) == settings_key(pre)
}

/// The settings rows whose change can be undone by changing them back: a
/// listed baud rate, data bits 5 to 8, a listed parity or flow-control word,
/// stop bits 1 or 2, DTR and RTS when the line shows the setting, local echo
/// and timestamps.  (The line ending for sending only steps forwards.)
pub open spec fn reversible_setting(pre: AppState) -> bool {
    let f = pre.settings_field_index;
    let c = pre.serial_config;
    ||| f == 0 && baud_rates().contains(c.baud_rate)
    ||| f == 1 && 5 <= c.data_bits <= 8
    ||| f == 2 && (c.parity@ == "none"@ || c.parity@ == "odd"@ || c.parity@ == "even"@)
    ||| f == 3 && (c.stop_bits == 1 || c.stop_bits == 2)
    ||| f == 4 && (c.flow_control@ == "none"@ || c.flow_control@ == "hardware"@
        || c.flow_control@ == "software"@)
    ||| f == 5 && pre.signals.dtr == c.dtr
    ||| f == 6 && pre.signals.rts == c.rts
    ||| f == 11
    ||| f == 13
}

/// Changing a reversible setting forwards and then backwards, or backwards
/// and then forwards, gives back the settings it started from.
pub proof fn law_setting_change_undone(
    pre: AppState,
    reverse: bool,
    mid: AppState,
    o1: KeyOutcome,
    post: AppState,
    o2: KeyOutcome,
)
    requires
        reversible_setting(pre),
        setting_changed(pre, reverse, mid, o1),
        setting_changed(mid, !reverse, post, o2),
    ensures
        same_settings(pre, post),
{
    let f = pre.settings_field_index;
    lemma_setting_keeps_row(pre, reverse, mid, o1);
    if f == 2 || f == 4 {
        assert(word_setting_changed(pre, reverse, mid)) by {
            reveal(setting_changed);
        }
        assert(word_setting_changed(mid, !reverse, post)) by {
            reveal(setting_changed);
        }
        lemma_word_change_undone(pre, reverse, mid, post);
    } else if f == 5 || f == 6 {
        assert(line_setting_changed(pre, mid, o1)) by {
            reveal(setting_changed);
        }
        assert(line_setting_changed(mid, post, o2)) by {
            reveal(setting_changed);
        }
        lemma_line_change_undone(pre, mid, o1, post, o2);
    } else {
        assert(mid == stepped_setting(pre, reverse)) by {
            reveal(setting_changed);
        }
        assert(post == stepped_setting(mid, !reverse)) by {
            reveal(setting_changed);
        }
        lemma_step_undone(pre, reverse, mid, post);
    }
}

/// What switching DTR or RTS does to the settings.
proof fn lemma_line_setting_state(pre: AppState, post: AppState, out: KeyOutcome)
    requires
        line_setting_changed(pre, post, out),
    ensures
        ({
            let k = settings_key(pre);
            let c = pre.serial_config;
            settings_key(post) == if pre.settings_field_index == 5 {
                (k.0, k.1, k.2, k.3, k.4, !c.dtr, k.6, k.7, ControlSignals { dtr: !c.dtr, ..pre.signals }, k.9, k.10, k.11, k.12)
            } else {
                (k.0, k.1, k.2, k.3, k.4, k.5, !c.rts, k.7, ControlSignals { rts: !c.rts, ..pre.signals }, k.9, k.10, k.11, k.12)
            }
        }),
{
    reveal(line_setting_changed);
}

proof fn lemma_line_change_undone(pre: AppState, mid: AppState, o1: KeyOutcome, post: AppState, o2: KeyOutcome)
    requires
        pre.settings_field_index == 5 ==> pre.signals.dtr == pre.serial_config.dtr,
        pre.settings_field_index == 6 ==> pre.signals.rts == pre.serial_config.rts,
        pre.settings_field_index == 5 || pre.settings_field_index == 6,
        line_setting_changed(pre, mid, o1),
        line_setting_changed(mid, post, o2),
    ensures
        same_settings(pre, post),
{
    lemma_line_setting_state(pre, mid, o1);
    lemma_line_setting_state(mid, post, o2);
}

/// Changing a setting keeps the selected row.
proof fn lemma_setting_keeps_row(pre: AppState, reverse: bool, post: AppState, out: KeyOutcome)
    requires
        setting_changed(pre, reverse, post, out),
    ensures
        post.settings_field_index == pre.settings_field_index,
{
    reveal(setting_changed);
    reveal(stepped_setting);
    reveal(line_setting_changed);
}

proof fn lemma_word_change_undone(pre: AppState, reverse: bool, mid: AppState, post: AppState)
    requires
        pre.settings_field_index == 2 || pre.settings_field_index == 4,
        reversible_setting(pre),
        word_setting_changed(pre, reverse, mid),
        word_setting_changed(mid, !reverse, post),
    ensures
        same_settings(pre, post),
{
    if pre.settings_field_index == 2 {
        lemma_parity_words();
        let p = parity_position(pre.serial_config.parity@);
        law_step_back_undoes_step(p, 3);
        lemma_step_in_range(p, 3, reverse);
    } else {
        lemma_flow_words();
        let p = flow_position(pre.serial_config.flow_control@);
        law_step_back_undoes_step(p, 3);
        lemma_step_in_range(p, 3, reverse);
    }
}

proof fn lemma_step_in_range(p: int, len: int, reverse: bool)
    requires
        0 <= p < len,
    ensures
        0 <= step_position(p, len, reverse) < len,
{
    if !reverse {
        assert(0 <= (p + 1) % len < len) by (nonlinear_arith)
            requires
                len > 0,
        ;
    }
}

proof fn lemma_step_undone(pre: AppState, reverse: bool, mid: AppState, post: AppState)
    requires
        reversible_setting(pre),
        !(pre.settings_field_index == 2 || pre.settings_field_index == 4
            || pre.settings_field_index == 5 || pre.settings_field_index == 6),
        mid == stepped_setting(pre, reverse),
        post == stepped_setting(mid, !reverse),
    ensures
        same_settings(pre, post),
{
    reveal(stepped_setting);
    let f = pre.settings_field_index;
    let c = pre.serial_config;
    if f == 0 {
        let p = baud_position(c.baud_rate);
        lemma_listed_baud(c.baud_rate);
        law_step_back_undoes_step(p, 12);
        let k = step_position(p, 12, reverse);
        lemma_step_in_range(p, 12, reverse);
        lemma_baud_position(k);
    } else if f == 1 {
        reveal(data_bit_counts);
        let p = data_bits_position(c.data_bits);
        law_step_back_undoes_step(p, 4);
    }
}

} // verus!
