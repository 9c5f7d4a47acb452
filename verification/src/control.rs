//! The console's reactions to bytes and events from the port and to the
//! outcome of the work done outside the library (opening the port or the log
//! file, the clipboard).
//!
//! Work that touches the outside world is not done here: a reaction returns
//! the `Action`s to perform, in order, and the program reports back through
//! `port_opened`, `port_open_failed`, `port_clone_failed`, `logging_started`,
//! `logging_failed`, `clipboard_done` and `AppState::set_available_ports`.
use vstd::prelude::*;
use crate::app::{AppState, Direction, LogLine, log_appended, message_logged, rx_text};
use crate::app::Stats;
use crate::framing::{lines_of, rx_lines, split_rx_data};
use crate::clock::{now_millis, representable_millis};
use crate::serial::{ControlSignals, SerialEvent, TxCommand};
use crate::text::{concat, debug_form, debug_quoted, decimal, push_decimal, push_str, string_from_chars};

verus! {

/// Work for the program around the library, which owns the port, the log
/// file, the clipboard and the task that plays macros.
#[derive(Debug)]
pub enum Action {
    /// List the serial ports and hand them to `set_available_ports`.
    ScanPorts,
    /// Open the named port with `serial_config`, then report with
    /// `port_opened` or `port_failed`.
    OpenPort(String),
    /// Ask the writer to close and drop the channel to it.
    CloseWriter,
    /// Pass a command to the writer, if its channel is open.
    Transmit(TxCommand),
    /// Open a new log file in `log_format`, then report with
    /// `logging_started` or `logging_failed`.
    StartLogFile,
    /// Close the log file.
    StopLogFile,
    /// Append sent bytes to the log file, if one is open.
    LogTx(Vec<u8>),
    /// Append a received line to the log file, if one is open.
    LogRx(Vec<u8>),
    /// Record in the log file, if one is open, that the log was cleared.
    LogCleared,
    /// Put the text on the clipboard, then report with `clipboard_done`.
    CopyToClipboard(String),
    /// Start sending the steps of macro number `n`, with their pauses.
    RunMacro(usize),
}

/// What a key press leads to: whether to quit, and the work to do.
pub struct KeyOutcome {
    pub quit: bool,
    pub actions: Vec<Action>,
}

/// `post` is `pre` with the status bar showing `msg`.
pub open spec fn status_set(pre: AppState, post: AppState, msg: Seq<char>, is_error: bool) -> bool {
    &&& post == (AppState { status_message: post.status_message, status_is_error: is_error, ..pre })
    &&& post.status_message@ == msg
}

/// `post` is `pre` after `msg` was logged as a console message and shown in
/// the status bar.
pub open spec fn announced(pre: AppState, post: AppState, msg: Seq<char>, is_error: bool) -> bool {
    exists|logged: AppState|
        #![trigger message_logged(pre, logged, msg)]
        message_logged(pre, logged, msg) && status_set(logged, post, msg, is_error)
}

/// Non-empty lines, in order.
pub open spec fn nonempty(lines: Seq<Seq<u8>>) -> Seq<Seq<u8>>
    decreases lines.len(),
{
    if lines.len() == 0 {
        Seq::empty()
    } else if lines.last().len() > 0 {
        nonempty(lines.drop_last()).push(lines.last())
    } else {
        nonempty(lines.drop_last())
    }
}

/// The bytes in all the lines.
pub open spec fn total_len(lines: Seq<Seq<u8>>) -> nat
    decreases lines.len(),
{
    if lines.len() == 0 {
        0
    } else {
        total_len(lines.drop_last()) + lines.last().len()
    }
}

/// `post` is `pre` after received lines `raws`, each stamped with some
/// instant, were appended to the log one after another.
pub open spec fn received_logged(pre: AppState, post: AppState, raws: Seq<Seq<u8>>) -> bool
    decreases raws.len(),
{
    if raws.len() == 0 {
        post == pre
    } else {
        exists|mid: AppState, l: LogLine|
            #![trigger log_appended(mid, post, l)]
            received_logged(pre, mid, raws.drop_last()) && l.direction == Direction::Rx && l.raw@
                == raws.last() && l.text@ == rx_text(raws.last()) && l.wf() && log_appended(
                mid,
                post,
                l,
            )
    }
}


/// The bytes in the first lines are no more than in all of them.
pub proof fn lemma_prefix_total(s: Seq<Seq<u8>>, i: int)
    requires
        0 <= i <= s.len(),
    ensures
        total_len(nonempty(s.take(i))) <= total_len(nonempty(s)),
    decreases s.len(),
{
    if i < s.len() {
        lemma_prefix_total(s.drop_last(), i);
        assert(s.drop_last().take(i) =~= s.take(i));
        let d = nonempty(s.drop_last());
        if s.last().len() > 0 {
            assert(d.push(s.last()).drop_last() =~= d);
        }
    } else {
        assert(s.take(i) =~= s);
    }
}

/// `actions` asks for each of `lines` to be written to the log file as
/// received, in order.
pub open spec fn logs_received(actions: Seq<Action>, lines: Seq<Seq<u8>>) -> bool {
    &&& actions.len() == lines.len()
    &&& forall|i: int| 0 <= i < lines.len() ==> (#[trigger] actions[i] matches Action::LogRx(v) && v@ == lines[i])
}


/// The state once the port has opened at instant `t`: the writer's channel
/// open, connected, the control lines set as configured, and the connection
/// time recorded.
pub open spec fn opened_state(pre: AppState, t: i64) -> AppState {
    AppState {
        tx_open: true,
        connected: true,
        signals: ControlSignals {
            dtr: pre.serial_config.dtr,
            rts: pre.serial_config.rts,
            ..pre.signals
        },
        stats: Stats { connected_at: Some(t), ..pre.stats },
        ..pre
    }
}

/// The commands that raise DTR and RTS, each where asked for.
fn line_raising_actions(dtr: bool, rts: bool) -> (actions: Vec<Action>)
    ensures
        actions@ == (if dtr {
            seq![Action::Transmit(TxCommand::SetDtr(true))]
        } else {
            Seq::empty()
        }) + (if rts {
            seq![Action::Transmit(TxCommand::SetRts(true))]
        } else {
            Seq::empty()
        }),
{
    let mut actions: Vec<Action> = Vec::new();
    if dtr {
        actions.push(Action::Transmit(TxCommand::SetDtr(true)));
    }
    if rts {
        actions.push(Action::Transmit(TxCommand::SetRts(true)));
    }
    assert(actions@ =~= (if dtr {
        seq![Action::Transmit(TxCommand::SetDtr(true))]
    } else {
        Seq::empty()
    }) + (if rts {
        seq![Action::Transmit(TxCommand::SetRts(true))]
    } else {
        Seq::empty()
    }));
    actions
}

/// The text of `connected_message`.
fn connected_text(path: &str, baud: u32) -> (s: String)
    ensures
        s@ == connected_message(path@, baud),
{
    let mut v: Vec<char> = Vec::new();
    push_str(&mut v, "Connected to ");
    push_str(&mut v, path);
    push_str(&mut v, " at ");
    push_decimal(&mut v, baud as u64);
    push_str(&mut v, " baud.");
    assert(v@ =~= connected_message(path@, baud));
    string_from_chars(&v)
}

/// The message for a port opened at a baud rate.
pub open spec fn connected_message(path: Seq<char>, baud: u32) -> Seq<char> {
    "Connected to "@ + path + " at "@ + decimal(baud as nat) + " baud."@
}

impl AppState {
    /// Logs `msg` as a console message and shows it in the status bar.
    pub fn announce(&mut self, msg: String, is_error: bool)
        requires
            old(self).wf(),
        ensures
            final(self).wf(),
            announced(*old(self), *final(self), msg@, is_error),
    {
        let shown = msg.clone();
        let ghost pre = *self;
        let line = LogLine::new_system(msg);
        let ghost l = line;
        self.add_log_line(line);
        let ghost logged = *self;
        assert(message_logged(pre, logged, shown@)) by {
            assert(log_appended(pre, logged, l));
        }
        self.set_status(shown, is_error);
    }

    /// Cuts the received bytes waiting in `buffer` into lines by the line
    /// ending for receiving, and appends each non-empty one to the log, in
    /// order; the buffer is emptied.  When logging, the lines are also to be
    /// written to the log file: the actions returned ask for that.
    pub fn process_rx_buffer(&mut self, buffer: &mut Vec<u8>) -> (actions: Vec<Action>)
        requires
            old(self).wf(),
            old(self).stats.rx_bytes + total_len(nonempty(rx_lines(old(buffer)@, old(self).rx_newline)))
                <= u64::MAX,
            old(self).rx_bytes_last_sec + total_len(nonempty(rx_lines(old(buffer)@, old(self).rx_newline)))
                <= u64::MAX,
        ensures
            final(self).wf(),
            final(buffer)@.len() == 0,
            received_logged(*old(self), *final(self), nonempty(rx_lines(old(buffer)@, old(self).rx_newline))),
            old(self).logging ==> logs_received(
                actions@,
                nonempty(rx_lines(old(buffer)@, old(self).rx_newline)),
            ),
            !old(self).logging ==> actions@.len() == 0,
    {
        let ghost pre = *self;
        let lines = split_rx_data(buffer.as_slice(), &self.rx_newline);
        buffer.clear();
        let ghost all = lines_of(lines@);
        let ghost wanted = nonempty(all);
        let mut actions: Vec<Action> = Vec::new();
        let mut i: usize = 0;
        while i < lines.len()
            invariant
                i <= lines@.len(),
                all == lines_of(lines@),
                all.len() == lines@.len(),
                wanted == nonempty(all),
                self.wf(),
                self.logging == pre.logging,
                self.stats.rx_bytes == pre.stats.rx_bytes + total_len(nonempty(all.take(i as int))),
                self.rx_bytes_last_sec == pre.rx_bytes_last_sec + total_len(nonempty(all.take(i as int))),
                pre.stats.rx_bytes + total_len(wanted) <= u64::MAX,
                pre.rx_bytes_last_sec + total_len(wanted) <= u64::MAX,
                received_logged(pre, *self, nonempty(all.take(i as int))),
                pre.logging ==> logs_received(actions@, nonempty(all.take(i as int))),
                !pre.logging ==> actions@.len() == 0,
            decreases lines.len() - i,
        {
            let ghost before = *self;
            let ghost prev = nonempty(all.take(i as int));
            assert(all.take(i + 1).drop_last() =~= all.take(i as int));
            assert(all.take(i + 1).last() == all[i as int]);
            assert(all[i as int] == lines@[i as int]@);
            if lines[i].len() > 0 {
                proof {
                    lemma_prefix_total(all, i + 1);
                    assert(nonempty(all.take(i + 1)) == prev.push(all[i as int]));
                    assert(prev.push(all[i as int]).drop_last() =~= prev);
                    assert(total_len(nonempty(all.take(i + 1))) == total_len(prev) + all[i as int].len());
                }
                let bytes = lines[i].clone();
                if self.logging {
                    let ghost acts = actions@;
                    actions.push(Action::LogRx(lines[i].clone()));
                    proof {
                        assert forall|j: int| 0 <= j < actions@.len() implies (#[trigger] actions@[j] matches Action::LogRx(v) && v@ == nonempty(all.take(i + 1))[j]) by {
                            if j < acts.len() {
                                assert(actions@[j] == acts[j]);
                            }
                        }
                    }
                }
                let line = LogLine::new_rx(bytes);
                let ghost l = line;
                self.add_log_line(line);
                proof {
                    assert(received_logged(pre, *self, nonempty(all.take(i + 1)))) by {
                        assert(nonempty(all.take(i + 1)).drop_last() == prev);
                        assert(log_appended(before, *self, l));
                    }
                }
            } else {
                assert(nonempty(all.take(i + 1)) == prev);
            }
            i += 1;
        }
        assert(all.take(lines@.len() as int) =~= all);
        actions
    }

    /// The port `path` has opened: records the connection (see
    /// `opened_state`), logs and shows `connected_message`, and returns the
    /// commands that raise DTR and RTS where the settings ask for them.
    pub fn port_opened(&mut self, path: &str) -> (actions: Vec<Action>)
        requires
            old(self).wf(),
        ensures
            final(self).wf(),
            actions@ == (if old(self).serial_config.dtr {
                seq![Action::Transmit(TxCommand::SetDtr(true))]
            } else {
                Seq::empty()
            }) + (if old(self).serial_config.rts {
                seq![Action::Transmit(TxCommand::SetRts(true))]
            } else {
                Seq::empty()
            }),
            exists|t: i64|
                #![trigger opened_state(*old(self), t)]
                representable_millis(t as int) && announced(
                    opened_state(*old(self), t),
                    *final(self),
                    connected_message(path@, old(self).serial_config.baud_rate),
                    false,
                ),
    {
        let actions = line_raising_actions(self.serial_config.dtr, self.serial_config.rts);
        let baud = self.serial_config.baud_rate;
        let msg = connected_text(path, baud);
        let t = self.record_opened();
        let ghost mid = *self;
        self.announce(msg, false);
        assert(announced(mid, *self, connected_message(path@, baud), false));
        actions
    }

    /// Records that the port opened now; returns the instant.
    fn record_opened(&mut self) -> (t: i64)
        requires
            old(self).wf(),
        ensures
            final(self).wf(),
            representable_millis(t as int),
            *final(self) == opened_state(*old(self), t),
    {
        let t = now_millis();
        self.tx_open = true;
        self.connected = true;
        self.signals.dtr = self.serial_config.dtr;
        self.signals.rts = self.serial_config.rts;
        self.stats.connected_at = Some(t);
        t
    }

    /// The port could not be opened: not connected, and the status bar says
    /// why.
    pub fn port_open_failed(&mut self, reason: &str)
        ensures
            status_set(
                AppState { connected: false, ..*old(self) },
                *final(self),
                "Failed to open port: "@ + reason@,
                true,
            ),
    {
        self.connected = false;
        self.set_status(concat("Failed to open port: ", reason), true);
    }

    /// The opened port could not be shared with the writer: not connected,
    /// and the status bar says why.
    pub fn port_clone_failed(&mut self, reason: &str)
        ensures
            status_set(
                AppState { connected: false, ..*old(self) },
                *final(self),
                "Failed to clone port: "@ + reason@,
                true,
            ),
    {
        self.connected = false;
        self.set_status(concat("Failed to clone port: ", reason), true);
    }

    /// The log file `path` is open: logging, and the status bar says where
    /// (the name in its debug form, see `debug_form`).
    pub fn logging_started(&mut self, path: &str)
        ensures
            status_set(
                AppState { logging: true, ..*old(self) },
                *final(self),
                "Logging to "@ + debug_form(path@),
                false,
            ),
    {
        self.logging = true;
        let quoted = debug_quoted(path);
        assert(quoted@ == debug_form(path@));
        self.set_status(concat("Logging to ", &quoted), false);
    }

    /// The log file could not be opened: the status bar says why.
    pub fn logging_failed(&mut self, reason: &str)
        ensures
            status_set(*old(self), *final(self), "Failed to open log: "@ + reason@, true),
    {
        self.set_status(concat("Failed to open log: ", reason), true);
    }

    /// The clipboard took the log, or refused it with `Err(reason)`: the
    /// status bar says which.
    pub fn clipboard_done(&mut self, result: Result<(), String>)
        ensures
            match result {
                Ok(_) => status_set(*old(self), *final(self), "Log copied to clipboard."@, false),
                Err(e) => status_set(*old(self), *final(self), "Clipboard error: "@ + e@, true),
            },
    {
        match result {
            Ok(_) => self.set_status("Log copied to clipboard.".to_owned(), false),
            Err(e) => self.set_status(concat("Clipboard error: ", e.as_str()), true),
        }
    }

    /// Shows `msg` in the status bar.
    pub fn show_status(&mut self, msg: &str, is_error: bool)
        ensures
            status_set(*old(self), *final(self), msg@, is_error),
    {
        self.set_status(msg.to_owned(), is_error);
    }

    /// Reacts to an event from the port's reader: data is kept in
    /// `rx_buffer` until it is cut into lines; an error is counted, logged
    /// and shown; a disconnection marks the port closed, and is logged and
    /// shown.
    pub fn handle_serial_event(&mut self, event: SerialEvent, rx_buffer: &mut Vec<u8>)
        requires
            old(self).wf(),
            event is Error ==> old(self).stats.error_count < u64::MAX,
        ensures
            final(self).wf(),
            match event {
                SerialEvent::Data(d) => *final(self) == *old(self) && final(rx_buffer)@ == old(
                    rx_buffer,
                )@ + d@,
                SerialEvent::Error(msg) => final(rx_buffer)@ == old(rx_buffer)@ && announced(
                    AppState {
                        stats: Stats { error_count: (old(self).stats.error_count + 1) as u64, ..old(self).stats },
                        ..*old(self)
                    },
                    *final(self),
                    "Error: "@ + msg@,
                    true,
                ),
                SerialEvent::Disconnected => final(rx_buffer)@ == old(rx_buffer)@ && announced(
                    AppState { connected: false, ..*old(self) },
                    *final(self),
                    "Port disconnected."@,
                    true,
                ),
            },
    {
        match event {
            SerialEvent::Data(data) => {
                let mut i: usize = 0;
                let ghost start = rx_buffer@;
                while i < data.len()
                    invariant
                        i <= data@.len(),
                        rx_buffer@ == start + data@.take(i as int),
                    decreases data.len() - i,
                {
                    rx_buffer.push(data[i]);
                    i += 1;
                    proof {
                        assert(rx_buffer@ =~= start + data@.take(i as int));
                    }
                }
                assert(data@.take(data@.len() as int) =~= data@);
            },
            SerialEvent::Error(msg) => {
                self.stats.error_count = self.stats.error_count + 1;
                let text = concat("Error: ", msg.as_str());
                self.announce(text, true);
            },
            SerialEvent::Disconnected => {
                self.connected = false;
                self.announce("Port disconnected.".to_owned(), true);
            },
        }
    }
}

} // verus!

verus! {

/// Received lines are counted: after they are logged, the received-byte
/// counter has grown by exactly their bytes.
pub proof fn law_received_counted(pre: AppState, post: AppState, raws: Seq<Seq<u8>>)
    requires
        received_logged(pre, post, raws),
    ensures
        post.stats.rx_bytes == pre.stats.rx_bytes + total_len(raws),
        post.stats.tx_bytes == pre.stats.tx_bytes,
    decreases raws.len(),
{
    if raws.len() > 0 {
        let (mid, l) = choose|mid: AppState, l: LogLine|
            #![trigger log_appended(mid, post, l)]
            received_logged(pre, mid, raws.drop_last()) && l.direction == Direction::Rx && l.raw@
                == raws.last() && l.text@ == rx_text(raws.last()) && l.wf() && log_appended(
                mid,
                post,
                l,
            );
        law_received_counted(pre, mid, raws.drop_last());
    }
}

} // verus!
