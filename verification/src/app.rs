//! The console's state: what has been received and sent, how it is shown,
//! and the settings that govern both.
use vstd::prelude::*;
use vstd::utf8::{encode_utf8, is_ascii_chars};
use crate::clock::{clock_text, elapsed_seconds, is_clock_text, now_millis, representable_millis};
use crate::input::InputHistory;
use crate::logger::LogFormat;
use crate::macros::Macro;
use crate::search::{match_indices, pattern_of, texts_of, SearchState};
use crate::serial::{ControlSignals, SerialConfig};
use crate::text::{ascii_lower_char, lowered, str_equals, to_lowercase, two_digit, push_two_digit, chars_of, hex_spaced, lossy_string, pad_right, pad_to, preview, push_chars, push_hex_spaced, push_preview, push_str, string_from_chars, utf8_lossy};

verus! {

broadcast use vstd::string::group_string_axioms;

/// A line ending: what is appended to sent text, or how received bytes are
/// cut into lines (`Auto` accepts CR LF, CR and LF alike).
#[derive(Debug, Clone, Copy, PartialEq, Eq, Structural)]
pub enum NewlineMode {
    CrLf,
    Lf,
    Cr,
    None_,
    Auto,
}

impl NewlineMode {
    /// The label shown for the mode.
    pub open spec fn label(self) -> Seq<char> {
        match self {
            NewlineMode::CrLf => "CRLF"@,
            NewlineMode::Lf => "LF"@,
            NewlineMode::Cr => "CR"@,
            NewlineMode::None_ => "NONE"@,
            NewlineMode::Auto => "AUTO"@,
        }
    }

    /// The mode after `self` in the send cycle CRLF, LF, CR, NONE; `Auto`
    /// re-enters the cycle at CRLF.
    pub open spec fn spec_next_send(self) -> NewlineMode {
        match self {
            NewlineMode::CrLf => NewlineMode::Lf,
            NewlineMode::Lf => NewlineMode::Cr,
            NewlineMode::Cr => NewlineMode::None_,
            NewlineMode::None_ => NewlineMode::CrLf,
            NewlineMode::Auto => NewlineMode::CrLf,
        }
    }

    /// The bytes appended to sent text; `Auto` sends CR LF.
    pub open spec fn spec_suffix(self) -> Seq<u8> {
        match self {
            NewlineMode::CrLf => seq![0x0du8, 0x0au8],
            NewlineMode::Lf => seq![0x0au8],
            NewlineMode::Cr => seq![0x0du8],
            NewlineMode::None_ => Seq::empty(),
            NewlineMode::Auto => seq![0x0du8, 0x0au8],
        }
    }

    /// The label shown for the mode (see `label`).
    pub fn as_str(&self) -> (s: &'static str)
        ensures
            s@ == self.label(),
    {
        match self {
            NewlineMode::CrLf => "CRLF",
            NewlineMode::Lf => "LF",
            NewlineMode::Cr => "CR",
            NewlineMode::None_ => "NONE",
            NewlineMode::Auto => "AUTO",
        }
    }

    /// The next mode in the send cycle (see `spec_next_send`).
    pub fn next_send(&self) -> (m: Self)
        ensures
            m == self.spec_next_send(),
    {
        match self {
            NewlineMode::CrLf => NewlineMode::Lf,
            NewlineMode::Lf => NewlineMode::Cr,
            NewlineMode::Cr => NewlineMode::None_,
            NewlineMode::None_ => NewlineMode::CrLf,
            NewlineMode::Auto => NewlineMode::CrLf,
        }
    }

    /// The bytes appended to sent text (see `spec_suffix`).
    pub fn suffix(&self) -> (v: Vec<u8>)
        ensures
            v@ == self.spec_suffix(),
    {
        let v: Vec<u8> = match self {
            NewlineMode::CrLf => vec![0x0du8, 0x0au8],
            NewlineMode::Lf => vec![0x0au8],
            NewlineMode::Cr => vec![0x0du8],
            NewlineMode::None_ => vec![],
            NewlineMode::Auto => vec![0x0du8, 0x0au8],
        };
        assert(v@ =~= self.spec_suffix());
        v
    }
}

/// How the log is shown.
#[derive(Debug, Clone, Copy, PartialEq, Eq, Structural)]
pub enum ViewMode {
    Ascii,
    Hex,
    Split,
}

impl ViewMode {
    /// The label shown for the mode.
    pub open spec fn label(self) -> Seq<char> {
        match self {
            ViewMode::Ascii => "ASCII"@,
            ViewMode::Hex => "HEX"@,
            ViewMode::Split => "SPLIT"@,
        }
    }

    /// The mode after `self` in the cycle ASCII, HEX, SPLIT.
    pub open spec fn spec_next(self) -> ViewMode {
        match self {
            ViewMode::Ascii => ViewMode::Hex,
            ViewMode::Hex => ViewMode::Split,
            ViewMode::Split => ViewMode::Ascii,
        }
    }

    /// The label shown for the mode (see `label`).
    pub fn as_str(&self) -> (s: &'static str)
        ensures
            s@ == self.label(),
    {
        match self {
            ViewMode::Ascii => "ASCII",
            ViewMode::Hex => "HEX",
            ViewMode::Split => "SPLIT",
        }
    }

    /// The next view mode (see `spec_next`).
    pub fn next(&self) -> (m: Self)
        ensures
            m == self.spec_next(),
    {
        match self {
            ViewMode::Ascii => ViewMode::Hex,
            ViewMode::Hex => ViewMode::Split,
            ViewMode::Split => ViewMode::Ascii,
        }
    }
}

/// The send newline a word names: "lf", "cr" and "none" in any case;
/// anything else means CR LF.
#[verifier::opaque]
pub open spec fn tx_newline_of(word: Seq<char>) -> NewlineMode {
    if lowered(word) == "lf"@ {
        NewlineMode::Lf
    } else if lowered(word) == "cr"@ {
        NewlineMode::Cr
    } else if lowered(word) == "none"@ {
        NewlineMode::None_
    } else {
        NewlineMode::CrLf
    }
}

/// The receive newline a word names: "crlf", "lf", "cr" and "none" in any
/// case; anything else means automatic.
#[verifier::opaque]
pub open spec fn rx_newline_of(word: Seq<char>) -> NewlineMode {
    if lowered(word) == "crlf"@ {
        NewlineMode::CrLf
    } else if lowered(word) == "lf"@ {
        NewlineMode::Lf
    } else if lowered(word) == "cr"@ {
        NewlineMode::Cr
    } else if lowered(word) == "none"@ {
        NewlineMode::None_
    } else {
        NewlineMode::Auto
    }
}

/// The view a word names: "hex" and "split" in any case; anything else means
/// ASCII.
#[verifier::opaque]
pub open spec fn view_mode_of(word: Seq<char>) -> ViewMode {
    if lowered(word) == "hex"@ {
        ViewMode::Hex
    } else if lowered(word) == "split"@ {
        ViewMode::Split
    } else {
        ViewMode::Ascii
    }
}

/// Which send newline `word` names (see `tx_newline_of`).
pub fn tx_newline_from_word(word: &str) -> (m: NewlineMode)
    ensures
        m == tx_newline_of(word@),
{
    reveal(tx_newline_of);
    let lower = to_lowercase(word);
    let w = lower.as_str();
    if str_equals(w, "lf") {
        NewlineMode::Lf
    } else if str_equals(w, "cr") {
        NewlineMode::Cr
    } else if str_equals(w, "none") {
        NewlineMode::None_
    } else {
        NewlineMode::CrLf
    }
}

/// Which receive newline `word` names (see `rx_newline_of`).
pub fn rx_newline_from_word(word: &str) -> (m: NewlineMode)
    ensures
        m == rx_newline_of(word@),
{
    reveal(rx_newline_of);
    let lower = to_lowercase(word);
    let w = lower.as_str();
    if str_equals(w, "crlf") {
        NewlineMode::CrLf
    } else if str_equals(w, "lf") {
        NewlineMode::Lf
    } else if str_equals(w, "cr") {
        NewlineMode::Cr
    } else if str_equals(w, "none") {
        NewlineMode::None_
    } else {
        NewlineMode::Auto
    }
}

/// Which view `word` names (see `view_mode_of`).
pub fn view_mode_from_word(word: &str) -> (v: ViewMode)
    ensures
        v == view_mode_of(word@),
{
    reveal(view_mode_of);
    let lower = to_lowercase(word);
    let w = lower.as_str();
    if str_equals(w, "hex") {
        ViewMode::Hex
    } else if str_equals(w, "split") {
        ViewMode::Split
    } else {
        ViewMode::Ascii
    }
}

/// Where a log line came from.
#[derive(Debug, Clone, Copy, PartialEq, Eq, Structural)]
pub enum Direction {
    Rx,
    Tx,
    System,
}

/// The overlay window shown above the log, if any.
#[derive(Debug, Clone, Copy, PartialEq, Eq, Structural)]
pub enum PopupKind {
    Help,
    PortSelect,
    Settings,
    Macros,
}

/// How a received character is shown: line breaks as `↵`, other control
/// characters except tab as `·`.
pub open spec fn rx_display_char(c: char) -> char {
    if c == '\r' || c == '\n' {
        '↵'
    } else if (c as u32) < 0x20 && c != '\t' {
        '·'
    } else {
        c
    }
}

/// The text shown for received bytes: their lossy UTF-8 decoding with line
/// breaks and control characters replaced (see `rx_display_char`).
pub open spec fn rx_text(raw: Seq<u8>) -> Seq<char> {
    utf8_lossy(raw).map_values(|c: char| rx_display_char(c))
}

/// The label of a direction in hex rows.
pub open spec fn direction_tag(d: Direction) -> Seq<char> {
    match d {
        Direction::Rx => "RX"@,
        Direction::Tx => "TX"@,
        Direction::System => "SY"@,
    }
}

/// The number of 16-byte rows `n` bytes take.
pub open spec fn row_count(n: nat) -> nat {
    ((n + 15) / 16) as nat
}

/// The bytes of row `k`: sixteen of them, fewer in the last row.
pub open spec fn row_bytes(raw: Seq<u8>, k: int) -> Seq<u8> {
    let end = if 16 * k + 16 <= raw.len() {
        16 * k + 16
    } else {
        raw.len() as int
    };
    raw.subrange(16 * k, end)
}

/// One hex-dump row: the prefix, two spaces, the hex bytes padded to 48
/// columns, a space, and the printable preview.
pub open spec fn hex_row(prefix: Seq<char>, bytes: Seq<u8>) -> Seq<char> {
    prefix + seq![' ', ' '] + pad_right(hex_spaced(bytes), 48) + seq![' '] + preview(bytes)
}

/// The hex-dump rows of `raw`, one per 16 bytes, each with `prefix`.
pub open spec fn hex_rows(prefix: Seq<char>, raw: Seq<u8>) -> Seq<Seq<char>> {
    Seq::new(row_count(raw.len()), |k: int| hex_row(prefix, row_bytes(raw, k)))
}

/// Lines joined with `\n` between them.
pub open spec fn join_lines(rows: Seq<Seq<char>>) -> Seq<char>
    decreases rows.len(),
{
    if rows.len() == 0 {
        Seq::empty()
    } else if rows.len() == 1 {
        rows[0]
    } else {
        join_lines(rows.drop_last()) + seq!['\n'] + rows.last()
    }
}

/// Appends one hex-dump row (see `hex_row`).
pub fn push_hex_row(v: &mut Vec<char>, prefix: &Vec<char>, bytes: &[u8])
    ensures
        final(v)@ == old(v)@ + hex_row(prefix@, bytes@),
{
    push_chars(v, prefix);
    v.push(' ');
    v.push(' ');
    let start = v.len();
    let ghost before = v@;
    push_hex_spaced(v, bytes);
    pad_to(v, start, 48);
    proof {
        assert(v@.take(start as int) =~= before);
    }
    v.push(' ');
    push_preview(v, bytes);
    assert(v@ =~= old(v)@ + hex_row(prefix@, bytes@));
}

/// The hex-dump rows of `raw` (see `hex_rows`).
pub fn hex_rows_of(prefix: &Vec<char>, raw: &[u8]) -> (rows: Vec<String>)
    ensures
        rows@.map_values(|s: String| s@) == hex_rows(prefix@, raw@),
{
    let mut rows: Vec<String> = Vec::new();
    let mut start: usize = 0;
    let ghost mut k: int = 0;
    while start < raw.len()
        invariant
            start <= raw@.len(),
            start < raw@.len() ==> start == 16 * k,
            k >= 0,
            rows@.len() == k,
            start < raw@.len() ==> k < row_count(raw@.len() as nat),
            start >= raw@.len() ==> k == row_count(raw@.len() as nat),
            forall|j: int| 0 <= j < k ==> #[trigger] rows@[j]@ == hex_row(prefix@, row_bytes(raw@, j)),
        decreases raw.len() - start,
    {
        let end = if raw.len() - start >= 16 {
            start + 16
        } else {
            raw.len()
        };
        let bytes = &raw[start..end];
        let mut v: Vec<char> = Vec::new();
        push_hex_row(&mut v, prefix, bytes);
        proof {
            assert(bytes@ =~= row_bytes(raw@, k));
            assert(v@ =~= hex_row(prefix@, row_bytes(raw@, k)));
        }
        rows.push(string_from_chars(&v));
        start = end;
        proof {
            k = k + 1;
        }
    }
    assert(rows@.map_values(|s: String| s@) =~= hex_rows(prefix@, raw@));
    rows
}

/// The rows joined with newlines (see `join_lines`).
pub fn join_rows(rows: &Vec<String>) -> (s: String)
    ensures
        s@ == join_lines(rows@.map_values(|r: String| r@)),
{
    let ghost all = rows@.map_values(|r: String| r@);
    let mut v: Vec<char> = Vec::new();
    let mut i: usize = 0;
    while i < rows.len()
        invariant
            i <= rows@.len(),
            all == rows@.map_values(|r: String| r@),
            v@ == join_lines(all.take(i as int)),
        decreases rows.len() - i,
    {
        if i > 0 {
            v.push('\n');
        }
        push_str(&mut v, rows[i].as_str());
        proof {
            let t = all.take(i + 1);
            assert(t.drop_last() =~= all.take(i as int));
            assert(t.last() == rows@[i as int]@);
            if i == 0 {
                assert(v@ =~= join_lines(t));
            } else {
                assert(v@ =~= join_lines(t));
            }
        }
        i += 1;
    }
    assert(all.take(all.len() as int) =~= all);
    string_from_chars(&v)
}

/// One entry of the log: where it came from, when (milliseconds since the
/// Unix epoch), its bytes, and the text shown for it.
#[derive(Debug, Clone)]
pub struct LogLine {
    pub direction: Direction,
    pub timestamp: i64,
    pub raw: Vec<u8>,
    pub text: String,
}

impl LogLine {
    /// The timestamp is an instant chrono can show.
    pub open spec fn wf(&self) -> bool {
        representable_millis(self.timestamp as int)
    }

    /// A received line, stamped now (see `rx_text`).
    pub fn new_rx(raw: Vec<u8>) -> (l: Self)
        ensures
            l.direction == Direction::Rx,
            l.raw@ == raw@,
            l.text@ == rx_text(raw@),
            l.wf(),
    {
        let decoded = lossy_string(raw.as_slice());
        let chars = chars_of(decoded.as_str());
        let mut shown: Vec<char> = Vec::new();
        let mut i: usize = 0;
        while i < chars.len()
            invariant
                i <= chars@.len(),
                chars@ == utf8_lossy(raw@),
                shown@ == chars@.take(i as int).map_values(|c: char| rx_display_char(c)),
            decreases chars.len() - i,
        {
            let c = chars[i];
            let d: char = if c == '\r' || c == '\n' {
                '↵'
            } else if (c as u32) < 0x20 && c != '\t' {
                '·'
            } else {
                c
            };
            shown.push(d);
            i += 1;
            proof {
                assert(shown@ =~= chars@.take(i as int).map_values(|c: char| rx_display_char(c)));
            }
        }
        assert(chars@.take(chars@.len() as int) =~= chars@);
        LogLine {
            direction: Direction::Rx,
            timestamp: now_millis(),
            raw,
            text: string_from_chars(&shown),
        }
    }

    /// A sent line, stamped now, shown as its lossy UTF-8 decoding.
    pub fn new_tx(raw: Vec<u8>) -> (l: Self)
        ensures
            l.direction == Direction::Tx,
            l.raw@ == raw@,
            l.text@ == utf8_lossy(raw@),
            l.wf(),
    {
        let text = lossy_string(raw.as_slice());
        LogLine { direction: Direction::Tx, timestamp: now_millis(), raw, text }
    }

    /// A message of the console itself, stamped now.
    pub fn new_system(msg: String) -> (l: Self)
        ensures
            l.direction == Direction::System,
            l.raw@ == encode_utf8(msg@),
            l.text@ == msg@,
            l.wf(),
    {
        let b = msg.as_str().as_bytes();
        let mut raw: Vec<u8> = Vec::new();
        let mut i: usize = 0;
        while i < b.len()
            invariant
                i <= b@.len(),
                raw@ == b@.take(i as int),
            decreases b.len() - i,
        {
            raw.push(b[i]);
            i += 1;
            proof {
                assert(raw@ =~= b@.take(i as int));
            }
        }
        assert(b@.take(b@.len() as int) =~= b@);
        LogLine { direction: Direction::System, timestamp: now_millis(), raw, text: msg }
    }

    /// The line as a hex dump: one row per 16 bytes, each starting with the
    /// bracketed clock reading of the timestamp and the direction tag, the
    /// rows joined by newlines; empty when there are no bytes.
    pub fn hex_dump(&self) -> (s: String)
        requires
            self.wf(),
        ensures
            exists|ts: Seq<char>|
                is_clock_text(ts) && s@ == join_lines(
                    hex_rows(seq!['['] + ts + seq![']', ' '] + direction_tag(self.direction), self.raw@),
                ),
    {
        let ts = clock_text(self.timestamp);
        let mut prefix: Vec<char> = Vec::new();
        prefix.push('[');
        push_str(&mut prefix, ts.as_str());
        prefix.push(']');
        prefix.push(' ');
        let tag = match self.direction {
            Direction::Rx => "RX",
            Direction::Tx => "TX",
            Direction::System => "SY",
        };
        push_str(&mut prefix, tag);
        assert(prefix@ =~= seq!['['] + ts@ + seq![']', ' '] + direction_tag(self.direction));
        let rows = hex_rows_of(&prefix, self.raw.as_slice());
        join_rows(&rows)
    }
}

/// Traffic counters.  Instants are milliseconds since the Unix epoch.  (The
/// receive rate, a floating-point figure, is kept by the program around the
/// library.)
#[derive(Debug, Clone, Copy)]
pub struct Stats {
    pub rx_bytes: u64,
    pub tx_bytes: u64,
    pub error_count: u64,
    pub connected_at: Option<i64>,
    pub last_rx_at: Option<i64>,
    pub buffer_lines: usize,
}

impl Default for Stats {
    fn default() -> (s: Self)
        ensures
            s.rx_bytes == 0 && s.tx_bytes == 0 && s.error_count == 0,
            s.connected_at is None && s.last_rx_at is None,
            s.buffer_lines == 0,
    {
        Stats {
            rx_bytes: 0,
            tx_bytes: 0,
            error_count: 0,
            connected_at: None,
            last_rx_at: None,
            buffer_lines: 0,
        }
    }
}

impl Stats {
    /// The instants recorded are ones chrono can show.
    pub open spec fn wf(&self) -> bool {
        &&& self.connected_at matches Some(t) ==> representable_millis(t as int)
        &&& self.last_rx_at matches Some(t) ==> representable_millis(t as int)
    }
}

/// The last `n` of `lines` (all of them when there are no more than `n`).
pub open spec fn newest(lines: Seq<LogLine>, n: nat) -> Seq<LogLine> {
    if lines.len() > n {
        lines.skip(lines.len() - n)
    } else {
        lines
    }
}

/// The texts of log lines.
pub open spec fn log_texts(lines: Seq<LogLine>) -> Seq<Seq<char>> {
    lines.map_values(|l: LogLine| l.text@)
}

/// The scroll position at the newest of `n` lines.
pub open spec fn bottom(n: nat) -> usize {
    if n == 0 {
        0
    } else {
        (n - 1) as usize
    }
}

/// `a - b`, or 0 when `b` is larger.
pub open spec fn saturating_sub(a: int, b: int) -> int {
    if a > b {
        a - b
    } else {
        0
    }
}

/// `after` is `before` with its matches found afresh in `texts` and the
/// first of them selected.
pub open spec fn search_refreshed(before: SearchState, after: SearchState, texts: Seq<Seq<char>>) -> bool {
    &&& after.matches@ == match_indices(pattern_of(before.regex), texts, texts.len() as int)
    &&& after.current_match == (if after.matches@.len() == 0 {
        None
    } else {
        Some(0usize)
    })
    &&& after.query == before.query
    &&& after.regex == before.regex
    &&& after.filter_mode == before.filter_mode
}

/// The bytes `line` adds to a counter kept for direction `d`.
pub open spec fn counted(line: LogLine, d: Direction) -> nat {
    if line.direction == d {
        line.raw@.len()
    } else {
        0
    }
}

/// `post` is `pre` after `line` was appended to the log (see
/// `AppState::add_log_line`).
pub open spec fn log_appended(pre: AppState, post: AppState, line: LogLine) -> bool {
    let all = pre.log_lines@.push(line);
    let kept = newest(all, pre.scroll_buffer_size as nat);
    let dropped = all.len() - kept.len();
    &&& post.log_lines@ == kept
    &&& post.scroll_offset == if pre.scroll_locked {
        saturating_sub(pre.scroll_offset as int, dropped) as usize
    } else {
        bottom(kept.len())
    }
    &&& post.stats.buffer_lines == kept.len()
    &&& pre.search_active ==> search_refreshed(pre.search_state, post.search_state, log_texts(kept))
    &&& !pre.search_active ==> post.search_state == pre.search_state
    &&& post.stats.rx_bytes == pre.stats.rx_bytes + counted(line, Direction::Rx)
    &&& post.rx_bytes_last_sec == pre.rx_bytes_last_sec + counted(line, Direction::Rx)
    &&& post.stats.tx_bytes == pre.stats.tx_bytes + counted(line, Direction::Tx)
    &&& line.direction == Direction::Rx ==> post.stats.last_rx_at is Some
    &&& line.direction != Direction::Rx ==> post.stats.last_rx_at == pre.stats.last_rx_at
    &&& post.stats.error_count == pre.stats.error_count
    &&& post.stats.connected_at == pre.stats.connected_at
    &&& post == (AppState {
        log_lines: post.log_lines,
        scroll_offset: post.scroll_offset,
        stats: post.stats,
        search_state: post.search_state,
        rx_bytes_last_sec: post.rx_bytes_last_sec,
        ..pre
    })
}

/// `post` is `pre` after a console message `msg`, stamped with some instant,
/// was appended to the log.
pub open spec fn message_logged(pre: AppState, post: AppState, msg: Seq<char>) -> bool {
    exists|l: LogLine|
        #![trigger log_appended(pre, post, l)]
        l.direction == Direction::System && l.text@ == msg && l.raw@ == encode_utf8(msg) && l.wf()
            && log_appended(pre, post, l)
}

/// `post` is `pre` after sent bytes `data`, stamped with some instant, were
/// appended to the log.
pub open spec fn sent_logged(pre: AppState, post: AppState, data: Seq<u8>) -> bool {
    exists|l: LogLine|
        #![trigger log_appended(pre, post, l)]
        l.direction == Direction::Tx && l.raw@ == data && l.text@ == utf8_lossy(data) && l.wf()
            && log_appended(pre, post, l)
}

/// `post` is `pre` after the port was marked closed (see
/// `AppState::disconnect`): writer channel and connection gone, the fact
/// logged and shown in the status bar.
pub open spec fn disconnected(pre: AppState, post: AppState) -> bool {
    let mid = AppState {
        tx_open: false,
        connected: false,
        stats: Stats { connected_at: None, ..pre.stats },
        ..pre
    };
    exists|logged: AppState|
        #![trigger message_logged(mid, logged, "Disconnected."@)]
        message_logged(mid, logged, "Disconnected."@) && post == (AppState {
            status_message: post.status_message,
            status_is_error: false,
            ..logged
        }) && post.status_message@ == "Disconnected."@
}

/// `post` is `pre` with the log emptied (see `AppState::clear_log`).
pub open spec fn log_cleared(pre: AppState, post: AppState) -> bool {
    &&& post.log_lines@.len() == 0
    &&& post == (AppState {
        log_lines: post.log_lines,
        scroll_offset: 0,
        scroll_locked: false,
        stats: Stats { buffer_lines: 0, ..pre.stats },
        ..pre
    })
}

/// The whole state of the console.
///
/// Where the program around the library holds an outside resource, the state
/// holds what its logic reads of it: `tx_open` says whether a channel to the
/// port's writer is open, and the log file is held outside (its format is
/// `log_format`, and `logging` says whether one is being written).
pub struct AppState {
    pub port_path: Option<String>,
    pub serial_config: SerialConfig,
    pub log_lines: Vec<LogLine>,
    pub input: String,
    pub cursor_pos: usize,
    pub tx_newline: NewlineMode,
    pub rx_newline: NewlineMode,
    pub view_mode: ViewMode,
    pub show_stats: bool,
    pub logging: bool,
    pub local_echo: bool,
    pub raw_mode_input: bool,
    pub scroll_offset: usize,
    pub scroll_locked: bool,
    pub active_popup: Option<PopupKind>,
    pub search_query: String,
    pub search_active: bool,
    pub filter_mode: bool,
    pub send_history: InputHistory,
    pub stats: Stats,
    pub signals: ControlSignals,
    pub macros: Vec<Macro>,
    pub scroll_buffer_size: usize,
    pub show_timestamp: bool,
    pub search_state: SearchState,
    pub available_ports: Vec<String>,
    pub port_select_index: usize,
    pub settings_field_index: usize,
    pub macro_select_index: usize,
    pub tx_open: bool,
    pub connected: bool,
    pub status_message: String,
    pub status_is_error: bool,
    pub log_format: LogFormat,
    pub rx_bytes_last_sec: u64,
}

impl AppState {
    /// The parts with invariants of their own keep them, and every instant
    /// held is one chrono can show.
    pub open spec fn wf(&self) -> bool {
        &&& self.send_history@.wf()
        &&& self.search_state.wf()
        &&& self.stats.wf()
        &&& forall|i: int| 0 <= i < self.log_lines@.len() ==> #[trigger] self.log_lines@[i].wf()
    }

    /// The counters can take `line` without overflowing.
    pub open spec fn can_count(&self, line: LogLine) -> bool {
        match line.direction {
            Direction::Rx => {
                &&& self.stats.rx_bytes + line.raw@.len() <= u64::MAX
                &&& self.rx_bytes_last_sec + line.raw@.len() <= u64::MAX
            },
            Direction::Tx => self.stats.tx_bytes + line.raw@.len() <= u64::MAX,
            Direction::System => true,
        }
    }

    /// The state the console starts in.
    pub fn new() -> (s: Self)
        ensures
            s.wf(),
            s.port_path is None,
            s.serial_config.baud_rate == 115200 && s.serial_config.data_bits == 8,
            s.serial_config.parity@ == "none"@ && s.serial_config.stop_bits == 1,
            s.serial_config.flow_control@ == "none"@,
            !s.serial_config.dtr && !s.serial_config.rts && s.serial_config.timeout_ms == 100,
            s.log_lines@.len() == 0,
            s.input@ == Seq::<char>::empty(),
            s.cursor_pos == 0,
            s.tx_newline == NewlineMode::CrLf,
            s.rx_newline == NewlineMode::Auto,
            s.view_mode == ViewMode::Ascii,
            !s.show_stats && !s.logging && s.local_echo && !s.raw_mode_input,
            s.scroll_offset == 0 && !s.scroll_locked,
            s.active_popup is None,
            s.search_query@ == Seq::<char>::empty(),
            !s.search_active && !s.filter_mode,
            s.send_history@.entries.len() == 0 && s.send_history@.max_size == 200,
            s.send_history@.index is None,
            s.send_history@.saved == Seq::<char>::empty(),
            s.stats.rx_bytes == 0 && s.stats.tx_bytes == 0 && s.stats.error_count == 0,
            s.stats.connected_at is None && s.stats.last_rx_at is None,
            s.stats.buffer_lines == 0,
            !s.signals.dtr && !s.signals.rts && !s.signals.cts,
            !s.signals.dsr && !s.signals.dcd && !s.signals.ri,
            s.macros@.len() == 0,
            s.scroll_buffer_size == 10000,
            s.show_timestamp,
            s.search_state.query@ == Seq::<char>::empty(),
            s.search_state.regex is None,
            s.search_state.matches@.len() == 0,
            s.search_state.current_match is None,
            !s.search_state.filter_mode,
            s.available_ports@.len() == 0,
            s.port_select_index == 0 && s.settings_field_index == 0 && s.macro_select_index == 0,
            !s.tx_open && !s.connected,
            s.status_message@ == "Ready. Press F2 to select port."@,
            !s.status_is_error,
            s.log_format == LogFormat::Text,
            s.rx_bytes_last_sec == 0,
    {
        AppState {
            port_path: None,
            serial_config: SerialConfig::default(),
            log_lines: Vec::new(),
            input: String::new(),
            cursor_pos: 0,
            tx_newline: NewlineMode::CrLf,
            rx_newline: NewlineMode::Auto,
            view_mode: ViewMode::Ascii,
            show_stats: false,
            logging: false,
            local_echo: true,
            raw_mode_input: false,
            scroll_offset: 0,
            scroll_locked: false,
            active_popup: None,
            search_query: String::new(),
            search_active: false,
            filter_mode: false,
            send_history: InputHistory::new(200),
            stats: Stats::default(),
            signals: ControlSignals::default(),
            macros: Vec::new(),
            scroll_buffer_size: 10000,
            show_timestamp: true,
            search_state: SearchState::default(),
            available_ports: Vec::new(),
            port_select_index: 0,
            settings_field_index: 0,
            macro_select_index: 0,
            tx_open: false,
            connected: false,
            status_message: "Ready. Press F2 to select port.".to_owned(),
            status_is_error: false,
            log_format: LogFormat::Text,
            rx_bytes_last_sec: 0,
        }
    }

    /// Jumps to the newest line.
    pub fn scroll_to_bottom(&mut self)
        ensures
            *final(self) == (AppState { scroll_offset: bottom(old(self).log_lines@.len()), ..*old(self) }),
    {
        if self.log_lines.len() == 0 {
            self.scroll_offset = 0;
        } else {
            self.scroll_offset = self.log_lines.len() - 1;
        }
    }

    /// Moves `n` lines towards the oldest (stopping at the first) and stops
    /// following new lines.
    pub fn scroll_up(&mut self, n: usize)
        ensures
            *final(self) == (AppState {
                scroll_offset: saturating_sub(old(self).scroll_offset as int, n as int) as usize,
                scroll_locked: true,
                ..*old(self)
            }),
    {
        self.scroll_offset = if self.scroll_offset > n {
            self.scroll_offset - n
        } else {
            0
        };
        self.scroll_locked = true;
    }

    /// Moves `n` lines towards the newest, stopping at the last line;
    /// reaching it resumes following new lines.
    pub fn scroll_down(&mut self, n: usize)
        requires
            old(self).scroll_offset + n <= usize::MAX,
        ensures
            ({
                let max = bottom(old(self).log_lines@.len());
                let target = if old(self).scroll_offset + n < max {
                    (old(self).scroll_offset + n) as usize
                } else {
                    max
                };
                *final(self) == (AppState {
                    scroll_offset: target,
                    scroll_locked: if target >= max {
                        false
                    } else {
                        old(self).scroll_locked
                    },
                    ..*old(self)
                })
            }),
    {
        let max = if self.log_lines.len() == 0 {
            0
        } else {
            self.log_lines.len() - 1
        };
        let target = self.scroll_offset + n;
        self.scroll_offset = if target < max {
            target
        } else {
            max
        };
        if self.scroll_offset >= max {
            self.scroll_locked = false;
        }
    }

    /// Sets the status-bar message.
    pub fn set_status(&mut self, msg: String, is_error: bool)
        ensures
            *final(self) == (AppState { status_message: msg, status_is_error: is_error, ..*old(self) }),
    {
        self.status_message = msg;
        self.status_is_error = is_error;
    }

    /// Finds the search matches afresh in the log, when a search is active.
    pub fn update_search(&mut self)
        requires
            old(self).wf(),
        ensures
            final(self).wf(),
            *final(self) == (AppState { search_state: final(self).search_state, ..*old(self) }),
            old(self).search_active ==> search_refreshed(
                old(self).search_state,
                final(self).search_state,
                log_texts(old(self).log_lines@),
            ),
            !old(self).search_active ==> final(self).search_state == old(self).search_state,
    {
        if self.search_active {
            let mut texts: Vec<String> = Vec::new();
            let mut i: usize = 0;
            while i < self.log_lines.len()
                invariant
                    i <= self.log_lines@.len(),
                    texts@.len() == i,
                    texts_of(texts@) == log_texts(self.log_lines@).take(i as int),
                decreases self.log_lines.len() - i,
            {
                let t = self.log_lines[i].text.clone();
                assert(t@ == log_texts(self.log_lines@)[i as int]);
                let ghost prev = texts@;
                texts.push(t);
                i += 1;
                proof {
                    assert forall|j: int| 0 <= j < i implies #[trigger] texts_of(texts@)[j] == log_texts(
                        self.log_lines@,
                    ).take(i as int)[j] by {
                        if j < i - 1 {
                            assert(texts@[j] == prev[j]);
                            assert(texts_of(prev)[j] == log_texts(self.log_lines@).take(i - 1)[j]);
                        }
                    }
                    assert(texts_of(texts@) =~= log_texts(self.log_lines@).take(i as int));
                }
            }
            assert(log_texts(self.log_lines@).take(self.log_lines@.len() as int) =~= log_texts(
                self.log_lines@,
            ));
            self.search_state.update_matches(texts.as_slice());
        }
    }

    /// Appends a line to the log: counts its bytes (received bytes also
    /// stamp the time of the last reception and add to the current second's
    /// count), keeps only the newest `scroll_buffer_size` lines (moving the
    /// scroll position up by one for each dropped line, not past the top),
    /// follows to the newest line unless scrolling is locked, and refreshes
    /// an active search.
    pub fn add_log_line(&mut self, line: LogLine)
        requires
            old(self).wf(),
            line.wf(),
            old(self).can_count(line),
        ensures
            final(self).wf(),
            log_appended(*old(self), *final(self), line),
    {
        self.count_traffic(line.direction, line.raw.len());
        self.log_lines.push(line);
        proof {
            assert forall|i: int| 0 <= i < self.log_lines@.len() implies #[trigger] self.log_lines@[i].wf() by {
                if i < old(self).log_lines@.len() {
                    assert(old(self).log_lines@[i].wf());
                }
            }
        }
        self.trim_to_buffer();
        self.stats.buffer_lines = self.log_lines.len();
        if !self.scroll_locked {
            self.scroll_to_bottom();
        }
        self.update_search();
    }

    /// Adds `n` bytes travelling in `direction` to the counters.
    fn count_traffic(&mut self, direction: Direction, n: usize)
        requires
            old(self).stats.wf(),
            direction == Direction::Rx ==> old(self).stats.rx_bytes + n <= u64::MAX
                && old(self).rx_bytes_last_sec + n <= u64::MAX,
            direction == Direction::Tx ==> old(self).stats.tx_bytes + n <= u64::MAX,
        ensures
            final(self).stats.wf(),
            final(self).stats.rx_bytes == old(self).stats.rx_bytes + (if direction == Direction::Rx {
                n
            } else {
                0
            }),
            final(self).rx_bytes_last_sec == old(self).rx_bytes_last_sec + (if direction
                == Direction::Rx {
                n
            } else {
                0
            }),
            final(self).stats.tx_bytes == old(self).stats.tx_bytes + (if direction == Direction::Tx {
                n
            } else {
                0
            }),
            direction == Direction::Rx ==> final(self).stats.last_rx_at is Some,
            direction != Direction::Rx ==> final(self).stats.last_rx_at == old(self).stats.last_rx_at,
            final(self).stats.error_count == old(self).stats.error_count,
            final(self).stats.connected_at == old(self).stats.connected_at,
            final(self).stats.buffer_lines == old(self).stats.buffer_lines,
            *final(self) == (AppState {
                stats: final(self).stats,
                rx_bytes_last_sec: final(self).rx_bytes_last_sec,
                ..*old(self)
            }),
    {
        let n = n as u64;
        match direction {
            Direction::Rx => {
                self.stats.rx_bytes = self.stats.rx_bytes + n;
                self.stats.last_rx_at = Some(now_millis());
                self.rx_bytes_last_sec = self.rx_bytes_last_sec + n;
            },
            Direction::Tx => {
                self.stats.tx_bytes = self.stats.tx_bytes + n;
            },
            Direction::System => {},
        }
    }

    /// Drops the oldest lines beyond `scroll_buffer_size`, moving the scroll
    /// position up by one for each, not past the top.
    fn trim_to_buffer(&mut self)
        requires
            forall|i: int| 0 <= i < old(self).log_lines@.len() ==> #[trigger] old(self).log_lines@[i].wf(),
        ensures
            forall|i: int| 0 <= i < final(self).log_lines@.len() ==> #[trigger] final(self).log_lines@[i].wf(),
            final(self).log_lines@ == newest(old(self).log_lines@, old(self).scroll_buffer_size as nat),
            final(self).scroll_offset == saturating_sub(
                old(self).scroll_offset as int,
                old(self).log_lines@.len() - final(self).log_lines@.len(),
            ) as usize,
            *final(self) == (AppState {
                log_lines: final(self).log_lines,
                scroll_offset: final(self).scroll_offset,
                ..*old(self)
            }),
    {
        let ghost all = self.log_lines@;
        let ghost mut removed: int = 0;
        while self.log_lines.len() > self.scroll_buffer_size
            invariant
                *self == (AppState {
                    log_lines: self.log_lines,
                    scroll_offset: self.scroll_offset,
                    ..*old(self)
                }),
                self.log_lines@ == all.skip(removed),
                all == old(self).log_lines@,
                0 <= removed <= all.len(),
                all.len() > self.scroll_buffer_size ==> removed <= all.len() - self.scroll_buffer_size,
                all.len() <= self.scroll_buffer_size ==> removed == 0,
                self.scroll_offset == saturating_sub(old(self).scroll_offset as int, removed),
            decreases self.log_lines.len(),
        {
            self.log_lines.remove(0);
            if self.scroll_offset > 0 {
                self.scroll_offset = self.scroll_offset - 1;
            }
            proof {
                removed = removed + 1;
                assert(self.log_lines@ =~= all.skip(removed));
            }
        }
        proof {
            assert(self.log_lines@ =~= newest(all, self.scroll_buffer_size as nat));
            assert forall|i: int| 0 <= i < self.log_lines@.len() implies #[trigger] self.log_lines@[i].wf() by {
                assert(self.log_lines@[i] == all[i + removed]);
            }
        }
    }

    /// Empties the log and returns to following new lines.
    pub fn clear_log(&mut self)
        requires
            old(self).wf(),
        ensures
            final(self).wf(),
            log_cleared(*old(self), *final(self)),
    {
        self.log_lines.clear();
        self.scroll_offset = 0;
        self.scroll_locked = false;
        self.stats.buffer_lines = 0;
    }

    /// Marks the port closed, records the fact in the log and the status bar,
    /// and returns whether the writer's channel was open, in which case the
    /// caller must ask the writer to close.
    pub fn disconnect(&mut self) -> (close_writer: bool)
        requires
            old(self).wf(),
        ensures
            final(self).wf(),
            close_writer == old(self).tx_open,
            disconnected(*old(self), *final(self)),
    {
        let was_open = self.tx_open;
        self.tx_open = false;
        self.connected = false;
        self.stats.connected_at = None;
        let ghost mid = *self;
        let line = LogLine::new_system("Disconnected.".to_owned());
        let ghost l = line;
        self.add_log_line(line);
        let ghost logged = *self;
        assert(message_logged(mid, logged, "Disconnected."@)) by {
            assert(log_appended(mid, logged, l));
        }
        self.set_status("Disconnected.".to_owned(), false);
        was_open
    }

    /// How long the port has been connected, as `HH:MM:SS`, or `N/A`.
    pub fn uptime_str(&self) -> (s: String)
        requires
            self.wf(),
        ensures
            self.stats.connected_at is None ==> s@ == "N/A"@,
            self.stats.connected_at is Some ==> exists|e: i64| s@ == uptime_text(e as int),
    {
        match self.stats.connected_at {
            None => "N/A".to_owned(),
            Some(t) => {
                let e = elapsed_seconds(t);
                format_uptime(e)
            },
        }
    }
}

/// `a / b` rounded towards zero, as integer division does.
pub open spec fn div_toward_zero(a: int, b: int) -> int {
    if a >= 0 {
        a / b
    } else {
        -((-a) / b)
    }
}

/// The remainder that goes with `div_toward_zero`: it has the sign of `a`.
pub open spec fn rem_toward_zero(a: int, b: int) -> int {
    a - b * div_toward_zero(a, b)
}

/// An elapsed time of `e` seconds as hours, minutes and seconds, each
/// printed with `{:02}` and separated by colons.  A negative time (the clock
/// went back) gives negative fields.
pub open spec fn uptime_text(e: int) -> Seq<char> {
    two_digit(div_toward_zero(e, 3600)) + seq![':'] + two_digit(
        div_toward_zero(rem_toward_zero(e, 3600), 60),
    ) + seq![':'] + two_digit(rem_toward_zero(e, 60))
}

/// An elapsed time as text (see `uptime_text`).
pub fn format_uptime(e: i64) -> (s: String)
    ensures
        s@ == uptime_text(e as int),
{
    let neg = e < 0;
    let a: u64 = if e == i64::MIN {
        9223372036854775808u64
    } else if neg {
        (-e) as u64
    } else {
        e as u64
    };
    let h = (a / 3600) as i64;
    let m = ((a % 3600) / 60) as i64;
    let sec = (a % 60) as i64;
    let (h, m, sec) = if neg {
        (-h, -m, -sec)
    } else {
        (h, m, sec)
    };
    proof {
        let ei = e as int;
        let ai = a as int;
        assert(ai == if ei < 0 { -ei } else { ei });
        assert(h == div_toward_zero(ei, 3600));
        assert(sec == rem_toward_zero(ei, 60)) by {
            if ei < 0 {
                assert(ai % 60 == ai - 60 * (ai / 60));
            }
        }
        assert(m == div_toward_zero(rem_toward_zero(ei, 3600), 60)) by {
            if ei < 0 {
                assert(rem_toward_zero(ei, 3600) == -(ai % 3600));
            }
        }
    }
    let mut v: Vec<char> = Vec::new();
    push_two_digit(&mut v, h);
    v.push(':');
    push_two_digit(&mut v, m);
    v.push(':');
    push_two_digit(&mut v, sec);
    assert(v@ =~= uptime_text(e as int));
    string_from_chars(&v)
}


/// The send newline cycle: four steps of `next_send` lead back to the start
/// from any mode but `Auto`, which enters the cycle at CRLF.
pub proof fn law_newline_cycle(m: NewlineMode)
    ensures
        m != NewlineMode::Auto ==> m.spec_next_send().spec_next_send().spec_next_send().spec_next_send()
            == m,
        m.spec_next_send() != NewlineMode::Auto,
        m == NewlineMode::Auto ==> m.spec_next_send() == NewlineMode::CrLf,
{
}

/// The view cycle: three steps of `next` lead back to the start.
pub proof fn law_view_cycle(v: ViewMode)
    ensures
        v.spec_next().spec_next().spec_next() == v,
        v.spec_next() != v,
{
}

/// Keeping the newest lines never leaves more than the buffer size, keeps
/// everything when it fits, and keeps the most recent line when the buffer
/// holds any.
pub proof fn law_log_bounded(lines: Seq<LogLine>, n: nat)
    ensures
        newest(lines, n).len() <= n,
        lines.len() <= n ==> newest(lines, n) == lines,
        n > 0 && lines.len() > 0 ==> newest(lines, n).len() > 0 && newest(lines, n).last()
            == lines.last(),
{
}

/// After a line is added to the log, the log holds at most
/// `scroll_buffer_size` lines, they are the newest of the old lines followed
/// by the new one, in their order, the new line is the last one whenever the
/// buffer holds any line, and the buffer count in the statistics is the
/// number of lines kept.
pub proof fn law_log_stays_in_buffer(pre: AppState, post: AppState, line: LogLine)
    requires
        log_appended(pre, post, line),
    ensures
        post.log_lines@.len() <= post.scroll_buffer_size,
        post.scroll_buffer_size == pre.scroll_buffer_size,
        post.stats.buffer_lines == post.log_lines@.len(),
        post.log_lines@ == pre.log_lines@.push(line).subrange(
            pre.log_lines@.len() + 1 - post.log_lines@.len(),
            pre.log_lines@.len() + 1 as int,
        ),
        post.scroll_buffer_size > 0 ==> post.log_lines@.last() == line,
{
    let all = pre.log_lines@.push(line);
    if all.len() > pre.scroll_buffer_size {
        assert(all.skip(all.len() - pre.scroll_buffer_size) =~= all.subrange(
            all.len() - pre.scroll_buffer_size,
            all.len() as int,
        ));
    } else {
        assert(all.subrange(0, all.len() as int) =~= all);
    }
}

/// Received text is shown as it came except for control characters: every
/// character from the space (0x20) up, and the tab, is shown unchanged; CR
/// and LF are shown as `↵`, and the other characters below the space as `·`.
/// The shown text has one character for each decoded character.
pub proof fn law_rx_text_keeps_printable(raw: Seq<u8>)
    ensures
        rx_text(raw).len() == utf8_lossy(raw).len(),
        forall|k: int|
            0 <= k < utf8_lossy(raw).len() ==> {
                let c = #[trigger] utf8_lossy(raw)[k];
                &&& (c as u32) >= 0x20 ==> rx_text(raw)[k] == c
                &&& c == '\t' ==> rx_text(raw)[k] == '\t'
                &&& (c == '\r' || c == '\n') ==> rx_text(raw)[k] == '↵'
                &&& ((c as u32) < 0x20 && c != '\t' && c != '\r' && c != '\n') ==> rx_text(raw)[k]
                    == '·'
            },
{
}

/// The send newline words name the endings they spell, in any case: "lf"
/// ends sent lines with LF (0x0A), "cr" with CR (0x0D), "none" with nothing,
/// and any other word with CR LF; a mode's own label names that mode.
pub proof fn law_tx_newline_words(w: Seq<char>, m: NewlineMode)
    ensures
        (tx_newline_of(w) == NewlineMode::Lf) <==> lowered(w) == "lf"@,
        (tx_newline_of(w) == NewlineMode::Cr) <==> lowered(w) == "cr"@,
        (tx_newline_of(w) == NewlineMode::None_) <==> lowered(w) == "none"@,
        tx_newline_of(w) != NewlineMode::Auto,
        lowered(w) == "lf"@ ==> tx_newline_of(w).spec_suffix() == seq![0x0au8],
        lowered(w) == "cr"@ ==> tx_newline_of(w).spec_suffix() == seq![0x0du8],
        lowered(w) == "none"@ ==> tx_newline_of(w).spec_suffix() == Seq::<u8>::empty(),
        m != NewlineMode::Auto ==> tx_newline_of(m.label()) == m,
{
    reveal(tx_newline_of);
    lemma_newline_words_differ();
    lemma_newline_labels_lowered();
}

/// The receive newline words name the endings they spell, in any case:
/// "crlf", "lf", "cr" and "none" cut at CR LF, LF, CR or nowhere, and any
/// other word cuts automatically; a mode's own label names that mode.
pub proof fn law_rx_newline_words(w: Seq<char>, m: NewlineMode)
    ensures
        (rx_newline_of(w) == NewlineMode::CrLf) <==> lowered(w) == "crlf"@,
        (rx_newline_of(w) == NewlineMode::Lf) <==> lowered(w) == "lf"@,
        (rx_newline_of(w) == NewlineMode::Cr) <==> lowered(w) == "cr"@,
        (rx_newline_of(w) == NewlineMode::None_) <==> lowered(w) == "none"@,
        rx_newline_of(m.label()) == m,
{
    reveal(rx_newline_of);
    lemma_newline_words_differ();
    lemma_newline_labels_lowered();
}

/// The view words name the views they spell, in any case: "hex" and
/// "split", anything else the text view; a view's own label names it.
pub proof fn law_view_mode_words(w: Seq<char>, v: ViewMode)
    ensures
        (view_mode_of(w) == ViewMode::Hex) <==> lowered(w) == "hex"@,
        (view_mode_of(w) == ViewMode::Split) <==> lowered(w) == "split"@,
        view_mode_of(v.label()) == v,
{
    reveal_strlit("hex");
    reveal_strlit("split");
    reveal_strlit("HEX");
    reveal_strlit("SPLIT");
    reveal_strlit("ASCII");
    reveal(view_mode_of);
    assert("hex"@.len() != "split"@.len());
    lemma_lowered_ascii("HEX"@);
    lemma_lowered_ascii("SPLIT"@);
    lemma_lowered_ascii("ASCII"@);
    assert(lowered("HEX"@) =~= "hex"@);
    assert(lowered("SPLIT"@) =~= "split"@);
    assert(lowered("ASCII"@).len() == 5 && lowered("ASCII"@)[0] == 'a');
}

/// `lowered` of an ASCII word is its characters lowered one by one.
proof fn lemma_lowered_ascii(s: Seq<char>)
    requires
        is_ascii_chars(s),
    ensures
        lowered(s).len() == s.len(),
        forall|i: int| 0 <= i < s.len() ==> #[trigger] lowered(s)[i] == ascii_lower_char(s[i]),
{
}

proof fn lemma_newline_words_differ()
    ensures
        "lf"@ != "cr"@,
        "lf"@ != "none"@,
        "cr"@ != "none"@,
        "crlf"@ != "lf"@,
        "crlf"@ != "cr"@,
        "crlf"@ != "none"@,
{
    reveal_strlit("lf");
    reveal_strlit("cr");
    reveal_strlit("none");
    reveal_strlit("crlf");
    assert("lf"@[0] != "cr"@[0]);
    assert("lf"@.len() != "none"@.len());
    assert("cr"@.len() != "none"@.len());
    assert("crlf"@.len() != "lf"@.len());
    assert("crlf"@.len() != "cr"@.len());
    assert("crlf"@[0] != "none"@[0]);
}

proof fn lemma_newline_labels_lowered()
    ensures
        lowered("LF"@) == "lf"@,
        lowered("CR"@) == "cr"@,
        lowered("NONE"@) == "none"@,
        lowered("CRLF"@) == "crlf"@,
        lowered("AUTO"@) == "auto"@,
        "auto"@ != "crlf"@ && "auto"@ != "lf"@ && "auto"@ != "cr"@ && "auto"@ != "none"@,
{
    reveal_strlit("lf");
    reveal_strlit("cr");
    reveal_strlit("none");
    reveal_strlit("crlf");
    reveal_strlit("auto");
    reveal_strlit("LF");
    reveal_strlit("CR");
    reveal_strlit("NONE");
    reveal_strlit("CRLF");
    reveal_strlit("AUTO");
    lemma_lowered_ascii("LF"@);
    lemma_lowered_ascii("CR"@);
    lemma_lowered_ascii("NONE"@);
    lemma_lowered_ascii("CRLF"@);
    lemma_lowered_ascii("AUTO"@);
    assert(lowered("LF"@) =~= "lf"@);
    assert(lowered("CR"@) =~= "cr"@);
    assert(lowered("NONE"@) =~= "none"@);
    assert(lowered("CRLF"@) =~= "crlf"@);
    assert(lowered("AUTO"@) =~= "auto"@);
    assert("auto"@[0] != "crlf"@[0]);
    assert("auto"@.len() != "lf"@.len());
    assert("auto"@.len() != "cr"@.len());
    assert("auto"@[0] != "none"@[0]);
}

} // verus!
