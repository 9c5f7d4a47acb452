//! What the screen shows: how it is divided, which log lines are visible and
//! from where, and the text of each line, bar and list.  Drawing (colours,
//! widgets, the terminal) is left to the program around the library.
use vstd::prelude::*;
use ratatui::layout as tui;
use crate::app::{AppState, Direction, LogLine, direction_tag, hex_rows, hex_rows_of};
use crate::clock::{clock_text, is_clock_text};
use crate::search::SearchState;
use crate::app::uptime_text;
use crate::serial::ControlSignals;
use crate::text::{
    pad_left, push_padded_left, decimal, hex_spaced, pad_right, push_decimal, push_hex_spaced, push_str, string_from_chars,
    pad_to,
};

verus! {

// ---------------------------------------------------------------------------
// Areas of the screen
// ---------------------------------------------------------------------------

/// A rectangle of terminal cells.
#[derive(Debug, Clone, Copy, PartialEq, Eq, Structural)]
pub struct Rect {
    pub x: u16,
    pub y: u16,
    pub width: u16,
    pub height: u16,
}

/// How big one part of a split should be.
#[derive(Debug, Clone, Copy, PartialEq, Eq, Structural)]
pub enum Constraint {
    Length(u16),
    Min(u16),
    Percentage(u16),
}

/// `area` as ratatui's `Rect::new` takes it: width and height cut down so
/// that the rectangle ends within the `u16` range of coordinates.
pub open spec fn fitted(area: Rect) -> Rect {
    Rect {
        width: if area.width > u16::MAX - area.x {
            (u16::MAX - area.x) as u16
        } else {
            area.width
        },
        height: if area.height > u16::MAX - area.y {
            (u16::MAX - area.y) as u16
        } else {
            area.height
        },
        ..area
    }
}

/// `part` is a row of `area`: as wide as the (fitted) area, and lying within
/// its height.
pub open spec fn row_of(part: Rect, area: Rect) -> bool {
    &&& part.x == area.x
    &&& part.width == fitted(area).width
    &&& area.y <= part.y
    &&& part.y + part.height <= area.y + fitted(area).height
}

/// `part` is a column of `area`: as high as the (fitted) area, and lying
/// within its width.
pub open spec fn column_of(part: Rect, area: Rect) -> bool {
    &&& part.y == area.y
    &&& part.height == fitted(area).height
    &&& area.x <= part.x
    &&& part.x + part.width <= area.x + fitted(area).width
}

/// `inner` lies within `outer`.
pub open spec fn within(inner: Rect, outer: Rect) -> bool {
    &&& outer.x <= inner.x
    &&& inner.x + inner.width <= outer.x + outer.width
    &&& outer.y <= inner.y
    &&& inner.y + inner.height <= outer.y + outer.height
}

/// `ratatui::layout::Layout::split` on a layout with the given direction and
/// constraints, top to bottom when `vertical`, else left to right.  Ratatui's
/// source makes one part per constraint; it holds every boundary of a part
/// within the area and each part's end at or after its start by required
/// constraints of its solver, and gives each part the area's full extent
/// across the direction of the split (`changes_to_rects`).  Where along the
/// split each part lies is left unsaid: the sizes and the order of the parts
/// are soft constraints of the solver, and where they conflict, which
/// optimum it reaches can differ from one call to the next.
#[verifier::external_body]
fn split_area(area: Rect, vertical: bool, constraints: &Vec<Constraint>) -> (parts: Vec<Rect>)
    ensures
        parts@.len() == constraints@.len(),
        forall|i: int| 0 <= i < parts@.len() ==> if vertical {
            row_of(#[trigger] parts@[i], area)
        } else {
            column_of(parts@[i], area)
        },
{
    let cs: Vec<tui::Constraint> = constraints.iter().map(|c| match *c {
        Constraint::Length(n) => tui::Constraint::Length(n),
        Constraint::Min(n) => tui::Constraint::Min(n),
        Constraint::Percentage(n) => tui::Constraint::Percentage(n),
    }).collect();
    let d = if vertical { tui::Direction::Vertical } else { tui::Direction::Horizontal };
    let r = tui::Rect::new(area.x, area.y, area.width, area.height);
    let parts = tui::Layout::default().direction(d).constraints(cs).split(r);
    parts.iter().map(|p| Rect { x: p.x, y: p.y, width: p.width, height: p.height }).collect()
}

/// The areas of the main screen.
#[derive(Debug, Clone, Copy)]
pub struct AppLayout {
    pub status_bar: Rect,
    pub log_view: Rect,
    pub stats_panel: Option<Rect>,
    pub search_bar: Option<Rect>,
    pub input_bar: Rect,
    pub hint_bar: Rect,
}

/// The rows of the main screen, top to bottom: a one-line status bar, the
/// log (at least five lines), the statistics panel (five lines, when
/// shown), the search bar (one line, when a search is typed), the input
/// line and the hint line.
pub open spec fn layout_constraints(show_stats: bool, show_search: bool) -> Seq<Constraint> {
    seq![Constraint::Length(1), Constraint::Min(5)] + (if show_stats {
        seq![Constraint::Length(5)]
    } else {
        Seq::empty()
    }) + (if show_search {
        seq![Constraint::Length(1)]
    } else {
        Seq::empty()
    }) + seq![Constraint::Length(1), Constraint::Length(1)]
}

/// The layout made of the parts of `layout_constraints`, in order.
pub open spec fn layout_of(parts: Seq<Rect>, show_stats: bool, show_search: bool) -> AppLayout {
    let s = if show_stats {
        1int
    } else {
        0int
    };
    let q = if show_search {
        1int
    } else {
        0int
    };
    AppLayout {
        status_bar: parts[0],
        log_view: parts[1],
        stats_panel: if show_stats {
            Some(parts[2])
        } else {
            None
        },
        search_bar: if show_search {
            Some(parts[2 + s])
        } else {
            None
        },
        input_bar: parts[2 + s + q],
        hint_bar: parts[3 + s + q],
    }
}

/// The layout made of `parts`, the parts of `layout_constraints` in order:
/// the status bar, the log, then the statistics panel and the search bar
/// where shown, then the input line and the hint line.
pub fn layout_from_parts(parts: &Vec<Rect>, show_stats: bool, show_search: bool) -> (l: AppLayout)
    requires
        parts@.len() == layout_constraints(show_stats, show_search).len(),
    ensures
        l == layout_of(parts@, show_stats, show_search),
{
    let s: usize = if show_stats {
        1
    } else {
        0
    };
    let q: usize = if show_search {
        1
    } else {
        0
    };
    AppLayout {
        status_bar: parts[0],
        log_view: parts[1],
        stats_panel: if show_stats {
            Some(parts[2])
        } else {
            None
        },
        search_bar: if show_search {
            Some(parts[2 + s])
        } else {
            None
        },
        input_bar: parts[2 + s + q],
        hint_bar: parts[3 + s + q],
    }
}

/// The rows of the main screen as a list (see `layout_constraints`).
pub fn layout_constraint_list(show_stats: bool, show_search: bool) -> (cs: Vec<Constraint>)
    ensures
        cs@ == layout_constraints(show_stats, show_search),
{
    let mut cs: Vec<Constraint> = Vec::new();
    cs.push(Constraint::Length(1));
    cs.push(Constraint::Min(5));
    if show_stats {
        cs.push(Constraint::Length(5));
    }
    if show_search {
        cs.push(Constraint::Length(1));
    }
    cs.push(Constraint::Length(1));
    cs.push(Constraint::Length(1));
    assert(cs@ =~= layout_constraints(show_stats, show_search));
    cs
}

/// Every bar of `l` is a row of `area`.
pub open spec fn bars_are_rows(l: AppLayout, area: Rect) -> bool {
    &&& row_of(l.status_bar, area)
    &&& row_of(l.log_view, area)
    &&& (l.stats_panel matches Some(p) ==> row_of(p, area))
    &&& (l.search_bar matches Some(p) ==> row_of(p, area))
    &&& row_of(l.input_bar, area)
    &&& row_of(l.hint_bar, area)
}

/// Divides the screen `area` into the rows of `layout_constraints`, split
/// top to bottom as ratatui places them (see `layout_from_parts`): which bar
/// gets which part is fixed, every bar spans the screen's width and lies
/// within its height, and the statistics panel and the search bar are there
/// exactly when shown.
pub fn compute_layout(area: Rect, show_stats: bool, show_search: bool) -> (l: AppLayout)
    ensures
        exists|parts: Seq<Rect>|
            #![trigger layout_of(parts, show_stats, show_search)]
            parts.len() == layout_constraints(show_stats, show_search).len() && l == layout_of(
                parts,
                show_stats,
                show_search,
            ),
        bars_are_rows(l, area),
        l.stats_panel is Some <==> show_stats,
        l.search_bar is Some <==> show_search,
{
    let cs = layout_constraint_list(show_stats, show_search);
    let parts = split_area(area, true, &cs);
    proof {
        let n = parts@.len() as int;
        assert(row_of(parts@[0], area));
        assert(row_of(parts@[1], area));
        assert(row_of(parts@[n - 1], area));
        assert(row_of(parts@[n - 2], area));
        if show_stats {
            assert(row_of(parts@[2], area));
        }
        if show_search {
            assert(row_of(parts@[n - 3], area));
        }
    }
    layout_from_parts(&parts, show_stats, show_search)
}

/// Three parts: `p` percent in the middle and half the rest on each side.
pub open spec fn centred_thirds(p: u16) -> Seq<Constraint> {
    seq![
        Constraint::Percentage(((100 - p) / 2) as u16),
        Constraint::Percentage(p),
        Constraint::Percentage(((100 - p) / 2) as u16),
    ]
}

/// A popup's area: the middle of three columns (`centred_thirds(percent_x)`)
/// of the middle of three rows (`centred_thirds(percent_y)`) of `r`, as
/// ratatui places them: it lies within `r`.  How large ratatui makes the
/// middle parts is not promised (see `split_area`).
pub fn centered_rect(percent_x: u16, percent_y: u16, r: Rect) -> (c: Rect)
    requires
        percent_x <= 100,
        percent_y <= 100,
    ensures
        within(c, r),
{
    let mut rows: Vec<Constraint> = Vec::new();
    rows.push(Constraint::Percentage((100 - percent_y) / 2));
    rows.push(Constraint::Percentage(percent_y));
    rows.push(Constraint::Percentage((100 - percent_y) / 2));
    assert(rows@ =~= centred_thirds(percent_y));
    let middle = split_area(r, true, &rows);
    let mut cols: Vec<Constraint> = Vec::new();
    cols.push(Constraint::Percentage((100 - percent_x) / 2));
    cols.push(Constraint::Percentage(percent_x));
    cols.push(Constraint::Percentage((100 - percent_x) / 2));
    assert(cols@ =~= centred_thirds(percent_x));
    let parts = split_area(middle[1], false, &cols);
    assert(row_of(middle@[1], r));
    assert(column_of(parts@[1], middle@[1]));
    parts[1]
}

// ---------------------------------------------------------------------------
// Which log lines are visible
// ---------------------------------------------------------------------------

/// The indices below `n` that `ss` matches, in order.
pub open spec fn matching_indices(ss: SearchState, n: nat) -> Seq<usize>
    decreases n,
{
    if n == 0 {
        Seq::empty()
    } else if ss.matches@.contains((n - 1) as usize) {
        matching_indices(ss, (n - 1) as nat).push((n - 1) as usize)
    } else {
        matching_indices(ss, (n - 1) as nat)
    }
}

/// The indices of the log lines shown: only the matching ones while a
/// search filters, else all.
pub open spec fn visible_indices(s: AppState) -> Seq<usize> {
    if s.filter_mode && s.search_active {
        matching_indices(s.search_state, s.log_lines@.len())
    } else {
        Seq::new(s.log_lines@.len(), |i: int| i as usize)
    }
}

/// The indices of the log lines shown (see `visible_indices`).
pub fn visible_lines(s: &AppState) -> (v: Vec<usize>)
    ensures
        v@ == visible_indices(*s),
{
    let filter = s.filter_mode && s.search_active;
    let mut v: Vec<usize> = Vec::new();
    let mut i: usize = 0;
    while i < s.log_lines.len()
        invariant
            i <= s.log_lines@.len(),
            filter == (s.filter_mode && s.search_active),
            filter ==> v@ == matching_indices(s.search_state, i as nat),
            !filter ==> v@ == Seq::new(i as nat, |k: int| k as usize),
        decreases s.log_lines.len() - i,
    {
        if !filter || s.search_state.is_match(i) {
            v.push(i);
        }
        i += 1;
        proof {
            if !filter {
                assert(v@ =~= Seq::new(i as nat, |k: int| k as usize));
            }
        }
    }
    v
}

/// The first of `total` lines shown in a window of `height` lines, keeping
/// the line at `offset` (at most the last) in the middle where it can.
pub open spec fn window_start(total: int, height: int, offset: int) -> int {
    if total > height {
        let off = if offset < total - 1 {
            offset
        } else {
            total - 1
        };
        let half = height / 2;
        if off < half {
            0
        } else if off + half >= total {
            total - height
        } else {
            off - half
        }
    } else {
        0
    }
}

/// The first line of the ASCII and split views (see `window_start`).
pub fn log_window_start(total: usize, height: usize, offset: usize) -> (start: usize)
    ensures
        start == window_start(total as int, height as int, offset as int),
{
    if total > height {
        let off = if offset < total - 1 {
            offset
        } else {
            total - 1
        };
        let half = height / 2;
        if off < half {
            0
        } else if off >= total - half {
            total - height
        } else {
            off - half
        }
    } else {
        0
    }
}

/// The first row of the hex view: the newest rows fill the window.
pub fn tail_start(total: usize, height: usize) -> (start: usize)
    ensures
        start == (if total > height {
            total - height
        } else {
            0
        }),
{
    if total > height {
        total - height
    } else {
        0
    }
}

// ---------------------------------------------------------------------------
// The text of log lines
// ---------------------------------------------------------------------------

/// The bracketed clock reading before a line, when timestamps are shown.
pub open spec fn stamp_prefix(stamp: Option<Seq<char>>) -> Seq<char> {
    match stamp {
        Some(ts) => seq!['['] + ts + seq![']', ' '],
        None => Seq::empty(),
    }
}

/// The direction mark of the ASCII view.
pub open spec fn ascii_mark(d: Direction) -> Seq<char> {
    match d {
        Direction::Rx => seq!['>', ' '],
        Direction::Tx => seq!['<', ' '],
        Direction::System => seq!['*', ' '],
    }
}

/// A character of a line's text as the ASCII view shows it: line breaks
/// become `↵`.
pub open spec fn shown_char(c: char) -> char {
    if c == '\n' || c == '\r' {
        '↵'
    } else {
        c
    }
}

/// A log line in the ASCII view.
pub open spec fn ascii_line(l: LogLine, stamp: Option<Seq<char>>) -> Seq<char> {
    stamp_prefix(stamp) + ascii_mark(l.direction) + l.text@.map_values(|c: char| shown_char(c))
}

/// `stamp` is what a line's prefix is made from: a clock reading when
/// timestamps are shown, nothing otherwise.
pub open spec fn stamp_fits(stamp: Option<Seq<char>>, show_timestamp: bool) -> bool {
    match stamp {
        Some(ts) => show_timestamp && is_clock_text(ts),
        None => !show_timestamp,
    }
}

/// The stamp prefix of `l` (see `stamp_prefix`).
fn push_stamp(v: &mut Vec<char>, l: &LogLine, show_timestamp: bool) -> (stamp: Ghost<Option<Seq<char>>>)
    requires
        l.wf(),
    ensures
        stamp_fits(stamp@, show_timestamp),
        final(v)@ == old(v)@ + stamp_prefix(stamp@),
{
    if show_timestamp {
        let ts = clock_text(l.timestamp);
        v.push('[');
        push_str(v, ts.as_str());
        v.push(']');
        v.push(' ');
        assert(v@ =~= old(v)@ + stamp_prefix(Some(ts@)));
        Ghost(Some(ts@))
    } else {
        assert(v@ =~= old(v)@ + stamp_prefix(None));
        Ghost(None)
    }
}

/// A log line's text in the ASCII view (see `ascii_line`).
pub fn format_ascii_line(l: &LogLine, show_timestamp: bool) -> (s: String)
    requires
        l.wf(),
    ensures
        exists|stamp: Option<Seq<char>>|
            stamp_fits(stamp, show_timestamp) && s@ == #[trigger] ascii_line(*l, stamp),
{
    let mut v: Vec<char> = Vec::new();
    let stamp = push_stamp(&mut v, l, show_timestamp);
    let mark = match l.direction {
        Direction::Rx => '>',
        Direction::Tx => '<',
        Direction::System => '*',
    };
    v.push(mark);
    v.push(' ');
    let ghost head = v@;
    let text: Vec<char> = crate::text::chars_of(l.text.as_str());
    let mut i: usize = 0;
    while i < text.len()
        invariant
            i <= text@.len(),
            text@ == l.text@,
            v@ == head + text@.take(i as int).map_values(|c: char| shown_char(c)),
        decreases text.len() - i,
    {
        let c = text[i];
        v.push(if c == '\n' || c == '\r' {
            '↵'
        } else {
            c
        });
        i += 1;
        proof {
            assert(text@.take(i as int).map_values(|c: char| shown_char(c)) =~= text@.take(
                i - 1,
            ).map_values(|c: char| shown_char(c)).push(shown_char(c)));
        }
    }
    assert(text@.take(text@.len() as int) =~= text@);
    assert(v@ =~= ascii_line(*l, stamp@));
    string_from_chars(&v)
}

/// A log line in the hex view: the stamp prefix and direction tag alone when
/// it has no bytes, else its hex-dump rows with that prefix.
pub open spec fn hex_view_rows(l: LogLine, stamp: Option<Seq<char>>) -> Seq<Seq<char>> {
    let prefix = stamp_prefix(stamp) + direction_tag(l.direction);
    if l.raw@.len() == 0 {
        seq![prefix]
    } else {
        hex_rows(prefix, l.raw@)
    }
}

/// A log line's rows in the hex view (see `hex_view_rows`).
pub fn format_hex_lines(l: &LogLine, show_timestamp: bool) -> (rows: Vec<String>)
    requires
        l.wf(),
    ensures
        exists|stamp: Option<Seq<char>>|
            stamp_fits(stamp, show_timestamp) && rows@.map_values(|r: String| r@)
                == #[trigger] hex_view_rows(*l, stamp),
{
    let mut prefix: Vec<char> = Vec::new();
    let stamp = push_stamp(&mut prefix, l, show_timestamp);
    let tag = match l.direction {
        Direction::Rx => "RX",
        Direction::Tx => "TX",
        Direction::System => "SY",
    };
    push_str(&mut prefix, tag);
    assert(prefix@ =~= stamp_prefix(stamp@) + direction_tag(l.direction));
    if l.raw.len() == 0 {
        let mut rows: Vec<String> = Vec::new();
        rows.push(string_from_chars(&prefix));
        assert(rows@.map_values(|r: String| r@) =~= hex_view_rows(*l, stamp@));
        rows
    } else {
        let rows = hex_rows_of(&prefix, l.raw.as_slice());
        assert(rows@.map_values(|r: String| r@) == hex_view_rows(*l, stamp@));
        rows
    }
}

/// A log line's bytes in the hex half of the split view.
pub fn split_hex_text(l: &LogLine) -> (s: String)
    ensures
        s@ == hex_spaced(l.raw@),
{
    let mut v: Vec<char> = Vec::new();
    push_hex_spaced(&mut v, l.raw.as_slice());
    assert(v@ =~= hex_spaced(l.raw@));
    string_from_chars(&v)
}

// ---------------------------------------------------------------------------
// The statistics panel and the macro list
// ---------------------------------------------------------------------------

/// The counters line of the statistics panel, `uptime` being the uptime text.
pub open spec fn counters_line(s: AppState, uptime: Seq<char>) -> Seq<char> {
    " RX: "@ + pad_left(decimal(s.stats.rx_bytes as nat), 10) + " bytes  TX: "@ + pad_left(
        decimal(s.stats.tx_bytes as nat),
        8,
    ) + " bytes  Errors: "@ + pad_left(decimal(s.stats.error_count as nat), 4) + "  Uptime: "@
        + uptime
}

/// A control line's state in the statistics panel.
pub open spec fn signal_text(on: bool) -> Seq<char> {
    if on {
        "ON "@
    } else {
        "OFF"@
    }
}

/// The control-lines line of the statistics panel.
pub open spec fn signals_line(g: ControlSignals) -> Seq<char> {
    " DTR: "@ + signal_text(g.dtr) + "  RTS: "@ + signal_text(g.rts) + "  CTS: "@ + signal_text(g.cts)
        + "  DSR: "@ + signal_text(g.dsr) + "  DCD: "@ + signal_text(g.dcd) + "  RI: "@
        + signal_text(g.ri)
}

/// Appends `n` in decimal, right-aligned in `width` characters.
fn push_number_padded(v: &mut Vec<char>, n: u64, width: usize)
    ensures
        final(v)@ == old(v)@ + pad_left(decimal(n as nat), width as nat),
{
    let mut digits: Vec<char> = Vec::new();
    push_decimal(&mut digits, n);
    assert(digits@ =~= decimal(n as nat));
    push_padded_left(v, &digits, width);
}

/// The counters line of the statistics panel (see `counters_line`), with
/// the uptime as `AppState::uptime_str` gives it.
pub fn stats_counters_line(s: &AppState) -> (t: String)
    requires
        s.wf(),
    ensures
        exists|uptime: Seq<char>|
            #![trigger counters_line(*s, uptime)]
            t@ == counters_line(*s, uptime) && (s.stats.connected_at is None ==> uptime == "N/A"@)
                && (s.stats.connected_at is Some ==> exists|e: i64| uptime == uptime_text(e as int)),
{
    let uptime = s.uptime_str();
    let mut v: Vec<char> = Vec::new();
    push_str(&mut v, " RX: ");
    push_number_padded(&mut v, s.stats.rx_bytes, 10);
    push_str(&mut v, " bytes  TX: ");
    push_number_padded(&mut v, s.stats.tx_bytes, 8);
    push_str(&mut v, " bytes  Errors: ");
    push_number_padded(&mut v, s.stats.error_count, 4);
    push_str(&mut v, "  Uptime: ");
    push_str(&mut v, uptime.as_str());
    assert(v@ =~= counters_line(*s, uptime@));
    string_from_chars(&v)
}

/// The state of a control line (see `signal_text`).
fn signal_word(on: bool) -> (s: &'static str)
    ensures
        s@ == signal_text(on),
{
    if on {
        "ON "
    } else {
        "OFF"
    }
}

/// The control-lines line of the statistics panel (see `signals_line`).
pub fn stats_signals_line(g: &ControlSignals) -> (t: String)
    ensures
        t@ == signals_line(*g),
{
    let mut v: Vec<char> = Vec::new();
    push_str(&mut v, " DTR: ");
    push_str(&mut v, signal_word(g.dtr));
    push_str(&mut v, "  RTS: ");
    push_str(&mut v, signal_word(g.rts));
    push_str(&mut v, "  CTS: ");
    push_str(&mut v, signal_word(g.cts));
    push_str(&mut v, "  DSR: ");
    push_str(&mut v, signal_word(g.dsr));
    push_str(&mut v, "  DCD: ");
    push_str(&mut v, signal_word(g.dcd));
    push_str(&mut v, "  RI: ");
    push_str(&mut v, signal_word(g.ri));
    assert(v@ =~= signals_line(*g));
    string_from_chars(&v)
}

/// The note after a macro's name in the macro list: how many steps it has.
pub fn macro_steps_note(steps: usize) -> (t: String)
    ensures
        t@ == " ("@ + decimal(steps as nat) + " steps)"@,
{
    let mut v: Vec<char> = Vec::new();
    push_str(&mut v, " (");
    push_decimal(&mut v, steps as u64);
    push_str(&mut v, " steps)");
    string_from_chars(&v)
}

// ---------------------------------------------------------------------------
// Bars and lists
// ---------------------------------------------------------------------------

/// The text of the search bar: the query, the selected match (counting from
/// one, 0 for none) out of how many, and a filter mark.
pub open spec fn search_bar_line(s: AppState) -> Seq<char> {
    let ss = s.search_state;
    " Search: "@ + s.search_query@ + " ["@ + (match ss.current_match {
        Some(i) => decimal((i + 1) as nat),
        None => "0"@,
    }) + "/"@ + decimal(ss.matches@.len()) + "] "@ + (if s.filter_mode {
        "[FILTER]"@
    } else {
        Seq::empty()
    })
}

/// The search bar's text (see `search_bar_line`).
pub fn search_bar_text(s: &AppState) -> (t: String)
    requires
        s.search_state.wf(),
    ensures
        t@ == search_bar_line(*s),
{
    let mut v: Vec<char> = Vec::new();
    push_str(&mut v, " Search: ");
    push_str(&mut v, s.search_query.as_str());
    push_str(&mut v, " [");
    let n = s.search_state.matches.len();
    match s.search_state.current_match {
        Some(i) => {
            assert(i < n);
            push_decimal(&mut v, i as u64 + 1);
        },
        None => push_str(&mut v, "0"),
    }
    push_str(&mut v, "/");
    push_decimal(&mut v, s.search_state.matches.len() as u64);
    push_str(&mut v, "] ");
    if s.filter_mode {
        push_str(&mut v, "[FILTER]");
    }
    assert(v@ =~= search_bar_line(*s));
    string_from_chars(&v)
}

/// The prompt before the input line: the input mode and the line ending.
pub open spec fn prompt_line(raw: bool, nl: Seq<char>) -> Seq<char> {
    (if raw {
        "RAW"@
    } else {
        "TX"@
    }) + " "@ + nl + " >"@
}

/// The prompt before the input line (see `prompt_line`).
pub fn input_prompt(s: &AppState) -> (t: String)
    ensures
        t@ == prompt_line(s.raw_mode_input, s.tx_newline.label()),
{
    let mut v: Vec<char> = Vec::new();
    push_str(&mut v, if s.raw_mode_input {
        "RAW"
    } else {
        "TX"
    });
    push_str(&mut v, " ");
    push_str(&mut v, s.tx_newline.as_str());
    push_str(&mut v, " >");
    assert(v@ =~= prompt_line(s.raw_mode_input, s.tx_newline.label()));
    string_from_chars(&v)
}

/// One row of the settings list: two spaces, the name padded to 20
/// columns, a space, the value.
pub open spec fn setting_row(name: Seq<char>, value: Seq<char>) -> Seq<char> {
    seq![' ', ' '] + pad_right(name, 20) + seq![' '] + value
}

/// A switch's value as the settings list shows it.
pub open spec fn on_off(b: bool) -> Seq<char> {
    if b {
        "ON"@
    } else {
        "OFF"@
    }
}

/// The rows of the settings list, in order.
pub open spec fn settings_rows(s: AppState) -> Seq<Seq<char>> {
    let c = s.serial_config;
    seq![
        setting_row("Baud Rate"@, decimal(c.baud_rate as nat)),
        setting_row("Data Bits"@, decimal(c.data_bits as nat)),
        setting_row("Parity"@, c.parity@),
        setting_row("Stop Bits"@, decimal(c.stop_bits as nat)),
        setting_row("Flow Control"@, c.flow_control@),
        setting_row("DTR"@, on_off(c.dtr)),
        setting_row("RTS"@, on_off(c.rts)),
        setting_row("Timeout (ms)"@, decimal(c.timeout_ms as nat)),
        setting_row("TX Newline"@, s.tx_newline.label()),
        setting_row("RX Newline"@, s.rx_newline.label()),
        setting_row("View Mode"@, s.view_mode.label()),
        setting_row("Local Echo"@, on_off(s.local_echo)),
        setting_row("Scroll Buffer"@, decimal(s.scroll_buffer_size as nat)),
        setting_row("Show Timestamp"@, on_off(s.show_timestamp)),
    ]
}

/// Adds a settings row whose value is a number.
fn push_number_row(rows: &mut Vec<String>, name: &str, value: u64)
    ensures
        final(rows)@.map_values(|r: String| r@) == old(rows)@.map_values(|r: String| r@).push(
            setting_row(name@, decimal(value as nat)),
        ),
{
    let mut v: Vec<char> = Vec::new();
    push_decimal(&mut v, value);
    let t = string_from_chars(&v);
    push_row(rows, name, t.as_str());
}

/// Adds a settings row.
fn push_row(rows: &mut Vec<String>, name: &str, value: &str)
    ensures
        final(rows)@.map_values(|r: String| r@) == old(rows)@.map_values(|r: String| r@).push(
            setting_row(name@, value@),
        ),
{
    let mut v: Vec<char> = Vec::new();
    v.push(' ');
    v.push(' ');
    let start = v.len();
    push_str(&mut v, name);
    let ghost named = v@;
    pad_to(&mut v, start, 20);
    proof {
        assert(named.take(2) =~= seq![' ', ' ']);
        assert(named.skip(2) =~= name@);
    }
    v.push(' ');
    push_str(&mut v, value);
    assert(v@ =~= setting_row(name@, value@));
    rows.push(string_from_chars(&v));
    assert(rows@.map_values(|r: String| r@) =~= old(rows)@.map_values(|r: String| r@).push(
        setting_row(name@, value@),
    ));
}

/// The text of a switch (see `on_off`).
fn on_off_text(b: bool) -> (s: &'static str)
    ensures
        s@ == on_off(b),
{
    if b {
        "ON"
    } else {
        "OFF"
    }
}

/// The rows of the settings list (see `settings_rows`).
pub fn settings_list_rows(s: &AppState) -> (rows: Vec<String>)
    ensures
        rows@.map_values(|r: String| r@) == settings_rows(*s),
{
    let c = &s.serial_config;
    let mut rows: Vec<String> = Vec::new();
    push_number_row(&mut rows, "Baud Rate", c.baud_rate as u64);
    push_number_row(&mut rows, "Data Bits", c.data_bits as u64);
    push_row(&mut rows, "Parity", c.parity.as_str());
    push_number_row(&mut rows, "Stop Bits", c.stop_bits as u64);
    push_row(&mut rows, "Flow Control", c.flow_control.as_str());
    push_row(&mut rows, "DTR", on_off_text(c.dtr));
    push_row(&mut rows, "RTS", on_off_text(c.rts));
    push_number_row(&mut rows, "Timeout (ms)", c.timeout_ms);
    push_row(&mut rows, "TX Newline", s.tx_newline.as_str());
    push_row(&mut rows, "RX Newline", s.rx_newline.as_str());
    push_row(&mut rows, "View Mode", s.view_mode.as_str());
    push_row(&mut rows, "Local Echo", on_off_text(s.local_echo));
    push_number_row(&mut rows, "Scroll Buffer", s.scroll_buffer_size as u64);
    push_row(&mut rows, "Show Timestamp", on_off_text(s.show_timestamp));
    assert(rows@.map_values(|r: String| r@) =~= settings_rows(*s));
    rows
}

} // verus!

verus! {

/// The window of the ASCII and split views always shows the line at the
/// scroll position (or the last line, when the position is past it), and
/// stays within the log.
pub proof fn law_window_shows_scroll_position(total: int, height: int, offset: int)
    requires
        0 < height < total,
        0 <= offset,
    ensures
        ({
            let start = window_start(total, height, offset);
            let shown = if offset < total - 1 {
                offset
            } else {
                total - 1
            };
            &&& 0 <= start
            &&& start + height <= total
            &&& start <= shown < start + height
        }),
{
}

} // verus!
