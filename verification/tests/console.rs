use easy_console::app::{AppState, Direction, LogLine, NewlineMode, PopupKind, ViewMode, format_uptime};
use easy_console::control::Action;
use easy_console::framing::{split_auto, split_by, split_by_byte, split_rx_data};
use easy_console::input::InputHistory;
use easy_console::keys::{Key, KeyCode};
use easy_console::macros::{expand_escapes, expand_escapes_checked, play_step, Macro, MacroStep, PlayStep};
use easy_console::serial::reader::{reader_step, ReadOutcome, ReaderStep};
use easy_console::serial::writer::{writer_step, WriterStep};
use easy_console::serial::{SerialConfig, SerialEvent, TxCommand};

fn key(code: KeyCode) -> Key {
    Key { code, ctrl: false }
}

fn ctrl(c: char) -> Key {
    Key { code: KeyCode::Char(c), ctrl: true }
}

fn press(state: &mut AppState, k: Key) -> easy_console::control::KeyOutcome {
    assert!(state.key_is_safe(k));
    state.handle_key_event(k)
}

fn type_text(state: &mut AppState, text: &str) {
    for c in text.chars() {
        let out = press(state, key(KeyCode::Char(c)));
        assert!(!out.quit);
    }
}

#[test]
fn newline_send_cycle_follows_readme() {
    let mut m = NewlineMode::CrLf;
    let mut seen = Vec::new();
    for _ in 0..4 {
        seen.push(m.as_str());
        m = m.next_send();
    }
    assert_eq!(seen, vec!["CRLF", "LF", "CR", "NONE"]);
    assert_eq!(m, NewlineMode::CrLf);
    assert_eq!(NewlineMode::Auto.next_send(), NewlineMode::CrLf);
    assert_eq!(NewlineMode::Auto.as_str(), "AUTO");
}

#[test]
fn newline_suffixes() {
    assert_eq!(NewlineMode::CrLf.suffix(), vec![b'\r', b'\n']);
    assert_eq!(NewlineMode::Lf.suffix(), vec![b'\n']);
    assert_eq!(NewlineMode::Cr.suffix(), vec![b'\r']);
    assert_eq!(NewlineMode::None_.suffix(), Vec::<u8>::new());
    assert_eq!(NewlineMode::Auto.suffix(), vec![b'\r', b'\n']);
}

#[test]
fn view_mode_cycle() {
    assert_eq!(ViewMode::Ascii.next(), ViewMode::Hex);
    assert_eq!(ViewMode::Hex.next(), ViewMode::Split);
    assert_eq!(ViewMode::Split.next(), ViewMode::Ascii);
    assert_eq!(ViewMode::Split.as_str(), "SPLIT");
}

#[test]
fn escapes_expand() {
    assert_eq!(expand_escapes("a\\r\\n\\t\\\\"), vec![b'a', b'\r', b'\n', b'\t', b'\\']);
    assert_eq!(expand_escapes("\\x41\\x7e"), vec![b'A', 0x7e]);
    assert_eq!(expand_escapes("\\xZZ!"), b"\\xZZ!".to_vec());
    assert_eq!(expand_escapes("\\q"), b"\\q".to_vec());
    assert_eq!(expand_escapes("end\\"), b"end\\".to_vec());
    assert_eq!(expand_escapes("\\x4"), b"\\x4".to_vec());
    assert_eq!(expand_escapes("plain text"), b"plain text".to_vec());
}

#[test]
fn escape_that_splits_a_character_is_refused() {
    assert_eq!(expand_escapes_checked("\\x4é"), None);
    assert_eq!(expand_escapes_checked("é\\x41"), Some(vec![0xc3, 0xa9, b'A']));
}

#[test]
fn splitting_received_bytes() {
    assert_eq!(split_by_byte(b"a\nb\n\nc", b'\n'), vec![b"a".to_vec(), b"b".to_vec(), vec![], b"c".to_vec()]);
    assert_eq!(split_by(b"one\r\ntwo\r\n", b"\r\n"), vec![b"one".to_vec(), b"two".to_vec()]);
    assert_eq!(split_auto(b"x\r\ny\rz\nw"), vec![b"x".to_vec(), b"y".to_vec(), b"z".to_vec(), b"w".to_vec()]);
    assert_eq!(split_rx_data(b"ab", &NewlineMode::None_), vec![b"ab".to_vec()]);
    assert_eq!(split_rx_data(b"a\rb\r", &NewlineMode::Cr), vec![b"a".to_vec(), b"b".to_vec()]);
}

#[test]
fn history_browsing() {
    let mut h = InputHistory::new(3);
    h.push("one".to_string());
    h.push("two".to_string());
    h.push("".to_string());
    assert_eq!(h.navigate_up("typed"), Some("two"));
    assert_eq!(h.navigate_up("ignored"), Some("one"));
    assert_eq!(h.navigate_up("ignored"), Some("one"));
    assert_eq!(h.navigate_down(), Some("two"));
    assert_eq!(h.navigate_down(), Some("typed"));
    assert_eq!(h.navigate_down(), None);
}

#[test]
fn history_moves_repeats_to_newest_and_drops_oldest() {
    let mut h = InputHistory::new(2);
    h.push("a".to_string());
    h.push("b".to_string());
    h.push("a".to_string());
    assert_eq!(h.navigate_up(""), Some("a"));
    assert_eq!(h.navigate_up(""), Some("b"));
    h.push("c".to_string());
    assert_eq!(h.navigate_up(""), Some("c"));
    assert_eq!(h.navigate_up(""), Some("a"));
    assert_eq!(h.navigate_up(""), Some("a"));
    h.reset();
    assert_eq!(h.navigate_down(), None);
}

#[test]
fn serial_description() {
    let c = SerialConfig::default();
    assert_eq!(c.description(), "115200 8N1");
    let mut c = SerialConfig::default();
    c.baud_rate = 9600;
    c.data_bits = 7;
    c.parity = "Even".to_string();
    c.stop_bits = 2;
    assert_eq!(c.description(), "9600 7E2");
}

#[test]
fn uptime_text() {
    assert_eq!(format_uptime(0), "00:00:00");
    assert_eq!(format_uptime(3661), "01:01:01");
    assert_eq!(format_uptime(360000), "100:00:00");
}

#[test]
fn new_state_defaults() {
    let s = AppState::new();
    assert_eq!(s.status_message, "Ready. Press F2 to select port.");
    assert_eq!(s.tx_newline, NewlineMode::CrLf);
    assert_eq!(s.rx_newline, NewlineMode::Auto);
    assert_eq!(s.scroll_buffer_size, 10000);
    assert!(s.local_echo && s.show_timestamp && !s.connected);
    assert_eq!(s.uptime_str(), "N/A");
}

#[test]
fn log_keeps_newest_lines() {
    let mut s = AppState::new();
    s.scroll_buffer_size = 2;
    for m in ["a", "b", "c"] {
        s.add_log_line(LogLine::new_system(m.to_string()));
    }
    let texts: Vec<&str> = s.log_lines.iter().map(|l| l.text.as_str()).collect();
    assert_eq!(texts, vec!["b", "c"]);
    assert_eq!(s.stats.buffer_lines, 2);
    assert_eq!(s.scroll_offset, 1);
}

#[test]
fn counters_follow_traffic() {
    let mut s = AppState::new();
    s.add_log_line(LogLine::new_rx(b"abc".to_vec()));
    s.add_log_line(LogLine::new_tx(b"xy".to_vec()));
    assert_eq!(s.stats.rx_bytes, 3);
    assert_eq!(s.stats.tx_bytes, 2);
    assert!(s.stats.last_rx_at.is_some());
}

#[test]
fn received_text_marks_control_characters() {
    let l = LogLine::new_rx(b"a\r\x01\tb".to_vec());
    assert_eq!(l.text, "a↵·\tb");
    assert_eq!(l.direction, Direction::Rx);
}

#[test]
fn hex_dump_rows() {
    let l = LogLine::new_tx((0u8..18).collect());
    let dump = l.hex_dump();
    let rows: Vec<&str> = dump.split('\n').collect();
    assert_eq!(rows.len(), 2);
    assert!(rows[0].starts_with('['));
    assert_eq!(&rows[0][14..], " TX  00 01 02 03 04 05 06 07 08 09 0A 0B 0C 0D 0E 0F  ................");
    assert_eq!(&rows[1][14..], format!(" TX  {:<48} {}", "10 11", ".."));
}

#[test]
fn received_bytes_become_lines() {
    let mut s = AppState::new();
    let mut buf = Vec::new();
    s.handle_serial_event(SerialEvent::Data(b"hello\r\nwor".to_vec()), &mut buf);
    s.handle_serial_event(SerialEvent::Data(b"ld\n\n".to_vec()), &mut buf);
    let actions = s.process_rx_buffer(&mut buf);
    assert!(buf.is_empty());
    assert!(actions.is_empty());
    let texts: Vec<&str> = s.log_lines.iter().map(|l| l.text.as_str()).collect();
    assert_eq!(texts, vec!["hello", "world"]);
    assert_eq!(s.stats.rx_bytes, 10);
}

#[test]
fn received_lines_go_to_log_file_when_logging() {
    let mut s = AppState::new();
    s.logging = true;
    s.rx_newline = NewlineMode::Lf;
    let mut buf = b"a\nb".to_vec();
    let actions = s.process_rx_buffer(&mut buf);
    assert_eq!(actions.len(), 2);
    assert!(matches!(&actions[0], Action::LogRx(v) if v == b"a"));
    assert!(matches!(&actions[1], Action::LogRx(v) if v == b"b"));
}

#[test]
fn serial_error_and_disconnect_are_reported() {
    let mut s = AppState::new();
    let mut buf = Vec::new();
    s.connected = true;
    s.handle_serial_event(SerialEvent::Error("boom".to_string()), &mut buf);
    assert_eq!(s.stats.error_count, 1);
    assert_eq!(s.status_message, "Error: boom");
    assert!(s.status_is_error);
    s.handle_serial_event(SerialEvent::Disconnected, &mut buf);
    assert!(!s.connected);
    assert_eq!(s.log_lines.last().unwrap().text, "Port disconnected.");
}

#[test]
fn quit_keys() {
    let mut s = AppState::new();
    assert!(press(&mut s, ctrl('q')).quit);
    assert!(press(&mut s, ctrl('c')).quit);
    assert!(!press(&mut s, key(KeyCode::Char('q'))).quit);
}

#[test]
fn function_keys() {
    let mut s = AppState::new();
    press(&mut s, key(KeyCode::F(4)));
    assert_eq!(s.view_mode, ViewMode::Hex);
    let out = press(&mut s, key(KeyCode::F(2)));
    assert_eq!(s.active_popup, Some(PopupKind::PortSelect));
    assert!(matches!(out.actions.as_slice(), [Action::ScanPorts]));
    press(&mut s, key(KeyCode::Esc));
    assert_eq!(s.active_popup, None);
    press(&mut s, key(KeyCode::F(1)));
    press(&mut s, key(KeyCode::Char('x')));
    assert_eq!(s.active_popup, None);
    let out = press(&mut s, key(KeyCode::F(5)));
    assert!(matches!(out.actions.as_slice(), [Action::StartLogFile]));
    s.logging_started("easy_console_1.log");
    assert!(s.logging);
    assert_eq!(s.status_message, "Logging to \"easy_console_1.log\"");
    let out = press(&mut s, key(KeyCode::F(5)));
    assert!(matches!(out.actions.as_slice(), [Action::StopLogFile]));
    assert!(!s.logging);
    assert_eq!(s.status_message, "Logging stopped.");
}

#[test]
fn ctrl_e_cycles_newline_and_ctrl_r_echo() {
    let mut s = AppState::new();
    press(&mut s, ctrl('e'));
    assert_eq!(s.tx_newline, NewlineMode::Lf);
    press(&mut s, ctrl('r'));
    assert!(!s.local_echo);
    assert_eq!(s.status_message, "Local echo OFF");
    press(&mut s, ctrl('w'));
    assert!(s.raw_mode_input);
    assert_eq!(s.status_message, "Raw mode ON");
}

#[test]
fn typing_and_sending_without_port() {
    let mut s = AppState::new();
    type_text(&mut s, "hi\\x21");
    assert_eq!(s.input, "hi\\x21");
    assert_eq!(s.cursor_pos, 6);
    let out = press(&mut s, key(KeyCode::Enter));
    assert!(out.actions.is_empty());
    assert_eq!(s.status_message, "Not connected. Press F2 to select port.");
    assert!(s.status_is_error);
    assert_eq!(s.input, "");
    assert_eq!(s.cursor_pos, 0);
    let last = s.log_lines.last().unwrap();
    assert_eq!(last.raw, b"hi!\r\n".to_vec());
    assert_eq!(last.direction, Direction::Tx);
    assert_eq!(s.stats.tx_bytes, 5);
    // Up recalls what was sent.
    press(&mut s, key(KeyCode::Char('z')));
    press(&mut s, key(KeyCode::Up));
    assert_eq!(s.input, "hi\\x21");
    assert_eq!(s.cursor_pos, 6);
    press(&mut s, key(KeyCode::Down));
    assert_eq!(s.input, "z");
}

#[test]
fn sending_to_open_port_and_log_file() {
    let mut s = AppState::new();
    s.tx_open = true;
    s.logging = true;
    type_text(&mut s, "AT");
    let out = press(&mut s, key(KeyCode::Enter));
    assert_eq!(out.actions.len(), 2);
    assert!(matches!(&out.actions[0], Action::Transmit(TxCommand::Send(d)) if d == b"AT\r\n"));
    assert!(matches!(&out.actions[1], Action::LogTx(d) if d == b"AT\r\n"));
}

#[test]
fn editing_the_input_line() {
    let mut s = AppState::new();
    type_text(&mut s, "abc");
    press(&mut s, key(KeyCode::Left));
    press(&mut s, key(KeyCode::Backspace));
    assert_eq!(s.input, "ac");
    assert_eq!(s.cursor_pos, 1);
    press(&mut s, key(KeyCode::Delete));
    assert_eq!(s.input, "a");
    press(&mut s, key(KeyCode::Right));
    assert_eq!(s.cursor_pos, 1);
    type_text(&mut s, "Z");
    assert_eq!(s.input, "aZ");
}

#[test]
fn cursor_inside_a_character_is_unsafe() {
    let mut s = AppState::new();
    type_text(&mut s, "é");
    assert_eq!(s.cursor_pos, 1);
    assert!(!s.key_is_safe(key(KeyCode::Char('x'))));
    assert!(s.key_is_safe(key(KeyCode::Backspace)));
}

#[test]
fn raw_mode_sends_each_key() {
    let mut s = AppState::new();
    s.raw_mode_input = true;
    s.tx_open = true;
    let out = press(&mut s, key(KeyCode::Char('A')));
    assert!(matches!(out.actions.as_slice(), [Action::Transmit(TxCommand::Send(d))] if d == b"A"));
    assert_eq!(s.log_lines.last().unwrap().raw, b"A".to_vec());
    assert_eq!(s.input, "");
}

#[test]
fn clearing_and_dropping() {
    let mut s = AppState::new();
    s.add_log_line(LogLine::new_system("x".to_string()));
    press(&mut s, ctrl('l'));
    assert_eq!(s.log_lines.len(), 1);
    assert_eq!(s.log_lines[0].text, "[Log cleared]");
    s.tx_open = true;
    s.logging = true;
    s.port_path = Some("/dev/ttyS0".to_string());
    let out = press(&mut s, ctrl('x'));
    assert!(matches!(out.actions.as_slice(), [Action::CloseWriter, Action::LogCleared]));
    assert_eq!(s.port_path, None);
    assert!(s.log_lines.is_empty());
    assert!(!s.tx_open);
    assert_eq!(s.status_message, "Disconnected.");
}

#[test]
fn scrolling() {
    let mut s = AppState::new();
    for i in 0..30 {
        s.add_log_line(LogLine::new_system(format!("{}", i)));
    }
    assert_eq!(s.scroll_offset, 29);
    press(&mut s, key(KeyCode::PageUp));
    assert_eq!(s.scroll_offset, 9);
    assert!(s.scroll_locked);
    press(&mut s, key(KeyCode::Up));
    assert_eq!(s.scroll_offset, 8);
    press(&mut s, key(KeyCode::Home));
    assert_eq!(s.scroll_offset, 0);
    press(&mut s, key(KeyCode::PageDown));
    assert_eq!(s.scroll_offset, 20);
    press(&mut s, key(KeyCode::End));
    assert_eq!(s.scroll_offset, 29);
    assert!(!s.scroll_locked);
}

#[test]
fn searching_the_log() {
    let mut s = AppState::new();
    for m in ["error one", "ok", "error two"] {
        s.add_log_line(LogLine::new_system(m.to_string()));
    }
    press(&mut s, key(KeyCode::Char('/')));
    assert!(s.search_active);
    type_text(&mut s, "err");
    assert_eq!(s.search_query, "err");
    assert_eq!(s.search_state.matches, vec![0, 2]);
    assert_eq!(s.search_state.current_line_index(), Some(0));
    press(&mut s, key(KeyCode::Char('n')));
    assert_eq!(s.scroll_offset, 2);
    assert!(s.scroll_locked);
    press(&mut s, key(KeyCode::Char('N')));
    assert_eq!(s.scroll_offset, 0);
    press(&mut s, ctrl('f'));
    assert!(s.filter_mode);
    press(&mut s, key(KeyCode::Backspace));
    assert_eq!(s.search_query, "er");
    press(&mut s, key(KeyCode::Char('(')));
    assert!(s.search_state.regex.is_none());
    assert!(s.search_state.matches.is_empty());
    press(&mut s, key(KeyCode::Esc));
    assert!(!s.search_active);
    assert_eq!(s.search_query, "");
}

#[test]
fn settings_popup() {
    let mut s = AppState::new();
    press(&mut s, key(KeyCode::F(3)));
    press(&mut s, key(KeyCode::Enter));
    assert_eq!(s.serial_config.baud_rate, 230400);
    press(&mut s, key(KeyCode::Left));
    press(&mut s, key(KeyCode::Left));
    assert_eq!(s.serial_config.baud_rate, 57600);
    s.serial_config.baud_rate = 12345;
    press(&mut s, key(KeyCode::Right));
    assert_eq!(s.serial_config.baud_rate, 230400);
    press(&mut s, key(KeyCode::Down));
    press(&mut s, key(KeyCode::Down));
    press(&mut s, key(KeyCode::Left));
    assert_eq!(s.serial_config.parity, "even");
    s.serial_config.parity = "ODD".to_string();
    press(&mut s, key(KeyCode::Right));
    assert_eq!(s.serial_config.parity, "even");
    for _ in 0..3 {
        press(&mut s, key(KeyCode::Down));
    }
    s.tx_open = true;
    let out = press(&mut s, key(KeyCode::Enter));
    assert!(s.serial_config.dtr && s.signals.dtr);
    assert!(matches!(out.actions.as_slice(), [Action::Transmit(TxCommand::SetDtr(true))]));
    for _ in 0..20 {
        press(&mut s, key(KeyCode::Down));
    }
    assert_eq!(s.settings_field_index, 13);
    press(&mut s, key(KeyCode::Enter));
    assert!(!s.show_timestamp);
}

#[test]
fn port_popup_connects() {
    let mut s = AppState::new();
    press(&mut s, key(KeyCode::F(2)));
    s.set_available_ports(vec!["/dev/ttyUSB1".to_string(), "/dev/ttyACM0".to_string(), "/dev/ttyUSB0".to_string()]);
    assert_eq!(s.available_ports, vec!["/dev/ttyACM0", "/dev/ttyUSB0", "/dev/ttyUSB1"]);
    press(&mut s, key(KeyCode::Down));
    press(&mut s, key(KeyCode::Down));
    press(&mut s, key(KeyCode::Down));
    assert_eq!(s.port_select_index, 2);
    press(&mut s, key(KeyCode::Up));
    let out = press(&mut s, key(KeyCode::Enter));
    assert_eq!(s.port_path.as_deref(), Some("/dev/ttyUSB0"));
    assert_eq!(s.active_popup, None);
    assert!(matches!(out.actions.as_slice(), [Action::OpenPort(p)] if p == "/dev/ttyUSB0"));
    s.serial_config.dtr = true;
    let actions = s.port_opened("/dev/ttyUSB0");
    assert!(matches!(actions.as_slice(), [Action::Transmit(TxCommand::SetDtr(true))]));
    assert!(s.connected && s.tx_open && s.signals.dtr);
    assert_eq!(s.status_message, "Connected to /dev/ttyUSB0 at 115200 baud.");
    assert!(s.stats.connected_at.is_some());
    // Connecting again closes the old writer first.
    let out = s.connect_port();
    assert!(matches!(out.actions.as_slice(), [Action::CloseWriter, Action::OpenPort(_)]));
    s.port_open_failed("busy");
    assert_eq!(s.status_message, "Failed to open port: busy");
    assert!(!s.connected);
}

#[test]
fn connecting_without_port() {
    let mut s = AppState::new();
    let out = s.connect_port();
    assert!(out.actions.is_empty());
    assert_eq!(s.status_message, "No port selected.");
}

#[test]
fn stale_port_selection_is_unsafe() {
    let mut s = AppState::new();
    press(&mut s, key(KeyCode::F(2)));
    s.set_available_ports(vec!["a".to_string()]);
    s.port_select_index = 3;
    assert!(!s.key_is_safe(key(KeyCode::Enter)));
    assert!(s.key_is_safe(key(KeyCode::Char('r'))));
    let out = press(&mut s, key(KeyCode::Char('r')));
    assert_eq!(s.port_select_index, 0);
    assert!(matches!(out.actions.as_slice(), [Action::ScanPorts]));
}

#[test]
fn macros_popup() {
    let mut s = AppState::new();
    s.macros = easy_console::config::macros_from_config(&vec![easy_console::config::MacroConfig {
        name: "boot".to_string(),
        steps: vec![easy_console::config::MacroStepConfig { send: "reset\\r".to_string(), delay_ms: 10 }],
    }]);
    press(&mut s, key(KeyCode::F(6)));
    let out = press(&mut s, key(KeyCode::Enter));
    assert!(out.actions.is_empty());
    assert_eq!(s.status_message, "Not connected.");
    assert_eq!(s.active_popup, None);
    s.tx_open = true;
    press(&mut s, key(KeyCode::F(6)));
    let out = press(&mut s, key(KeyCode::Enter));
    assert!(matches!(out.actions.as_slice(), [Action::RunMacro(0)]));
    assert_eq!(s.status_message, "Macro 'boot' started.");
    assert_eq!(expand_escapes(&s.macros[0].steps[0].send), b"reset\r".to_vec());
}

#[test]
fn copying_the_log() {
    let mut s = AppState::new();
    s.add_log_line(LogLine::new_system("hi".to_string()));
    s.add_log_line(LogLine::new_rx(b"x".to_vec()));
    let out = press(&mut s, ctrl('y'));
    match out.actions.as_slice() {
        [Action::CopyToClipboard(t)] => {
            let lines: Vec<&str> = t.split_terminator('\n').collect();
            assert_eq!(lines.len(), 2);
            assert!(lines[0].starts_with('[') && lines[0].ends_with("] * hi"));
            assert!(lines[1].ends_with("] > x"));
            assert_eq!(lines[0].len(), 19);
        },
        _ => panic!("expected one clipboard action"),
    }
    s.clipboard_done(Ok(()));
    assert_eq!(s.status_message, "Log copied to clipboard.");
    s.clipboard_done(Err("no display".to_string()));
    assert_eq!(s.status_message, "Clipboard error: no display");
    assert!(s.status_is_error);
}

#[test]
fn reader_and_writer_steps() {
    assert!(matches!(reader_step(ReadOutcome::Bytes(vec![])), ReaderStep::Continue));
    assert!(matches!(reader_step(ReadOutcome::TimedOut), ReaderStep::Continue));
    assert!(matches!(reader_step(ReadOutcome::Bytes(vec![1])), ReaderStep::Report(SerialEvent::Data(d)) if d == vec![1]));
    match reader_step(ReadOutcome::Failed("gone".to_string())) {
        ReaderStep::Finish(ev) => {
            assert!(matches!(ev.as_slice(), [SerialEvent::Error(m), SerialEvent::Disconnected] if m == "gone"));
        },
        _ => panic!("expected finish"),
    }
    assert!(matches!(writer_step(Some(TxCommand::Send(vec![9]))), WriterStep::Write(d) if d == vec![9]));
    assert!(matches!(writer_step(Some(TxCommand::SetRts(true))), WriterStep::SetRts(true)));
    assert!(matches!(writer_step(Some(TxCommand::Close)), WriterStep::Stop));
    assert!(matches!(writer_step(None), WriterStep::Stop));
}

#[test]
fn log_path_shown_in_debug_form() {
    let mut s = AppState::new();
    s.logging_started("a \"b\\c.log");
    assert_eq!(s.status_message, "Logging to \"a \\\"b\\\\c.log\"");
    assert!(s.logging);
}

#[test]
fn macro_played_step_by_step() {
    let m = Macro {
        name: "m".to_string(),
        steps: vec![
            MacroStep { send: "AT\\r".to_string(), delay_ms: 100 },
            MacroStep { send: "\\x41\\n".to_string(), delay_ms: 0 },
        ],
    };
    match play_step(&m, 0) {
        PlayStep::Send(d, p) => assert_eq!((d, p), (b"AT\r".to_vec(), 100)),
        _ => panic!("first step"),
    }
    match play_step(&m, 1) {
        PlayStep::Send(d, p) => assert_eq!((d, p), (b"A\n".to_vec(), 0)),
        _ => panic!("second step"),
    }
    assert!(matches!(play_step(&m, 2), PlayStep::Finished));
    let bad = Macro { name: "b".to_string(), steps: vec![MacroStep { send: "\\xa\u{e9}".to_string(), delay_ms: 0 }] };
    assert!(matches!(play_step(&bad, 0), PlayStep::BadEscape));
}

#[test]
fn popup_keys_keep_port_selection_in_list() {
    let mut s = AppState::new();
    s.set_available_ports(vec!["/dev/ttyA".to_string(), "/dev/ttyB".to_string()]);
    s.handle_key_event(key(KeyCode::F(2)));
    assert_eq!(s.active_popup, Some(PopupKind::PortSelect));
    for _ in 0..5 {
        let k = key(KeyCode::Down);
        assert!(s.key_is_safe(k));
        assert!(!s.handle_key_event(k).quit);
        assert!(s.port_select_index < s.available_ports.len());
    }
    assert_eq!(s.port_select_index, 1);
}
