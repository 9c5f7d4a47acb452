use easy_console::app::{AppState, LogLine, NewlineMode};
use easy_console::framing::{split_by, split_by_byte, split_rx_data};
use easy_console::keys::{Key, KeyCode};
use easy_console::view::log_window_start;

fn key(code: KeyCode) -> Key {
    Key { code, ctrl: false }
}

#[test]
fn crlf_lines_reassemble() {
    let data = b"AT\r\nOK\r\npartial".to_vec();
    let lines = split_by(&data, b"\r\n");
    let mut joined = Vec::new();
    for l in &lines {
        joined.extend_from_slice(l);
        joined.extend_from_slice(b"\r\n");
    }
    let mut expected = data.clone();
    expected.extend_from_slice(b"\r\n");
    assert_eq!(joined, expected);
    for l in &lines {
        assert!(!l.windows(2).any(|w| w == b"\r\n"));
    }
}

#[test]
fn byte_lines_reassemble() {
    let data = b"a\n\nb\n".to_vec();
    let lines = split_by_byte(&data, b'\n');
    let mut joined = Vec::new();
    for l in &lines {
        joined.extend_from_slice(l);
        joined.push(b'\n');
    }
    assert_eq!(joined, data);
}

#[test]
fn setting_forward_then_back_restores() {
    for field in [0usize, 1, 2, 3, 4, 5, 6, 11, 13] {
        let mut s = AppState::new();
        s.settings_field_index = field;
        s.serial_config.data_bits = 6;
        s.serial_config.stop_bits = 2;
        s.serial_config.baud_rate = 300;
        s.serial_config.parity = "odd".to_string();
        s.serial_config.flow_control = "hardware".to_string();
        let before = (s.serial_config.baud_rate, s.serial_config.data_bits, s.serial_config.stop_bits, s.serial_config.parity.clone(), s.serial_config.flow_control.clone(), s.local_echo, s.show_timestamp);
        s.cycle_settings_field(false);
        s.cycle_settings_field(true);
        let after = (s.serial_config.baud_rate, s.serial_config.data_bits, s.serial_config.stop_bits, s.serial_config.parity.clone(), s.serial_config.flow_control.clone(), s.local_echo, s.show_timestamp);
        assert_eq!(before, after);
    }
}

#[test]
fn window_contains_scroll_position() {
    for total in 11..40usize {
        for offset in 0..50usize {
            let start = log_window_start(total, 10, offset);
            let shown = offset.min(total - 1);
            assert!(start <= shown && shown < start + 10 && start + 10 <= total);
        }
    }
}

#[test]
fn only_ctrl_c_and_ctrl_q_quit() {
    let codes = [KeyCode::Char('c'), KeyCode::Char('q'), KeyCode::Esc, KeyCode::F(9), KeyCode::Enter];
    for code in codes {
        for ctrl in [false, true] {
            let mut s = AppState::new();
            let k = Key { code, ctrl };
            assert!(s.key_is_safe(k));
            let out = s.handle_key_event(k);
            let expected = ctrl && matches!(code, KeyCode::Char('c') | KeyCode::Char('q'));
            assert_eq!(out.quit, expected);
        }
    }
    let mut s = AppState::new();
    s.handle_key_event(key(KeyCode::F(1)));
    assert!(!s.handle_key_event(Key { code: KeyCode::Char('q'), ctrl: true }).quit);
}

#[test]
fn cleared_log_holds_the_note() {
    let mut s = AppState::new();
    for i in 0..5 {
        s.add_log_line(LogLine::new_system(format!("{}", i)));
    }
    s.handle_key_event(Key { code: KeyCode::Char('l'), ctrl: true });
    assert_eq!(s.log_lines.len(), 1);
    assert_eq!(s.log_lines[0].text, "[Log cleared]");
}

#[test]
fn log_keeps_newest_lines_in_buffer() {
    let mut s = AppState::new();
    s.scroll_buffer_size = 3;
    for i in 0..7 {
        s.add_log_line(LogLine::new_system(format!("{}", i)));
        assert!(s.log_lines.len() <= 3);
        assert_eq!(s.stats.buffer_lines, s.log_lines.len());
        assert_eq!(s.log_lines.last().unwrap().text, format!("{}", i));
    }
    let texts: Vec<String> = s.log_lines.iter().map(|l| l.text.clone()).collect();
    assert_eq!(texts, vec!["4", "5", "6"]);
}

#[test]
fn received_lines_come_back_as_sent() {
    let lines: Vec<Vec<u8>> = vec![b"AT".to_vec(), Vec::new(), b"OK 1".to_vec()];
    for (mode, ending) in [
        (NewlineMode::Lf, &b"\n"[..]),
        (NewlineMode::Cr, &b"\r"[..]),
        (NewlineMode::CrLf, &b"\r\n"[..]),
        (NewlineMode::Auto, &b"\r\n"[..]),
    ] {
        let mut data = Vec::new();
        for l in &lines {
            data.extend_from_slice(l);
            data.extend_from_slice(ending);
        }
        assert_eq!(split_rx_data(&data, &mode), lines);
    }
    let raw = b"a\r\nb".to_vec();
    assert_eq!(split_rx_data(&raw, &NewlineMode::None_), vec![raw.clone()]);
}

#[test]
fn byte_lines_are_slice_split_pieces() {
    let cases: [&[u8]; 6] = [b"", b"\n", b"a", b"a\n", b"\n\na\nbc", b"x\n\ny\n"];
    for data in cases {
        let mut pieces: Vec<Vec<u8>> = data.split(|&b| b == b'\n').map(|p| p.to_vec()).collect();
        if pieces.last().map_or(false, |p| p.is_empty()) {
            pieces.pop();
        }
        assert_eq!(split_by_byte(data, b'\n'), pieces);
    }
}
