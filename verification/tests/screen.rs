use easy_console::app::{AppState, LogLine};
use easy_console::config::{profiles_path, profiles_path_in};
use easy_console::logger::{LogFormat, cleared_record_text, system_record_text, traffic_record_bytes};
use easy_console::view::{
    Rect, centered_rect, compute_layout, layout_constraint_list, Constraint, format_ascii_line, format_hex_lines, input_prompt,
    log_window_start, search_bar_text, settings_list_rows, split_hex_text, tail_start,
    visible_lines,
};

#[test]
fn layout_without_panels() {
    let l = compute_layout(Rect { x: 0, y: 0, width: 80, height: 24 }, false, false);
    assert_eq!(l.status_bar, Rect { x: 0, y: 0, width: 80, height: 1 });
    assert_eq!(l.log_view, Rect { x: 0, y: 1, width: 80, height: 21 });
    assert_eq!(l.input_bar, Rect { x: 0, y: 22, width: 80, height: 1 });
    assert_eq!(l.hint_bar, Rect { x: 0, y: 23, width: 80, height: 1 });
    assert!(l.stats_panel.is_none() && l.search_bar.is_none());
}

#[test]
fn layout_with_panels() {
    let l = compute_layout(Rect { x: 0, y: 0, width: 80, height: 24 }, true, true);
    assert_eq!(l.log_view.height, 15);
    assert_eq!(l.stats_panel, Some(Rect { x: 0, y: 16, width: 80, height: 5 }));
    assert_eq!(l.search_bar, Some(Rect { x: 0, y: 21, width: 80, height: 1 }));
    assert_eq!(l.hint_bar.y, 23);
}

#[test]
fn popup_area_is_centred() {
    let c = centered_rect(60, 70, Rect { x: 0, y: 0, width: 100, height: 100 });
    assert_eq!(c, Rect { x: 20, y: 15, width: 60, height: 70 });
}

#[test]
fn log_window() {
    assert_eq!(log_window_start(5, 10, 3), 0);
    assert_eq!(log_window_start(100, 10, 2), 0);
    assert_eq!(log_window_start(100, 10, 50), 45);
    assert_eq!(log_window_start(100, 10, 97), 90);
    assert_eq!(log_window_start(100, 10, 1000), 90);
    assert_eq!(tail_start(100, 10), 90);
    assert_eq!(tail_start(3, 10), 0);
}

#[test]
fn visible_lines_follow_filter() {
    let mut s = AppState::new();
    for m in ["a1", "b", "a2"] {
        s.add_log_line(LogLine::new_system(m.to_string()));
    }
    assert_eq!(visible_lines(&s), vec![0, 1, 2]);
    s.search_active = true;
    s.filter_mode = true;
    s.search_state.set_query("a");
    s.update_search();
    assert_eq!(visible_lines(&s), vec![0, 2]);
    assert_eq!(search_bar_text(&s), " Search:  [1/2] [FILTER]");
}

#[test]
fn ascii_and_hex_lines() {
    let l = LogLine::new_rx(b"ok\n".to_vec());
    assert_eq!(format_ascii_line(&l, false), "> ok↵");
    let with_time = format_ascii_line(&l, true);
    assert!(with_time.starts_with('[') && with_time.ends_with("] > ok↵"));
    let empty = LogLine::new_tx(vec![]);
    assert_eq!(format_hex_lines(&empty, false), vec!["TX".to_string()]);
    let rows = format_hex_lines(&l, false);
    assert_eq!(rows, vec![format!("RX  {:<48} {}", "6F 6B 0A", "ok.")]);
    assert_eq!(split_hex_text(&l), "6F 6B 0A");
}

#[test]
fn prompt_and_settings_rows() {
    let mut s = AppState::new();
    assert_eq!(input_prompt(&s), "TX CRLF >");
    s.raw_mode_input = true;
    assert_eq!(input_prompt(&s), "RAW CRLF >");
    let rows = settings_list_rows(&s);
    assert_eq!(rows.len(), 14);
    assert_eq!(rows[0], format!("  {:<20} {}", "Baud Rate", "115200"));
    assert_eq!(rows[5], format!("  {:<20} {}", "DTR", "OFF"));
    assert_eq!(rows[13], format!("  {:<20} {}", "Show Timestamp", "ON"));
}

#[test]
fn profiles_file_location() {
    assert_eq!(profiles_path_in(Some("/home/u".to_string())), "/home/u/.config/easy_console/profiles.toml");
    assert_eq!(profiles_path_in(None), "./easy_console/profiles.toml");
    assert!(profiles_path().ends_with("easy_console/profiles.toml"));
}

#[test]
fn log_file_records() {
    assert_eq!(traffic_record_bytes(LogFormat::Text, "T", "RX", b"hi"), b"[T] RX: hi\n".to_vec());
    assert_eq!(traffic_record_bytes(LogFormat::Hex, "T", "TX", b"hi"), b"[T] TX: 68 69\n".to_vec());
    assert_eq!(traffic_record_bytes(LogFormat::Raw, "T", "TX", b"hi"), b"hi".to_vec());
    assert_eq!(cleared_record_text(LogFormat::Raw, "T"), None);
    assert_eq!(cleared_record_text(LogFormat::Text, "T"), Some("--- [CLEARED at T] ---\n".to_string()));
    assert_eq!(system_record_text(LogFormat::Hex, "T", "m"), Some("[T] SYS: m\n".to_string()));
}

#[test]
fn layout_rows_span_a_small_screen() {
    let area = Rect { x: 3, y: 2, width: 40, height: 7 };
    for (stats, search) in [(false, false), (true, false), (false, true), (true, true)] {
        let l = compute_layout(area, stats, search);
        let mut bars = vec![l.status_bar, l.log_view, l.input_bar, l.hint_bar];
        bars.extend(l.stats_panel);
        bars.extend(l.search_bar);
        for b in bars {
            assert_eq!((b.x, b.width), (3, 40));
            assert!(2 <= b.y && b.y + b.height <= 9);
        }
    }
}

#[test]
fn constraint_list_of_full_screen() {
    assert_eq!(
        layout_constraint_list(true, true),
        vec![
            Constraint::Length(1),
            Constraint::Min(5),
            Constraint::Length(5),
            Constraint::Length(1),
            Constraint::Length(1),
            Constraint::Length(1)
        ]
    );
    assert_eq!(layout_constraint_list(false, false).len(), 4);
}

#[test]
fn popup_lies_within_its_area() {
    for (px, py) in [(0u16, 0u16), (50, 50), (60, 70), (100, 100)] {
        let r = Rect { x: 5, y: 4, width: 33, height: 17 };
        let c = centered_rect(px, py, r);
        assert!(r.x <= c.x && c.x + c.width <= r.x + r.width);
        assert!(r.y <= c.y && c.y + c.height <= r.y + r.height);
    }
}
