use comchat::app::{App, UiMode};
use comchat::selector::PortChoice;
use comchat::config::{AppConfig, PortProfile};
use comchat::input::{handle_key, InputOutcome, Key, UiAction};
use comchat::logging::LogHandles;
use comchat::model::{AppEvent, MessageKind, Parity, StopBits, FlowControl};
use comchat::view::{format_message, selector_lines, status_line, tab_titles};

fn app() -> App {
    App::new(LogHandles::new(Some("cmd.log".into()), Some("resp.log".into())))
}

fn type_str(a: &mut App, s: &str) {
    for c in s.chars() {
        handle_key(a, Key::Char(c), 0);
    }
}

#[test]
fn new_app_has_one_unattached_tab() {
    let a = app();
    assert_eq!(a.tabs.len(), 1);
    assert_eq!(a.tabs[0].title, "No Port");
    assert!(a.tabs[0].port_id.is_none());
    assert_eq!(a.active_tab, 0);
    assert!(!a.echo);
    assert!(matches!(a.mode, UiMode::Normal));
}

#[test]
fn typing_and_backspace() {
    let mut a = app();
    type_str(&mut a, "ATZ");
    handle_key(&mut a, Key::Backspace, 0);
    assert_eq!(a.tabs[0].input, "AT");
    handle_key(&mut a, Key::Backspace, 0);
    handle_key(&mut a, Key::Backspace, 0);
    handle_key(&mut a, Key::Backspace, 0);
    assert_eq!(a.tabs[0].input, "");
}

#[test]
fn submit_without_port_says_so() {
    let mut a = app();
    type_str(&mut a, "status");
    let r = handle_key(&mut a, Key::Enter, 42);
    assert_eq!(r.outcome, InputOutcome::Continue);
    match r.action {
        Some(UiAction::Send(sub)) => {
            assert_eq!(sub.command, "status");
            assert_eq!(sub.port_id, None);
            assert_eq!(sub.bytes, b"status\r\n".to_vec());
            assert_eq!(sub.history_line, "status\n");
            let log = sub.log.expect("command log is on");
            assert_eq!(log.path, "cmd.log");
            assert_eq!(log.text, "status\n");
        }
        _ => panic!("expected a submission"),
    }
    assert_eq!(a.tabs[0].input, "");
    // Echo is off: only the notice is shown.
    assert_eq!(a.tabs[0].messages.len(), 1);
    assert_eq!(a.tabs[0].messages[0].kind, MessageKind::SystemInfo);
    assert_eq!(a.tabs[0].messages[0].text, "No port attached to this tab");
    assert_eq!(a.tabs[0].messages[0].timestamp, 42);
}

#[test]
fn submit_with_echo_and_port() {
    let mut a = app();
    a.attach_port(7, "COM3", 115200, 1);
    assert_eq!(a.tabs[0].title, "COM3");
    assert_eq!(a.tabs[0].messages[0].text, "Opened port COM3 at 115200 baud");
    handle_key(&mut a, Key::CtrlE, 0);
    assert!(a.echo);
    type_str(&mut a, "ver");
    let r = handle_key(&mut a, Key::Enter, 2);
    match r.action {
        Some(UiAction::Send(sub)) => assert_eq!(sub.port_id, Some(7)),
        _ => panic!("expected a submission"),
    }
    let last = a.tabs[0].messages.last().unwrap();
    assert_eq!(last.kind, MessageKind::UserCommand);
    assert_eq!(last.text, "ver");
    assert_eq!(last.port_id, Some(7));
    a.report_send_failure("channel closed", 3);
    let last = a.tabs[0].messages.last().unwrap();
    assert_eq!(last.kind, MessageKind::Error);
    assert_eq!(last.text, "Failed to send command: channel closed");
}

#[test]
fn enter_with_empty_input_does_nothing() {
    let mut a = app();
    let r = handle_key(&mut a, Key::Enter, 0);
    assert!(r.action.is_none());
    assert!(a.tabs[0].messages.is_empty());
}

#[test]
fn up_recalls_sent_command_and_down_clears() {
    let mut a = app();
    type_str(&mut a, "hello");
    handle_key(&mut a, Key::Enter, 0);
    handle_key(&mut a, Key::Up, 0);
    assert_eq!(a.tabs[0].input, "hello");
    handle_key(&mut a, Key::Down, 0);
    assert_eq!(a.tabs[0].input, "");
}

#[test]
fn esc_quits_and_ctrl_p_lists_ports() {
    let mut a = app();
    assert_eq!(handle_key(&mut a, Key::Esc, 0).outcome, InputOutcome::Quit);
    assert!(matches!(handle_key(&mut a, Key::CtrlP, 0).action, Some(UiAction::ListPorts)));
}

#[test]
fn serial_events_reach_the_port_tab() {
    let mut a = app();
    a.attach_port(3, "ttyS0", 9600, 0);
    let log = a.handle_serial_event(AppEvent::SerialData { port_id: 3, data: b"OK\r\n".to_vec() }, 5);
    let log = log.expect("response log is on");
    assert_eq!(log.path, "resp.log");
    assert_eq!(log.text, "OK\r\n\n");
    let last = a.tabs[0].messages.last().unwrap();
    assert_eq!(last.kind, MessageKind::DeviceResponse);
    assert_eq!(last.text, "OK\r\n");
    a.handle_serial_event(AppEvent::SerialError { port_id: 3, error: "read error: x".into() }, 6);
    assert_eq!(a.tabs[0].messages.last().unwrap().kind, MessageKind::Error);
    // Events for a port without a tab are dropped.
    let n = a.tabs[0].messages.len();
    a.handle_serial_event(AppEvent::SerialError { port_id: 99, error: "lost".into() }, 7);
    assert_eq!(a.tabs[0].messages.len(), n);
    a.handle_serial_event(AppEvent::PortClosed { port_id: 3 }, 8);
    assert!(a.tabs[0].port_id.is_none());
    assert_eq!(a.tabs[0].title, "ttyS0 (closed)");
    assert_eq!(a.tabs[0].messages.last().unwrap().text, "Port closed");
}

#[test]
fn empty_data_adds_an_empty_response() {
    let mut a = app();
    a.attach_port(1, "p", 9600, 0);
    let n = a.tabs[0].messages.len();
    a.handle_serial_event(AppEvent::SerialData { port_id: 1, data: Vec::new() }, 4);
    assert_eq!(a.tabs[0].messages.len(), n + 1);
    let last = a.tabs[0].messages.last().unwrap();
    assert_eq!(last.kind, MessageKind::DeviceResponse);
    assert_eq!(last.text, "");
}

#[test]
fn invalid_utf8_is_replaced() {
    let mut a = app();
    a.attach_port(1, "p", 9600, 0);
    a.handle_serial_event(AppEvent::SerialData { port_id: 1, data: vec![b'A', 0xff, b'B'] }, 0);
    assert_eq!(a.tabs[0].messages.last().unwrap().text, "A\u{FFFD}B");
}

#[test]
fn device_echo_is_hidden() {
    let mut a = app();
    a.attach_port(1, "p", 9600, 0);
    type_str(&mut a, "status");
    handle_key(&mut a, Key::Enter, 0);
    let n = a.tabs[0].messages.len();
    a.handle_serial_event(AppEvent::SerialData { port_id: 1, data: b"status\r\n".to_vec() }, 1);
    assert_eq!(a.tabs[0].messages.len(), n);
    a.handle_serial_event(AppEvent::SerialData { port_id: 1, data: b"status\r\nREADY\r\n".to_vec() }, 2);
    assert_eq!(a.tabs[0].messages.last().unwrap().text, "READY\r\n");
    a.handle_serial_event(AppEvent::SerialData { port_id: 1, data: b"other\n".to_vec() }, 3);
    assert_eq!(a.tabs[0].messages.last().unwrap().text, "other\n");
}

#[test]
fn tabs_cycle_both_ways() {
    let mut a = app();
    let t = comchat::app::Tab {
        id: 1,
        title: "second".into(),
        port_id: None,
        messages: Vec::new(),
        input: String::new(),
    };
    a.tabs.push(t);
    assert_eq!(tab_titles(&a), vec!["No Port".to_string(), "second".to_string()]);
    handle_key(&mut a, Key::Tab, 0);
    assert_eq!(a.active_tab, 1);
    handle_key(&mut a, Key::Tab, 0);
    assert_eq!(a.active_tab, 0);
    handle_key(&mut a, Key::BackTab, 0);
    assert_eq!(a.active_tab, 1);
    handle_key(&mut a, Key::BackTab, 0);
    assert_eq!(a.active_tab, 0);
}

#[test]
fn port_selector_flow() {
    let mut a = app();
    let mut cfg = AppConfig::default();
    let mut p = PortProfile::default();
    p.port_name = "COM1".into();
    p.baud_rate = 9600;
    p.parity = Parity::Odd;
    cfg.upsert_profile(p);
    let ports = vec![
        PortChoice { name: "COM1".into(), label: "COM1 (USB)".into() },
        PortChoice { name: "COM2".into(), label: "COM2".into() },
    ];
    a.open_port_selector(ports, &cfg);
    match &a.mode {
        UiMode::PortSelector(st) => {
            assert_eq!(st.baud_rate, 9600);
            assert_eq!(st.parity, Parity::Odd);
            assert_eq!(
                selector_lines(st),
                vec![
                    "> COM1 (USB)".to_string(),
                    "  COM2".to_string(),
                    String::new(),
                    "Baud: 9600 | Parity: Odd | Stop: One | Flow: None".to_string(),
                ]
            );
        }
        UiMode::Normal => panic!("selector expected"),
    }
    handle_key(&mut a, Key::Down, 0);
    handle_key(&mut a, Key::Down, 0);
    handle_key(&mut a, Key::Char('+'), 0);
    handle_key(&mut a, Key::Right, 0);
    handle_key(&mut a, Key::Char('p'), 0);
    handle_key(&mut a, Key::Char('S'), 0);
    handle_key(&mut a, Key::Char('f'), 0);
    handle_key(&mut a, Key::Char('F'), 0);
    let r = handle_key(&mut a, Key::Enter, 0);
    assert!(matches!(a.mode, UiMode::Normal));
    match r.action {
        Some(UiAction::OpenPort(c)) => {
            assert_eq!(c.port_name, "COM2");
            assert_eq!(c.baud_rate, 9600);
            assert_eq!(c.parity, Parity::Even);
            assert_eq!(c.stop_bits, StopBits::Two);
            assert_eq!(c.flow_control, FlowControl::Software);
            assert_eq!(c.data_bits, 8);
        }
        _ => panic!("expected a port to open"),
    }
}

#[test]
fn selector_shows_settings_of_selected_port() {
    let mut a = app();
    let mut cfg = AppConfig::default();
    let mut p = PortProfile::default();
    p.port_name = "B".into();
    p.baud_rate = 57600;
    p.stop_bits = StopBits::Two;
    cfg.upsert_profile(p);
    let ports = vec![
        PortChoice { name: "A".into(), label: "A".into() },
        PortChoice { name: "B".into(), label: "B".into() },
    ];
    a.open_port_selector(ports, &cfg);
    handle_key(&mut a, Key::Char('+'), 0);
    handle_key(&mut a, Key::Down, 0);
    match &a.mode {
        UiMode::PortSelector(st) => {
            assert_eq!(st.selected, 1);
            assert_eq!(st.baud_rate, 57600);
            assert_eq!(st.stop_bits, StopBits::Two);
        }
        UiMode::Normal => panic!("selector expected"),
    }
    handle_key(&mut a, Key::Up, 0);
    match &a.mode {
        UiMode::PortSelector(st) => {
            assert_eq!(st.selected, 0);
            assert_eq!(st.baud_rate, 115200);
            assert_eq!(st.stop_bits, StopBits::One);
        }
        UiMode::Normal => panic!("selector expected"),
    }
}

#[test]
fn selector_escape_cancels() {
    let mut a = app();
    a.open_port_selector(Vec::new(), &AppConfig::default());
    let r = handle_key(&mut a, Key::Esc, 0);
    assert_eq!(r.outcome, InputOutcome::Continue);
    assert!(matches!(a.mode, UiMode::Normal));
    a.open_port_selector(Vec::new(), &AppConfig::default());
    let r = handle_key(&mut a, Key::Enter, 0);
    assert!(r.action.is_none());
}

#[test]
fn status_and_message_lines() {
    let mut a = app();
    assert_eq!(
        status_line(&a),
        "COMChat | Port: No Port | Echo: Off | Esc: quit, Ctrl+E: echo, Ctrl+P: ports, Tab/Shift+Tab: switch tab"
    );
    a.attach_port(1, "COM9", 9600, 0);
    a.toggle_echo();
    assert!(status_line(&a).starts_with("COMChat | Port: COM9 | Echo: On |"));
    let m = &a.tabs[0].messages[0];
    assert_eq!(format_message("12:34:56", m), "[12:34:56] i Opened port COM9 at 9600 baud");
}
